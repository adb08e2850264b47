# pumpkin

Game-server logic of a Minecraft server, written in Verus: each function
states what it does in `requires` / `ensures` over a mathematical model,
and Verus proves the code against it.

## Layout

- `src/` — the verified library.
  - Wire formats: `varint`, `wire`, `protocol`, `packets`, `edit_book`.
  - Item data: `data_component` (the component values), `component_hash`
    and `item_hash` (the CRC-32C hashes the client checks), `nbt` and
    `component_nbt` (components stored as named binary tags, with laws
    that reading what was written gives it back), `components`,
    `item_components`.
  - Blocks: `fire`, `lava`, `crop`, `bamboo`, `dropper`, `block_props`,
    `axe`, `magma`.
  - Entities and players: `entity_state`, `entity_rules`, `item_entity`,
    `boat`, `respawn`, `player_tick`, `player_rules`, `chunk_manager`,
    `message_cache`, `setworldspawn`.
  - `chance` and `text`: random draws and string helpers.
- `tests/` — tests that run the library on concrete values.
- `app/` — the code around the library that Verus does not check: serde
  records, encrypted streams, floating-point collision boxes, the item
  code generator, and drivers that apply what the library decides to a
  world (fire and dropper ticks, riders, item ticks, hits, freezing,
  player ticks, keep-alives, respawns).

Where a rule depends on the world (what block stands somewhere, whether a
container takes an item, whether a plugin cancels an event), the library
function takes the answer as an argument, and the caller asks the world.
The fire tick takes the plugins' answers for the places fire would spread
to: `fire_questions` and `next_fire_question` say which try to ask about
next, given the answers so far, so that the driver asks exactly where the
tick would change a block, in order. The dropper tick takes the
container's answer and the dispense event's, and the game-mode change the
change event's; the drivers in `app/` ask for them.
