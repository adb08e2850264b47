//! The `/setworldspawn` command: its syntax tree, and the checks it makes
//! before it moves the world spawn.

use vstd::prelude::*;

verus! {

/// The kinds of argument a command node reads.
#[derive(Clone, Copy, Debug, PartialEq, Eq)]
pub enum ArgumentKind {
    /// A block position.
    BlockPos,
    /// A yaw and a pitch.
    Rotation,
}

/// What runs when a command ends at a node.
#[derive(Clone, Copy, Debug, PartialEq, Eq)]
pub enum ExecutorKind {
    /// `/setworldspawn` alone: the spawn moves to the player.
    NoArgsWorldSpawn,
    /// `/setworldspawn <position>`.
    DefaultWorldSpawn,
    /// `/setworldspawn <position> <angle>`.
    AngleWorldSpawn,
}

/// An argument node of a command tree.
pub struct ArgumentNode {
    pub name: &'static str,
    pub kind: ArgumentKind,
    pub executor: Option<ExecutorKind>,
    pub children: Vec<ArgumentNode>,
}

/// A command: its names, its description, what runs when it is given
/// alone, and the arguments that may follow.
pub struct CommandTree {
    pub names: Vec<&'static str>,
    pub description: &'static str,
    pub executor: Option<ExecutorKind>,
    pub children: Vec<ArgumentNode>,
}

/// An argument node named `name` reading `kind`, with nothing below it.
pub fn argument(name: &'static str, kind: ArgumentKind) -> (r: ArgumentNode)
    ensures
        r.name@ == name@,
        r.kind == kind,
        r.executor is None,
        r.children@.len() == 0,
{
    ArgumentNode { name, kind, executor: None, children: Vec::new() }
}

impl ArgumentNode {
    /// The node, running `executor` when the command ends here.
    pub fn execute(self, executor: ExecutorKind) -> (r: ArgumentNode)
        ensures
            r.name@ == self.name@,
            r.kind == self.kind,
            r.executor == Some(executor),
            r.children@ == self.children@,
    {
        ArgumentNode { executor: Some(executor), ..self }
    }

    /// The node with `child` added after its other children.
    pub fn with_child(self, child: ArgumentNode) -> (r: ArgumentNode)
        ensures
            r.name@ == self.name@,
            r.kind == self.kind,
            r.executor == self.executor,
            r.children@ == self.children@.push(child),
    {
        let mut children = self.children;
        children.push(child);
        ArgumentNode { name: self.name, kind: self.kind, executor: self.executor, children }
    }
}

impl CommandTree {
    /// A command with the given names and description, and nothing more.
    pub fn new(names: Vec<&'static str>, description: &'static str) -> (r: CommandTree)
        ensures
            r.names@ == names@,
            r.description@ == description@,
            r.executor is None,
            r.children@.len() == 0,
    {
        CommandTree { names, description, executor: None, children: Vec::new() }
    }

    /// The command, running `executor` when it is given alone.
    pub fn execute(self, executor: ExecutorKind) -> (r: CommandTree)
        ensures
            r.names@ == self.names@,
            r.description@ == self.description@,
            r.executor == Some(executor),
            r.children@ == self.children@,
    {
        CommandTree { executor: Some(executor), ..self }
    }

    /// The command with `child` added after its other arguments.
    pub fn with_child(self, child: ArgumentNode) -> (r: CommandTree)
        ensures
            r.names@ == self.names@,
            r.description@ == self.description@,
            r.executor == self.executor,
            r.children@ == self.children@.push(child),
    {
        let mut children = self.children;
        children.push(child);
        CommandTree { names: self.names, description: self.description, executor: self.executor, children }
    }
}

/// The tree of `/setworldspawn`: alone it sets the spawn at the player;
/// with a position there; with a position and an angle there, facing that
/// way.
pub fn init_command_tree() -> (r: CommandTree)
    ensures
        r.names@.len() == 1,
        r.names@[0]@ == "setworldspawn"@,
        r.description@ == "Sets the world spawn point."@,
        r.executor == Some(ExecutorKind::NoArgsWorldSpawn),
        r.children@.len() == 1,
        r.children@[0].name@ == "position"@,
        r.children@[0].kind == ArgumentKind::BlockPos,
        r.children@[0].executor == Some(ExecutorKind::DefaultWorldSpawn),
        r.children@[0].children@.len() == 1,
        r.children@[0].children@[0].name@ == "angle"@,
        r.children@[0].children@[0].kind == ArgumentKind::Rotation,
        r.children@[0].children@[0].executor == Some(ExecutorKind::AngleWorldSpawn),
        r.children@[0].children@[0].children@.len() == 0,
{
    let mut names: Vec<&'static str> = Vec::new();
    names.push("setworldspawn");
    CommandTree::new(names, "Sets the world spawn point.").execute(ExecutorKind::NoArgsWorldSpawn).with_child(
        argument("position", ArgumentKind::BlockPos).execute(ExecutorKind::DefaultWorldSpawn).with_child(
            argument("angle", ArgumentKind::Rotation).execute(ExecutorKind::AngleWorldSpawn),
        ),
    )
}

/// The dimensions of a world.
#[derive(Clone, Copy, Debug, PartialEq, Eq)]
pub enum Dimension {
    Overworld,
    OverworldCaves,
    TheNether,
    TheEnd,
}

/// Who ran a command.
#[derive(Clone, Copy, Debug, PartialEq, Eq)]
pub enum SenderKind {
    Player,
    Console,
    Other,
}

/// Why `/setworldspawn` failed.
#[derive(Clone, Copy, Debug, PartialEq, Eq)]
pub enum SpawnFailure {
    /// Run from the console without a position.
    NoPosition,
    /// Run by something that is neither a player nor the console, without
    /// a position.
    NotAPlayer,
    /// The sender is in no world.
    NoWorld,
    /// The world is not an overworld.
    NotOverworld,
}

/// A block position.
#[derive(Clone, Copy, Debug, PartialEq, Eq)]
pub struct BlockPos {
    pub x: i32,
    pub y: i32,
    pub z: i32,
}

impl SpawnFailure {
    /// The text sent back: a message, or for a world that is not an
    /// overworld the translation key of the message.
    pub fn message(&self) -> (r: &'static str)
        ensures
            *self == SpawnFailure::NoPosition ==> r@ == "You must specify a Position!"@,
            *self == SpawnFailure::NotAPlayer ==> r@ == "Failed to get Sender as Player!"@,
            *self == SpawnFailure::NoWorld ==> r@ == "Failed to get world."@,
            *self == SpawnFailure::NotOverworld ==> r@ == "commands.setworldspawn.failure.not_overworld"@,
    {
        match self {
            SpawnFailure::NoPosition => "You must specify a Position!",
            SpawnFailure::NotAPlayer => "Failed to get Sender as Player!",
            SpawnFailure::NoWorld => "Failed to get world.",
            SpawnFailure::NotOverworld => "commands.setworldspawn.failure.not_overworld",
        }
    }
}

/// Where `/setworldspawn` without a position puts the spawn: at the block
/// the player stands in; from the console or another sender it fails.
pub fn no_args_position(sender: SenderKind, player_block: BlockPos) -> (r: Result<BlockPos, SpawnFailure>)
    ensures
        sender == SenderKind::Player ==> r == Ok::<BlockPos, SpawnFailure>(player_block),
        sender == SenderKind::Console ==> r == Err::<BlockPos, SpawnFailure>(SpawnFailure::NoPosition),
        sender == SenderKind::Other ==> r == Err::<BlockPos, SpawnFailure>(SpawnFailure::NotAPlayer),
{
    match sender {
        SenderKind::Player => Ok(player_block),
        SenderKind::Console => Err(SpawnFailure::NoPosition),
        SenderKind::Other => Err(SpawnFailure::NotAPlayer),
    }
}

/// Whether the spawn may move in the sender's world: it needs a world, and
/// one that is an overworld.
pub fn check_spawn_world(world: Option<Dimension>) -> (r: Result<(), SpawnFailure>)
    ensures
        world is None ==> r == Err::<(), SpawnFailure>(SpawnFailure::NoWorld),
        world == Some(Dimension::Overworld) || world == Some(Dimension::OverworldCaves) ==> r is Ok,
        world == Some(Dimension::TheNether) || world == Some(Dimension::TheEnd) ==> r == Err::<
            (),
            SpawnFailure,
        >(SpawnFailure::NotOverworld),
{
    match world {
        None => Err(SpawnFailure::NoWorld),
        Some(Dimension::Overworld) | Some(Dimension::OverworldCaves) => Ok(()),
        Some(_) => Err(SpawnFailure::NotOverworld),
    }
}

} // verus!
