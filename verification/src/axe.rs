//! The axe: stripping logs and wood, scraping oxidation off copper and
//! scraping the wax off waxed copper.

use vstd::prelude::*;

verus! {

/// The wood species that have logs and wood to strip.
#[derive(Clone, Copy, Debug, PartialEq, Eq)]
pub enum WoodSpecies {
    Oak,
    Spruce,
    Birch,
    Jungle,
    Acacia,
    DarkOak,
    Mangrove,
    Cherry,
    PaleOak,
}

/// The copper blocks that oxidize.
#[derive(Clone, Copy, Debug, PartialEq, Eq)]
pub enum CopperShape {
    Block,
    Chiseled,
    Grate,
    Cut,
    CutStairs,
    CutSlab,
    Bulb,
    Door,
    Trapdoor,
}

/// How far copper has oxidized.
#[derive(Clone, Copy, Debug, PartialEq, Eq)]
pub enum Oxidation {
    Unaffected,
    Exposed,
    Weathered,
    Oxidized,
}

/// A block, as far as the axe tells blocks apart.
#[derive(Clone, Copy, Debug, PartialEq, Eq)]
pub enum AxeBlock {
    Log { species: WoodSpecies, stripped: bool },
    Wood { species: WoodSpecies, stripped: bool },
    Copper { shape: CopperShape, oxidation: Oxidation, waxed: bool },
    Other,
}

/// What the new block keeps of the old block's state.
#[derive(Clone, Copy, Debug, PartialEq, Eq)]
pub enum StateTransfer {
    /// A log or wood keeps its axis.
    Axis,
    /// A door keeps its facing, half, hinge, and whether it is open and powered.
    Door,
    /// The new block takes its default state.
    Default,
}

/// What using an axe on a block does.
#[derive(Clone, Copy, Debug, PartialEq, Eq)]
pub struct AxeUse {
    pub new_block: AxeBlock,
    pub transfer: StateTransfer,
    /// The axe loses one durability (not in creative mode).
    pub damage_item: bool,
}

/// One step less oxidized.
pub open spec fn less_oxidized(o: Oxidation) -> Option<Oxidation> {
    match o {
        Oxidation::Oxidized => Some(Oxidation::Weathered),
        Oxidation::Weathered => Some(Oxidation::Exposed),
        Oxidation::Exposed => Some(Oxidation::Unaffected),
        Oxidation::Unaffected => None,
    }
}

/// The stripped block: an unstripped log or wood of the same species.
pub open spec fn stripped(b: AxeBlock) -> Option<AxeBlock> {
    match b {
        AxeBlock::Log { species, stripped: false } => Some(AxeBlock::Log { species, stripped: true }),
        AxeBlock::Wood { species, stripped: false } => Some(AxeBlock::Wood { species, stripped: true }),
        _ => None,
    }
}

/// The block one step less oxidized: unwaxed copper that has oxidized.
pub open spec fn deoxidized(b: AxeBlock) -> Option<AxeBlock> {
    match b {
        AxeBlock::Copper { shape, oxidation, waxed: false } => match less_oxidized(oxidation) {
            Some(o) => Some(AxeBlock::Copper { shape, oxidation: o, waxed: false }),
            None => None,
        },
        _ => None,
    }
}

/// The block without its wax: waxed copper of any oxidation.
pub open spec fn unwaxed(b: AxeBlock) -> Option<AxeBlock> {
    match b {
        AxeBlock::Copper { shape, oxidation, waxed: true } => Some(
            AxeBlock::Copper { shape, oxidation, waxed: false },
        ),
        _ => None,
    }
}

/// What an axe turns a block into: stripped if it can be, else less
/// oxidized if it can be, else unwaxed if it can be.
pub open spec fn axe_result(b: AxeBlock) -> Option<AxeBlock> {
    if stripped(b) is Some {
        stripped(b)
    } else if deoxidized(b) is Some {
        deoxidized(b)
    } else {
        unwaxed(b)
    }
}

/// How many more times an axe can change a block.
pub open spec fn axe_uses_left(b: AxeBlock) -> nat {
    match b {
        AxeBlock::Log { stripped, .. } => if stripped { 0 } else { 1 },
        AxeBlock::Wood { stripped, .. } => if stripped { 0 } else { 1 },
        AxeBlock::Copper { oxidation, waxed, .. } => (if waxed { 1nat } else { 0nat }) + match oxidation {
            Oxidation::Unaffected => 0nat,
            Oxidation::Exposed => 1nat,
            Oxidation::Weathered => 2nat,
            Oxidation::Oxidized => 3nat,
        },
        AxeBlock::Other => 0,
    }
}

/// One step less oxidized.
fn step_back(o: Oxidation) -> (r: Option<Oxidation>)
    ensures
        r == less_oxidized(o),
{
    match o {
        Oxidation::Oxidized => Some(Oxidation::Weathered),
        Oxidation::Weathered => Some(Oxidation::Exposed),
        Oxidation::Exposed => Some(Oxidation::Unaffected),
        Oxidation::Unaffected => None,
    }
}

/// The stripped form of an unstripped log or wood.
pub fn get_stripped_equivalent(block: &AxeBlock) -> (r: Option<AxeBlock>)
    ensures
        r == stripped(*block),
{
    match *block {
        AxeBlock::Log { species, stripped: false } => Some(AxeBlock::Log { species, stripped: true }),
        AxeBlock::Wood { species, stripped: false } => Some(AxeBlock::Wood { species, stripped: true }),
        _ => None,
    }
}

/// Unwaxed copper one step less oxidized.
pub fn get_deoxidized_equivalent(block: &AxeBlock) -> (r: Option<AxeBlock>)
    ensures
        r == deoxidized(*block),
{
    match *block {
        AxeBlock::Copper { shape, oxidation, waxed: false } => match step_back(oxidation) {
            Some(o) => Some(AxeBlock::Copper { shape, oxidation: o, waxed: false }),
            None => None,
        },
        _ => None,
    }
}

/// Waxed copper without its wax.
pub fn get_unwaxed_equivalent(block: &AxeBlock) -> (r: Option<AxeBlock>)
    ensures
        r == unwaxed(*block),
{
    match *block {
        AxeBlock::Copper { shape, oxidation, waxed: true } => Some(
            AxeBlock::Copper { shape, oxidation, waxed: false },
        ),
        _ => None,
    }
}

/// What an axe turns a block into: stripped, else less oxidized, else
/// unwaxed; nothing where none applies.
pub fn try_use_axe(block: &AxeBlock) -> (r: Option<AxeBlock>)
    ensures
        r == axe_result(*block),
{
    let s = get_stripped_equivalent(block);
    if s.is_some() {
        return s;
    }
    let d = get_deoxidized_equivalent(block);
    if d.is_some() {
        return d;
    }
    get_unwaxed_equivalent(block)
}

/// The axe item.
pub struct AxeItem;

impl AxeItem {
    /// Using an axe on a block: where the axe changes the block, the new
    /// block, what it keeps of the old state (logs and wood their axis,
    /// doors their door state), and whether the axe wears (outside
    /// creative mode); nothing where the axe changes nothing.
    pub fn use_on_block(&self, block: &AxeBlock, creative: bool) -> (r: Option<AxeUse>)
        ensures
            match axe_result(*block) {
                Some(nb) => r == Some(
                    AxeUse {
                        new_block: nb,
                        transfer: match *block {
                            AxeBlock::Log { .. } | AxeBlock::Wood { .. } => StateTransfer::Axis,
                            AxeBlock::Copper { shape: CopperShape::Door, .. } => StateTransfer::Door,
                            _ => StateTransfer::Default,
                        },
                        damage_item: !creative,
                    },
                ),
                None => r is None,
            },
    {
        match try_use_axe(block) {
            Some(nb) => {
                let transfer = match *block {
                    AxeBlock::Log { .. } | AxeBlock::Wood { .. } => StateTransfer::Axis,
                    AxeBlock::Copper { shape: CopperShape::Door, .. } => StateTransfer::Door,
                    _ => StateTransfer::Default,
                };
                Some(AxeUse { new_block: nb, transfer, damage_item: !creative })
            },
            None => None,
        }
    }
}

/// Every use of an axe leaves fewer uses: no block can be changed by an
/// axe forever, and at most four uses bring any block to rest.
pub proof fn lemma_axe_makes_progress(b: AxeBlock)
    ensures
        axe_result(b) is Some ==> axe_uses_left(axe_result(b)->0) < axe_uses_left(b),
        axe_result(b) is None <==> axe_uses_left(b) == 0,
        axe_uses_left(b) <= 4,
{
}

/// An axe on waxed copper only takes the wax off: the shape and the
/// oxidation stay.
pub proof fn lemma_axe_unwaxes_first(shape: CopperShape, oxidation: Oxidation)
    ensures
        axe_result(AxeBlock::Copper { shape, oxidation, waxed: true }) == Some(
            AxeBlock::Copper { shape, oxidation, waxed: false },
        ),
{
}

/// An axe on unwaxed, oxidized copper takes exactly one step of
/// oxidation off and keeps the shape.
pub proof fn lemma_axe_deoxidizes_one_step(shape: CopperShape, oxidation: Oxidation)
    requires
        oxidation != Oxidation::Unaffected,
    ensures
        axe_result(AxeBlock::Copper { shape, oxidation, waxed: false }) == Some(
            AxeBlock::Copper { shape, oxidation: less_oxidized(oxidation)->0, waxed: false },
        ),
{
}

/// Stripping keeps the kind of block (log or wood) and its species and
/// only sets the stripped flag: an unstripped log or wood can always be
/// stripped, and nothing else can.
pub proof fn lemma_stripping_keeps_kind(b: AxeBlock)
    ensures
        match stripped(b) {
            Some(c) => match (b, c) {
                (AxeBlock::Log { species: s1, stripped: f1 }, AxeBlock::Log { species: s2, stripped: f2 }) => s1
                    == s2 && !f1 && f2,
                (AxeBlock::Wood { species: s1, stripped: f1 }, AxeBlock::Wood { species: s2, stripped: f2 }) => s1
                    == s2 && !f1 && f2,
                _ => false,
            },
            None => match b {
                AxeBlock::Log { stripped: f, .. } => f,
                AxeBlock::Wood { stripped: f, .. } => f,
                _ => true,
            },
        },
{
}

/// An axe takes exactly one step: one use less is left after it, a log or
/// wood stays a log or wood of its species, and copper keeps its shape.
pub proof fn lemma_axe_takes_one_step(b: AxeBlock)
    ensures
        axe_result(b) matches Some(c) ==> axe_uses_left(c) + 1 == axe_uses_left(b),
        axe_result(b) matches Some(c) ==> match (b, c) {
            (AxeBlock::Copper { shape: s1, .. }, AxeBlock::Copper { shape: s2, .. }) => s1 == s2,
            (AxeBlock::Log { species: s1, .. }, AxeBlock::Log { species: s2, .. }) => s1 == s2,
            (AxeBlock::Wood { species: s1, .. }, AxeBlock::Wood { species: s2, .. }) => s1 == s2,
            _ => false,
        },
{
}

} // verus!
