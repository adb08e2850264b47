//! Buckets: what an empty bucket scoops up and what a full bucket pours
//! out, at the block a player aims at or the one beside it.

use vstd::prelude::*;

use crate::block_props::{props_view, set_waterlogged, spec_waterlogged, waterlogged_check, with_waterlogged, Props};

verus! {

/// What the bucket rules read of a block.
#[derive(Clone, Copy, Debug, PartialEq, Eq)]
pub enum BucketBlock {
    Air,
    WaterSource,
    LavaSource,
    /// Water or lava that is not a source.
    FlowingLiquid,
    Other,
}

/// What a bucket holds.
#[derive(Clone, Copy, Debug, PartialEq, Eq)]
pub enum BucketKind {
    Water,
    Lava,
    /// Any other filled bucket (powder snow, fish).
    Other,
}

/// Which block a bucket acts on.
#[derive(Clone, Copy, Debug, PartialEq, Eq)]
pub enum Target {
    /// The block the player aims at.
    Clicked,
    /// The block on the aimed face.
    Adjacent,
}

/// What an empty bucket does.
#[derive(Clone, Debug, PartialEq, Eq)]
pub enum EmptyBucketPlan {
    /// Nothing to scoop.
    Nothing,
    /// The source block is taken (the block becomes air) into a bucket of
    /// this kind.
    TakeSource { target: Target, filled: BucketKind },
    /// The water is taken out of a waterlogged block, which gets these
    /// properties, and a water tick is scheduled in 5 ticks.
    Unwaterlog { target: Target, props: Props },
}

/// What a full bucket does.
#[derive(Clone, Debug, PartialEq, Eq)]
pub enum FillPlan {
    /// Nothing is poured.
    Nothing,
    /// Water poured in the Nether evaporates with a hiss.
    Evaporate,
    /// The block becomes waterlogged with these properties, and a water
    /// tick is scheduled in 5 ticks.
    Waterlog { target: Target, props: Props },
    /// A source block of the bucket's liquid is placed on the aimed face.
    PlaceSource { kind: BucketKind },
}

/// The empty bucket.
pub struct EmptyBucketItem;

/// A filled bucket.
pub struct FilledBucketItem;

impl EmptyBucketItem {
    /// Using an empty bucket on the aimed block: water is taken from a
    /// waterlogged block; a source block is taken whole; else water is taken
    /// from a waterlogged block on the aimed face; else nothing.
    pub fn normal_use(
        &self,
        clicked: BucketBlock,
        clicked_props: &Props,
        adjacent_props: &Props,
    ) -> (r: EmptyBucketPlan)
        ensures
            spec_waterlogged(props_view(clicked_props@)) == Some(true) ==> (r matches EmptyBucketPlan::Unwaterlog {
                target: Target::Clicked,
                props,
            } && props_view(props@) == with_waterlogged(props_view(clicked_props@), false)),
            spec_waterlogged(props_view(clicked_props@)) != Some(true) && (clicked == BucketBlock::WaterSource
                || clicked == BucketBlock::LavaSource) ==> r == (EmptyBucketPlan::TakeSource {
                target: Target::Clicked,
                filled: if clicked == BucketBlock::LavaSource { BucketKind::Lava } else { BucketKind::Water },
            }),
            spec_waterlogged(props_view(clicked_props@)) != Some(true) && clicked != BucketBlock::WaterSource
                && clicked != BucketBlock::LavaSource && spec_waterlogged(props_view(adjacent_props@)) == Some(
                true,
            ) ==> (r matches EmptyBucketPlan::Unwaterlog { target: Target::Adjacent, props } && props_view(props@)
                == with_waterlogged(props_view(adjacent_props@), false)),
            spec_waterlogged(props_view(clicked_props@)) != Some(true) && clicked != BucketBlock::WaterSource
                && clicked != BucketBlock::LavaSource && spec_waterlogged(props_view(adjacent_props@)) != Some(
                true,
            ) ==> r == EmptyBucketPlan::Nothing,
    {
        if waterlogged_check(clicked_props) == Some(true) {
            return EmptyBucketPlan::Unwaterlog { target: Target::Clicked, props: set_waterlogged(clicked_props, false) };
        }
        match clicked {
            BucketBlock::WaterSource => {
                return EmptyBucketPlan::TakeSource { target: Target::Clicked, filled: BucketKind::Water };
            },
            BucketBlock::LavaSource => {
                return EmptyBucketPlan::TakeSource { target: Target::Clicked, filled: BucketKind::Lava };
            },
            _ => {},
        }
        if waterlogged_check(adjacent_props) == Some(true) {
            return EmptyBucketPlan::Unwaterlog { target: Target::Adjacent, props: set_waterlogged(adjacent_props, false) };
        }
        EmptyBucketPlan::Nothing
    }
}

impl FilledBucketItem {
    /// Pouring a full bucket at the aimed block: anything but lava
    /// evaporates in the Nether; water waterlogs a block that can be; else
    /// at the block on the aimed face, water waterlogs a block that can be
    /// (lava is not poured there), and a source goes into air or liquid;
    /// else nothing.
    pub fn normal_use(
        &self,
        kind: BucketKind,
        in_nether: bool,
        clicked_props: &Props,
        adjacent: BucketBlock,
        adjacent_props: &Props,
    ) -> (r: FillPlan)
        ensures
            kind != BucketKind::Lava && in_nether ==> r == FillPlan::Evaporate,
            !(kind != BucketKind::Lava && in_nether) && spec_waterlogged(props_view(clicked_props@)) is Some
                && kind == BucketKind::Water ==> (r matches FillPlan::Waterlog { target: Target::Clicked, props }
                && props_view(props@) == with_waterlogged(props_view(clicked_props@), true)),
            !(kind != BucketKind::Lava && in_nether) && !(spec_waterlogged(props_view(clicked_props@)) is Some
                && kind == BucketKind::Water) && spec_waterlogged(props_view(adjacent_props@)) is Some ==> (if kind
                == BucketKind::Lava {
                r == FillPlan::Nothing
            } else {
                r matches FillPlan::Waterlog { target: Target::Adjacent, props } && props_view(props@)
                    == with_waterlogged(props_view(adjacent_props@), true)
            }),
            !(kind != BucketKind::Lava && in_nether) && !(spec_waterlogged(props_view(clicked_props@)) is Some
                && kind == BucketKind::Water) && spec_waterlogged(props_view(adjacent_props@)) is None ==> r == (
            if adjacent == BucketBlock::Air || adjacent == BucketBlock::WaterSource || adjacent
                == BucketBlock::LavaSource || adjacent == BucketBlock::FlowingLiquid {
                FillPlan::PlaceSource { kind }
            } else {
                FillPlan::Nothing
            }),
    {
        let is_lava = match kind {
            BucketKind::Lava => true,
            _ => false,
        };
        let is_water = match kind {
            BucketKind::Water => true,
            _ => false,
        };
        if !is_lava && in_nether {
            return FillPlan::Evaporate;
        }
        if waterlogged_check(clicked_props).is_some() && is_water {
            return FillPlan::Waterlog { target: Target::Clicked, props: set_waterlogged(clicked_props, true) };
        }
        if waterlogged_check(adjacent_props).is_some() {
            if is_lava {
                return FillPlan::Nothing;
            }
            return FillPlan::Waterlog { target: Target::Adjacent, props: set_waterlogged(adjacent_props, true) };
        }
        match adjacent {
            BucketBlock::Air | BucketBlock::WaterSource | BucketBlock::LavaSource | BucketBlock::FlowingLiquid => {
                FillPlan::PlaceSource { kind }
            },
            BucketBlock::Other => FillPlan::Nothing,
        }
    }
}

} // verus!
