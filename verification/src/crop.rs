//! Crops: how much moisture the farmland around a crop gives it, and the
//! chance that a random tick grows it.

use vstd::prelude::*;

use crate::chance::random_below;

verus! {

/// What the moisture rule reads of a block under or beside a crop.
#[derive(Clone, Copy, Debug, PartialEq, Eq)]
pub struct SoilCell {
    pub is_farmland: bool,
    /// The farmland's moisture is above 0.
    pub moist: bool,
}

/// The crops of the same kind on the eight places around a crop.
#[derive(Clone, Copy, Debug, PartialEq, Eq)]
pub struct SameCropAround {
    pub west: bool,
    pub east: bool,
    pub north: bool,
    pub south: bool,
    pub north_west: bool,
    pub north_east: bool,
    pub south_east: bool,
    pub south_west: bool,
}

/// What one soil block gives, in quarters of the centre's share: dry
/// farmland 1, moist farmland 3, anything else 0.
pub open spec fn soil_value(c: SoilCell) -> int {
    if !c.is_farmland {
        0
    } else if c.moist {
        3
    } else {
        1
    }
}

/// The soil under the crop and around it, x and z from -1 to 1 with x
/// slowest; the one under the crop (index 4) counts four times.
pub open spec fn soil_quarters(soil: Seq<SoilCell>) -> int
    decreases soil.len(),
{
    if soil.len() == 0 {
        0
    } else {
        soil_quarters(soil.drop_last()) + (if soil.len() - 1 == 4 { 4int } else { 1int }) * soil_value(
            soil.last(),
        )
    }
}

/// Crops of the same kind crowd this one: on both axes, or on a diagonal.
pub open spec fn crowded(a: SameCropAround) -> bool {
    ((a.west || a.east) && (a.north || a.south)) || a.north_west || a.north_east || a.south_east
        || a.south_west
}

/// The moisture a crop gets, in eighths: 1 and the soil's share (the
/// block under it in full, the eight around it a quarter each), halved
/// when crowded.
pub open spec fn moisture_eighths(soil: Seq<SoilCell>, around: SameCropAround) -> int {
    let quarters = 4 + soil_quarters(soil);
    if crowded(around) { quarters } else { 2 * quarters }
}

/// The upper end of the growth draw: 25 divided by the moisture, rounded
/// down (200 over the moisture in eighths).
pub open spec fn growth_odds(eighths: int) -> int {
    200int / eighths
}

/// The moisture a crop gets, in eighths, from the soil below it and around
/// it (x and z from -1 to 1, x slowest) and the crops of its kind around it.
pub fn get_available_moisture(soil: &Vec<SoilCell>, around: SameCropAround) -> (r: u32)
    requires
        soil@.len() == 9,
    ensures
        r == moisture_eighths(soil@, around),
        4 <= r <= 80,
{
    let mut quarters: u32 = 4;
    let mut i: usize = 0;
    while i < 9
        invariant
            i <= 9,
            soil@.len() == 9,
            quarters == 4 + soil_quarters(soil@.subrange(0, i as int)),
            4 <= quarters <= 4 + 3 * i + (if i > 4 { 9int } else { 0int }),
        decreases 9 - i,
    {
        let c = soil[i];
        let local: u32 = if !c.is_farmland {
            0
        } else if c.moist {
            3
        } else {
            1
        };
        let weight: u32 = if i == 4 { 4 } else { 1 };
        quarters = quarters + weight * local;
        i += 1;
        assert(soil@.subrange(0, i as int).drop_last() =~= soil@.subrange(0, (i - 1) as int));
    }
    assert(soil@.subrange(0, 9) =~= soil@);
    let horizontal = around.west || around.east;
    let vertical = around.north || around.south;
    if (horizontal && vertical) || around.north_west || around.north_east || around.south_east
        || around.south_west {
        quarters
    } else {
        2 * quarters
    }
}

/// A crop of the given age, with moisture in eighths and a draw from 0 to
/// 25 over the moisture: below age 7 it grows one step when the draw is 0.
pub fn crop_growth(age: i32, moisture: u32, roll: u32) -> (r: Option<i32>)
    requires
        0 <= age <= 7,
    ensures
        r == (if age < 7 && roll == 0 { Some((age + 1) as i32) } else { None::<i32> }),
{
    if age < 7 && roll == 0 {
        Some(age + 1)
    } else {
        None
    }
}

/// The age a crop grows to for a draw: one step up, below age 7, on a draw of 0.
pub open spec fn grown(age: i32, roll: u32) -> Option<i32> {
    if age < 7 && roll == 0 {
        Some((age + 1) as i32)
    } else {
        None
    }
}

/// A random tick of a crop of the given age with moisture in eighths: it
/// grows one step, below age 7, when a draw from 0 to 25 over the moisture
/// (200 over the eighths, rounded down, inclusive) is 0.
pub fn crop_random_tick(age: i32, moisture: u32) -> (r: Option<i32>)
    requires
        0 <= age <= 7,
        moisture >= 1,
    ensures
        r is Some ==> age < 7 && r == Some((age + 1) as i32),
        age == 7 ==> r is None,
        exists|roll: u32| roll <= 200u32 / moisture && r == #[trigger] grown(age, roll),
{
    if age >= 7 {
        assert(grown(age, 0) is None);
        return None;
    }
    let roll = random_below(200 / moisture + 1);
    let r = crop_growth(age, moisture, roll);
    assert(r == grown(age, roll));
    r
}

/// No crops of the same kind around.
pub open spec fn alone() -> SameCropAround {
    SameCropAround {
        west: false,
        east: false,
        north: false,
        south: false,
        north_west: false,
        north_east: false,
        south_east: false,
        south_west: false,
    }
}

/// A crop alone gets twice 1 plus the soil's share; crops in a single row
/// (same crops along one axis only, none on a diagonal) do not crowd each
/// other and get as much; a same crop on a diagonal, or on both axes,
/// halves it.
pub proof fn lemma_crowding_halves_moisture(soil: Seq<SoilCell>, around: SameCropAround)
    ensures
        moisture_eighths(soil, alone()) == 2 * (4 + soil_quarters(soil)),
        !around.north_west && !around.north_east && !around.south_east && !around.south_west && (!(
        around.west || around.east) || !(around.north || around.south)) ==> moisture_eighths(soil, around)
            == moisture_eighths(soil, alone()),
        (around.north_west || around.north_east || around.south_east || around.south_west || ((around.west
            || around.east) && (around.north || around.south))) ==> 2 * moisture_eighths(soil, around)
            == moisture_eighths(soil, alone()),
{
}

/// The soil's share, block by block.
proof fn lemma_soil_sum(s: Seq<SoilCell>)
    requires
        s.len() == 9,
    ensures
        soil_quarters(s) == soil_value(s[0]) + soil_value(s[1]) + soil_value(s[2]) + soil_value(s[3]) + 4 * soil_value(s[4]) + soil_value(s[5]) + soil_value(s[6]) + soil_value(s[7]) + soil_value(s[8]),
{
    assert(soil_quarters(s.subrange(0, 0)) == 0);
    assert(s.subrange(0, 1).drop_last() =~= s.subrange(0, 0));
    assert(soil_quarters(s.subrange(0, 1)) == 0int + soil_value(s[0]));
    assert(s.subrange(0, 2).drop_last() =~= s.subrange(0, 1));
    assert(soil_quarters(s.subrange(0, 2)) == 0int + soil_value(s[0]) + soil_value(s[1]));
    assert(s.subrange(0, 3).drop_last() =~= s.subrange(0, 2));
    assert(soil_quarters(s.subrange(0, 3)) == 0int + soil_value(s[0]) + soil_value(s[1]) + soil_value(s[2]));
    assert(s.subrange(0, 4).drop_last() =~= s.subrange(0, 3));
    assert(soil_quarters(s.subrange(0, 4)) == 0int + soil_value(s[0]) + soil_value(s[1]) + soil_value(s[2]) + soil_value(s[3]));
    assert(s.subrange(0, 5).drop_last() =~= s.subrange(0, 4));
    assert(soil_quarters(s.subrange(0, 5)) == 0int + soil_value(s[0]) + soil_value(s[1]) + soil_value(s[2]) + soil_value(s[3]) + 4 * soil_value(s[4]));
    assert(s.subrange(0, 6).drop_last() =~= s.subrange(0, 5));
    assert(soil_quarters(s.subrange(0, 6)) == 0int + soil_value(s[0]) + soil_value(s[1]) + soil_value(s[2]) + soil_value(s[3]) + 4 * soil_value(s[4]) + soil_value(s[5]));
    assert(s.subrange(0, 7).drop_last() =~= s.subrange(0, 6));
    assert(soil_quarters(s.subrange(0, 7)) == 0int + soil_value(s[0]) + soil_value(s[1]) + soil_value(s[2]) + soil_value(s[3]) + 4 * soil_value(s[4]) + soil_value(s[5]) + soil_value(s[6]));
    assert(s.subrange(0, 8).drop_last() =~= s.subrange(0, 7));
    assert(soil_quarters(s.subrange(0, 8)) == 0int + soil_value(s[0]) + soil_value(s[1]) + soil_value(s[2]) + soil_value(s[3]) + 4 * soil_value(s[4]) + soil_value(s[5]) + soil_value(s[6]) + soil_value(s[7]));
    assert(s.subrange(0, 9).drop_last() =~= s.subrange(0, 8));
    assert(soil_quarters(s.subrange(0, 9)) == 0int + soil_value(s[0]) + soil_value(s[1]) + soil_value(s[2]) + soil_value(s[3]) + 4 * soil_value(s[4]) + soil_value(s[5]) + soil_value(s[6]) + soil_value(s[7]) + soil_value(s[8]));
    assert(s.subrange(0, 9) =~= s);
}

/// Each block of soil adds to the crop's moisture on its own: compared
/// with anything that is not farmland there (wet or not), dry farmland
/// adds one share and moist farmland three, where a block beside the crop
/// is one share and the block under it four.
pub proof fn lemma_soil_shares(soil: Seq<SoilCell>, k: int, around: SameCropAround)
    requires
        soil.len() == 9,
        0 <= k < 9,
    ensures
        ({
            let bare = moisture_eighths(soil.update(k, SoilCell { is_farmland: false, moist: false }), around);
            let share = if k == 4 { 4int } else { 1int };
            let scale = if crowded(around) { 1int } else { 2int };
            &&& moisture_eighths(soil.update(k, SoilCell { is_farmland: false, moist: true }), around) == bare
            &&& moisture_eighths(soil.update(k, SoilCell { is_farmland: true, moist: false }), around) == bare
                + scale * share
            &&& moisture_eighths(soil.update(k, SoilCell { is_farmland: true, moist: true }), around) == bare
                + scale * 3 * share
        }),
{
    lemma_soil_sum(soil.update(k, SoilCell { is_farmland: false, moist: false }));
    lemma_soil_sum(soil.update(k, SoilCell { is_farmland: false, moist: true }));
    lemma_soil_sum(soil.update(k, SoilCell { is_farmland: true, moist: false }));
    lemma_soil_sum(soil.update(k, SoilCell { is_farmland: true, moist: true }));
}

} // verus!
