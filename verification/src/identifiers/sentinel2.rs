//! Sentinel 2 product names.
//!
//! A name such as
//! `S2A_MSIL1C_20170105T013442_N0204_R031_T53NMJ_20170105T013443` holds,
//! between underscores: the mission, `MSI` and the product level, the start
//! of sensing, the processing baseline, the relative orbit, the tile and the
//! product discriminator. This is the form in use since 6 December 2016.
use crate::calendar::DateTime;
use crate::common_parsers::{
    advances, after, char_at, digits_in_range_at, failure, finish, first_tag_from,
    lemma_first_tag, lower, one_of, one_of_at, rest_view_of, tag_no_case, tag_no_case_at,
    take_alphanumeric_upper, take_char, take_n_digits_in_range, upper_alphanumeric_at, value,
    view_of, with_rest, Parsed, Recognised,
};
use crate::temporal::{parse_esa_timestamp, timestamp_at};
use crate::Mission;
use crate::input::Input;
use vstd::prelude::*;
use vstd::std_specs::convert::FromSpecImpl;

verus! {

#[derive(PartialOrd, PartialEq, Eq, Structural, Debug, Clone, Copy, Hash)]
pub enum MissionId {
    S2A,
    S2B,
}

impl From<MissionId> for Mission {
    fn from(mission: MissionId) -> (r: Mission) {
        Mission::Sentinel2
    }
}

impl FromSpecImpl<MissionId> for Mission {
    open spec fn obeys_from_spec() -> bool {
        true
    }

    open spec fn from_spec(mission: MissionId) -> Mission {
        Mission::Sentinel2
    }
}

#[derive(PartialOrd, PartialEq, Eq, Structural, Debug, Clone, Copy, Hash)]
pub enum ProductLevel {
    L1C,
    L2A,
}

/// Sentinel 2 product
#[derive(PartialOrd, PartialEq, Eq, Debug, Hash)]
pub struct Product {
    pub mission_id: MissionId,
    pub product_level: ProductLevel,
    /// sensing start datetime
    pub start_datetime: DateTime,
    /// PDGS Processing Baseline number
    pub pdgs_baseline_number: (u8, u8),
    /// Relative Orbit number (R001 - R143)
    pub relative_orbit_number: u8,
    pub tile_number: String,
    /// Tells apart the products of one datatake. The time in this field can
    /// be earlier or slightly later than the sensing time.
    pub product_discriminator: String,
}

/// A product with its texts as sequences of characters.
pub struct ProductView {
    pub mission_id: MissionId,
    pub product_level: ProductLevel,
    pub start_datetime: DateTime,
    pub pdgs_baseline_number: (u8, u8),
    pub relative_orbit_number: u8,
    pub tile_number: Seq<char>,
    pub product_discriminator: Seq<char>,
}

impl View for Product {
    type V = ProductView;

    open spec fn view(&self) -> ProductView {
        ProductView {
            mission_id: self.mission_id,
            product_level: self.product_level,
            start_datetime: self.start_datetime,
            pdgs_baseline_number: self.pdgs_baseline_number,
            relative_orbit_number: self.relative_orbit_number,
            tile_number: self.tile_number@,
            product_discriminator: self.product_discriminator@,
        }
    }
}

impl Clone for Product {
    fn clone(&self) -> (r: Product)
        ensures
            r@ == self@,
    {
        Product {
            mission_id: self.mission_id,
            product_level: self.product_level,
            start_datetime: self.start_datetime,
            pdgs_baseline_number: self.pdgs_baseline_number,
            relative_orbit_number: self.relative_orbit_number,
            tile_number: self.tile_number.clone(),
            product_discriminator: self.product_discriminator.clone(),
        }
    }
}

impl ProductView {
    /// The start of sensing is a time of the calendar, the numbers lie in
    /// the ranges of their fields, and the texts are as wide as theirs.
    pub open spec fn is_valid(self) -> bool {
        &&& self.start_datetime.is_valid()
        &&& self.pdgs_baseline_number.0 <= 99
        &&& self.pdgs_baseline_number.1 <= 99
        &&& 1 <= self.relative_orbit_number <= 143
        &&& self.tile_number.len() == 5
        &&& self.product_discriminator.len() == 15
    }
}

pub open spec fn mission_id_tags() -> Seq<&'static str> {
    seq!["s2a", "s2b"]
}

pub open spec fn mission_id_of(i: usize) -> MissionId {
    match i {
        0 => MissionId::S2A,
        _ => MissionId::S2B,
    }
}

#[verifier::opaque]
pub open spec fn mission_id_at(s: Seq<char>, pos: int) -> Parsed<MissionId> {
    match one_of_at(s, pos, mission_id_tags()) {
        Ok((i, next)) => Ok((mission_id_of(i), next)),
        Err(e) => Err(e),
    }
}

pub open spec fn product_level_tags() -> Seq<&'static str> {
    seq!["l1c", "l2a"]
}

pub open spec fn product_level_of(i: usize) -> ProductLevel {
    match i {
        0 => ProductLevel::L1C,
        _ => ProductLevel::L2A,
    }
}

#[verifier::opaque]
pub open spec fn product_level_at(s: Seq<char>, pos: int) -> Parsed<ProductLevel> {
    match one_of_at(s, pos, product_level_tags()) {
        Ok((i, next)) => Ok((product_level_of(i), next)),
        Err(e) => Err(e),
    }
}

/// A processing baseline: `N` and two numbers of two digits.
#[verifier::opaque]
pub open spec fn baseline_at(s: Seq<char>, pos: int) -> Parsed<(u8, u8)> {
    match tag_no_case_at(s, pos, "n"@) {
        Err(e) => Err(e),
        Ok((_, after_letter)) => match digits_in_range_at(s, after_letter as int, 2, 0, 99) {
            Err(e) => Err(e),
            Ok((x, after_first)) => match digits_in_range_at(s, after_first as int, 2, 0, 99) {
                Err(e) => Err(e),
                Ok((y, after_second)) => Ok(((x as u8, y as u8), after_second)),
            },
        },
    }
}

/// A relative orbit: `R` and three digits for a number in `1..=143`.
#[verifier::opaque]
pub open spec fn relative_orbit_at(s: Seq<char>, pos: int) -> Parsed<u8> {
    match tag_no_case_at(s, pos, "r"@) {
        Err(e) => Err(e),
        Ok((_, after_letter)) => match digits_in_range_at(s, after_letter as int, 3, 1, 143) {
            Err(e) => Err(e),
            Ok((orbit, after_orbit)) => Ok((orbit as u8, after_orbit)),
        },
    }
}

/// A tile: `T` and five letters or digits, which are put in upper case.
#[verifier::opaque]
pub open spec fn tile_at(s: Seq<char>, pos: int) -> Parsed<Seq<char>> {
    match tag_no_case_at(s, pos, "t"@) {
        Err(e) => Err(e),
        Ok((_, after_letter)) => upper_alphanumeric_at(s, after_letter as int, 5),
    }
}

/// A product name: its fields in their order, an underscore between each
/// two. The first that is not there decides the error.
pub open spec fn product_at(s: Seq<char>) -> Parsed<ProductView> {
    let mission_id = mission_id_at(s, 0);
    let sep1 = char_at(s, after(mission_id), '_');
    let msi = tag_no_case_at(s, after(sep1), "msi"@);
    let product_level = product_level_at(s, after(msi));
    let sep2 = char_at(s, after(product_level), '_');
    let start = timestamp_at(s, after(sep2));
    let sep3 = char_at(s, after(start), '_');
    let baseline = baseline_at(s, after(sep3));
    let sep4 = char_at(s, after(baseline), '_');
    let orbit = relative_orbit_at(s, after(sep4));
    let sep5 = char_at(s, after(orbit), '_');
    let tile = tile_at(s, after(sep5));
    let sep6 = char_at(s, after(tile), '_');
    let discriminator = upper_alphanumeric_at(s, after(sep6), 15);
    if mission_id is Err {
        failure(mission_id)
    } else if sep1 is Err {
        failure(sep1)
    } else if msi is Err {
        failure(msi)
    } else if product_level is Err {
        failure(product_level)
    } else if sep2 is Err {
        failure(sep2)
    } else if start is Err {
        failure(start)
    } else if sep3 is Err {
        failure(sep3)
    } else if baseline is Err {
        failure(baseline)
    } else if sep4 is Err {
        failure(sep4)
    } else if orbit is Err {
        failure(orbit)
    } else if sep5 is Err {
        failure(sep5)
    } else if tile is Err {
        failure(tile)
    } else if sep6 is Err {
        failure(sep6)
    } else if discriminator is Err {
        failure(discriminator)
    } else {
        Ok(
            (
                ProductView {
                    mission_id: value(mission_id),
                    product_level: value(product_level),
                    start_datetime: value(start),
                    pdgs_baseline_number: value(baseline),
                    relative_orbit_number: value(orbit),
                    tile_number: value(tile),
                    product_discriminator: value(discriminator),
                },
                after(discriminator) as usize,
            ),
        )
    }
}

/// A product name starts with `S2`.
pub proof fn lemma_product_start(s: Seq<char>)
    requires
        product_at(s) is Ok,
    ensures
        s.len() >= 2,
        lower(s[0]) == 's',
        s[1] == '2',
{
    reveal(mission_id_at);
    reveal_strlit("s2a");
    reveal_strlit("s2b");
    lemma_first_tag(s, 0, mission_id_tags(), 0);
    let i = first_tag_from(s, 0, mission_id_tags(), 0)->Some_0;
    assert(lower(s[0int + 0]) == lower(mission_id_tags()[i]@[0]));
    assert(lower(s[0int + 1]) == lower(mission_id_tags()[i]@[1]));
}

pub fn parse_mission_id(s: &Input, pos: usize) -> (r: Parsed<MissionId>)
    ensures
        r == mission_id_at(s@, pos as int),
        advances(r, s@, pos),
{
    reveal(mission_id_at);
    let tags = ["s2a", "s2b"];
    assert(tags@ =~= mission_id_tags());
    let (i, next) = one_of(s, pos, &tags)?;
    let id = match i {
        0 => MissionId::S2A,
        _ => MissionId::S2B,
    };
    Ok((id, next))
}

pub fn parse_product_level(s: &Input, pos: usize) -> (r: Parsed<ProductLevel>)
    ensures
        r == product_level_at(s@, pos as int),
        advances(r, s@, pos),
{
    reveal(product_level_at);
    let tags = ["l1c", "l2a"];
    assert(tags@ =~= product_level_tags());
    let (i, next) = one_of(s, pos, &tags)?;
    let level = match i {
        0 => ProductLevel::L1C,
        _ => ProductLevel::L2A,
    };
    Ok((level, next))
}

pub fn parse_processing_baseline_number(s: &Input, pos: usize) -> (r: Parsed<(u8, u8)>)
    ensures
        r == baseline_at(s@, pos as int),
        advances(r, s@, pos),
        r matches Ok((number, _)) ==> number.0 <= 99 && number.1 <= 99,
{
    reveal(baseline_at);
    let (_, p) = tag_no_case(s, pos, "n")?;
    let (x, p) = take_n_digits_in_range(s, p, 2, 0, 99)?;
    let (y, p) = take_n_digits_in_range(s, p, 2, 0, 99)?;
    Ok(((x as u8, y as u8), p))
}

pub fn parse_relative_orbit_number(s: &Input, pos: usize) -> (r: Parsed<u8>)
    ensures
        r == relative_orbit_at(s@, pos as int),
        advances(r, s@, pos),
        r matches Ok((orbit, _)) ==> 1 <= orbit <= 143,
{
    reveal(relative_orbit_at);
    let (_, p) = tag_no_case(s, pos, "r")?;
    let (orbit, p) = take_n_digits_in_range(s, p, 3, 1, 143)?;
    Ok((orbit as u8, p))
}

pub fn parse_tile_number(s: &Input, pos: usize) -> (r: Parsed<String>)
    ensures
        view_of(r) == tile_at(s@, pos as int),
        advances(r, s@, pos),
        r matches Ok((tile, _)) ==> tile@.len() == 5,
{
    reveal(tile_at);
    let (_, p) = tag_no_case(s, pos, "t")?;
    take_alphanumeric_upper(s, p, 5)
}

/// Reads a product name at the start of `s`.
pub fn product(s: &Input) -> (r: Parsed<Product>)
    ensures
        view_of(r) == product_at(s@),
        advances(r, s@, 0),
        r matches Ok((product, _)) ==> product@.is_valid(),
{
    let (mission_id, p) = parse_mission_id(s, 0)?;
    let (_, p) = take_char(s, p, '_')?;
    let (_, p) = tag_no_case(s, p, "msi")?;
    let (product_level, p) = parse_product_level(s, p)?;
    let (_, p) = take_char(s, p, '_')?;
    let (start_datetime, p) = parse_esa_timestamp(s, p)?;
    let (_, p) = take_char(s, p, '_')?;
    let (pdgs_baseline_number, p) = parse_processing_baseline_number(s, p)?;
    let (_, p) = take_char(s, p, '_')?;
    let (relative_orbit_number, p) = parse_relative_orbit_number(s, p)?;
    let (_, p) = take_char(s, p, '_')?;
    let (tile_number, p) = parse_tile_number(s, p)?;
    let (_, p) = take_char(s, p, '_')?;
    let (product_discriminator, p) = take_alphanumeric_upper(s, p, 15)?;
    Ok(
        (
            Product {
                mission_id,
                product_level,
                start_datetime,
                pdgs_baseline_number,
                relative_orbit_number,
                tile_number,
                product_discriminator,
            },
            p,
        ),
    )
}

/// Reads a product name at the start of `s` and gives the product with what
/// follows the name.
pub fn parse_product<'a>(s: &'a str) -> (r: Recognised<'a, Product>)
    ensures
        rest_view_of(r) == with_rest(s@, product_at(s@)),
        r matches Ok((_, product)) ==> product@.is_valid(),
{
    let input = Input::new(s);
    finish(&input, product(&input))
}

} // verus!
