//! Parsers for the naming conventions of earth observation products and
//! datasets.
//!
//! ```text
//! use eo_identifiers::identifiers::sentinel2::ProductLevel;
//! use eo_identifiers::Identifier;
//! use std::str::FromStr;
//!
//! let name = "S2A_MSIL1C_20170105T013442_N0204_R031_T53NMJ_20170105T013443";
//! if let Identifier::Sentinel2Product(product) = Identifier::from_str(name).unwrap() {
//!     assert_eq!(product.product_level, ProductLevel::L1C);
//!     assert_eq!(product.relative_orbit_number, 31);
//! }
//! ```
//!
//! The layers, from the bottom:
//! - [`input`] holds the text that is read;
//! - [`common_parsers`] reads the tokens that names are made of, and
//!   [`temporal`] the dates and times in them, on the [`calendar`];
//! - [`identifiers`] holds one grammar for each kind of name, with the record
//!   that it fills;
//! - [`from_str`] tries the grammars in a fixed order and chooses among their
//!   results.
//!
//! Every parser reads a text as a sequence of characters, starts at a
//! position and either accepts a prefix of what follows, giving a value and
//! the position behind it, or rejects the text at a position. Positions count
//! characters from the start of the text, which in a text of ASCII characters
//! are its bytes.
//!
//! What a parser gives is stated by a specification function of its own,
//! named after it with `_at` at the end, on the characters of the text.
use calendar::DateTime;
use vstd::prelude::*;
use vstd::std_specs::convert::FromSpecImpl;

pub mod calendar;
pub mod common_parsers;
pub mod from_str;
pub mod identifiers;
pub mod input;
pub mod temporal;

pub use from_str::ParseError;

verus! {

/// Something with a short name.
pub trait Name {
    spec fn name_text(&self) -> Seq<char>;

    fn name(&self) -> (r: &str)
        ensures
            r@ == self.name_text(),
    ;
}

/// Something with a long name.
pub trait NameLong {
    spec fn name_long_text(&self) -> Seq<char>;

    fn name_long(&self) -> (r: &str)
        ensures
            r@ == self.name_long_text(),
    ;
}

/// The missions whose names are known.
#[derive(PartialOrd, PartialEq, Eq, Structural, Debug, Clone, Copy, Hash)]
pub enum Mission {
    Sentinel1,
    Sentinel2,
    Sentinel3,
    Landsat1,
    Landsat2,
    Landsat3,
    Landsat4,
    Landsat5,
    Landsat6,
    Landsat7,
    Landsat8,
    Landsat9,
}

impl Name for Mission {
    open spec fn name_text(&self) -> Seq<char> {
        match self {
            Mission::Sentinel1 => "Sentinel 1"@,
            Mission::Sentinel2 => "Sentinel 2"@,
            Mission::Sentinel3 => "Sentinel 3"@,
            Mission::Landsat1 => "Landsat 1"@,
            Mission::Landsat2 => "Landsat 2"@,
            Mission::Landsat3 => "Landsat 3"@,
            Mission::Landsat4 => "Landsat 4"@,
            Mission::Landsat5 => "Landsat 5"@,
            Mission::Landsat6 => "Landsat 6"@,
            Mission::Landsat7 => "Landsat 7"@,
            Mission::Landsat8 => "Landsat 8"@,
            Mission::Landsat9 => "Landsat 9"@,
        }
    }

    fn name(&self) -> (r: &str) {
        match self {
            Mission::Sentinel1 => "Sentinel 1",
            Mission::Sentinel2 => "Sentinel 2",
            Mission::Sentinel3 => "Sentinel 3",
            Mission::Landsat1 => "Landsat 1",
            Mission::Landsat2 => "Landsat 2",
            Mission::Landsat3 => "Landsat 3",
            Mission::Landsat4 => "Landsat 4",
            Mission::Landsat5 => "Landsat 5",
            Mission::Landsat6 => "Landsat 6",
            Mission::Landsat7 => "Landsat 7",
            Mission::Landsat8 => "Landsat 8",
            Mission::Landsat9 => "Landsat 9",
        }
    }
}

/// Identifier of an earth observation product or dataset
#[derive(PartialOrd, PartialEq, Eq, Debug, Clone, Hash)]
pub enum Identifier {
    Sentinel2Product(identifiers::sentinel2::Product),
    Sentinel3Product(identifiers::sentinel3::Product),
    LandsatSceneId(identifiers::landsat::SceneId),
    LandsatProduct(identifiers::landsat::Product),
}

/// An identifier with the texts in it as sequences of characters.
pub enum IdentifierView {
    Sentinel2Product(identifiers::sentinel2::ProductView),
    Sentinel3Product(identifiers::sentinel3::ProductView),
    LandsatSceneId(identifiers::landsat::SceneIdView),
    LandsatProduct(identifiers::landsat::ProductView),
}

impl View for Identifier {
    type V = IdentifierView;

    open spec fn view(&self) -> IdentifierView {
        match self {
            Identifier::Sentinel2Product(p) => IdentifierView::Sentinel2Product(p@),
            Identifier::Sentinel3Product(p) => IdentifierView::Sentinel3Product(p@),
            Identifier::LandsatSceneId(s) => IdentifierView::LandsatSceneId(s@),
            Identifier::LandsatProduct(p) => IdentifierView::LandsatProduct(p@),
        }
    }
}

impl From<identifiers::sentinel2::Product> for Identifier {
    fn from(p: identifiers::sentinel2::Product) -> (r: Identifier) {
        Identifier::Sentinel2Product(p)
    }
}

impl FromSpecImpl<identifiers::sentinel2::Product> for Identifier {
    open spec fn obeys_from_spec() -> bool {
        true
    }

    open spec fn from_spec(p: identifiers::sentinel2::Product) -> Identifier {
        Identifier::Sentinel2Product(p)
    }
}

impl From<identifiers::sentinel3::Product> for Identifier {
    fn from(p: identifiers::sentinel3::Product) -> (r: Identifier) {
        Identifier::Sentinel3Product(p)
    }
}

impl FromSpecImpl<identifiers::sentinel3::Product> for Identifier {
    open spec fn obeys_from_spec() -> bool {
        true
    }

    open spec fn from_spec(p: identifiers::sentinel3::Product) -> Identifier {
        Identifier::Sentinel3Product(p)
    }
}

impl From<identifiers::landsat::SceneId> for Identifier {
    fn from(s: identifiers::landsat::SceneId) -> (r: Identifier) {
        Identifier::LandsatSceneId(s)
    }
}

impl FromSpecImpl<identifiers::landsat::SceneId> for Identifier {
    open spec fn obeys_from_spec() -> bool {
        true
    }

    open spec fn from_spec(s: identifiers::landsat::SceneId) -> Identifier {
        Identifier::LandsatSceneId(s)
    }
}

impl From<identifiers::landsat::Product> for Identifier {
    fn from(p: identifiers::landsat::Product) -> (r: Identifier) {
        Identifier::LandsatProduct(p)
    }
}

impl FromSpecImpl<identifiers::landsat::Product> for Identifier {
    open spec fn obeys_from_spec() -> bool {
        true
    }

    open spec fn from_spec(p: identifiers::landsat::Product) -> Identifier {
        Identifier::LandsatProduct(p)
    }
}

impl IdentifierView {
    /// The record in the identifier is valid.
    pub open spec fn is_valid(self) -> bool {
        match self {
            IdentifierView::Sentinel2Product(p) => p.is_valid(),
            IdentifierView::Sentinel3Product(p) => p.is_valid(),
            IdentifierView::LandsatSceneId(s) => s.is_valid(),
            IdentifierView::LandsatProduct(p) => p.is_valid(),
        }
    }

    pub open spec fn mission(self) -> Mission {
        match self {
            IdentifierView::Sentinel2Product(p) => Mission::Sentinel2,
            IdentifierView::Sentinel3Product(p) => Mission::Sentinel3,
            IdentifierView::LandsatSceneId(s) => s.mission.mission(),
            IdentifierView::LandsatProduct(p) => p.mission.mission(),
        }
    }

    /// The start of sensing; for Landsat, whose names hold a date only, the
    /// midnight with which the day of acquisition begins.
    pub open spec fn start_datetime(self) -> DateTime {
        match self {
            IdentifierView::Sentinel2Product(p) => p.start_datetime,
            IdentifierView::Sentinel3Product(p) => p.start_datetime,
            IdentifierView::LandsatSceneId(s) => calendar::midnight(s.acquire_date),
            IdentifierView::LandsatProduct(p) => calendar::midnight(p.acquire_date),
        }
    }

    /// The end of sensing, for the names that hold it.
    pub open spec fn stop_datetime(self) -> Option<DateTime> {
        match self {
            IdentifierView::Sentinel2Product(p) => None,
            IdentifierView::Sentinel3Product(p) => Some(p.stop_datetime),
            IdentifierView::LandsatSceneId(s) => None,
            IdentifierView::LandsatProduct(p) => None,
        }
    }
}

impl Identifier {
    /// mission
    pub fn mission(&self) -> (m: Mission)
        ensures
            m == self@.mission(),
    {
        match self {
            Identifier::Sentinel2Product(p) => Mission::from(p.mission_id),
            Identifier::Sentinel3Product(p) => Mission::from(p.mission_id),
            Identifier::LandsatSceneId(s) => Mission::from(s.mission),
            Identifier::LandsatProduct(p) => Mission::from(p.mission),
        }
    }

    /// sensing start datetime
    pub fn start_datetime(&self) -> (r: DateTime)
        ensures
            r == self@.start_datetime(),
    {
        match self {
            Identifier::Sentinel2Product(p) => p.start_datetime,
            Identifier::Sentinel3Product(p) => p.start_datetime,
            Identifier::LandsatSceneId(s) => s.acquire_date.at_midnight(),
            Identifier::LandsatProduct(p) => p.acquire_date.at_midnight(),
        }
    }

    /// sensing stop datetime
    pub fn stop_datetime(&self) -> (r: Option<DateTime>)
        ensures
            r == self@.stop_datetime(),
    {
        match self {
            Identifier::Sentinel2Product(_) => None,
            Identifier::Sentinel3Product(p) => Some(p.stop_datetime),
            Identifier::LandsatSceneId(_) => None,
            Identifier::LandsatProduct(_) => None,
        }
    }
}

} // verus!
