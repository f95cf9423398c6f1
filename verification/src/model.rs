//! The typed store record: one directory entry, its equipment and feature
//! flags, and their mathematical images. The flag structs are closed-world:
//! a flag is set only by recognizing an exact label during parsing.
use vstd::prelude::*;
use crate::codes::CityCode;
use crate::codes::PrefCode;

verus! {

/// Which hardware variants the store offers.
#[derive(Clone, Copy, PartialEq, Eq, Structural, Debug)]
pub struct Machines {
    pub ai: bool,
    pub studium: bool,
    pub normal: bool,
    pub premier: bool,
}

/// Which recording services the store offers.
#[derive(Clone, Copy, PartialEq, Eq, Structural, Debug)]
pub struct Recordings {
    pub video: bool,
    pub voice: bool,
}

/// Which scoring-engine variants the store offers.
#[derive(Clone, Copy, PartialEq, Eq, Structural, Debug)]
pub struct Scorings {
    pub ai: bool,
    pub dx_g: bool,
    pub dx: bool,
}

pub open spec fn machines_none() -> Machines {
    Machines { ai: false, studium: false, normal: false, premier: false }
}

pub open spec fn recordings_none() -> Recordings {
    Recordings { video: false, voice: false }
}

pub open spec fn scorings_none() -> Scorings {
    Scorings { ai: false, dx_g: false, dx: false }
}

impl Default for Machines {
    /// All flags off.
    fn default() -> (r: Machines)
        ensures
            r == machines_none(),
    {
        Machines { ai: false, studium: false, normal: false, premier: false }
    }
}

impl Default for Recordings {
    /// All flags off.
    fn default() -> (r: Recordings)
        ensures
            r == recordings_none(),
    {
        Recordings { video: false, voice: false }
    }
}

impl Default for Scorings {
    /// All flags off.
    fn default() -> (r: Scorings)
        ensures
            r == scorings_none(),
    {
        Scorings { ai: false, dx_g: false, dx: false }
    }
}

/// One directory entry. Coordinates are kept in their exact decimal text form
/// as extracted from the map link, already validated to denote a decimal
/// number; the website URL, when present, is kept in its normalized text form.
#[derive(PartialEq, Eq, Debug)]
pub struct Store {
    pub prefecture: PrefCode,
    pub city: CityCode,
    pub name: String,
    pub address: String,
    pub latitude: String,
    pub longitude: String,
    pub phone: String,
    pub url: Option<String>,
    pub machines: Machines,
    pub recordings: Recordings,
    pub scorings: Scorings,
}

/// Mathematical image of a `Store`.
pub ghost struct StoreV {
    pub prefecture: PrefCode,
    pub city: CityCode,
    pub name: Seq<char>,
    pub address: Seq<char>,
    pub latitude: Seq<char>,
    pub longitude: Seq<char>,
    pub phone: Seq<char>,
    pub url: Option<Seq<char>>,
    pub machines: Machines,
    pub recordings: Recordings,
    pub scorings: Scorings,
}

impl DeepView for Store {
    type V = StoreV;

    open spec fn deep_view(&self) -> StoreV {
        self.view()
    }
}

impl View for Store {
    type V = StoreV;

    open spec fn view(&self) -> StoreV {
        StoreV {
            prefecture: self.prefecture,
            city: self.city,
            name: self.name@,
            address: self.address@,
            latitude: self.latitude@,
            longitude: self.longitude@,
            phone: self.phone@,
            url: self.url.deep_view(),
            machines: self.machines,
            recordings: self.recordings,
            scorings: self.scorings,
        }
    }
}

} // verus!
