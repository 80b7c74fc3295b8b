//! The outlets of the unit: eight switched channels, each with the number
//! that the hardware gives it and the name that people call it by.

use vstd::prelude::*;
use vstd::string::*;
use crate::error::PduError;
use crate::text::str_eq;

verus! {

/// Number of switched outlets on the unit.
pub const OUTLET_COUNT: usize = 8;

/// One switched outlet.
#[allow(non_camel_case_types)]
#[derive(Clone, Copy, Debug, PartialEq, Eq, Structural)]
pub enum Outlet {
    BatteryCharger,
    Unused2,
    Unused3,
    Unused4,
    Unused5,
    DMR_70cm,
    FM_33cm,
    DMR_2m,
}

/// Every outlet, by ascending number.
pub open spec fn all_outlets() -> Seq<Outlet> {
    seq![
        Outlet::BatteryCharger,
        Outlet::Unused2,
        Outlet::Unused3,
        Outlet::Unused4,
        Outlet::Unused5,
        Outlet::DMR_70cm,
        Outlet::FM_33cm,
        Outlet::DMR_2m,
    ]
}

/// The outlet on hardware channel `n`, if the unit has one.
pub open spec fn outlet_at(n: u32) -> Option<Outlet> {
    if 1 <= n <= OUTLET_COUNT {
        Some(all_outlets()[n - 1])
    } else {
        None
    }
}

/// The outlet called `name`, letter for letter, if there is one.
pub open spec fn outlet_named(name: Seq<char>) -> Option<Outlet> {
    if name == Outlet::BatteryCharger.spec_name() {
        Some(Outlet::BatteryCharger)
    } else if name == Outlet::Unused2.spec_name() {
        Some(Outlet::Unused2)
    } else if name == Outlet::Unused3.spec_name() {
        Some(Outlet::Unused3)
    } else if name == Outlet::Unused4.spec_name() {
        Some(Outlet::Unused4)
    } else if name == Outlet::Unused5.spec_name() {
        Some(Outlet::Unused5)
    } else if name == Outlet::DMR_70cm.spec_name() {
        Some(Outlet::DMR_70cm)
    } else if name == Outlet::FM_33cm.spec_name() {
        Some(Outlet::FM_33cm)
    } else if name == Outlet::DMR_2m.spec_name() {
        Some(Outlet::DMR_2m)
    } else {
        None
    }
}

/// What a lookup answers: the outlet found, or `UnknownOutlet`.
pub open spec fn found_or_unknown(found: Option<Outlet>) -> Result<Outlet, PduError> {
    match found {
        Some(outlet) => Ok(outlet),
        None => Err(PduError::UnknownOutlet),
    }
}

impl Outlet {
    /// The hardware channel of the outlet, from 1 to 8.
    pub open spec fn spec_index(self) -> u32 {
        match self {
            Outlet::BatteryCharger => 1,
            Outlet::Unused2 => 2,
            Outlet::Unused3 => 3,
            Outlet::Unused4 => 4,
            Outlet::Unused5 => 5,
            Outlet::DMR_70cm => 6,
            Outlet::FM_33cm => 7,
            Outlet::DMR_2m => 8,
        }
    }

    /// The name of the outlet: small letters and digits, joined by hyphens.
    pub open spec fn spec_name(self) -> Seq<char> {
        match self {
            Outlet::BatteryCharger => "battery-charger"@,
            Outlet::Unused2 => "unused2"@,
            Outlet::Unused3 => "unused3"@,
            Outlet::Unused4 => "unused4"@,
            Outlet::Unused5 => "unused5"@,
            Outlet::DMR_70cm => "dmr-70cm"@,
            Outlet::FM_33cm => "fm-33cm"@,
            Outlet::DMR_2m => "dmr-2m"@,
        }
    }

    /// The hardware channel of the outlet.
    pub fn index(self) -> (n: u32)
        ensures
            n == self.spec_index(),
            1 <= n <= OUTLET_COUNT,
    {
        match self {
            Outlet::BatteryCharger => 1,
            Outlet::Unused2 => 2,
            Outlet::Unused3 => 3,
            Outlet::Unused4 => 4,
            Outlet::Unused5 => 5,
            Outlet::DMR_70cm => 6,
            Outlet::FM_33cm => 7,
            Outlet::DMR_2m => 8,
        }
    }

    /// The outlet on hardware channel `n`, if the unit has one.
    pub fn from_repr(n: u32) -> (found: Option<Outlet>)
        ensures
            found == outlet_at(n),
    {
        match n {
            1 => Some(Outlet::BatteryCharger),
            2 => Some(Outlet::Unused2),
            3 => Some(Outlet::Unused3),
            4 => Some(Outlet::Unused4),
            5 => Some(Outlet::Unused5),
            6 => Some(Outlet::DMR_70cm),
            7 => Some(Outlet::FM_33cm),
            8 => Some(Outlet::DMR_2m),
            _ => None,
        }
    }

    /// The outlet on hardware channel `n`; `UnknownOutlet` for a number
    /// outside 1 to 8.
    pub fn from_index(n: u32) -> (found: Result<Outlet, PduError>)
        ensures
            found == found_or_unknown(outlet_at(n)),
    {
        match Outlet::from_repr(n) {
            Some(outlet) => Ok(outlet),
            None => Err(PduError::UnknownOutlet),
        }
    }

    /// The name of the outlet on hardware channel `n`; `UnknownOutlet` for a
    /// number outside 1 to 8.
    pub fn name_of_index(n: u32) -> (name: Result<&'static str, PduError>)
        ensures
            match outlet_at(n) {
                Some(outlet) => name matches Ok(text) && text@ == outlet.spec_name(),
                None => name == Err::<&'static str, PduError>(PduError::UnknownOutlet),
            },
    {
        match Outlet::from_repr(n) {
            Some(outlet) => Ok(outlet.name()),
            None => Err(PduError::UnknownOutlet),
        }
    }

    /// The hardware channel of the outlet called `name`; `UnknownOutlet`
    /// where no outlet has that name.
    pub fn index_of_name(name: &str) -> (index: Result<u32, PduError>)
        ensures
            index == match outlet_named(name@) {
                Some(outlet) => Ok::<u32, PduError>(outlet.spec_index()),
                None => Err::<u32, PduError>(PduError::UnknownOutlet),
            },
    {
        match Outlet::from_str(name) {
            Ok(outlet) => Ok(outlet.index()),
            Err(e) => Err(e),
        }
    }

    /// The name of the outlet.
    pub fn name(self) -> (name: &'static str)
        ensures
            name@ == self.spec_name(),
    {
        match self {
            Outlet::BatteryCharger => "battery-charger",
            Outlet::Unused2 => "unused2",
            Outlet::Unused3 => "unused3",
            Outlet::Unused4 => "unused4",
            Outlet::Unused5 => "unused5",
            Outlet::DMR_70cm => "dmr-70cm",
            Outlet::FM_33cm => "fm-33cm",
            Outlet::DMR_2m => "dmr-2m",
        }
    }

    /// The name of the outlet, as an owned string.
    pub fn to_string(self) -> (name: String)
        ensures
            name@ == self.spec_name(),
    {
        String::from_str(self.name())
    }

    /// Every outlet, by ascending number. Each call gives a fresh list.
    pub fn iter() -> (outlets: Vec<Outlet>)
        ensures
            outlets@ == all_outlets(),
    {
        let outlets: Vec<Outlet> = vec![
            Outlet::BatteryCharger,
            Outlet::Unused2,
            Outlet::Unused3,
            Outlet::Unused4,
            Outlet::Unused5,
            Outlet::DMR_70cm,
            Outlet::FM_33cm,
            Outlet::DMR_2m,
        ];
        assert(outlets@ =~= all_outlets());
        outlets
    }

    /// The outlet called `name`, letter for letter; `UnknownOutlet` where no
    /// outlet has that name.
    pub fn from_str(name: &str) -> (found: Result<Outlet, PduError>)
        ensures
            found == found_or_unknown(outlet_named(name@)),
    {
        let outlets: Vec<Outlet> = Outlet::iter();
        let mut i: usize = 0;
        while i < outlets.len()
            invariant
                outlets@ == all_outlets(),
                i <= outlets.len(),
                forall|j: int| 0 <= j < i ==> (#[trigger] outlets@[j]).spec_name() != name@,
            decreases outlets.len() - i,
        {
            let outlet: Outlet = outlets[i];
            if str_eq(name, outlet.name()) {
                proof {
                    lemma_name_round_trip(outlet);
                }
                return Ok(outlet);
            }
            i += 1;
        }
        proof {
            assert forall|outlet: Outlet| outlet.spec_name() != name@ by {
                lemma_all_outlets_is_complete(outlet);
            }
        }
        Err(PduError::UnknownOutlet)
    }
}

/// Every outlet stands in [`all_outlets`], at the place before its number;
/// so the list has eight entries whose numbers run from 1 to 8.
pub proof fn lemma_all_outlets_is_complete(outlet: Outlet)
    ensures
        all_outlets().len() == OUTLET_COUNT,
        1 <= outlet.spec_index() <= OUTLET_COUNT,
        all_outlets()[outlet.spec_index() - 1] == outlet,
{
}

/// The list of outlets is in ascending order of number: the entry at place
/// `i` has the number `i + 1`.
pub proof fn lemma_all_outlets_ascending(i: int)
    requires
        0 <= i < OUTLET_COUNT,
    ensures
        all_outlets()[i].spec_index() == i + 1,
{
}

/// The names of the outlets, in the order of the list.
pub proof fn lemma_all_outlets_names()
    ensures
        all_outlets().map_values(|outlet: Outlet| outlet.spec_name()) == seq![
            "battery-charger"@,
            "unused2"@,
            "unused3"@,
            "unused4"@,
            "unused5"@,
            "dmr-70cm"@,
            "fm-33cm"@,
            "dmr-2m"@,
        ],
{
    assert(all_outlets().map_values(|outlet: Outlet| outlet.spec_name()) =~= seq![
        "battery-charger"@,
        "unused2"@,
        "unused3"@,
        "unused4"@,
        "unused5"@,
        "dmr-70cm"@,
        "fm-33cm"@,
        "dmr-2m"@,
    ]);
}

/// No two outlets share a number.
pub proof fn lemma_index_is_injective(a: Outlet, b: Outlet)
    requires
        a.spec_index() == b.spec_index(),
    ensures
        a == b,
{
}

/// No two outlets share a name.
pub proof fn lemma_name_is_injective(a: Outlet, b: Outlet)
    requires
        a.spec_name() == b.spec_name(),
    ensures
        a == b,
{
    reveal_strlit("battery-charger");
    reveal_strlit("unused2");
    reveal_strlit("unused3");
    reveal_strlit("unused4");
    reveal_strlit("unused5");
    reveal_strlit("dmr-70cm");
    reveal_strlit("fm-33cm");
    reveal_strlit("dmr-2m");
    assert("battery-charger"@.len() == 15);
    assert("dmr-70cm"@.len() == 8);
    assert("dmr-2m"@.len() == 6);
    assert("unused2"@.len() == 7 && "unused2"@[0] == 'u' && "unused2"@[6] == '2');
    assert("unused3"@.len() == 7 && "unused3"@[0] == 'u' && "unused3"@[6] == '3');
    assert("unused4"@.len() == 7 && "unused4"@[0] == 'u' && "unused4"@[6] == '4');
    assert("unused5"@.len() == 7 && "unused5"@[0] == 'u' && "unused5"@[6] == '5');
    assert("fm-33cm"@.len() == 7 && "fm-33cm"@[0] == 'f');
}

/// Looking an outlet up by its own number finds it, and whatever a number
/// finds has that number: numbers outside 1 to 8 find nothing.
pub proof fn lemma_index_round_trip(outlet: Outlet, n: u32)
    ensures
        outlet_at(outlet.spec_index()) == Some(outlet),
        outlet_at(n) matches Some(found) ==> found.spec_index() == n,
        outlet_at(n).is_none() <==> !(1 <= n <= OUTLET_COUNT),
{
}

/// Looking an outlet up by its own name finds it.
pub proof fn lemma_name_round_trip(outlet: Outlet)
    ensures
        outlet_named(outlet.spec_name()) == Some(outlet),
{
    if let Some(found) = outlet_named(outlet.spec_name()) {
        lemma_name_is_injective(found, outlet);
    }
}

/// Whatever a name finds bears that name; a name that finds nothing is the
/// name of no outlet.
pub proof fn lemma_named_outlet_bears_the_name(name: Seq<char>)
    ensures
        match outlet_named(name) {
            Some(found) => found.spec_name() == name,
            None => forall|outlet: Outlet| outlet.spec_name() != name,
        },
{
}

} // verus!
