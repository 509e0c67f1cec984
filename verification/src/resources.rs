use vstd::prelude::*;

verus! {

/// Number of kinds of ship resource.
pub const RESOURCE_COUNT: usize = 16;

/// A stock the ship keeps track of.
#[derive(Debug, Copy, Clone, PartialEq, Eq, Hash)]
pub enum ShipResource {
    Power,
    Heat,
    Neutrons,
    Protium,
    Deuterium,
    Tritium,
    Helium3,
    Helium4,
    Lithium,
    Hydrogen,
    Oxygen,
    Carbon,
    Nitrogen,
    Water,
    CarbonDioxide,
    Methane,
}

/// The resources in the order the resource panel lists them.
pub open spec fn resource_order() -> Seq<ShipResource> {
    seq![
        ShipResource::Power,
        ShipResource::Heat,
        ShipResource::Neutrons,
        ShipResource::Protium,
        ShipResource::Deuterium,
        ShipResource::Tritium,
        ShipResource::Helium3,
        ShipResource::Helium4,
        ShipResource::Lithium,
        ShipResource::Hydrogen,
        ShipResource::Oxygen,
        ShipResource::Carbon,
        ShipResource::Nitrogen,
        ShipResource::Water,
        ShipResource::CarbonDioxide,
        ShipResource::Methane,
    ]
}

/// How much of the resource its tank holds: `None` for the quantities kept
/// in no tank (power, heat, neutrons).
pub open spec fn spec_base_capacity(r: ShipResource) -> Option<u32> {
    match r {
        ShipResource::Power | ShipResource::Heat | ShipResource::Neutrons => None,
        ShipResource::Protium
        | ShipResource::Deuterium
        | ShipResource::Tritium
        | ShipResource::Helium3
        | ShipResource::Helium4
        | ShipResource::Lithium
        | ShipResource::Hydrogen => Some(50_000),
        ShipResource::Oxygen
        | ShipResource::Carbon
        | ShipResource::Nitrogen
        | ShipResource::CarbonDioxide
        | ShipResource::Methane => Some(20_000),
        ShipResource::Water => Some(100_000),
    }
}

impl ShipResource {
    /// The resource at position `i` of the panel order, if there is one.
    pub fn nth(i: usize) -> (r: Option<ShipResource>)
        ensures
            i < RESOURCE_COUNT ==> r == Some(resource_order()[i as int]),
            i >= RESOURCE_COUNT ==> r is None,
    {
        match i {
            0 => Some(ShipResource::Power),
            1 => Some(ShipResource::Heat),
            2 => Some(ShipResource::Neutrons),
            3 => Some(ShipResource::Protium),
            4 => Some(ShipResource::Deuterium),
            5 => Some(ShipResource::Tritium),
            6 => Some(ShipResource::Helium3),
            7 => Some(ShipResource::Helium4),
            8 => Some(ShipResource::Lithium),
            9 => Some(ShipResource::Hydrogen),
            10 => Some(ShipResource::Oxygen),
            11 => Some(ShipResource::Carbon),
            12 => Some(ShipResource::Nitrogen),
            13 => Some(ShipResource::Water),
            14 => Some(ShipResource::CarbonDioxide),
            15 => Some(ShipResource::Methane),
            _ => None,
        }
    }

    /// The resource at row `i` of the panel, or power past the last row.
    pub fn selected(i: usize) -> (r: ShipResource)
        ensures
            i < RESOURCE_COUNT ==> r == resource_order()[i as int],
            i >= RESOURCE_COUNT ==> r == ShipResource::Power,
    {
        match ShipResource::nth(i) {
            Some(r) => r,
            None => ShipResource::Power,
        }
    }

    /// Tank size in whole units; the simulation works with it as a real number.
    pub fn base_capacity(&self) -> (c: Option<u32>)
        ensures
            c == spec_base_capacity(*self),
    {
        match self {
            ShipResource::Power | ShipResource::Heat | ShipResource::Neutrons => None,
            ShipResource::Protium
            | ShipResource::Deuterium
            | ShipResource::Tritium
            | ShipResource::Helium3
            | ShipResource::Helium4
            | ShipResource::Lithium
            | ShipResource::Hydrogen => Some(50_000),
            ShipResource::Oxygen
            | ShipResource::Carbon
            | ShipResource::Nitrogen
            | ShipResource::CarbonDioxide
            | ShipResource::Methane => Some(20_000),
            ShipResource::Water => Some(100_000),
        }
    }

    pub fn short_name(&self) -> (s: &'static str)
        ensures
            *self == ShipResource::Power ==> s@ == "PWR"@,
            *self == ShipResource::Heat ==> s@ == "HEAT"@,
            *self == ShipResource::Neutrons ==> s@ == "NEUT"@,
            *self == ShipResource::Protium ==> s@ == "PROT"@,
            *self == ShipResource::Deuterium ==> s@ == "DEUT"@,
            *self == ShipResource::Tritium ==> s@ == "TRIT"@,
            *self == ShipResource::Helium3 ==> s@ == "HE3"@,
            *self == ShipResource::Helium4 ==> s@ == "HE4"@,
            *self == ShipResource::Lithium ==> s@ == "LI"@,
            *self == ShipResource::Hydrogen ==> s@ == "H"@,
            *self == ShipResource::Oxygen ==> s@ == "O2"@,
            *self == ShipResource::Carbon ==> s@ == "C"@,
            *self == ShipResource::Nitrogen ==> s@ == "N"@,
            *self == ShipResource::Water ==> s@ == "H2O"@,
            *self == ShipResource::CarbonDioxide ==> s@ == "CO2"@,
            *self == ShipResource::Methane ==> s@ == "CH4"@,
    {
        match self {
            ShipResource::Power => "PWR",
            ShipResource::Heat => "HEAT",
            ShipResource::Neutrons => "NEUT",
            ShipResource::Protium => "PROT",
            ShipResource::Deuterium => "DEUT",
            ShipResource::Tritium => "TRIT",
            ShipResource::Helium3 => "HE3",
            ShipResource::Helium4 => "HE4",
            ShipResource::Lithium => "LI",
            ShipResource::Hydrogen => "H",
            ShipResource::Oxygen => "O2",
            ShipResource::Carbon => "C",
            ShipResource::Nitrogen => "N",
            ShipResource::Water => "H2O",
            ShipResource::CarbonDioxide => "CO2",
            ShipResource::Methane => "CH4",
        }
    }

    pub fn name(&self) -> (s: &'static str)
        ensures
            *self == ShipResource::Power ==> s@ == "POWER"@,
            *self == ShipResource::Heat ==> s@ == "HEAT"@,
            *self == ShipResource::Neutrons ==> s@ == "NEUTRONS"@,
            *self == ShipResource::Protium ==> s@ == "PROTIUM"@,
            *self == ShipResource::Deuterium ==> s@ == "DEUTERIUM"@,
            *self == ShipResource::Tritium ==> s@ == "TRITIUM"@,
            *self == ShipResource::Helium3 ==> s@ == "HELIUM-3"@,
            *self == ShipResource::Helium4 ==> s@ == "HELIUM-4"@,
            *self == ShipResource::Lithium ==> s@ == "LITHIUM"@,
            *self == ShipResource::Hydrogen ==> s@ == "HYDROGEN"@,
            *self == ShipResource::Oxygen ==> s@ == "OXYGEN"@,
            *self == ShipResource::Carbon ==> s@ == "CARBON"@,
            *self == ShipResource::Nitrogen ==> s@ == "NITROGEN"@,
            *self == ShipResource::Water ==> s@ == "WATER"@,
            *self == ShipResource::CarbonDioxide ==> s@ == "CARBON DIOXIDE"@,
            *self == ShipResource::Methane ==> s@ == "METHANE"@,
    {
        match self {
            ShipResource::Power => "POWER",
            ShipResource::Heat => "HEAT",
            ShipResource::Neutrons => "NEUTRONS",
            ShipResource::Protium => "PROTIUM",
            ShipResource::Deuterium => "DEUTERIUM",
            ShipResource::Tritium => "TRITIUM",
            ShipResource::Helium3 => "HELIUM-3",
            ShipResource::Helium4 => "HELIUM-4",
            ShipResource::Lithium => "LITHIUM",
            ShipResource::Hydrogen => "HYDROGEN",
            ShipResource::Oxygen => "OXYGEN",
            ShipResource::Carbon => "CARBON",
            ShipResource::Nitrogen => "NITROGEN",
            ShipResource::Water => "WATER",
            ShipResource::CarbonDioxide => "CARBON DIOXIDE",
            ShipResource::Methane => "METHANE",
        }
    }
}

/// Who produced or consumed a flow of resource.
#[derive(Debug, Copy, Clone, PartialEq, Eq, Hash)]
pub enum FlowSource {
    Reactor,
    LifeSupport,
    /// What a full tank could not take in.
    Vented,
}

impl FlowSource {
    pub fn label(&self) -> (s: &'static str)
        ensures
            *self == FlowSource::Reactor ==> s@ == "REACTOR"@,
            *self == FlowSource::LifeSupport ==> s@ == "LIFE SUPPORT"@,
            *self == FlowSource::Vented ==> s@ == "VENTED"@,
    {
        match self {
            FlowSource::Reactor => "REACTOR",
            FlowSource::LifeSupport => "LIFE SUPPORT",
            FlowSource::Vented => "VENTED",
        }
    }
}

/// Where the power grid sends power.
#[derive(Debug, Copy, Clone, PartialEq, Eq, Hash)]
pub enum PowerRoute {
    Pods,
}

/// The ship's power router; it holds no settings yet.
#[derive(Debug, Default)]
pub struct PowerRouter {}

/// Every kind of resource occurs once in the panel order, and the panel
/// order is as long as there are kinds.
pub proof fn lemma_resource_order_complete(r: ShipResource)
    ensures
        resource_order().len() == RESOURCE_COUNT,
        resource_order().contains(r),
        forall|i: int, j: int|
            0 <= i < j < RESOURCE_COUNT ==> resource_order()[i] != resource_order()[j],
{
    let s = resource_order();
    match r {
        ShipResource::Power => assert(s[0] == r),
        ShipResource::Heat => assert(s[1] == r),
        ShipResource::Neutrons => assert(s[2] == r),
        ShipResource::Protium => assert(s[3] == r),
        ShipResource::Deuterium => assert(s[4] == r),
        ShipResource::Tritium => assert(s[5] == r),
        ShipResource::Helium3 => assert(s[6] == r),
        ShipResource::Helium4 => assert(s[7] == r),
        ShipResource::Lithium => assert(s[8] == r),
        ShipResource::Hydrogen => assert(s[9] == r),
        ShipResource::Oxygen => assert(s[10] == r),
        ShipResource::Carbon => assert(s[11] == r),
        ShipResource::Nitrogen => assert(s[12] == r),
        ShipResource::Water => assert(s[13] == r),
        ShipResource::CarbonDioxide => assert(s[14] == r),
        ShipResource::Methane => assert(s[15] == r),
    }
}

} // verus!
