use vstd::prelude::*;

verus! {

/// The fusion cycle the reactor burns.
#[derive(Debug, Copy, Clone, PartialEq, Eq, Hash)]
pub enum ReactorMode {
    /// D + He-3 -> He-4 + p: aneutronic, burns scarce He-3.
    DHe3,
    /// D + D -> T + p or He-3 + n: weak output, breeds T and He-3.
    DD,
    /// Catalyzed D-D: 6 D -> 2 He-4 + 2 p + 2 n, heaviest neutron load.
    CatDD,
}

impl Default for ReactorMode {
    fn default() -> (m: ReactorMode)
        ensures
            m == ReactorMode::DHe3,
    {
        ReactorMode::DHe3
    }
}

impl ReactorMode {
    /// The mode that `next` leads to.
    pub open spec fn spec_next(self) -> ReactorMode {
        match self {
            ReactorMode::DHe3 => ReactorMode::DD,
            ReactorMode::DD => ReactorMode::CatDD,
            ReactorMode::CatDD => ReactorMode::DHe3,
        }
    }

    /// The mode that `prev` leads to.
    pub open spec fn spec_prev(self) -> ReactorMode {
        match self {
            ReactorMode::DHe3 => ReactorMode::CatDD,
            ReactorMode::DD => ReactorMode::DHe3,
            ReactorMode::CatDD => ReactorMode::DD,
        }
    }

    /// Every mode, in the order the reactor screen lists them.
    pub const ALL: [ReactorMode; 3] = [ReactorMode::DHe3, ReactorMode::DD, ReactorMode::CatDD];

    pub fn label(&self) -> (s: &'static str)
        ensures
            *self == ReactorMode::DHe3 ==> s@ == "D-HE³"@,
            *self == ReactorMode::DD ==> s@ == "D-D"@,
            *self == ReactorMode::CatDD ==> s@ == "CAT-DD"@,
    {
        match self {
            ReactorMode::DHe3 => "D-HE³",
            ReactorMode::DD => "D-D",
            ReactorMode::CatDD => "CAT-DD",
        }
    }

    pub fn next(self) -> (m: ReactorMode)
        ensures
            m == self.spec_next(),
    {
        match self {
            ReactorMode::DHe3 => ReactorMode::DD,
            ReactorMode::DD => ReactorMode::CatDD,
            ReactorMode::CatDD => ReactorMode::DHe3,
        }
    }

    pub fn prev(self) -> (m: ReactorMode)
        ensures
            m == self.spec_prev(),
    {
        match self {
            ReactorMode::DHe3 => ReactorMode::CatDD,
            ReactorMode::DD => ReactorMode::DHe3,
            ReactorMode::CatDD => ReactorMode::DD,
        }
    }

    pub fn help_lines(&self) -> (lines: &'static [&'static str])
        ensures
            *self == ReactorMode::DHe3 ==> lines@.len() == 4 && lines@[0]@ == "IN   Deuterium + Helium-3"@
                && lines@[1]@ == "OUT  Helium-4 + Protium"@
                && lines@[2]@ == "Clean aneutronic burn, near-zero heat."@
                && lines@[3]@ == "Top power, but He-3 is scarce."@,
            *self == ReactorMode::DD ==> lines@.len() == 3 && lines@[0]@ == "IN   Deuterium"@
                && lines@[1]@ == "OUT  Tritium + Helium-3 + Protium + Neutrons"@
                && lines@[2]@ == "Weak output, breeds useful T + He-3."@,
            *self == ReactorMode::CatDD ==> lines@.len() == 3 && lines@[0]@ == "IN   Deuterium"@
                && lines@[1]@ == "OUT  Helium-4 + Protium + Neutrons"@
                && lines@[2]@ == "Max power from cheap D, heavy neutron flux."@,
    {
        match self {
            ReactorMode::DHe3 => &[
                "IN   Deuterium + Helium-3",
                "OUT  Helium-4 + Protium",
                "Clean aneutronic burn, near-zero heat.",
                "Top power, but He-3 is scarce.",
            ],
            ReactorMode::DD => &[
                "IN   Deuterium",
                "OUT  Tritium + Helium-3 + Protium + Neutrons",
                "Weak output, breeds useful T + He-3.",
            ],
            ReactorMode::CatDD => &[
                "IN   Deuterium",
                "OUT  Helium-4 + Protium + Neutrons",
                "Max power from cheap D, heavy neutron flux.",
            ],
        }
    }
}

/// `prev` undoes `next`, and `next` undoes `prev`.
pub proof fn lemma_next_prev_inverse(m: ReactorMode)
    ensures
        m.spec_next().spec_prev() == m,
        m.spec_prev().spec_next() == m,
{
}

/// Stepping forward three times through the modes returns to the start.
pub proof fn lemma_next_cycles_in_three(m: ReactorMode)
    ensures
        m.spec_next().spec_next().spec_next() == m,
        m.spec_next() != m,
{
}

} // verus!
