use vstd::prelude::*;

verus! {

/// The random number generator of `fastrand`.
#[verifier::external_type_specification]
#[verifier::external_body]
pub struct ExRng(fastrand::Rng);

/// `fastrand::Rng::bool`: a random boolean. Nothing is promised of which.
#[verifier::external_body]
fn random_bool(rng: &mut fastrand::Rng) -> bool {
    rng.bool()
}

/// `fastrand::Rng::u8` on `low..=high`: a random value in that range, which
/// the crate's source draws as `low` plus a value below the range's length.
#[verifier::external_body]
pub(crate) fn random_u8_between(rng: &mut fastrand::Rng, low: u8, high: u8) -> (x: u8)
    requires
        low <= high,
    ensures
        low <= x <= high,
{
    rng.u8(low..=high)
}

/// `fastrand::Rng::u64` on `low..high`: a random value in that range; the
/// crate panics on an empty range.
#[verifier::external_body]
pub(crate) fn random_u64_below(rng: &mut fastrand::Rng, low: u64, high: u64) -> (x: u64)
    requires
        low < high,
    ensures
        low <= x < high,
{
    rng.u64(low..high)
}

/// Youngest age of a colonist at launch.
pub const MIN_AGE: u8 = 18;

/// Oldest age of a colonist at launch.
pub const MAX_AGE: u8 = 80;

#[derive(Debug, Copy, Clone, PartialEq, Eq, Hash, Structural)]
pub enum Sex {
    Female,
    Male,
}

impl Sex {
    /// Female or male, by a fair coin (`from_coin` of a random toss).
    pub fn random(rng: &mut fastrand::Rng) -> (s: Sex) {
        Sex::from_coin(random_bool(rng))
    }

    /// The sex that a coin toss gives: heads is female.
    pub open spec fn spec_from_coin(heads: bool) -> Sex {
        if heads {
            Sex::Female
        } else {
            Sex::Male
        }
    }

    /// The sex that a coin toss gives: heads is female.
    pub fn from_coin(heads: bool) -> (s: Sex)
        ensures
            s == Sex::spec_from_coin(heads),
    {
        if heads {
            Sex::Female
        } else {
            Sex::Male
        }
    }
}

/// A colonist asleep in a pod.
#[derive(Debug, Clone, PartialEq, Eq)]
pub struct Colonist {
    pub sex: Sex,
    pub age: u8,
    pub first_name: String,
    pub last_name: String,
}

/// First and last name, separated by one space.
pub open spec fn spec_full_name(first: Seq<char>, last: Seq<char>) -> Seq<char> {
    first + seq![' '] + last
}

impl Colonist {
    /// A launch age drawn uniformly from `MIN_AGE..=MAX_AGE`.
    pub fn random_age(rng: &mut fastrand::Rng) -> (age: u8)
        ensures
            MIN_AGE <= age <= MAX_AGE,
    {
        random_u8_between(rng, MIN_AGE, MAX_AGE)
    }

    pub fn full_name(&self) -> (name: String)
        ensures
            name@ == spec_full_name(self.first_name@, self.last_name@),
    {
        let name = self.first_name.clone();
        let name = name.concat(" ");
        let name = name.concat(self.last_name.as_str());
        proof {
            reveal_strlit(" ");
            assert(name@ =~= spec_full_name(self.first_name@, self.last_name@));
        }
        name
    }
}

} // verus!
