//! The health classification carried by every person.

use vstd::prelude::*;

verus! {

/// Where a person stands with respect to the virus.
///
/// The classification is carried along by the simulation; nothing here moves a
/// person from one state to another.
#[derive(Copy, Clone, Debug, PartialEq, Eq, Structural)]
pub enum Health {
    /// This person has never had the virus.
    Healthy,
    /// This person has the virus and is contagious.
    Sick,
    /// This person has had the virus, is no longer contagious and cannot
    /// acquire it again.
    Recovered,
}

impl Default for Health {
    fn default() -> (h: Health)
        ensures
            h == Health::Healthy,
    {
        Health::Healthy
    }
}

} // verus!
