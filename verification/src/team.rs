//! The three teams and the cycle that orders them.

use vstd::prelude::*;

verus! {

/// One of the three teams. Each team defeats exactly one other team and is
/// defeated by the remaining one: rock blunts scissors, scissors cut paper,
/// paper wraps rock.
#[derive(Clone, Copy, Debug, PartialEq, Eq, Structural)]
pub enum Team {
    Rock,
    Paper,
    Scissors,
}

impl Team {
    /// The team that `self` defeats.
    pub open spec fn spec_prey(&self) -> Team {
        match *self {
            Team::Rock => Team::Scissors,
            Team::Paper => Team::Rock,
            Team::Scissors => Team::Paper,
        }
    }

    /// The team that defeats `self`.
    pub open spec fn spec_predator(&self) -> Team {
        match *self {
            Team::Rock => Team::Paper,
            Team::Paper => Team::Scissors,
            Team::Scissors => Team::Rock,
        }
    }

    /// Returns the team that `self` defeats.
    #[verifier::when_used_as_spec(spec_prey)]
    pub fn prey(&self) -> (r: Team)
        ensures
            r == self.spec_prey(),
    {
        match self {
            Team::Rock => Team::Scissors,
            Team::Paper => Team::Rock,
            Team::Scissors => Team::Paper,
        }
    }

    /// Returns the team that defeats `self`.
    #[verifier::when_used_as_spec(spec_predator)]
    pub fn predator(&self) -> (r: Team)
        ensures
            r == self.spec_predator(),
    {
        match self {
            Team::Rock => Team::Paper,
            Team::Paper => Team::Scissors,
            Team::Scissors => Team::Rock,
        }
    }
}

/// A request to put a unit on the given team. It is attached to the unit when
/// the change is asked for and taken off again when the change is carried out.
#[derive(Clone, Copy, Debug, PartialEq, Eq, Structural)]
pub struct NewTeam(pub Team);

/// `prey` and `predator` undo each other: the prey of a team's predator is the
/// team itself, and so is the predator of its prey.
pub proof fn lemma_prey_predator_inverse(t: Team)
    ensures
        t.predator().prey() == t,
        t.prey().predator() == t,
{
}

/// The teams form one cycle of length three: taking the prey three times, or
/// the predator three times, leads back to the starting team, and fewer steps
/// never do.
pub proof fn lemma_three_steps_close_the_cycle(t: Team)
    ensures
        t.prey().prey().prey() == t,
        t.predator().predator().predator() == t,
        t.prey() != t,
        t.prey().prey() != t,
        t.prey().prey() == t.predator(),
{
}

} // verus!
