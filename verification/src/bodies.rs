//! The catalog of looks: for each team, the shape and the surface that a unit
//! of that team is drawn with.
//!
//! The catalog does not care what a shape or a surface is. It keeps whatever
//! handles the renderer gave out and hands them back by team.

use crate::team::Team;
use vstd::prelude::*;

verus! {

/// The look of one team: a handle to its shape and a handle to its surface.
#[derive(Debug, PartialEq, Eq)]
pub struct UnitBody<M, T> {
    pub mesh: M,
    pub material: T,
}

/// One look per team. The catalog is filled once, when it is made, and only
/// read afterwards.
#[derive(Debug)]
pub struct UnitBodies<M, T> {
    rock: UnitBody<M, T>,
    paper: UnitBody<M, T>,
    scissors: UnitBody<M, T>,
}

impl<M, T> UnitBodies<M, T> {
    /// The look that the catalog holds for `team`. Every team has one.
    pub closed spec fn spec_body(&self, team: Team) -> UnitBody<M, T> {
        match team {
            Team::Rock => self.rock,
            Team::Paper => self.paper,
            Team::Scissors => self.scissors,
        }
    }

    /// Makes the catalog from the three looks.
    pub fn new(
        rock: UnitBody<M, T>,
        paper: UnitBody<M, T>,
        scissors: UnitBody<M, T>,
    ) -> (bodies: Self)
        ensures
            bodies.spec_body(Team::Rock) == rock,
            bodies.spec_body(Team::Paper) == paper,
            bodies.spec_body(Team::Scissors) == scissors,
    {
        UnitBodies { rock, paper, scissors }
    }

    /// Looks up the look of `team`.
    pub fn body(&self, team: Team) -> (body: &UnitBody<M, T>)
        ensures
            *body == self.spec_body(team),
    {
        match team {
            Team::Rock => &self.rock,
            Team::Paper => &self.paper,
            Team::Scissors => &self.scissors,
        }
    }
}

} // verus!
