//! A unit's team, the change of team that it may be waiting for, and the two
//! steps that every frame takes on it: asking for a change when the player
//! presses the advance key, and carrying a waiting change out.

use crate::bodies::UnitBodies;
use crate::bodies::UnitBody;
use crate::input::advance_pressed;
use crate::input::spec_advance_pressed;
use crate::team::NewTeam;
use crate::team::Team;
use bevy::input::keyboard::KeyCode;
use bevy::input::ButtonInput;
use vstd::prelude::*;

verus! {

/// Marks a unit as the one that the keyboard steers.
#[derive(Clone, Copy, Debug, PartialEq, Eq, Structural)]
pub struct PlayerControl;

/// What the rules know of one unit.
#[derive(Clone, Copy, Debug, PartialEq, Eq, Structural)]
pub struct Unit {
    /// Present on the unit that the keyboard steers.
    pub control: Option<PlayerControl>,
    /// The unit's team. A unit has none until its first change is carried
    /// out.
    pub team: Option<Team>,
    /// The change of team that the unit is waiting for, if any.
    pub new_team: Option<NewTeam>,
}

impl Unit {
    /// The team that the unit counts as: its own, or paper while it has none.
    pub open spec fn spec_current_team(&self) -> Team {
        match self.team {
            Some(team) => team,
            None => Team::Paper,
        }
    }

    /// The unit after the advance-key step of one frame. If the key went down
    /// during the frame and the keyboard steers the unit, the unit now waits
    /// for a change to the prey of the team it counts as, whatever it was
    /// waiting for before. Otherwise nothing changes.
    pub open spec fn spec_advanced(&self, pressed: bool) -> Unit {
        if pressed && self.control is Some {
            Unit {
                control: self.control,
                team: self.team,
                new_team: Some(NewTeam(self.spec_current_team().prey())),
            }
        } else {
            *self
        }
    }

    /// The unit after the step that carries a waiting change out: the unit is
    /// on the team it was waiting for and waits for nothing. A unit that
    /// waits for nothing stays as it is.
    pub open spec fn spec_assigned(&self) -> Unit {
        match self.new_team {
            Some(NewTeam(team)) => Unit { control: self.control, team: Some(team), new_team: None },
            None => *self,
        }
    }

    /// The unit after `frames` further frames during which the advance key
    /// does not go down, as when it is kept held: each frame takes the
    /// advance-key step without a press and carries a waiting change out.
    pub open spec fn spec_after_idle_frames(&self, frames: nat) -> Unit
        decreases frames,
    {
        if frames == 0 {
            *self
        } else {
            self.spec_advanced(false).spec_assigned().spec_after_idle_frames((frames - 1) as nat)
        }
    }

    /// Returns the team that the unit counts as: its own, or paper while it
    /// has none.
    #[verifier::when_used_as_spec(spec_current_team)]
    pub fn current_team(&self) -> (team: Team)
        ensures
            team == self.spec_current_team(),
    {
        match self.team {
            Some(team) => team,
            None => Team::Paper,
        }
    }
}

/// Takes the advance-key step on `unit`, given whether the key went down
/// during this frame.
pub fn advance_team(pressed: bool, unit: &mut Unit)
    ensures
        *final(unit) == old(unit).spec_advanced(pressed),
{
    if pressed && unit.control.is_some() {
        unit.new_team = Some(NewTeam(unit.current_team().prey()));
    }
}

/// Takes the advance-key step on `unit` for the frame that `keys` describes.
pub fn test_advance_team(keys: &ButtonInput<KeyCode>, unit: &mut Unit)
    ensures
        *final(unit) == old(unit).spec_advanced(spec_advance_pressed(*keys)),
{
    advance_team(advance_pressed(keys), unit);
}

/// Carries out the change that `unit` is waiting for, if any, and returns the
/// look that the unit has to be given: that of its new team. The unit ends up
/// on the team that was asked for and waits for nothing. For a unit that
/// waits for nothing there is nothing to do and no look is returned.
pub fn update_unit_models<'a, M, T>(
    unit: &mut Unit,
    bodies: &'a UnitBodies<M, T>,
) -> (look: Option<&'a UnitBody<M, T>>)
    ensures
        *final(unit) == old(unit).spec_assigned(),
        match old(unit).new_team {
            Some(NewTeam(team)) => {
                &&& look == Some(&bodies.spec_body(team))
                &&& final(unit).team == Some(team)
                &&& final(unit).new_team is None
            },
            None => look is None,
        },
{
    match unit.new_team {
        Some(NewTeam(team)) => {
            unit.team = Some(team);
            unit.new_team = None;
            Some(bodies.body(team))
        },
        None => None,
    }
}

/// One press of the advance key moves the steered unit exactly one step along
/// the cycle, however long the key is then held. Take the frame of the press
/// and any number of further frames without a new press. As soon as the
/// waiting change has been carried out, the unit is on the prey of the team
/// it counted as when the key went down and waits for nothing; and one
/// further frame is enough for that to have happened.
pub proof fn lemma_one_press_one_step(unit: Unit, frames: nat)
    requires
        unit.control is Some,
    ensures
        ({
            let later = unit.spec_advanced(true).spec_after_idle_frames(frames);
            let settled = Unit {
                control: unit.control,
                team: Some(unit.spec_current_team().prey()),
                new_team: None,
            };
            &&& later.spec_assigned() == settled
            &&& frames >= 1 ==> later == settled
        }),
{
    if frames >= 1 {
        let settled = unit.spec_advanced(true).spec_advanced(false).spec_assigned();
        lemma_idle_frames_keep_a_settled_unit(settled, (frames - 1) as nat);
    }
}

/// A unit that waits for nothing is left alone by frames without a press.
pub proof fn lemma_idle_frames_keep_a_settled_unit(unit: Unit, frames: nat)
    requires
        unit.new_team is None,
    ensures
        unit.spec_after_idle_frames(frames) == unit,
    decreases frames,
{
    if frames > 0 {
        lemma_idle_frames_keep_a_settled_unit(unit, (frames - 1) as nat);
    }
}

/// Carrying a change out leaves the unit on the team that was asked for, with
/// nothing left to wait for; doing it again changes nothing more.
pub proof fn lemma_assignment_settles(unit: Unit, team: Team)
    requires
        unit.new_team == Some(NewTeam(team)),
    ensures
        unit.spec_assigned().team == Some(team),
        unit.spec_assigned().new_team is None,
        unit.spec_assigned().spec_assigned() == unit.spec_assigned(),
{
}

} // verus!
