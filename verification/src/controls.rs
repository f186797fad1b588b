//! Control surfaces of a ship and the net demand they place on each axis.

use vstd::prelude::*;

verus! {

/// Translational thrusters, one flag per nozzle.
#[derive(Clone, Copy, Debug, PartialEq, Eq, Structural)]
pub struct Engines {
    pub front: bool,
    pub back: bool,
    pub left: bool,
    pub right: bool,
    pub up: bool,
    pub down: bool,
}

/// Rotation thrusters, one flag per nozzle.
#[derive(Clone, Copy, Debug, PartialEq, Eq, Structural)]
pub struct RotationEngines {
    pub left: bool,
    pub right: bool,
    pub up: bool,
    pub down: bool,
}

/// Net thrust demand per axis, in units of one thruster: each component is
/// -1, 0 or 1. The integrator adds `component * axis * dt * power` to the
/// velocity for each of the three axes.
#[derive(Clone, Copy, Debug, PartialEq, Eq, Structural)]
pub struct ThrustAxes {
    /// Along the heading vector.
    pub heading: i8,
    /// Along the ship's local vertical.
    pub vertical: i8,
    /// Along the ship's local lateral axis.
    pub lateral: i8,
}

/// Net rotation demand per angle, in units of one thruster: each component
/// is -1, 0 or 1. The integrator adds `component * dt * power` to the angle.
#[derive(Clone, Copy, Debug, PartialEq, Eq, Structural)]
pub struct TurnAxes {
    pub yaw: i8,
    pub pitch: i8,
}

/// What one active thruster contributes: 1 if the flag is set, else 0.
pub open spec fn pull(flag: bool) -> int {
    if flag {
        1
    } else {
        0
    }
}

/// `toward - away` for one pair of opposing thrusters.
fn net(toward: bool, away: bool) -> (r: i8)
    ensures
        r == pull(toward) - pull(away),
{
    if toward == away {
        0
    } else if toward {
        1
    } else {
        -1
    }
}

impl Engines {
    /// All thrusters off.
    pub open spec fn spec_idle() -> Engines {
        Engines { front: false, back: false, left: false, right: false, up: false, down: false }
    }

    /// Net demand along the heading: the back thruster pushes the ship
    /// forward, the front thruster pushes it back.
    pub open spec fn net_heading(self) -> int {
        pull(self.back) - pull(self.front)
    }

    /// Net demand along the local vertical: `down` adds it, `up` subtracts it.
    pub open spec fn net_vertical(self) -> int {
        pull(self.down) - pull(self.up)
    }

    /// Net demand along the local lateral axis: `left` adds it, `right`
    /// subtracts it.
    pub open spec fn net_lateral(self) -> int {
        pull(self.left) - pull(self.right)
    }

    /// All thrusters off: the state of a newly created ship.
    pub fn idle() -> (r: Engines)
        ensures
            r == Engines::spec_idle(),
    {
        Engines { front: false, back: false, left: false, right: false, up: false, down: false }
    }

    /// The net demand on each axis. Thrusters accumulate additively, so an
    /// opposing pair that is active together cancels exactly.
    pub fn thrust_axes(&self) -> (axes: ThrustAxes)
        ensures
            axes.heading == self.net_heading(),
            axes.vertical == self.net_vertical(),
            axes.lateral == self.net_lateral(),
    {
        ThrustAxes {
            heading: net(self.back, self.front),
            vertical: net(self.down, self.up),
            lateral: net(self.left, self.right),
        }
    }
}

impl RotationEngines {
    /// All rotation thrusters off.
    pub open spec fn spec_idle() -> RotationEngines {
        RotationEngines { left: false, right: false, up: false, down: false }
    }

    /// Net demand on the yaw angle: `left` increases it, `right` decreases it.
    pub open spec fn net_yaw(self) -> int {
        pull(self.left) - pull(self.right)
    }

    /// Net demand on the pitch angle: `down` increases it, `up` decreases it.
    pub open spec fn net_pitch(self) -> int {
        pull(self.down) - pull(self.up)
    }

    /// All rotation thrusters off: the state of a newly created ship.
    pub fn idle() -> (r: RotationEngines)
        ensures
            r == RotationEngines::spec_idle(),
    {
        RotationEngines { left: false, right: false, up: false, down: false }
    }

    /// The net demand on each angle. Opposing thrusters that are active
    /// together cancel exactly.
    pub fn turn_axes(&self) -> (axes: TurnAxes)
        ensures
            axes.yaw == self.net_yaw(),
            axes.pitch == self.net_pitch(),
    {
        TurnAxes { yaw: net(self.left, self.right), pitch: net(self.down, self.up) }
    }
}

} // verus!
