//! The integer configuration of a scrolling component. The scrolling itself
//! (positions as floating-point offsets) is tracked outside the verified crate.

use vstd::prelude::*;

use crate::graphics_component::MotionConfig;

verus! {

/// Scrolling parameters of one component on one canvas.
#[derive(Debug, PartialEq, Eq, Clone, Copy)]
pub struct ScrollingMovementConfig {
    distance_per_tick: u32,
    direction_degrees: u16,
    periodicity: u32,
    canvas_size: (u32, u32),
    rendered_component_size: (u32, u32),
    initial_pos: (i32, i32),
}

/// Error text for a motion that cannot be followed: scrolling further per
/// frame than the repeat distance, or else copies that repeat at no distance.
pub open spec fn unsupported_motion_msg(distance_per_tick: u32, periodicity: u32) -> Seq<char> {
    if distance_per_tick > periodicity {
        "Unsupported when distance_per_tick > periodicity"@
    } else {
        "Unsupported when periodicity is 0"@
    }
}

/// Whether a motion configuration can be followed frame by frame: a component
/// may not move further in one frame than the distance at which it repeats,
/// and its copies must repeat at some distance.
pub open spec fn motion_supported(m: MotionConfig) -> bool {
    m.distance_per_tick <= m.periodicity && m.periodicity > 0
}

/// Checks a motion configuration (see [`motion_supported`]); `Err` carries
/// [`unsupported_motion_msg`].
pub fn check_motion(distance_per_tick: u32, periodicity: u32) -> (r: Result<(), String>)
    ensures
        r is Ok <==> distance_per_tick <= periodicity && periodicity > 0,
        r matches Err(e) ==> e@ == unsupported_motion_msg(distance_per_tick, periodicity),
{
    if distance_per_tick > periodicity {
        let e = "Unsupported when distance_per_tick > periodicity".to_owned();
        proof {
            reveal_strlit("Unsupported when distance_per_tick > periodicity");
        }
        Err(e)
    } else if periodicity == 0 {
        let e = "Unsupported when periodicity is 0".to_owned();
        proof {
            reveal_strlit("Unsupported when periodicity is 0");
        }
        Err(e)
    } else {
        Ok(())
    }
}

impl ScrollingMovementConfig {
    /// Pixels moved per frame.
    pub closed spec fn spec_distance_per_tick(&self) -> u32 {
        self.distance_per_tick
    }

    /// Direction of motion in degrees.
    pub closed spec fn spec_direction_degrees(&self) -> u16 {
        self.direction_degrees
    }

    /// Distance between repeated copies.
    pub closed spec fn spec_periodicity(&self) -> u32 {
        self.periodicity
    }

    /// Canvas width and height.
    pub closed spec fn spec_canvas_size(&self) -> (u32, u32) {
        self.canvas_size
    }

    /// Width and height of the drawn component.
    pub closed spec fn spec_rendered_component_size(&self) -> (u32, u32) {
        self.rendered_component_size
    }

    /// Top-left corner of the component's first placement.
    pub closed spec fn spec_initial_pos(&self) -> (i32, i32) {
        self.initial_pos
    }

    /// The configuration for a component: its motion as given in the API, the
    /// canvas size, the size of the drawn component and the top-left corner of
    /// its bounding box, to which all offsets are relative.
    pub fn from_parsed_motion_config(
        motion_config: &MotionConfig,
        canvas_size: (u32, u32),
        rendered_component_size: (u32, u32),
        initial_position: (i32, i32),
    ) -> (c: Self)
        ensures
            c.spec_distance_per_tick() == motion_config.distance_per_tick,
            c.spec_direction_degrees() == motion_config.direction_degrees,
            c.spec_periodicity() == motion_config.periodicity,
            c.spec_canvas_size() == canvas_size,
            c.spec_rendered_component_size() == rendered_component_size,
            c.spec_initial_pos() == initial_position,
    {
        Self {
            distance_per_tick: motion_config.distance_per_tick,
            direction_degrees: motion_config.direction_degrees,
            periodicity: motion_config.periodicity,
            canvas_size,
            rendered_component_size,
            initial_pos: initial_position,
        }
    }

    /// Pixels moved per frame.
    pub fn distance_per_tick(&self) -> (d: u32)
        ensures
            d == self.spec_distance_per_tick(),
    {
        self.distance_per_tick
    }

    /// Direction of motion in degrees.
    pub fn direction_degrees(&self) -> (d: u16)
        ensures
            d == self.spec_direction_degrees(),
    {
        self.direction_degrees
    }

    /// Distance between repeated copies.
    pub fn periodicity(&self) -> (p: u32)
        ensures
            p == self.spec_periodicity(),
    {
        self.periodicity
    }

    /// Canvas width and height.
    pub fn canvas_size(&self) -> (s: (u32, u32))
        ensures
            s == self.spec_canvas_size(),
    {
        self.canvas_size
    }

    /// Width and height of the drawn component.
    pub fn rendered_component_size(&self) -> (s: (u32, u32))
        ensures
            s == self.spec_rendered_component_size(),
    {
        self.rendered_component_size
    }

    /// Top-left corner of the component's first placement.
    pub fn initial_pos(&self) -> (p: (i32, i32))
        ensures
            p == self.spec_initial_pos(),
    {
        self.initial_pos
    }

    /// Whether the motion can be tracked: refused when the component moves
    /// further per frame than the distance at which it repeats, or when its
    /// copies repeat at no distance.
    pub fn validate(&self) -> (r: Result<(), String>)
        ensures
            r is Ok <==> self.spec_distance_per_tick() <= self.spec_periodicity() && self.spec_periodicity() > 0,
            r matches Err(e) ==> e@ == unsupported_motion_msg(self.spec_distance_per_tick(), self.spec_periodicity()),
    {
        check_motion(self.distance_per_tick, self.periodicity)
    }
}

} // verus!
