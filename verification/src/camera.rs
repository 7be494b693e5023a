//! The first-person camera's orientation and render-target state.
//!
//! Orientation is a yaw/pitch pair, kept in microradians (millionths of a
//! radian) so that the wrap and clamp rules are exact integer arithmetic:
//! yaw accumulates and wraps into one turn either way, pitch is clamped
//! short of the poles to prevent gimbal flip.  The spherical-to-Cartesian
//! conversion, the view and projection matrices and the position vector are
//! floating-point work and live at the application layer; each frame the
//! camera hands back the signed move magnitudes the application applies
//! along its current axes.  The camera also owns the off-screen render
//! target's dimensions, which the display size never dictates.

use vstd::prelude::*;

verus! {

/// One full turn, two pi, in microradians.
pub const TWO_PI_URAD: i64 = 6_283_185;

/// The pitch bound: eighty-five hundredths of a quarter turn, in
/// microradians.  Pitch never passes it, so the view direction never
/// reaches the poles.
pub const PITCH_BOUND_URAD: i64 = 1_335_177;

/// Movement speed: world units per second of held key.
pub const MOVEMENT_SPEED: i64 = 2;

/// How many microradians one micro-unit of normalized mouse travel turns.
pub const MOUSE_SENSITIVITY: i64 = 100;

/// The largest admissible mouse delta per update: its scaled angle stays
/// within one turn, so a single wrap step suffices.
pub const MOUSE_DELTA_MAX: i64 = 62_831;

/// The largest admissible per-axis movement magnitude, in micro-units.
pub const AXIS_MAX: i64 = 0x4000_0000;

/// Yaw accumulates freely but is folded back by one turn whenever it
/// passes a full turn in either direction.
pub open spec fn spec_wrap_yaw(y: int) -> int {
    if y > TWO_PI_URAD {
        y - TWO_PI_URAD
    } else if y < -TWO_PI_URAD {
        y + TWO_PI_URAD
    } else {
        y
    }
}

/// Pitch is clamped to the bound, never beyond.
pub open spec fn spec_clamp_pitch(p: int) -> int {
    if p < -PITCH_BOUND_URAD {
        -PITCH_BOUND_URAD as int
    } else if p > PITCH_BOUND_URAD {
        PITCH_BOUND_URAD as int
    } else {
        p
    }
}

/// Saturates an angle into a symmetric range.
pub open spec fn spec_clamp(v: int, lo: int, hi: int) -> int {
    if v < lo {
        lo
    } else if v > hi {
        hi
    } else {
        v
    }
}

/// The signed move magnitudes of one update, in micro-units, along the
/// camera's forward, strafe and world-up axes.  The application layer
/// applies them to its position vector along the current view direction.
#[derive(Debug, Clone, Copy, PartialEq, Eq, Structural)]
pub struct CameraMove {
    pub forward: i64,
    pub strafe: i64,
    pub vertical: i64,
}

/// The camera: orientation in microradians, vertical field of view in
/// degrees, and the off-screen render target's dimensions.
#[derive(Debug, Clone, Copy, PartialEq, Eq)]
pub struct Camera {
    pub yaw: i64,
    pub pitch: i64,
    pub fovy_deg: u32,
    pub dimensions: (u32, u32),
}

impl Camera {
    /// Orientation in range and a non-degenerate render target.
    pub open spec fn wf(self) -> bool {
        &&& -TWO_PI_URAD <= self.yaw <= TWO_PI_URAD
        &&& -PITCH_BOUND_URAD <= self.pitch <= PITCH_BOUND_URAD
        &&& self.dimensions.0 >= 1
        &&& self.dimensions.1 >= 1
    }

    /// Builds a camera from an initial orientation, saturating it into
    /// range.  The application layer derives the initial yaw and pitch from
    /// the eye position and look-at target with its trigonometry and hands
    /// in microradians.
    pub fn new(yaw: i64, pitch: i64, fovy_deg: u32, dimensions: (u32, u32)) -> (r: Camera)
        requires
            dimensions.0 >= 1,
            dimensions.1 >= 1,
        ensures
            r.yaw == spec_clamp(yaw as int, -TWO_PI_URAD as int, TWO_PI_URAD as int),
            r.pitch == spec_clamp_pitch(pitch as int),
            r.fovy_deg == fovy_deg,
            r.dimensions == dimensions,
            r.wf(),
    {
        let y = if yaw < -TWO_PI_URAD {
            -TWO_PI_URAD
        } else if yaw > TWO_PI_URAD {
            TWO_PI_URAD
        } else {
            yaw
        };
        let p = if pitch < -PITCH_BOUND_URAD {
            -PITCH_BOUND_URAD
        } else if pitch > PITCH_BOUND_URAD {
            PITCH_BOUND_URAD
        } else {
            pitch
        };
        Camera { yaw: y, pitch: p, fovy_deg, dimensions }
    }

    /// Resizes the off-screen render target.  The application layer
    /// recreates the target's attachments at the new size before the next
    /// frame is drawn.
    pub fn set_dimensions(&mut self, dimensions: (u32, u32))
        requires
            dimensions.0 >= 1,
            dimensions.1 >= 1,
        ensures
            *final(self) == (Camera { dimensions, ..*old(self) }),
    {
        self.dimensions = dimensions;
    }

    /// One frame's orientation update and move computation.  The six
    /// magnitudes are non-negative micro-units, already scaled by elapsed
    /// time and the speed modifier; the mouse delta is in micro-units of
    /// normalized screen travel, already scaled by elapsed time.  Yaw turns
    /// by the scaled horizontal delta and wraps into one turn; pitch turns
    /// by the vertical delta and is clamped at the bound, never beyond.
    pub fn update(
        &mut self,
        front: i64,
        right: i64,
        back: i64,
        left: i64,
        up: i64,
        down: i64,
        mouse: (i64, i64),
    ) -> (mv: CameraMove)
        requires
            old(self).wf(),
            0 <= front <= AXIS_MAX,
            0 <= right <= AXIS_MAX,
            0 <= back <= AXIS_MAX,
            0 <= left <= AXIS_MAX,
            0 <= up <= AXIS_MAX,
            0 <= down <= AXIS_MAX,
            -MOUSE_DELTA_MAX <= mouse.0 <= MOUSE_DELTA_MAX,
            -MOUSE_DELTA_MAX <= mouse.1 <= MOUSE_DELTA_MAX,
        ensures
            final(self).yaw == spec_wrap_yaw(old(self).yaw + mouse.0 * MOUSE_SENSITIVITY),
            final(self).pitch == spec_clamp_pitch(old(self).pitch + mouse.1 * MOUSE_SENSITIVITY),
            final(self).fovy_deg == old(self).fovy_deg,
            final(self).dimensions == old(self).dimensions,
            final(self).wf(),
            old(self).pitch + mouse.1 * MOUSE_SENSITIVITY > PITCH_BOUND_URAD
                ==> final(self).pitch == PITCH_BOUND_URAD,
            old(self).pitch + mouse.1 * MOUSE_SENSITIVITY < -PITCH_BOUND_URAD
                ==> final(self).pitch == -PITCH_BOUND_URAD,
            mv.forward == MOVEMENT_SPEED * (front - back),
            mv.strafe == MOVEMENT_SPEED * (right - left),
            mv.vertical == MOVEMENT_SPEED * (up - down),
    {
        let yaw = self.yaw + mouse.0 * MOUSE_SENSITIVITY;
        self.yaw = if yaw > TWO_PI_URAD {
            yaw - TWO_PI_URAD
        } else if yaw < -TWO_PI_URAD {
            yaw + TWO_PI_URAD
        } else {
            yaw
        };

        let pitch = self.pitch + mouse.1 * MOUSE_SENSITIVITY;
        self.pitch = if pitch < -PITCH_BOUND_URAD {
            -PITCH_BOUND_URAD
        } else if pitch > PITCH_BOUND_URAD {
            PITCH_BOUND_URAD
        } else {
            pitch
        };

        CameraMove {
            forward: MOVEMENT_SPEED * (front - back),
            strafe: MOVEMENT_SPEED * (right - left),
            vertical: MOVEMENT_SPEED * (up - down),
        }
    }
}

/// Law: yaw wrap and pitch clamp.  From any in-range orientation, an
/// admissible update leaves yaw within one turn either way, and a delta
/// that would push pitch past the bound leaves it at exactly the bound,
/// never beyond.
pub proof fn lemma_yaw_wrap_pitch_clamp(yaw: int, pitch: int, dyaw: int, dpitch: int)
    requires
        -TWO_PI_URAD <= yaw <= TWO_PI_URAD,
        -PITCH_BOUND_URAD <= pitch <= PITCH_BOUND_URAD,
        -TWO_PI_URAD <= dyaw <= TWO_PI_URAD,
    ensures
        -TWO_PI_URAD <= spec_wrap_yaw(yaw + dyaw) <= TWO_PI_URAD,
        -PITCH_BOUND_URAD <= spec_clamp_pitch(pitch + dpitch) <= PITCH_BOUND_URAD,
        pitch + dpitch > PITCH_BOUND_URAD ==> spec_clamp_pitch(pitch + dpitch)
            == PITCH_BOUND_URAD,
        pitch + dpitch < -PITCH_BOUND_URAD ==> spec_clamp_pitch(pitch + dpitch)
            == -PITCH_BOUND_URAD,
        -PITCH_BOUND_URAD <= pitch + dpitch <= PITCH_BOUND_URAD ==> spec_clamp_pitch(
            pitch + dpitch,
        ) == pitch + dpitch,
{
}

} // verus!
