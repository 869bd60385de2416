//! Per-frame camera and model state, and its update from the keys held
//! down this frame: fixed per-key deltas, with the scale and the camera
//! distance clamped to their ranges.

use vstd::prelude::*;
use crate::fixed::{fx_add, fx_add_spec, fx_sub, fx_sub_spec};
use crate::geom::Vec3;

verus! {

/// Raw fixed-point movement per frame per held arrow key (0.3).
pub const MOVE_SPEED: i64 = 19661;

/// Raw fixed-point rotation per frame per held rotation key (pi / 40).
pub const ROTATION_SPEED: i64 = 5147;

/// Raw fixed-point scale change per frame per held scale key (1.0).
pub const SCALE_SPEED: i64 = 65536;

/// Raw fixed-point camera-distance change per frame per held zoom key (0.3).
pub const ZOOM_SPEED: i64 = 19661;

/// The scale never goes below 1.0.
pub const SCALE_MIN: i64 = 65536;

/// The camera distance is clamped to [2.0, 20.0].
pub const CAMERA_MIN: i64 = 131072;

pub const CAMERA_MAX: i64 = 1310720;

/// Raw fixed-point auto-rotation angle advance per frame (0.015).
pub const AUTO_ROTATE_STEP: i64 = 983;

/// Which logical keys are held down this frame.
#[derive(Clone, Copy, Debug, PartialEq, Eq, Structural, Default)]
pub struct InputState {
    pub move_right: bool,
    pub move_left: bool,
    pub move_up: bool,
    pub move_down: bool,
    pub zoom_in: bool,
    pub zoom_out: bool,
    pub scale_up: bool,
    pub scale_down: bool,
    pub rot_x_neg: bool,
    pub rot_x_pos: bool,
    pub rot_y_neg: bool,
    pub rot_y_pos: bool,
    pub rot_z_neg: bool,
    pub rot_z_pos: bool,
}

/// The mutable scene state owned by the frame driver and threaded through
/// every frame's update.
#[derive(Clone, Copy, Debug, PartialEq, Eq, Structural)]
pub struct SceneState {
    pub translation: Vec3,
    pub rotation: Vec3,
    pub scale: i64,
    pub camera_distance: i64,
    pub auto_rotate: bool,
    pub time: i64,
}

impl SceneState {
    /// The state the renderer starts in.
    pub fn initial(scale: i64, camera_distance: i64, auto_rotate: bool) -> (s: SceneState)
        ensures
            s == (SceneState {
                translation: Vec3 { x: 0, y: 0, z: 0 },
                rotation: Vec3 { x: 0, y: 0, z: 0 },
                scale,
                camera_distance,
                auto_rotate,
                time: 0,
            }),
    {
        SceneState {
            translation: Vec3 { x: 0, y: 0, z: 0 },
            rotation: Vec3 { x: 0, y: 0, z: 0 },
            scale,
            camera_distance,
            auto_rotate,
            time: 0,
        }
    }
}

/// The state after one frame's key handling: held movement keys shift the
/// translation, zoom keys move the camera within [CAMERA_MIN, CAMERA_MAX],
/// scale keys grow the scale freely but never shrink it below SCALE_MIN,
/// and rotation keys turn each Euler angle by the fixed step.
pub open spec fn handle_input_spec(s: SceneState, inp: InputState) -> SceneState {
    let tx0 = if inp.move_right {
        fx_add_spec(s.translation.x as int, 19661) as i64
    } else {
        s.translation.x
    };
    let tx = if inp.move_left {
        fx_sub_spec(tx0 as int, 19661) as i64
    } else {
        tx0
    };
    let ty0 = if inp.move_up {
        fx_add_spec(s.translation.y as int, 19661) as i64
    } else {
        s.translation.y
    };
    let ty = if inp.move_down {
        fx_sub_spec(ty0 as int, 19661) as i64
    } else {
        ty0
    };
    let cam0 = if inp.zoom_in {
        let c = fx_sub_spec(s.camera_distance as int, 19661) as i64;
        if c >= 131072 {
            c
        } else {
            131072i64
        }
    } else {
        s.camera_distance
    };
    let cam = if inp.zoom_out {
        let c = fx_add_spec(cam0 as int, 19661) as i64;
        if c <= 1310720 {
            c
        } else {
            1310720i64
        }
    } else {
        cam0
    };
    let sc0 = if inp.scale_up {
        fx_add_spec(s.scale as int, 65536) as i64
    } else {
        s.scale
    };
    let sc = if inp.scale_down {
        let v = fx_sub_spec(sc0 as int, 65536) as i64;
        if v >= 65536 {
            v
        } else {
            65536i64
        }
    } else {
        sc0
    };
    let rx0 = if inp.rot_x_neg {
        fx_sub_spec(s.rotation.x as int, 5147) as i64
    } else {
        s.rotation.x
    };
    let rx = if inp.rot_x_pos {
        fx_add_spec(rx0 as int, 5147) as i64
    } else {
        rx0
    };
    let ry0 = if inp.rot_y_neg {
        fx_sub_spec(s.rotation.y as int, 5147) as i64
    } else {
        s.rotation.y
    };
    let ry = if inp.rot_y_pos {
        fx_add_spec(ry0 as int, 5147) as i64
    } else {
        ry0
    };
    let rz0 = if inp.rot_z_neg {
        fx_sub_spec(s.rotation.z as int, 5147) as i64
    } else {
        s.rotation.z
    };
    let rz = if inp.rot_z_pos {
        fx_add_spec(rz0 as int, 5147) as i64
    } else {
        rz0
    };
    SceneState {
        translation: Vec3 { x: tx, y: ty, z: s.translation.z },
        rotation: Vec3 { x: rx, y: ry, z: rz },
        scale: sc,
        camera_distance: cam,
        auto_rotate: s.auto_rotate,
        time: s.time,
    }
}

#[verifier::rlimit(100)]
pub fn handle_input(state: &mut SceneState, inp: &InputState)
    ensures
        *final(state) == handle_input_spec(*old(state), *inp),
{
    if inp.move_right {
        state.translation.x = fx_add(state.translation.x, MOVE_SPEED);
    }
    if inp.move_left {
        state.translation.x = fx_sub(state.translation.x, MOVE_SPEED);
    }
    if inp.move_up {
        state.translation.y = fx_add(state.translation.y, MOVE_SPEED);
    }
    if inp.move_down {
        state.translation.y = fx_sub(state.translation.y, MOVE_SPEED);
    }
    if inp.zoom_in {
        let c = fx_sub(state.camera_distance, ZOOM_SPEED);
        state.camera_distance = if c >= CAMERA_MIN {
            c
        } else {
            CAMERA_MIN
        };
    }
    if inp.zoom_out {
        let c = fx_add(state.camera_distance, ZOOM_SPEED);
        state.camera_distance = if c <= CAMERA_MAX {
            c
        } else {
            CAMERA_MAX
        };
    }
    if inp.scale_up {
        state.scale = fx_add(state.scale, SCALE_SPEED);
    }
    if inp.scale_down {
        let v = fx_sub(state.scale, SCALE_SPEED);
        state.scale = if v >= SCALE_MIN {
            v
        } else {
            SCALE_MIN
        };
    }
    if inp.rot_x_neg {
        state.rotation.x = fx_sub(state.rotation.x, ROTATION_SPEED);
    }
    if inp.rot_x_pos {
        state.rotation.x = fx_add(state.rotation.x, ROTATION_SPEED);
    }
    if inp.rot_y_neg {
        state.rotation.y = fx_sub(state.rotation.y, ROTATION_SPEED);
    }
    if inp.rot_y_pos {
        state.rotation.y = fx_add(state.rotation.y, ROTATION_SPEED);
    }
    if inp.rot_z_neg {
        state.rotation.z = fx_sub(state.rotation.z, ROTATION_SPEED);
    }
    if inp.rot_z_pos {
        state.rotation.z = fx_add(state.rotation.z, ROTATION_SPEED);
    }
}

/// The state after the auto-rotation step: an edge-triggered toggle press
/// flips the flag; while the flag is on, the running angle advances and
/// drives the y rotation.
pub open spec fn update_auto_rotation_spec(s: SceneState, toggled: bool) -> SceneState {
    let auto = if toggled {
        !s.auto_rotate
    } else {
        s.auto_rotate
    };
    if auto {
        let t = fx_add_spec(s.time as int, 983) as i64;
        SceneState {
            rotation: Vec3 { x: s.rotation.x, y: t, z: s.rotation.z },
            auto_rotate: auto,
            time: t,
            ..s
        }
    } else {
        SceneState { auto_rotate: auto, ..s }
    }
}

pub fn update_auto_rotation(state: &mut SceneState, toggled: bool)
    ensures
        *final(state) == update_auto_rotation_spec(*old(state), toggled),
{
    if toggled {
        state.auto_rotate = !state.auto_rotate;
    }
    if state.auto_rotate {
        state.time = fx_add(state.time, AUTO_ROTATE_STEP);
        state.rotation.y = state.time;
    }
}

/// The clamps hold and pin exactly: an update never takes the scale below
/// 1.0 or the camera distance outside [2.0, 20.0], and pushing past a bound
/// leaves the value pinned at exactly that bound.
pub proof fn lemma_clamps_hold(s: SceneState, inp: InputState)
    requires
        s.scale >= SCALE_MIN,
        CAMERA_MIN <= s.camera_distance <= CAMERA_MAX,
    ensures
        handle_input_spec(s, inp).scale >= SCALE_MIN,
        CAMERA_MIN <= handle_input_spec(s, inp).camera_distance <= CAMERA_MAX,
        inp.scale_down && !inp.scale_up && s.scale == SCALE_MIN ==> handle_input_spec(
            s,
            inp,
        ).scale == SCALE_MIN,
        inp.zoom_in && !inp.zoom_out && s.camera_distance == CAMERA_MIN ==> handle_input_spec(
            s,
            inp,
        ).camera_distance == CAMERA_MIN,
        inp.zoom_out && !inp.zoom_in && s.camera_distance == CAMERA_MAX ==> handle_input_spec(
            s,
            inp,
        ).camera_distance == CAMERA_MAX,
{
}

} // verus!
