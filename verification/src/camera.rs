//! The fly camera: orientation, position and the derived matrices.
//!
//! The orientation quaternion `axis` is the single source of truth; the local
//! basis `fwd` / `rgt` / `up`, the rotation matrix `rot_mat_inv` and the view
//! matrix are recomputed from it (and the position) as one atomic step of
//! `update`, never adjusted separately. The view matrix is the product of the
//! inverses of the rotation and translation matrices; for these affine
//! matrices the inverses are the transpose and the opposite translation.
//!
//! `camera_update_spec` states the whole per-frame step: how each active
//! channel accumulates translation intent, how each active rotation channel
//! left-multiplies an incremental quaternion (about the frame's *starting*
//! basis, composed in channel order, renormalized after every composition),
//! and how the position then moves along the *recomputed* basis. A frame in
//! which no channel fired leaves the camera untouched.

use crate::fx::{
    fx_mul, fx_mul_spec, iabs, lemma_fx_mul_bound, lemma_fx_mul_units, SCALE,
};
use crate::input::{intents_any, Intents};
use crate::matrix::{
    mat4_from_quat_spec, mat4_mul_spec, mat4_mul_v4_spec, mat4_perspective_spec,
    mat4_translation_spec, mat4_transpose_spec, Matrix4, Matrix4View, FRUSTUM_LIMIT,
};
use crate::quaternion::{
    lemma_quat_mul_bound, quat_all_le, quat_from_axis_deg_spec, quat_mul_spec,
    quat_normalize_spec, Quaternion, QuaternionView,
};
use crate::vector::{
    v3_add_spec, v3_all_le, v3_neg_spec, v3_scale_spec, v4_all_le, v4_xyz_spec,
    lemma_v3_scale_bound, Vector3, Vector3View, Vector4, Vector4View,
};
use vstd::arithmetic::div_mod::{lemma_div_basics, lemma_div_is_ordered,
    lemma_div_is_ordered_by_denominator, lemma_div_pos_is_pos};
use vstd::prelude::*;

verus! {

/// The largest translation or rotation speed, in fixed-point units per second.
pub const SPEED_LIMIT: i64 = 0x40000000;

/// The largest elapsed time one update accepts, in fixed-point seconds.
pub const DT_LIMIT: i64 = 64 * SCALE;

/// The largest position component an update accepts.
pub const POS_LIMIT: i64 = 0x80000000000;

/// How far one update can move a position component.
pub const POS_STEP_LIMIT: i64 = 0x40000000000;

/// The default frustum: depth range 0.1 to 100 (fixed-point, 20 fractional
/// bits).
pub const DEFAULT_NEAR: i64 = 104857;

pub const DEFAULT_FAR: i64 = 100 * SCALE;

/// The default vertical field of view, 67 degrees.
pub const DEFAULT_FOV: i64 = 67 * SCALE;

/// The default translation speed, 3 units per second.
pub const DEFAULT_SPEED: i64 = 3 * SCALE;

/// The default rotation speed, 50 degrees per second.
pub const DEFAULT_YAW_SPEED: i64 = 50 * SCALE;

/// The default position, (0, -6.81, 3.96) in fixed point.
pub const DEFAULT_POS_Y: i64 = -7140802;

pub const DEFAULT_POS_Z: i64 = 4152360;

/// The default forward direction, (0, 0.98, -0.19, 0) in fixed point.
pub const DEFAULT_FWD_Y: i64 = 1027604;

pub const DEFAULT_FWD_Z: i64 = -199229;

/// The default up direction, (0, 0.22, 0.98, 0) in fixed point.
pub const DEFAULT_UP_Y: i64 = 230686;

pub const DEFAULT_UP_Z: i64 = 1027604;

/// The default orientation, the quaternion (0.77, 0.64, 0, 0) in fixed point.
pub const DEFAULT_AXIS_S: i64 = 807403;

pub const DEFAULT_AXIS_X: i64 = 671088;

/// The camera state: the frustum, the speeds, the position, the orientation,
/// and the matrices derived from them.
#[derive(Clone, Copy, Debug, PartialEq, Eq, Structural)]
pub struct Camera {
    pub near: i64,
    pub far: i64,
    pub fov: i64,
    pub aspect: i64,
    pub proj_mat: Matrix4,
    pub cam_speed: i64,
    pub cam_yaw_speed: i64,
    pub cam_pos: Vector3,
    pub fwd: Vector4,
    pub rgt: Vector4,
    pub up: Vector4,
    pub trans_mat_inv: Matrix4,
    pub axis: Quaternion,
    pub rot_mat_inv: Matrix4,
    pub view_mat: Matrix4,
}

/// The mathematical value of a `Camera`.
pub ghost struct CameraView {
    pub near: int,
    pub far: int,
    pub fov: int,
    pub aspect: int,
    pub proj_mat: Matrix4View,
    pub cam_speed: int,
    pub cam_yaw_speed: int,
    pub cam_pos: Vector3View,
    pub fwd: Vector4View,
    pub rgt: Vector4View,
    pub up: Vector4View,
    pub trans_mat_inv: Matrix4View,
    pub axis: QuaternionView,
    pub rot_mat_inv: Matrix4View,
    pub view_mat: Matrix4View,
}

impl View for Camera {
    type V = CameraView;

    open spec fn view(&self) -> CameraView {
        CameraView {
            near: self.near as int,
            far: self.far as int,
            fov: self.fov as int,
            aspect: self.aspect as int,
            proj_mat: self.proj_mat@,
            cam_speed: self.cam_speed as int,
            cam_yaw_speed: self.cam_yaw_speed as int,
            cam_pos: self.cam_pos@,
            fwd: self.fwd@,
            rgt: self.rgt@,
            up: self.up@,
            trans_mat_inv: self.trans_mat_inv@,
            axis: self.axis@,
            rot_mat_inv: self.rot_mat_inv@,
            view_mat: self.view_mat@,
        }
    }
}

/// The camera's well-formedness: a valid frustum, bounded speeds, an
/// orientation within one unit per component, and a bounded local basis.
pub open spec fn camera_wf(c: CameraView) -> bool {
    &&& 0 < c.near < c.far <= FRUSTUM_LIMIT as int
    &&& 0 < c.fov < 180 * (SCALE as int)
    &&& 0 < c.aspect
    &&& iabs(c.cam_speed) <= SPEED_LIMIT as int
    &&& iabs(c.cam_yaw_speed) <= SPEED_LIMIT as int
    &&& quat_all_le(c.axis, SCALE as int)
    &&& v4_all_le(c.fwd, 6 * (SCALE as int))
    &&& v4_all_le(c.rgt, 6 * (SCALE as int))
    &&& v4_all_le(c.up, 6 * (SCALE as int))
}

/// The canonical forward direction, a unit step along negative z.
pub open spec fn fwd_canonical_spec() -> Vector4View {
    Vector4View { x: 0, y: 0, z: -(SCALE as int), w: 0 }
}

/// The canonical right direction, a unit step along positive x.
pub open spec fn rgt_canonical_spec() -> Vector4View {
    Vector4View { x: SCALE as int, y: 0, z: 0, w: 0 }
}

/// The canonical up direction, a unit step along positive y.
pub open spec fn up_canonical_spec() -> Vector4View {
    Vector4View { x: 0, y: SCALE as int, z: 0, w: 0 }
}

/// The view matrix of a rotation matrix and a position: the transposed
/// rotation times the translation by the opposite position.
pub open spec fn view_matrix_spec(rot: Matrix4View, pos: Vector3View) -> Matrix4View {
    mat4_mul_spec(mat4_transpose_spec(rot), mat4_translation_spec(v3_neg_spec(pos)))
}

/// The translation intent a frame accumulates: each active channel adds one
/// step along its axis, forward counting negative z.
pub open spec fn move_intent_spec(it: Intents, step: int) -> Vector3View {
    Vector3View {
        x: (if it.move_right {
            step
        } else {
            0
        }) - (if it.move_left {
            step
        } else {
            0
        }),
        y: (if it.move_up {
            step
        } else {
            0
        }) - (if it.move_down {
            step
        } else {
            0
        }),
        z: (if it.move_backward {
            step
        } else {
            0
        }) - (if it.move_forward {
            step
        } else {
            0
        }),
    }
}

/// One rotation channel: left-multiply the orientation by the incremental
/// rotation of `angle` degrees about `about`, then renormalize.
#[verifier::opaque]
pub open spec fn rotate_about_spec(
    axis: QuaternionView,
    angle: int,
    about: Vector4View,
) -> QuaternionView {
    quat_normalize_spec(quat_mul_spec(quat_from_axis_deg_spec(angle, v4_xyz_spec(about)), axis))
}

/// The orientation after the frame's rotation channels, applied in channel
/// order. Each channel adds its signed step to a per-axis accumulator and
/// rotates about the frame's starting `up`, `rgt` or `fwd` direction, so two
/// opposite active channels cancel in the accumulator of the later one.
pub open spec fn orientation_after_spec(c: CameraView, it: Intents, rstep: int) -> QuaternionView {
    let yaw1 = if it.yaw_left {
        rstep
    } else {
        0
    };
    let a1 = if it.yaw_left {
        rotate_about_spec(c.axis, yaw1, c.up)
    } else {
        c.axis
    };
    let yaw2 = if it.yaw_right {
        yaw1 - rstep
    } else {
        yaw1
    };
    let a2 = if it.yaw_right {
        rotate_about_spec(a1, yaw2, c.up)
    } else {
        a1
    };
    let pitch1 = if it.pitch_up {
        rstep
    } else {
        0
    };
    let a3 = if it.pitch_up {
        rotate_about_spec(a2, pitch1, c.rgt)
    } else {
        a2
    };
    let pitch2 = if it.pitch_down {
        pitch1 - rstep
    } else {
        pitch1
    };
    let a4 = if it.pitch_down {
        rotate_about_spec(a3, pitch2, c.rgt)
    } else {
        a3
    };
    let roll1 = if it.roll_left {
        -rstep
    } else {
        0
    };
    let a5 = if it.roll_left {
        rotate_about_spec(a4, roll1, c.fwd)
    } else {
        a4
    };
    let roll2 = if it.roll_right {
        roll1 + rstep
    } else {
        roll1
    };
    let a6 = if it.roll_right {
        rotate_about_spec(a5, roll2, c.fwd)
    } else {
        a5
    };
    a6
}

/// The derived state after a frame that moved: the rotation matrix and the
/// basis recomputed from the (already turned) orientation, the position moved
/// along the *new* basis by the accumulated intent `mv`, and the translation
/// and view matrices rebuilt from the new position.
#[verifier::opaque]
pub open spec fn apply_move_spec(c: CameraView, mv: Vector3View) -> CameraView {
    let rot = mat4_from_quat_spec(c.axis);
    let fwd = mat4_mul_v4_spec(rot, fwd_canonical_spec());
    let rgt = mat4_mul_v4_spec(rot, rgt_canonical_spec());
    let up = mat4_mul_v4_spec(rot, up_canonical_spec());
    let pos1 = v3_add_spec(c.cam_pos, v3_scale_spec(v4_xyz_spec(fwd), -mv.z));
    let pos2 = v3_add_spec(pos1, v3_scale_spec(v4_xyz_spec(up), mv.y));
    let pos3 = v3_add_spec(pos2, v3_scale_spec(v4_xyz_spec(rgt), mv.x));
    CameraView {
        cam_pos: pos3,
        fwd,
        rgt,
        up,
        rot_mat_inv: rot,
        trans_mat_inv: mat4_translation_spec(pos3),
        view_mat: view_matrix_spec(rot, pos3),
        ..c
    }
}

/// The camera after one frame. With no active channel the camera is exactly
/// unchanged. Otherwise the orientation turns as `orientation_after_spec`
/// says, and everything derived follows as `apply_move_spec` says.
pub open spec fn camera_update_spec(c: CameraView, it: Intents, dt: int) -> CameraView {
    if !intents_any(it) {
        c
    } else {
        let step = fx_mul_spec(c.cam_speed, dt);
        let rstep = fx_mul_spec(c.cam_yaw_speed, dt);
        let turned = CameraView { axis: orientation_after_spec(c, it, rstep), ..c };
        apply_move_spec(turned, move_intent_spec(it, step))
    }
}

/// A fully consistent camera built from the given parameters: the projection
/// from the frustum, the rotation matrix from the orientation, the
/// translation matrix from the position, and the view matrix from both.
pub open spec fn camera_new_spec(
    near: int,
    far: int,
    fov: int,
    aspect: int,
    cam_speed: int,
    cam_yaw_speed: int,
    cam_pos: Vector3View,
    fwd: Vector4View,
    rgt: Vector4View,
    up: Vector4View,
    axis: QuaternionView,
) -> CameraView {
    let rot = mat4_from_quat_spec(axis);
    CameraView {
        near,
        far,
        fov,
        aspect,
        proj_mat: mat4_perspective_spec(fov, aspect, near, far),
        cam_speed,
        cam_yaw_speed,
        cam_pos,
        fwd,
        rgt,
        up,
        trans_mat_inv: mat4_translation_spec(cam_pos),
        axis,
        rot_mat_inv: rot,
        view_mat: view_matrix_spec(rot, cam_pos),
    }
}

/// The viewport's width over height ratio as a fixed-point scalar.
pub open spec fn aspect_ratio_spec(width: int, height: int) -> int {
    (width * (SCALE as int)) / height
}

/// The camera after a viewport resize: a new aspect ratio and a projection
/// rebuilt from it; every other field, the orientation and position among
/// them, is untouched.
pub open spec fn camera_resize_spec(c: CameraView, width: int, height: int) -> CameraView {
    let aspect = aspect_ratio_spec(width, height);
    CameraView {
        aspect,
        proj_mat: mat4_perspective_spec(c.fov, aspect, c.near, c.far),
        ..c
    }
}

/// The default camera for a viewport: the default frustum, speeds, position
/// and orientation, with the aspect ratio of the viewport.
pub open spec fn camera_default_spec(width: int, height: int) -> CameraView {
    camera_new_spec(
        DEFAULT_NEAR as int,
        DEFAULT_FAR as int,
        DEFAULT_FOV as int,
        aspect_ratio_spec(width, height),
        DEFAULT_SPEED as int,
        DEFAULT_YAW_SPEED as int,
        Vector3View { x: 0, y: DEFAULT_POS_Y as int, z: DEFAULT_POS_Z as int },
        Vector4View { x: 0, y: DEFAULT_FWD_Y as int, z: DEFAULT_FWD_Z as int, w: 0 },
        Vector4View { x: SCALE as int, y: 0, z: 0, w: 0 },
        Vector4View { x: 0, y: DEFAULT_UP_Y as int, z: DEFAULT_UP_Z as int, w: 0 },
        QuaternionView { s: DEFAULT_AXIS_S as int, x: DEFAULT_AXIS_X as int, y: 0, z: 0 },
    )
}

/// Applying a rotation matrix to the canonical directions picks out its
/// columns: the negated third column, the first and the second.
pub proof fn lemma_basis_from_rot(m: Matrix4View)
    ensures
        mat4_mul_v4_spec(m, fwd_canonical_spec()) == (Vector4View {
            x: -m.c2.x,
            y: -m.c2.y,
            z: -m.c2.z,
            w: -m.c2.w,
        }),
        mat4_mul_v4_spec(m, rgt_canonical_spec()) == m.c0,
        mat4_mul_v4_spec(m, up_canonical_spec()) == m.c1,
{
    lemma_fx_mul_units(m.c0.x);
    lemma_fx_mul_units(m.c0.y);
    lemma_fx_mul_units(m.c0.z);
    lemma_fx_mul_units(m.c0.w);
    lemma_fx_mul_units(m.c1.x);
    lemma_fx_mul_units(m.c1.y);
    lemma_fx_mul_units(m.c1.z);
    lemma_fx_mul_units(m.c1.w);
    lemma_fx_mul_units(m.c2.x);
    lemma_fx_mul_units(m.c2.y);
    lemma_fx_mul_units(m.c2.z);
    lemma_fx_mul_units(m.c2.w);
    lemma_fx_mul_units(m.c3.x);
    lemma_fx_mul_units(m.c3.y);
    lemma_fx_mul_units(m.c3.z);
    lemma_fx_mul_units(m.c3.w);
}

/// The canonical forward direction as a value.
fn fwd_canonical() -> (r: Vector4)
    ensures
        r@ == fwd_canonical_spec(),
{
    Vector4 { x: 0, y: 0, z: -SCALE, w: 0 }
}

/// The canonical right direction as a value.
fn rgt_canonical() -> (r: Vector4)
    ensures
        r@ == rgt_canonical_spec(),
{
    Vector4 { x: SCALE, y: 0, z: 0, w: 0 }
}

/// The canonical up direction as a value.
fn up_canonical() -> (r: Vector4)
    ensures
        r@ == up_canonical_spec(),
{
    Vector4 { x: 0, y: SCALE, z: 0, w: 0 }
}

/// One rotation channel applied to the orientation: left-multiply by the
/// incremental rotation about `about` and renormalize.
fn rotate_channel(axis: &Quaternion, angle: i64, about: &Vector4) -> (r: Quaternion)
    requires
        quat_all_le(axis@, SCALE as int),
        v4_all_le(about@, 6 * (SCALE as int)),
        -crate::trig::ANGLE_LIMIT <= angle <= crate::trig::ANGLE_LIMIT,
    ensures
        r@ == rotate_about_spec(axis@, angle as int, about@),
        quat_all_le(r@, SCALE as int),
{
    proof {
        reveal(rotate_about_spec);
    }
    let q = Quaternion::from_axis_deg(angle, &about.xyz());
    let t = q.mul(axis);
    proof {
        lemma_quat_mul_bound(q@, axis@, 6 * (SCALE as int), SCALE as int);
    }
    t.normalize()
}

/// The viewport's aspect ratio as a fixed-point scalar. The height may not
/// exceed `SCALE` times the width, so the ratio stays positive.
pub fn aspect_ratio(width: u32, height: u32) -> (r: i64)
    requires
        0 < width,
        0 < height,
        height as int <= width as int * (SCALE as int),
    ensures
        r as int == aspect_ratio_spec(width as int, height as int),
        1 <= r <= 0x100000000000000,
{
    proof {
        assert((width as int) * (SCALE as int) <= 0x100000000000000) by (nonlinear_arith)
            requires
                width as int <= 0x100000000,
        ;
        lemma_div_pos_is_pos((width as int) * (SCALE as int), height as int);
        lemma_div_is_ordered_by_denominator((width as int) * (SCALE as int), 1, height as int);
        lemma_div_basics((width as int) * (SCALE as int));
        lemma_div_is_ordered(height as int, (width as int) * (SCALE as int), height as int);
        lemma_div_basics(height as int);
    }
    let num: u64 = (width as u64) * (SCALE as u64);
    let q: u64 = num / (height as u64);
    q as i64
}

impl Camera {
    /// Build a fully consistent camera. The frustum must be valid, the speeds
    /// and position bounded, the orientation a near-unit quaternion and the
    /// basis directions near-unit vectors (the caller's contract, as the
    /// constructor does not renormalize them).
    pub fn new(
        near: i64,
        far: i64,
        fov: i64,
        aspect: i64,
        cam_speed: i64,
        cam_yaw_speed: i64,
        cam_pos: Vector3,
        fwd: Vector4,
        rgt: Vector4,
        up: Vector4,
        axis: Quaternion,
    ) -> (r: Camera)
        requires
            0 < near < far <= FRUSTUM_LIMIT,
            0 < fov < 180 * SCALE,
            0 < aspect,
            iabs(cam_speed as int) <= SPEED_LIMIT as int,
            iabs(cam_yaw_speed as int) <= SPEED_LIMIT as int,
            v3_all_le(cam_pos@, POS_LIMIT as int),
            v4_all_le(fwd@, 6 * (SCALE as int)),
            v4_all_le(rgt@, 6 * (SCALE as int)),
            v4_all_le(up@, 6 * (SCALE as int)),
            quat_all_le(axis@, SCALE as int),
        ensures
            r@ == camera_new_spec(
                near as int,
                far as int,
                fov as int,
                aspect as int,
                cam_speed as int,
                cam_yaw_speed as int,
                cam_pos@,
                fwd@,
                rgt@,
                up@,
                axis@,
            ),
            camera_wf(r@),
            v3_all_le(r@.cam_pos, POS_LIMIT as int),
    {
        let proj_mat = Matrix4::from_perspective_fov(fov, aspect, near, far);
        let trans_mat_inv = Matrix4::from_translation(&cam_pos);
        let rot_mat_inv = Matrix4::from_quat(&axis);
        let view_mat = rot_mat_inv.transpose().mul(&Matrix4::from_translation(&cam_pos.neg()));
        Camera {
            near,
            far,
            fov,
            aspect,
            proj_mat,
            cam_speed,
            cam_yaw_speed,
            cam_pos,
            fwd,
            rgt,
            up,
            trans_mat_inv,
            axis,
            rot_mat_inv,
            view_mat,
        }
    }

    /// Recompute everything the orientation and the accumulated intent
    /// `(mx, my, mz)` derive: the rotation matrix, the basis, the position
    /// and the translation and view matrices.
    fn apply_move(&mut self, mx: i64, my: i64, mz: i64)
        requires
            quat_all_le(old(self)@.axis, SCALE as int),
            v3_all_le(old(self)@.cam_pos, POS_LIMIT as int),
            iabs(mx as int) <= 0x2000000000,
            iabs(my as int) <= 0x2000000000,
            iabs(mz as int) <= 0x2000000000,
        ensures
            final(self)@ == apply_move_spec(
                old(self)@,
                Vector3View { x: mx as int, y: my as int, z: mz as int },
            ),
            final(self)@.near == old(self)@.near,
            final(self)@.far == old(self)@.far,
            final(self)@.fov == old(self)@.fov,
            final(self)@.aspect == old(self)@.aspect,
            final(self)@.proj_mat == old(self)@.proj_mat,
            final(self)@.cam_speed == old(self)@.cam_speed,
            final(self)@.cam_yaw_speed == old(self)@.cam_yaw_speed,
            final(self)@.axis == old(self)@.axis,
            v4_all_le(final(self)@.fwd, 6 * (SCALE as int)),
            v4_all_le(final(self)@.rgt, 6 * (SCALE as int)),
            v4_all_le(final(self)@.up, 6 * (SCALE as int)),
            v3_all_le(final(self)@.cam_pos, POS_LIMIT as int + POS_STEP_LIMIT as int),
    {
        proof {
            reveal(apply_move_spec);
        }
        let rot = Matrix4::from_quat(&self.axis);
        self.rot_mat_inv = rot;
        proof {
            lemma_basis_from_rot(rot@);
        }
        self.fwd = rot.mul_v4(&fwd_canonical());
        self.rgt = rot.mul_v4(&rgt_canonical());
        self.up = rot.mul_v4(&up_canonical());
        proof {
            lemma_v3_scale_bound(v4_xyz_spec(self@.fwd), -(mz as int), 6 * (SCALE as int),
                0x2000000000);
            lemma_v3_scale_bound(v4_xyz_spec(self@.up), my as int, 6 * (SCALE as int),
                0x2000000000);
            lemma_v3_scale_bound(v4_xyz_spec(self@.rgt), mx as int, 6 * (SCALE as int),
                0x2000000000);
        }
        let p1 = self.cam_pos.add(&self.fwd.xyz().scale(-mz));
        let p2 = p1.add(&self.up.xyz().scale(my));
        let p3 = p2.add(&self.rgt.xyz().scale(mx));
        self.cam_pos = p3;
        self.trans_mat_inv = Matrix4::from_translation(&self.cam_pos);
        self.view_mat = self.rot_mat_inv.transpose().mul(
            &Matrix4::from_translation(&self.cam_pos.neg()),
        );
    }

    /// Apply one frame's intents to the camera. Translation channels
    /// accumulate `cam_speed * elapsed_seconds` along the local axes;
    /// rotation channels turn the orientation by `cam_yaw_speed *
    /// elapsed_seconds` degrees about the frame's starting basis directions,
    /// in channel order. If anything fired, the basis, the rotation matrix,
    /// the position and the translation and view matrices are recomputed; if
    /// nothing fired, the camera is left exactly as it was.
    #[verifier::rlimit(100)]
    pub fn update(&mut self, intents: &Intents, elapsed_seconds: i64)
        requires
            camera_wf(old(self)@),
            0 <= elapsed_seconds <= DT_LIMIT,
            v3_all_le(old(self)@.cam_pos, POS_LIMIT as int),
        ensures
            final(self)@ == camera_update_spec(old(self)@, *intents, elapsed_seconds as int),
            camera_wf(final(self)@),
            v3_all_le(final(self)@.cam_pos, POS_LIMIT as int + POS_STEP_LIMIT as int),
    {
        let ghost c0 = self@;
        let ghost dt = elapsed_seconds as int;
        proof {
            lemma_fx_mul_bound(c0.cam_speed, dt, SPEED_LIMIT as int, DT_LIMIT as int);
            lemma_fx_mul_bound(c0.cam_yaw_speed, dt, SPEED_LIMIT as int, DT_LIMIT as int);
        }
        let step = fx_mul(self.cam_speed, elapsed_seconds);
        let rstep = fx_mul(self.cam_yaw_speed, elapsed_seconds);

        let mut cam_moved = false;
        let mut mx: i64 = 0;
        let mut my: i64 = 0;
        let mut mz: i64 = 0;
        if intents.move_left {
            mx = mx - step;
            cam_moved = true;
        }
        if intents.move_right {
            mx = mx + step;
            cam_moved = true;
        }
        if intents.move_up {
            my = my + step;
            cam_moved = true;
        }
        if intents.move_down {
            my = my - step;
            cam_moved = true;
        }
        if intents.move_forward {
            mz = mz - step;
            cam_moved = true;
        }
        if intents.move_backward {
            mz = mz + step;
            cam_moved = true;
        }
        proof {
            let mv = move_intent_spec(*intents, step as int);
            assert(mx as int == mv.x && my as int == mv.y && mz as int == mv.z);
        }

        let ghost rs = rstep as int;
        let ghost yaw1 = if intents.yaw_left { rs } else { 0int };
        let ghost a1 = if intents.yaw_left {
            rotate_about_spec(c0.axis, yaw1, c0.up)
        } else {
            c0.axis
        };
        let ghost yaw2 = if intents.yaw_right { yaw1 - rs } else { yaw1 };
        let ghost a2 = if intents.yaw_right { rotate_about_spec(a1, yaw2, c0.up) } else { a1 };
        let ghost pitch1 = if intents.pitch_up { rs } else { 0int };
        let ghost a3 = if intents.pitch_up { rotate_about_spec(a2, pitch1, c0.rgt) } else { a2 };
        let ghost pitch2 = if intents.pitch_down { pitch1 - rs } else { pitch1 };
        let ghost a4 = if intents.pitch_down {
            rotate_about_spec(a3, pitch2, c0.rgt)
        } else {
            a3
        };
        let ghost roll1 = if intents.roll_left { -rs } else { 0int };
        let ghost a5 = if intents.roll_left { rotate_about_spec(a4, roll1, c0.fwd) } else { a4 };
        let ghost roll2 = if intents.roll_right { roll1 + rs } else { roll1 };
        let ghost a6 = if intents.roll_right {
            rotate_about_spec(a5, roll2, c0.fwd)
        } else {
            a5
        };

        let mut cam_yaw: i64 = 0;
        let mut cam_pitch: i64 = 0;
        let mut cam_roll: i64 = 0;
        if intents.yaw_left {
            cam_yaw = cam_yaw + rstep;
            cam_moved = true;
            self.axis = rotate_channel(&self.axis, cam_yaw, &self.up);
        }
        proof {
            assert(cam_yaw as int == yaw1 && self@.axis == a1);
        }
        if intents.yaw_right {
            cam_yaw = cam_yaw - rstep;
            cam_moved = true;
            self.axis = rotate_channel(&self.axis, cam_yaw, &self.up);
        }
        proof {
            assert(cam_yaw as int == yaw2 && self@.axis == a2);
        }
        if intents.pitch_up {
            cam_pitch = cam_pitch + rstep;
            cam_moved = true;
            self.axis = rotate_channel(&self.axis, cam_pitch, &self.rgt);
        }
        proof {
            assert(cam_pitch as int == pitch1 && self@.axis == a3);
        }
        if intents.pitch_down {
            cam_pitch = cam_pitch - rstep;
            cam_moved = true;
            self.axis = rotate_channel(&self.axis, cam_pitch, &self.rgt);
        }
        proof {
            assert(cam_pitch as int == pitch2 && self@.axis == a4);
        }
        if intents.roll_left {
            cam_roll = cam_roll - rstep;
            cam_moved = true;
            self.axis = rotate_channel(&self.axis, cam_roll, &self.fwd);
        }
        proof {
            assert(cam_roll as int == roll1 && self@.axis == a5);
        }
        if intents.roll_right {
            cam_roll = cam_roll + rstep;
            cam_moved = true;
            self.axis = rotate_channel(&self.axis, cam_roll, &self.fwd);
        }
        proof {
            assert(cam_roll as int == roll2 && self@.axis == a6);
            assert(orientation_after_spec(c0, *intents, rs) == a6);
            assert(cam_moved == intents_any(*intents));
            assert(self@ == (CameraView { axis: a6, ..c0 }));
        }

        if cam_moved {
            self.apply_move(mx, my, mz);
        }
    }

    /// Recompute the aspect ratio and the projection matrix for a resized
    /// viewport; nothing else changes, neither orientation nor position.
    pub fn on_resize(&mut self, width: u32, height: u32)
        requires
            camera_wf(old(self)@),
            0 < width,
            0 < height,
            height as int <= width as int * (SCALE as int),
        ensures
            final(self)@ == camera_resize_spec(old(self)@, width as int, height as int),
            camera_wf(final(self)@),
    {
        let aspect = aspect_ratio(width, height);
        self.aspect = aspect;
        self.proj_mat = Matrix4::from_perspective_fov(self.fov, aspect, self.near, self.far);
    }

    /// Replace the whole camera state by a freshly constructed default
    /// camera for the viewport; no field of the old state is kept.
    pub fn reset(&mut self, width: u32, height: u32)
        requires
            0 < width,
            0 < height,
            height as int <= width as int * (SCALE as int),
        ensures
            final(self)@ == camera_default_spec(width as int, height as int),
            camera_wf(final(self)@),
            v3_all_le(final(self)@.cam_pos, POS_LIMIT as int),
    {
        *self = create_camera(width, height);
    }
}

/// The default camera for a viewport of the given size.
pub fn create_camera(width: u32, height: u32) -> (r: Camera)
    requires
        0 < width,
        0 < height,
        height as int <= width as int * (SCALE as int),
    ensures
        r@ == camera_default_spec(width as int, height as int),
        camera_wf(r@),
        v3_all_le(r@.cam_pos, POS_LIMIT as int),
{
    let aspect = aspect_ratio(width, height);
    Camera::new(
        DEFAULT_NEAR,
        DEFAULT_FAR,
        DEFAULT_FOV,
        aspect,
        DEFAULT_SPEED,
        DEFAULT_YAW_SPEED,
        Vector3 { x: 0, y: DEFAULT_POS_Y, z: DEFAULT_POS_Z },
        Vector4 { x: 0, y: DEFAULT_FWD_Y, z: DEFAULT_FWD_Z, w: 0 },
        Vector4 { x: SCALE, y: 0, z: 0, w: 0 },
        Vector4 { x: 0, y: DEFAULT_UP_Y, z: DEFAULT_UP_Z, w: 0 },
        Quaternion { s: DEFAULT_AXIS_S, x: DEFAULT_AXIS_X, y: 0, z: 0 },
    )
}

} // verus!
