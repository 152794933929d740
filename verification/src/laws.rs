//! The laws of the camera model.
//!
//! Each proof function here states one property of the update, resize and
//! reset operations, over the same spec functions the operations' contracts
//! use, so the statements compose with those contracts directly.
//!
//! Two properties are numerical rather than structural: that the orientation
//! stays near unit length and that the derived basis stays near orthonormal.
//! Their structural halves live in the operations' own contracts (every
//! composition is renormalized, which keeps each orientation component within
//! one unit, and the basis is recomputed from the orientation alone); the
//! numerical halves are checked by the test suite against exact expectations
//! computed in wide floating point.

use crate::camera::{
    apply_move_spec, camera_resize_spec, camera_update_spec, fwd_canonical_spec,
    move_intent_spec, orientation_after_spec, rgt_canonical_spec, up_canonical_spec,
    view_matrix_spec, CameraView,
};
use crate::fx::fx_mul_spec;
use crate::input::{intents_any, Intents};
use crate::matrix::{mat4_from_quat_spec, mat4_mul_v4_spec, mat4_translation_spec};
use crate::vector::{v3_add_spec, v3_scale_spec, v4_xyz_spec};
use vstd::prelude::*;

verus! {

/// A frame in which no channel fired leaves the camera exactly unchanged,
/// whatever the elapsed time.
pub proof fn lemma_update_without_intents(c: CameraView, it: Intents, dt: int)
    requires
        !intents_any(it),
    ensures
        camera_update_spec(c, it, dt) == c,
{
}

/// After a frame that moved, the stored matrices agree with the stored
/// orientation and position: the rotation matrix is derived from `axis`, the
/// translation matrix from `cam_pos`, and the view matrix is the product of
/// their inverses, recomputed independently from those two fields alone.
pub proof fn lemma_view_matrix_consistent(c: CameraView, it: Intents, dt: int)
    requires
        intents_any(it),
    ensures
        camera_update_spec(c, it, dt).rot_mat_inv == mat4_from_quat_spec(
            camera_update_spec(c, it, dt).axis,
        ),
        camera_update_spec(c, it, dt).trans_mat_inv == mat4_translation_spec(
            camera_update_spec(c, it, dt).cam_pos,
        ),
        camera_update_spec(c, it, dt).view_mat == view_matrix_spec(
            camera_update_spec(c, it, dt).rot_mat_inv,
            camera_update_spec(c, it, dt).cam_pos,
        ),
{
    reveal(apply_move_spec);
}

/// The translation of a frame moves along the basis of the frame's *new*
/// orientation: the displacement uses the `fwd`, `up` and `rgt` directions
/// recomputed after the frame's rotations, not the ones the frame started
/// with, so moving forward during a turn moves along the new heading.
pub proof fn lemma_translation_uses_new_basis(c: CameraView, it: Intents, dt: int)
    requires
        intents_any(it),
    ensures
        ({
            let c2 = camera_update_spec(c, it, dt);
            let mv = move_intent_spec(it, fx_mul_spec(c.cam_speed, dt));
            let rot = mat4_from_quat_spec(orientation_after_spec(c, it, fx_mul_spec(
                c.cam_yaw_speed, dt)));
            &&& c2.fwd == mat4_mul_v4_spec(rot, fwd_canonical_spec())
            &&& c2.rgt == mat4_mul_v4_spec(rot, rgt_canonical_spec())
            &&& c2.up == mat4_mul_v4_spec(rot, up_canonical_spec())
            &&& c2.cam_pos == v3_add_spec(
                v3_add_spec(
                    v3_add_spec(c.cam_pos, v3_scale_spec(v4_xyz_spec(c2.fwd), -mv.z)),
                    v3_scale_spec(v4_xyz_spec(c2.up), mv.y),
                ),
                v3_scale_spec(v4_xyz_spec(c2.rgt), mv.x),
            )
        }),
{
    reveal(apply_move_spec);
}

/// A resize changes the aspect ratio and the projection matrix alone; the
/// position, the orientation, the basis and the view matrix are untouched.
pub proof fn lemma_resize_changes_projection_alone(c: CameraView, width: int, height: int)
    ensures
        camera_resize_spec(c, width, height).cam_pos == c.cam_pos,
        camera_resize_spec(c, width, height).axis == c.axis,
        camera_resize_spec(c, width, height).fwd == c.fwd,
        camera_resize_spec(c, width, height).rgt == c.rgt,
        camera_resize_spec(c, width, height).up == c.up,
        camera_resize_spec(c, width, height).rot_mat_inv == c.rot_mat_inv,
        camera_resize_spec(c, width, height).trans_mat_inv == c.trans_mat_inv,
        camera_resize_spec(c, width, height).view_mat == c.view_mat,
        camera_resize_spec(c, width, height).near == c.near,
        camera_resize_spec(c, width, height).far == c.far,
        camera_resize_spec(c, width, height).fov == c.fov,
        camera_resize_spec(c, width, height).cam_speed == c.cam_speed,
        camera_resize_spec(c, width, height).cam_yaw_speed == c.cam_yaw_speed,
{
}

} // verus!
