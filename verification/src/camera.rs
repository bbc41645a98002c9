//! The camera: lens parameters, a view matrix, and lazily refreshed
//! caches of the last projection matrices.

use vstd::prelude::*;
use crate::linear_algebra::{identity, identity_v, ortho_entry, orthographic, persp_entry, perspective, Matrix4};
use crate::scalar::{div_v, q_div, ONE};

verus! {

/// A camera holding lens parameters, a view matrix and the two projection
/// matrices it computed last. The cached projections are refreshed only by
/// the explicit update calls: a caller that changes the viewport and skips
/// the update keeps reading the stale projections, by design.
#[derive(Debug, Clone)]
pub struct Camera {
    fov: i64,
    far: i64,
    near: i64,
    aspect_ratio: i64,
    view: Matrix4,
    last_perspective: Matrix4,
    last_orthographic: Matrix4,
}

/// The aspect ratio of a draw size: width over height as a scalar quotient
/// (saturating when the height is zero).
pub open spec fn aspect_v(draw_size: [i32; 2]) -> int {
    div_v((draw_size[0] as int) * 0x1_0000_0000, (draw_size[1] as int) * 0x1_0000_0000)
}

impl Camera {
    /// The field of view, in radians.
    pub closed spec fn spec_fov(self) -> i64 {
        self.fov
    }

    /// The far clip distance.
    pub closed spec fn spec_far(self) -> i64 {
        self.far
    }

    /// The near clip distance.
    pub closed spec fn spec_near(self) -> i64 {
        self.near
    }

    /// The cached aspect ratio.
    pub closed spec fn spec_aspect_ratio(self) -> i64 {
        self.aspect_ratio
    }

    /// The view matrix.
    pub closed spec fn spec_view(self) -> Matrix4 {
        self.view
    }

    /// The cached perspective projection.
    pub closed spec fn spec_last_perspective(self) -> Matrix4 {
        self.last_perspective
    }

    /// The cached orthographic projection.
    pub closed spec fn spec_last_orthographic(self) -> Matrix4 {
        self.last_orthographic
    }

    /// Builds a camera: computes the aspect ratio of `draw_size`, starts
    /// from the identity view, and eagerly fills both projection caches
    /// from the construction-time parameters.
    pub fn new(fov: i64, far: i64, near: i64, draw_size: [i32; 2]) -> (r: Camera)
        ensures
            r.spec_fov() == fov,
            r.spec_far() == far,
            r.spec_near() == near,
            r.spec_aspect_ratio() == aspect_v(draw_size),
            forall|i: int, j: int|
                0 <= i < 4 && 0 <= j < 4 ==> #[trigger] r.spec_view()[i][j] == identity_v(i, j),
            forall|i: int, j: int|
                0 <= i < 4 && 0 <= j < 4 ==> #[trigger] r.spec_last_perspective()[i][j]
                    == persp_entry(fov, aspect_v(draw_size) as i64, near, far, i, j),
            forall|i: int, j: int|
                0 <= i < 4 && 0 <= j < 4 ==> #[trigger] r.spec_last_orthographic()[i][j]
                    == ortho_entry(draw_size[0], draw_size[1], -0x1_0000_0000i64, ONE, i, j),
    {
        let aspect_ratio: i64 = q_div((draw_size[0] as i64) * ONE, (draw_size[1] as i64) * ONE);
        Camera {
            fov,
            far,
            near,
            aspect_ratio,
            view: identity(),
            last_perspective: perspective(fov, aspect_ratio, near, far),
            last_orthographic: orthographic(draw_size[0], draw_size[1], -ONE, ONE),
        }
    }

    /// Recomputes the aspect ratio for a new draw size and refreshes both
    /// projection caches (both, even though only the perspective depends on
    /// the aspect ratio).
    pub fn update_aspect_ratio(&mut self, draw_size: [i32; 2])
        ensures
            final(self).spec_fov() == old(self).spec_fov(),
            final(self).spec_far() == old(self).spec_far(),
            final(self).spec_near() == old(self).spec_near(),
            final(self).spec_view() == old(self).spec_view(),
            final(self).spec_aspect_ratio() == aspect_v(draw_size),
            forall|i: int, j: int|
                0 <= i < 4 && 0 <= j < 4 ==> #[trigger] final(self).spec_last_perspective()[i][j]
                    == persp_entry(
                    old(self).spec_fov(),
                    aspect_v(draw_size) as i64,
                    old(self).spec_near(),
                    old(self).spec_far(),
                    i,
                    j,
                ),
            forall|i: int, j: int|
                0 <= i < 4 && 0 <= j < 4 ==> #[trigger] final(self).spec_last_orthographic()[i][j]
                    == ortho_entry(draw_size[0], draw_size[1], -0x1_0000_0000i64, ONE, i, j),
    {
        let aspect_ratio: i64 = q_div((draw_size[0] as i64) * ONE, (draw_size[1] as i64) * ONE);
        self.aspect_ratio = aspect_ratio;
        self.update_perspective();
        self.update_orthographic(draw_size);
    }

    /// Recomputes the cached perspective projection from the current lens
    /// parameters; the orthographic cache is left as it was.
    pub fn update_perspective(&mut self)
        ensures
            final(self).spec_fov() == old(self).spec_fov(),
            final(self).spec_far() == old(self).spec_far(),
            final(self).spec_near() == old(self).spec_near(),
            final(self).spec_aspect_ratio() == old(self).spec_aspect_ratio(),
            final(self).spec_view() == old(self).spec_view(),
            final(self).spec_last_orthographic() == old(self).spec_last_orthographic(),
            forall|i: int, j: int|
                0 <= i < 4 && 0 <= j < 4 ==> #[trigger] final(self).spec_last_perspective()[i][j]
                    == persp_entry(
                    old(self).spec_fov(),
                    old(self).spec_aspect_ratio(),
                    old(self).spec_near(),
                    old(self).spec_far(),
                    i,
                    j,
                ),
    {
        self.last_perspective = perspective(self.fov, self.aspect_ratio, self.near, self.far);
    }

    /// Recomputes the cached orthographic projection for a draw size; the
    /// perspective cache and the aspect ratio are left as they were.
    pub fn update_orthographic(&mut self, draw_size: [i32; 2])
        ensures
            final(self).spec_fov() == old(self).spec_fov(),
            final(self).spec_far() == old(self).spec_far(),
            final(self).spec_near() == old(self).spec_near(),
            final(self).spec_aspect_ratio() == old(self).spec_aspect_ratio(),
            final(self).spec_view() == old(self).spec_view(),
            final(self).spec_last_perspective() == old(self).spec_last_perspective(),
            forall|i: int, j: int|
                0 <= i < 4 && 0 <= j < 4 ==> #[trigger] final(self).spec_last_orthographic()[i][j]
                    == ortho_entry(draw_size[0], draw_size[1], -0x1_0000_0000i64, ONE, i, j),
    {
        self.last_orthographic = orthographic(draw_size[0], draw_size[1], -ONE, ONE);
    }

    /// The view matrix, as set at construction.
    pub fn view(&self) -> (r: &Matrix4)
        ensures
            r == self.spec_view(),
    {
        &self.view
    }

    /// The field of view, in radians.
    pub fn fov(&self) -> (r: i64)
        ensures
            r == self.spec_fov(),
    {
        self.fov
    }

    /// The far clip distance.
    pub fn far(&self) -> (r: i64)
        ensures
            r == self.spec_far(),
    {
        self.far
    }

    /// The near clip distance.
    pub fn near(&self) -> (r: i64)
        ensures
            r == self.spec_near(),
    {
        self.near
    }

    /// The aspect ratio cached by the last construction or update.
    pub fn aspect_ratio(&self) -> (r: i64)
        ensures
            r == self.spec_aspect_ratio(),
    {
        self.aspect_ratio
    }

    /// The perspective projection cached by the last construction or update.
    pub fn last_perspective(&self) -> (r: &Matrix4)
        ensures
            r == self.spec_last_perspective(),
    {
        &self.last_perspective
    }

    /// The orthographic projection cached by the last construction or update.
    pub fn last_orthographic(&self) -> (r: &Matrix4)
        ensures
            r == self.spec_last_orthographic(),
    {
        &self.last_orthographic
    }
}

} // verus!
