//! Integer camera state: a world-space anchor, a fixed screen offset, and a
//! pending pan distance consumed one unit per tween step. The wall-clock
//! timing that paces tween steps belongs to the frame loop outside this
//! crate.

use vstd::prelude::*;

verus! {

/// The sign of `v`: `-1`, `0` or `1`.
pub open spec fn spec_sign(v: int) -> int {
    if v > 0 {
        1
    } else if v < 0 {
        -1
    } else {
        0
    }
}

/// The camera: `(x, y)` is the world point it is anchored on, the offsets
/// place the view window, and `(dx, dy)` is the remaining pan distance still
/// to be walked toward the anchor's latest target.
#[derive(Clone, Copy, Debug)]
pub struct Camera {
    pub x: i32,
    pub y: i32,
    pub x_offset: i32,
    pub y_offset: i32,
    pub dx: i32,
    pub dy: i32,
}

impl Camera {
    pub fn new(xoff: i32, yoff: i32) -> (r: Camera)
        ensures
            r.x == 0,
            r.y == 0,
            r.x_offset == xoff,
            r.y_offset == yoff,
            r.dx == 0,
            r.dy == 0,
    {
        Camera { x: 0, y: 0, x_offset: xoff, y_offset: yoff, dx: 0, dy: 0 }
    }

    /// Jumps the anchor to `(x, y)` and drops any pending pan.
    pub fn update_xy(&mut self, x: i32, y: i32)
        ensures
            *final(self) == (Camera { x, y, dx: 0, dy: 0, ..*old(self) }),
    {
        self.x = x;
        self.y = y;
        self.dx = 0;
        self.dy = 0;
    }

    /// The west edge of the view window. The precondition is a machine
    /// limit: the sum must be representable.
    pub fn mod_x(&self) -> (r: i32)
        requires
            i32::MIN <= self.x + self.x_offset <= i32::MAX,
        ensures
            r == self.x + self.x_offset,
    {
        self.x + self.x_offset
    }

    /// The north edge of the view window.
    pub fn mod_y(&self) -> (r: i32)
        requires
            i32::MIN <= self.y + self.y_offset <= i32::MAX,
        ensures
            r == self.y + self.y_offset,
    {
        self.y + self.y_offset
    }

    pub fn get_x(&self) -> (r: i32)
        ensures
            r == self.x,
    {
        self.x
    }

    pub fn get_y(&self) -> (r: i32)
        ensures
            r == self.y,
    {
        self.y
    }

    /// One tween step: walks the anchor one grid unit along the sign of each
    /// pending pan axis and shrinks the pending pan accordingly. Returns
    /// whether the camera was already at rest (the frame loop uses that to
    /// pick the delay before the next step). The preconditions are machine
    /// limits on the stepped anchor.
    pub fn tween_tick(&mut self) -> (idle: bool)
        requires
            old(self).dx > 0 ==> old(self).x + 1 <= i32::MAX,
            old(self).dx < 0 ==> i32::MIN <= old(self).x - 1,
            old(self).dy > 0 ==> old(self).y + 1 <= i32::MAX,
            old(self).dy < 0 ==> i32::MIN <= old(self).y - 1,
        ensures
            final(self).x == old(self).x + spec_sign(old(self).dx as int),
            final(self).y == old(self).y + spec_sign(old(self).dy as int),
            final(self).dx == old(self).dx - spec_sign(old(self).dx as int),
            final(self).dy == old(self).dy - spec_sign(old(self).dy as int),
            final(self).x_offset == old(self).x_offset,
            final(self).y_offset == old(self).y_offset,
            idle == (old(self).dx == 0 && old(self).dy == 0),
    {
        let dx_unit: i32 = if self.dx > 0 {
            1
        } else if self.dx < 0 {
            -1
        } else {
            0
        };
        let dy_unit: i32 = if self.dy > 0 {
            1
        } else if self.dy < 0 {
            -1
        } else {
            0
        };
        let idle = dx_unit == 0 && dy_unit == 0;
        self.dx = self.dx - dx_unit;
        self.dy = self.dy - dy_unit;
        self.x = self.x + dx_unit;
        self.y = self.y + dy_unit;
        idle
    }

    /// Transforms a world point into a screen point. The preconditions are
    /// machine limits: the transformed coordinates must be representable.
    pub fn transform_point(&self, point: (i32, i32)) -> (r: (i32, i32))
        requires
            i32::MIN <= point.0 - self.x_offset - self.x <= i32::MAX,
            i32::MIN <= point.1 - self.y_offset - self.y <= i32::MAX,
        ensures
            r.0 == point.0 - self.x_offset - self.x,
            r.1 == point.1 - self.y_offset - self.y,
    {
        let px: i64 = point.0 as i64 - self.x_offset as i64 - self.x as i64;
        let py: i64 = point.1 as i64 - self.y_offset as i64 - self.y as i64;
        (px as i32, py as i32)
    }
}

} // verus!
