//! Axis-aligned placement rectangles with pygame-style accessors: every edge,
//! corner and midpoint can be read or assigned while the size stays fixed, and
//! rectangles can be moved, inflated, clamped, clipped and tested for overlap.

use vstd::prelude::*;

verus! {

/// Truncating halving, matching what `n / 2` computes on `i32`.
pub open spec fn half(n: int) -> int {
    if n >= 0 {
        n / 2
    } else {
        -((-n) / 2)
    }
}

/// The smaller of two integers.
pub open spec fn min_int(a: int, b: int) -> int {
    if a < b {
        a
    } else {
        b
    }
}

/// The larger of two integers.
pub open spec fn max_int(a: int, b: int) -> int {
    if a > b {
        a
    } else {
        b
    }
}

/// A position (`x`, `y`) and a size (`w`, `h`). Sizes may be negative until
/// `normalize` is called; geometric queries are meaningful for non-negative
/// sizes.
#[derive(Clone, Copy)]
pub struct Rect {
    pub x: i32,
    pub y: i32,
    pub w: i32,
    pub h: i32,
}

/// Whether all edge coordinates of a rectangle with these fields stay within
/// `i32`, so that the edge accessors cannot overflow.
pub open spec fn edges_in_range(x: int, y: int, w: int, h: int) -> bool {
    i32::MIN <= x + w <= i32::MAX && i32::MIN <= y + h <= i32::MAX
}

impl Rect {
    /// All derived coordinates (right, bottom, centers) of this rectangle fit
    /// in `i32`.
    pub open spec fn wf(&self) -> bool {
        edges_in_range(self.x as int, self.y as int, self.w as int, self.h as int)
    }

    pub fn new(x: i32, y: i32, w: i32, h: i32) -> (r: Rect)
        ensures
            r == (Rect { x, y, w, h }),
    {
        Rect { x, y, w, h }
    }

    /// A rectangle of the given size whose center lies at `center`, following
    /// the same placement rule as `set_center`.
    pub fn new_center(center: (i32, i32), size: (i32, i32)) -> (r: Rect)
        requires
            i32::MIN <= center.0 - half(size.0 as int) <= i32::MAX,
            i32::MIN <= center.1 - half(size.1 as int) <= i32::MAX,
        ensures
            r.x == center.0 - half(size.0 as int),
            r.y == center.1 - half(size.1 as int),
            r.w == size.0,
            r.h == size.1,
    {
        Rect {
            x: center.0 - size.0 / 2,
            y: center.1 - size.1 / 2,
            w: size.0,
            h: size.1,
        }
    }

    /// The rectangle spanned from a top-left to a bottom-right point.
    pub fn new_from_points(top_left: (i32, i32), bottom_right: (i32, i32)) -> (r: Rect)
        requires
            i32::MIN <= bottom_right.0 - top_left.0 <= i32::MAX,
            i32::MIN <= bottom_right.1 - top_left.1 <= i32::MAX,
        ensures
            r.x == top_left.0,
            r.y == top_left.1,
            r.w == bottom_right.0 - top_left.0,
            r.h == bottom_right.1 - top_left.1,
    {
        Rect {
            x: top_left.0,
            y: top_left.1,
            w: bottom_right.0 - top_left.0,
            h: bottom_right.1 - top_left.1,
        }
    }

    pub fn get_width(&self) -> (r: i32)
        ensures
            r == self.w,
    {
        self.w
    }

    pub fn set_width(&mut self, width: i32)
        ensures
            *final(self) == (Rect { w: width, ..*old(self) }),
    {
        self.w = width;
    }

    pub fn get_height(&self) -> (r: i32)
        ensures
            r == self.h,
    {
        self.h
    }

    pub fn set_height(&mut self, height: i32)
        ensures
            *final(self) == (Rect { h: height, ..*old(self) }),
    {
        self.h = height;
    }

    pub fn get_left(&self) -> (r: i32)
        ensures
            r == self.x,
    {
        self.x
    }

    pub fn set_left(&mut self, left: i32)
        ensures
            *final(self) == (Rect { x: left, ..*old(self) }),
    {
        self.x = left;
    }

    pub fn get_right(&self) -> (r: i32)
        requires
            i32::MIN <= self.x + self.w <= i32::MAX,
        ensures
            r == self.x + self.w,
    {
        self.x + self.w
    }

    pub fn set_right(&mut self, right: i32)
        requires
            i32::MIN <= right - old(self).w <= i32::MAX,
        ensures
            *final(self) == (Rect { x: (right - old(self).w) as i32, ..*old(self) }),
    {
        self.x = right - self.w;
    }

    pub fn get_top(&self) -> (r: i32)
        ensures
            r == self.y,
    {
        self.y
    }

    pub fn set_top(&mut self, top: i32)
        ensures
            *final(self) == (Rect { y: top, ..*old(self) }),
    {
        self.y = top;
    }

    pub fn get_bottom(&self) -> (r: i32)
        requires
            i32::MIN <= self.y + self.h <= i32::MAX,
        ensures
            r == self.y + self.h,
    {
        self.y + self.h
    }

    pub fn set_bottom(&mut self, bottom: i32)
        requires
            i32::MIN <= bottom - old(self).h <= i32::MAX,
        ensures
            *final(self) == (Rect { y: (bottom - old(self).h) as i32, ..*old(self) }),
    {
        self.y = bottom - self.h;
    }

    pub fn get_center_x(&self) -> (r: i32)
        requires
            i32::MIN <= self.x + half(self.w as int) <= i32::MAX,
        ensures
            r == self.x + half(self.w as int),
    {
        self.x + self.w / 2
    }

    pub fn set_center_x(&mut self, center_x: i32)
        requires
            i32::MIN <= center_x - half(old(self).w as int) <= i32::MAX,
        ensures
            *final(self) == (Rect { x: (center_x - half(old(self).w as int)) as i32, ..*old(self) }),
    {
        self.x = center_x - self.w / 2;
    }

    pub fn get_center_y(&self) -> (r: i32)
        requires
            i32::MIN <= self.y + half(self.h as int) <= i32::MAX,
        ensures
            r == self.y + half(self.h as int),
    {
        self.y + self.h / 2
    }

    pub fn set_center_y(&mut self, center_y: i32)
        requires
            i32::MIN <= center_y - half(old(self).h as int) <= i32::MAX,
        ensures
            *final(self) == (Rect { y: (center_y - half(old(self).h as int)) as i32, ..*old(self) }),
    {
        self.y = center_y - self.h / 2;
    }

    pub fn get_size(&self) -> (r: (i32, i32))
        ensures
            r == (self.w, self.h),
    {
        (self.w, self.h)
    }

    pub fn set_size(&mut self, size: (i32, i32))
        ensures
            *final(self) == (Rect { w: size.0, h: size.1, ..*old(self) }),
    {
        self.w = size.0;
        self.h = size.1;
    }

    pub fn get_top_left(&self) -> (r: (i32, i32))
        ensures
            r == (self.x, self.y),
    {
        (self.x, self.y)
    }

    pub fn set_top_left(&mut self, top_left: (i32, i32))
        ensures
            *final(self) == (Rect { x: top_left.0, y: top_left.1, ..*old(self) }),
    {
        self.x = top_left.0;
        self.y = top_left.1;
    }

    pub fn get_top_right(&self) -> (r: (i32, i32))
        requires
            i32::MIN <= self.x + self.w <= i32::MAX,
        ensures
            r.0 == self.x + self.w,
            r.1 == self.y,
    {
        (self.x + self.w, self.y)
    }

    pub fn set_top_right(&mut self, top_right: (i32, i32))
        requires
            i32::MIN <= top_right.0 - old(self).w <= i32::MAX,
        ensures
            *final(self) == (Rect {
                x: (top_right.0 - old(self).w) as i32,
                y: top_right.1,
                ..*old(self)
            }),
    {
        self.x = top_right.0 - self.w;
        self.y = top_right.1;
    }

    pub fn get_bottom_left(&self) -> (r: (i32, i32))
        requires
            i32::MIN <= self.y + self.h <= i32::MAX,
        ensures
            r.0 == self.x,
            r.1 == self.y + self.h,
    {
        (self.x, self.y + self.h)
    }

    pub fn set_bottom_left(&mut self, bottom_left: (i32, i32))
        requires
            i32::MIN <= bottom_left.1 - old(self).h <= i32::MAX,
        ensures
            *final(self) == (Rect {
                x: bottom_left.0,
                y: (bottom_left.1 - old(self).h) as i32,
                ..*old(self)
            }),
    {
        self.x = bottom_left.0;
        self.y = bottom_left.1 - self.h;
    }

    pub fn get_bottom_right(&self) -> (r: (i32, i32))
        requires
            self.wf(),
        ensures
            r.0 == self.x + self.w,
            r.1 == self.y + self.h,
    {
        (self.x + self.w, self.y + self.h)
    }

    pub fn set_bottom_right(&mut self, bottom_right: (i32, i32))
        requires
            i32::MIN <= bottom_right.0 - old(self).w <= i32::MAX,
            i32::MIN <= bottom_right.1 - old(self).h <= i32::MAX,
        ensures
            *final(self) == (Rect {
                x: (bottom_right.0 - old(self).w) as i32,
                y: (bottom_right.1 - old(self).h) as i32,
                ..*old(self)
            }),
    {
        self.x = bottom_right.0 - self.w;
        self.y = bottom_right.1 - self.h;
    }

    pub fn get_center(&self) -> (r: (i32, i32))
        requires
            i32::MIN <= self.x + half(self.w as int) <= i32::MAX,
            i32::MIN <= self.y + half(self.h as int) <= i32::MAX,
        ensures
            r.0 == self.x + half(self.w as int),
            r.1 == self.y + half(self.h as int),
    {
        (self.x + self.w / 2, self.y + self.h / 2)
    }

    pub fn set_center(&mut self, center: (i32, i32))
        requires
            i32::MIN <= center.0 - half(old(self).w as int) <= i32::MAX,
            i32::MIN <= center.1 - half(old(self).h as int) <= i32::MAX,
        ensures
            *final(self) == (Rect {
                x: (center.0 - half(old(self).w as int)) as i32,
                y: (center.1 - half(old(self).h as int)) as i32,
                ..*old(self)
            }),
    {
        self.x = center.0 - self.w / 2;
        self.y = center.1 - self.h / 2;
    }

    pub fn get_mid_top(&self) -> (r: (i32, i32))
        requires
            i32::MIN <= self.x + half(self.w as int) <= i32::MAX,
        ensures
            r.0 == self.x + half(self.w as int),
            r.1 == self.y,
    {
        (self.x + self.w / 2, self.y)
    }

    pub fn set_mid_top(&mut self, mid_top: (i32, i32))
        requires
            i32::MIN <= mid_top.0 - half(old(self).w as int) <= i32::MAX,
        ensures
            *final(self) == (Rect {
                x: (mid_top.0 - half(old(self).w as int)) as i32,
                y: mid_top.1,
                ..*old(self)
            }),
    {
        self.x = mid_top.0 - self.w / 2;
        self.y = mid_top.1;
    }

    pub fn get_mid_left(&self) -> (r: (i32, i32))
        requires
            i32::MIN <= self.y + half(self.h as int) <= i32::MAX,
        ensures
            r.0 == self.x,
            r.1 == self.y + half(self.h as int),
    {
        (self.x, self.y + self.h / 2)
    }

    pub fn set_mid_left(&mut self, mid_left: (i32, i32))
        requires
            i32::MIN <= mid_left.1 - half(old(self).h as int) <= i32::MAX,
        ensures
            *final(self) == (Rect {
                x: mid_left.0,
                y: (mid_left.1 - half(old(self).h as int)) as i32,
                ..*old(self)
            }),
    {
        self.x = mid_left.0;
        self.y = mid_left.1 - self.h / 2;
    }

    pub fn get_mid_bottom(&self) -> (r: (i32, i32))
        requires
            i32::MIN <= self.x + half(self.w as int) <= i32::MAX,
            i32::MIN <= self.y + self.h <= i32::MAX,
        ensures
            r.0 == self.x + half(self.w as int),
            r.1 == self.y + self.h,
    {
        (self.x + self.w / 2, self.y + self.h)
    }

    pub fn set_mid_bottom(&mut self, mid_bottom: (i32, i32))
        requires
            i32::MIN <= mid_bottom.0 - half(old(self).w as int) <= i32::MAX,
            i32::MIN <= mid_bottom.1 - old(self).h <= i32::MAX,
        ensures
            *final(self) == (Rect {
                x: (mid_bottom.0 - half(old(self).w as int)) as i32,
                y: (mid_bottom.1 - old(self).h) as i32,
                ..*old(self)
            }),
    {
        self.x = mid_bottom.0 - self.w / 2;
        self.y = mid_bottom.1 - self.h;
    }

    pub fn get_mid_right(&self) -> (r: (i32, i32))
        requires
            i32::MIN <= self.x + self.w <= i32::MAX,
            i32::MIN <= self.y + half(self.h as int) <= i32::MAX,
        ensures
            r.0 == self.x + self.w,
            r.1 == self.y + half(self.h as int),
    {
        (self.x + self.w, self.y + self.h / 2)
    }

    pub fn set_mid_right(&mut self, mid_right: (i32, i32))
        requires
            i32::MIN <= mid_right.0 - old(self).w <= i32::MAX,
            i32::MIN <= mid_right.1 - half(old(self).h as int) <= i32::MAX,
        ensures
            *final(self) == (Rect {
                x: (mid_right.0 - old(self).w) as i32,
                y: (mid_right.1 - half(old(self).h as int)) as i32,
                ..*old(self)
            }),
    {
        self.x = mid_right.0 - self.w;
        self.y = mid_right.1 - self.h / 2;
    }

    /// A copy shifted by (`x`, `y`).
    pub fn move_(&self, x: i32, y: i32) -> (r: Rect)
        requires
            i32::MIN <= self.x + x <= i32::MAX,
            i32::MIN <= self.y + y <= i32::MAX,
        ensures
            r == (Rect { x: (self.x + x) as i32, y: (self.y + y) as i32, ..*self }),
    {
        Rect::new(self.x + x, self.y + y, self.w, self.h)
    }

    /// Shifts this rectangle by (`x`, `y`) in place.
    pub fn move_ip(&mut self, x: i32, y: i32)
        requires
            i32::MIN <= old(self).x + x <= i32::MAX,
            i32::MIN <= old(self).y + y <= i32::MAX,
        ensures
            *final(self) == (Rect {
                x: (old(self).x + x) as i32,
                y: (old(self).y + y) as i32,
                ..*old(self)
            }),
    {
        self.x += x;
        self.y += y;
    }

    /// A copy grown by (`x`, `y`) around its current center.
    pub fn inflate(&self, x: i32, y: i32) -> (r: Rect)
        requires
            i32::MIN <= self.x - half(x as int) <= i32::MAX,
            i32::MIN <= self.y - half(y as int) <= i32::MAX,
            i32::MIN <= self.w + x <= i32::MAX,
            i32::MIN <= self.h + y <= i32::MAX,
        ensures
            r.x == self.x - half(x as int),
            r.y == self.y - half(y as int),
            r.w == self.w + x,
            r.h == self.h + y,
    {
        Rect::new(self.x - x / 2, self.y - y / 2, self.w + x, self.h + y)
    }

    /// Grows this rectangle by (`x`, `y`) around its current center, in place.
    pub fn inflate_ip(&mut self, x: i32, y: i32)
        requires
            i32::MIN <= old(self).x - half(x as int) <= i32::MAX,
            i32::MIN <= old(self).y - half(y as int) <= i32::MAX,
            i32::MIN <= old(self).w + x <= i32::MAX,
            i32::MIN <= old(self).h + y <= i32::MAX,
        ensures
            final(self).x == old(self).x - half(x as int),
            final(self).y == old(self).y - half(y as int),
            final(self).w == old(self).w + x,
            final(self).h == old(self).h + y,
    {
        self.x -= x / 2;
        self.y -= y / 2;
        self.w += x;
        self.h += y;
    }

    /// Overwrites all four fields at once.
    pub fn update(&mut self, x: i32, y: i32, width: i32, height: i32)
        ensures
            *final(self) == (Rect { x, y, w: width, h: height }),
    {
        self.x = x;
        self.y = y;
        self.w = width;
        self.h = height;
    }

    /// The position `clamp` and `clamp_ip` move this rectangle to so that it
    /// lies within `rect`: pushed inside along each axis, or centered on
    /// `rect` along an axis where it is too large to fit.
    pub open spec fn clamped_pos(&self, rect: Rect) -> (int, int) {
        let x0 = max_int(rect.x as int, min_int(self.x + self.w, rect.x + rect.w) - self.w);
        let y0 = max_int(rect.y as int, min_int(self.y + self.h, rect.y + rect.h) - self.h);
        let x = if self.w > rect.w {
            x0 - half(self.w - rect.w)
        } else {
            x0
        };
        let y = if self.h > rect.h {
            y0 - half(self.h - rect.h)
        } else {
            y0
        };
        (x, y)
    }

    /// Every intermediate of the clamp computation stays within `i32`.
    pub open spec fn clamp_in_range(&self, rect: Rect) -> bool {
        &&& self.wf()
        &&& rect.wf()
        &&& i32::MIN <= min_int(self.x + self.w, rect.x + rect.w) - self.w <= i32::MAX
        &&& i32::MIN <= min_int(self.y + self.h, rect.y + rect.h) - self.h <= i32::MAX
        &&& (self.w > rect.w ==> self.w - rect.w <= i32::MAX)
        &&& (self.h > rect.h ==> self.h - rect.h <= i32::MAX)
        &&& i32::MIN <= self.clamped_pos(rect).0 <= i32::MAX
        &&& i32::MIN <= self.clamped_pos(rect).1 <= i32::MAX
    }

    /// A copy moved to lie within `rect`, keeping this rectangle's size.
    pub fn clamp(&self, rect: &Rect) -> (r: Rect)
        requires
            self.clamp_in_range(*rect),
        ensures
            r.x == self.clamped_pos(*rect).0,
            r.y == self.clamped_pos(*rect).1,
            r.w == self.w,
            r.h == self.h,
    {
        let right = self.x + self.w;
        let clip_right = if right < rect.x + rect.w {
            right
        } else {
            rect.x + rect.w
        };
        let mut x = if rect.x > clip_right - self.w {
            rect.x
        } else {
            clip_right - self.w
        };
        let bottom = self.y + self.h;
        let clip_bottom = if bottom < rect.y + rect.h {
            bottom
        } else {
            rect.y + rect.h
        };
        let mut y = if rect.y > clip_bottom - self.h {
            rect.y
        } else {
            clip_bottom - self.h
        };
        if self.w > rect.w {
            x -= (self.w - rect.w) / 2;
        }
        if self.h > rect.h {
            y -= (self.h - rect.h) / 2;
        }
        Rect::new(x, y, self.w, self.h)
    }

    /// Moves this rectangle to lie within `rect`, in place.
    pub fn clamp_ip(&mut self, rect: &Rect)
        requires
            old(self).clamp_in_range(*rect),
        ensures
            final(self).x == old(self).clamped_pos(*rect).0,
            final(self).y == old(self).clamped_pos(*rect).1,
            final(self).w == old(self).w,
            final(self).h == old(self).h,
    {
        let clamped = self.clamp(rect);
        self.x = clamped.x;
        self.y = clamped.y;
    }

    /// The intersection of the two rectangles when they overlap; otherwise an
    /// empty rectangle at `rect`'s position.
    pub open spec fn clipped(&self, rect: Rect) -> Rect {
        if self.collides_with(rect) {
            let x = max_int(self.x as int, rect.x as int);
            let y = max_int(self.y as int, rect.y as int);
            Rect {
                x: x as i32,
                y: y as i32,
                w: (min_int(self.x + self.w, rect.x + rect.w) - x) as i32,
                h: (min_int(self.y + self.h, rect.y + rect.h) - y) as i32,
            }
        } else {
            Rect { x: rect.x, y: rect.y, w: 0, h: 0 }
        }
    }

    /// The overlap of the two rectangles, or an empty rectangle at `rect`'s
    /// position when they do not overlap.
    pub fn clip(&self, rect: &Rect) -> (r: Rect)
        requires
            self.wf(),
            rect.wf(),
        ensures
            r == self.clipped(*rect),
    {
        if self.collide_rect(rect) {
            let x = if self.x > rect.x {
                self.x
            } else {
                rect.x
            };
            let y = if self.y > rect.y {
                self.y
            } else {
                rect.y
            };
            let right = if self.x + self.w < rect.x + rect.w {
                self.x + self.w
            } else {
                rect.x + rect.w
            };
            let bottom = if self.y + self.h < rect.y + rect.h {
                self.y + self.h
            } else {
                rect.y + rect.h
            };
            Rect::new(x, y, right - x, bottom - y)
        } else {
            Rect::new(rect.x, rect.y, 0, 0)
        }
    }

    /// Flips a negative width or height so both become non-negative while the
    /// rectangle covers the same area.
    pub fn normalize(&mut self)
        requires
            old(self).wf(),
            old(self).w > i32::MIN,
            old(self).h > i32::MIN,
        ensures
            final(self).x == if old(self).w < 0 {
                old(self).x + old(self).w
            } else {
                old(self).x as int
            },
            final(self).y == if old(self).h < 0 {
                old(self).y + old(self).h
            } else {
                old(self).y as int
            },
            final(self).w == if old(self).w < 0 {
                -(old(self).w as int)
            } else {
                old(self).w as int
            },
            final(self).h == if old(self).h < 0 {
                -(old(self).h as int)
            } else {
                old(self).h as int
            },
    {
        if self.w < 0 {
            self.x += self.w;
            self.w = -self.w;
        }
        if self.h < 0 {
            self.y += self.h;
            self.h = -self.h;
        }
    }

    /// `rect` lies entirely within this rectangle.
    pub open spec fn contains_rect(&self, rect: Rect) -> bool {
        &&& self.x <= rect.x
        &&& self.x + self.w >= rect.x + rect.w
        &&& self.y <= rect.y
        &&& self.y + self.h >= rect.y + rect.h
    }

    pub fn contains(&self, rect: &Rect) -> (r: bool)
        requires
            self.wf(),
            rect.wf(),
        ensures
            r == self.contains_rect(*rect),
    {
        self.x <= rect.x && self.x + self.w >= rect.x + rect.w && self.y <= rect.y && self.y
            + self.h >= rect.y + rect.h
    }

    /// The point lies within this rectangle, edges included.
    pub open spec fn contains_point(&self, x: int, y: int) -> bool {
        self.x <= x <= self.x + self.w && self.y <= y <= self.y + self.h
    }

    pub fn collide_point(&self, x: i32, y: i32) -> (r: bool)
        requires
            self.wf(),
        ensures
            r == self.contains_point(x as int, y as int),
    {
        self.x <= x && x <= self.x + self.w && self.y <= y && y <= self.y + self.h
    }

    /// The interiors of the two rectangles overlap; touching edges do not
    /// count.
    pub open spec fn collides_with(&self, rect: Rect) -> bool {
        &&& self.x < rect.x + rect.w
        &&& rect.x < self.x + self.w
        &&& self.y < rect.y + rect.h
        &&& rect.y < self.y + self.h
    }

    pub fn collide_rect(&self, rect: &Rect) -> (r: bool)
        requires
            self.wf(),
            rect.wf(),
        ensures
            r == self.collides_with(*rect),
    {
        self.x < rect.x + rect.w && rect.x < self.x + self.w && self.y < rect.y + rect.h && rect.y
            < self.y + self.h
    }
}

} // verus!
