//! The pan/zoom view transform.
//!
//! All quantities are fixed-point integers. A coordinate counts
//! `1 / COORD_DENOM` of a world unit (one world unit is one pixel at zoom 1),
//! a zoom factor counts `1 / ZOOM_DENOM`, and a position on the surface, being
//! the product of the two, counts `1 / SCREEN_DENOM` of a pixel. Nothing is
//! ever rounded: the caller divides once, when it hands a quad to the GPU.

use vstd::prelude::*;

verus! {

/// Coordinate units per world unit.
pub const COORD_DENOM: i64 = 100;

/// Zoom units per factor of one. A wheel reading counts thousandths of a
/// notch and a notch changes the zoom by 0.05, so with this denominator a
/// reading adds exactly its own value to the zoom.
pub const ZOOM_DENOM: i64 = 20000;

/// The smallest zoom, 0.3.
pub const ZOOM_MIN: i64 = 6000;

/// The largest zoom, 1.5.
pub const ZOOM_MAX: i64 = 30000;

/// Surface units per pixel: `COORD_DENOM * ZOOM_DENOM`.
pub const SCREEN_DENOM: i128 = 2000000;

/// No position or length that the view transform computes exceeds this, so
/// that a handful of them can be added without leaving `i128`.
pub const SCREEN_LIMIT: i128 = 0x4000_0000_0000_0000_0000_0000;

/// `v` limited to `lo..=hi`, for `lo <= hi`.
pub open spec fn clamp(v: int, lo: int, hi: int) -> int {
    if v < lo {
        lo
    } else if v > hi {
        hi
    } else {
        v
    }
}

/// The rectangle that the pan offset is kept in while dragging.
#[derive(Clone, Copy, Debug)]
pub struct PanBounds {
    pub min_x: i64,
    pub min_y: i64,
    pub max_x: i64,
    pub max_y: i64,
}

impl PanBounds {
    /// Neither axis is empty.
    pub open spec fn ordered(&self) -> bool {
        self.min_x <= self.max_x && self.min_y <= self.max_y
    }

    pub fn is_ordered(&self) -> (r: bool)
        ensures
            r == self.ordered(),
    {
        self.min_x <= self.max_x && self.min_y <= self.max_y
    }

    /// `(x, y)` lies inside the rectangle.
    pub open spec fn holds(&self, x: int, y: int) -> bool {
        self.min_x <= x <= self.max_x && self.min_y <= y <= self.max_y
    }
}

/// What the pointer did during one frame.
#[derive(Clone, Copy, Debug)]
pub struct PointerInput {
    /// The primary button is held and the pointer is being dragged.
    pub dragging: bool,
    /// The drag accumulated since the button went down, in coordinate units.
    pub drag: [i64; 2],
    /// The pointer is over the render surface.
    pub hovered: bool,
    /// The wheel movement of this frame, in thousandths of a notch.
    pub wheel: i64,
}

/// The state of a view transform as mathematical integers.
pub struct ViewModel {
    pub pan_x: int,
    pub pan_y: int,
    pub zoom: int,
    pub last_x: int,
    pub last_y: int,
}

/// The pan part of a frame. While dragging, the pan offset moves against the
/// growth of the accumulated drag since the last frame and is then limited
/// to the bounds; otherwise the remembered drag is forgotten.
pub open spec fn drag_step(s: ViewModel, dragging: bool, ax: int, ay: int, b: PanBounds)
    -> ViewModel {
    if dragging {
        ViewModel {
            pan_x: clamp(s.pan_x - (ax - s.last_x), b.min_x as int, b.max_x as int),
            pan_y: clamp(s.pan_y - (ay - s.last_y), b.min_y as int, b.max_y as int),
            zoom: s.zoom,
            last_x: ax,
            last_y: ay,
        }
    } else {
        ViewModel { pan_x: s.pan_x, pan_y: s.pan_y, zoom: s.zoom, last_x: 0, last_y: 0 }
    }
}

/// The zoom part of a frame. Over the surface, the wheel reading is added to
/// the zoom, which is then limited to `ZOOM_MIN..=ZOOM_MAX`.
pub open spec fn scroll_step(s: ViewModel, hovered: bool, wheel: int) -> ViewModel {
    if hovered {
        ViewModel {
            pan_x: s.pan_x,
            pan_y: s.pan_y,
            zoom: clamp(s.zoom + wheel, ZOOM_MIN as int, ZOOM_MAX as int),
            last_x: s.last_x,
            last_y: s.last_y,
        }
    } else {
        s
    }
}

/// A whole frame: the pan part, then the zoom part.
pub open spec fn frame_step(s: ViewModel, input: PointerInput, b: PanBounds) -> ViewModel {
    scroll_step(
        drag_step(s, input.dragging, input.drag[0] as int, input.drag[1] as int, b),
        input.hovered,
        input.wheel as int,
    )
}

/// Where a world coordinate lands on one axis of a surface of the given
/// extent, in surface units: the centre plus the panned coordinate times the
/// zoom.
pub open spec fn screen_of(extent: int, pan: int, zoom: int, world: int) -> int {
    extent * (ZOOM_DENOM / 2) + (pan + world) * zoom
}

/// While dragging, the pan offset ends inside the bounds, however large the
/// drag and wherever the offset was before.
pub proof fn lemma_drag_keeps_pan_in_bounds(s: ViewModel, ax: int, ay: int, b: PanBounds)
    requires
        b.ordered(),
    ensures
        b.holds(drag_step(s, true, ax, ay, b).pan_x, drag_step(s, true, ax, ay, b).pan_y),
{
}

/// Over the surface, the zoom ends inside `ZOOM_MIN..=ZOOM_MAX`, whatever
/// the wheel reading and whatever the zoom was before.
pub proof fn lemma_scroll_keeps_zoom_in_range(s: ViewModel, wheel: int)
    ensures
        ZOOM_MIN <= scroll_step(s, true, wheel).zoom <= ZOOM_MAX,
{
}

/// A frame never takes the zoom out of its range: away from the surface it
/// is left as it was.
pub proof fn lemma_frame_keeps_zoom_in_range(s: ViewModel, input: PointerInput, b: PanBounds)
    requires
        ZOOM_MIN <= s.zoom <= ZOOM_MAX,
    ensures
        ZOOM_MIN <= frame_step(s, input, b).zoom <= ZOOM_MAX,
{
}

/// A drag that is held still moves nothing: a second frame with the same
/// accumulated drag leaves the pan offset of the first.
pub proof fn lemma_drag_is_incremental(s: ViewModel, ax: int, ay: int, b: PanBounds)
    requires
        b.ordered(),
    ensures
        drag_step(drag_step(s, true, ax, ay, b), true, ax, ay, b) == drag_step(
            s,
            true,
            ax,
            ay,
            b,
        ),
{
}

fn clamp_to(v: i128, lo: i64, hi: i64) -> (r: i64)
    requires
        lo <= hi,
    ensures
        r == clamp(v as int, lo as int, hi as int),
{
    if v < lo as i128 {
        lo
    } else if v > hi as i128 {
        hi
    } else {
        v as i64
    }
}

/// Pan offset, zoom factor and the drag seen in the last frame.
pub struct ViewTransform {
    pos: [i64; 2],
    zoom: i64,
    last_drag: [i64; 2],
}

impl View for ViewTransform {
    type V = ViewModel;

    closed spec fn view(&self) -> ViewModel {
        ViewModel {
            pan_x: self.pos[0] as int,
            pan_y: self.pos[1] as int,
            zoom: self.zoom as int,
            last_x: self.last_drag[0] as int,
            last_y: self.last_drag[1] as int,
        }
    }
}

impl ViewTransform {
    #[verifier::type_invariant]
    spec fn zoom_in_range(&self) -> bool {
        ZOOM_MIN <= self.zoom <= ZOOM_MAX
    }

    /// The view at start: no pan, zoom 1, no drag seen.
    pub fn new() -> (r: ViewTransform)
        ensures
            r@ == (ViewModel { pan_x: 0, pan_y: 0, zoom: ZOOM_DENOM as int, last_x: 0, last_y: 0 }),
    {
        ViewTransform { pos: [0, 0], zoom: ZOOM_DENOM, last_drag: [0, 0] }
    }

    /// The pan offset, in coordinate units.
    pub fn pos(&self) -> (r: [i64; 2])
        ensures
            r[0] == self@.pan_x,
            r[1] == self@.pan_y,
    {
        self.pos
    }

    /// The zoom factor, in zoom units. It is always inside its range.
    pub fn zoom(&self) -> (r: i64)
        ensures
            r == self@.zoom,
            ZOOM_MIN <= r <= ZOOM_MAX,
    {
        proof {
            use_type_invariant(self);
        }
        self.zoom
    }

    /// The accumulated drag that the last frame saw.
    pub fn last_drag(&self) -> (r: [i64; 2])
        ensures
            r[0] == self@.last_x,
            r[1] == self@.last_y,
    {
        self.last_drag
    }

    /// The pan part of a frame. `accum` is the drag accumulated since the
    /// button went down, not the movement of this frame: the difference to
    /// the value remembered from the last frame is what moves the offset.
    pub fn drag(&mut self, dragging: bool, accum: [i64; 2], bounds: &PanBounds)
        requires
            dragging ==> bounds.ordered(),
        ensures
            final(self)@ == drag_step(old(self)@, dragging, accum[0] as int, accum[1] as int, *bounds),
            dragging ==> bounds.holds(final(self)@.pan_x, final(self)@.pan_y),
    {
        proof {
            use_type_invariant(&*self);
        }
        if dragging {
            let x: i128 = self.pos[0] as i128 - (accum[0] as i128 - self.last_drag[0] as i128);
            let y: i128 = self.pos[1] as i128 - (accum[1] as i128 - self.last_drag[1] as i128);
            self.pos = [clamp_to(x, bounds.min_x, bounds.max_x), clamp_to(y, bounds.min_y, bounds.max_y)];
            self.last_drag = accum;
        } else {
            self.last_drag = [0, 0];
        }
    }

    /// The zoom part of a frame. `wheel` counts thousandths of a notch.
    pub fn scroll(&mut self, hovered: bool, wheel: i64)
        ensures
            final(self)@ == scroll_step(old(self)@, hovered, wheel as int),
            ZOOM_MIN <= final(self)@.zoom <= ZOOM_MAX,
    {
        proof {
            use_type_invariant(&*self);
        }
        if hovered {
            let z: i128 = self.zoom as i128 + wheel as i128;
            self.zoom = clamp_to(z, ZOOM_MIN, ZOOM_MAX);
        }
    }

    /// One frame of input: the pan part, then the zoom part.
    pub fn update(&mut self, input: &PointerInput, bounds: &PanBounds)
        requires
            input.dragging ==> bounds.ordered(),
        ensures
            final(self)@ == frame_step(old(self)@, *input, *bounds),
            input.dragging ==> bounds.holds(final(self)@.pan_x, final(self)@.pan_y),
            ZOOM_MIN <= final(self)@.zoom <= ZOOM_MAX,
    {
        self.drag(input.dragging, input.drag, bounds);
        self.scroll(input.hovered, input.wheel);
    }

    /// Where a world position lands on a surface of the given size, in
    /// surface units.
    pub fn to_screen(&self, surface: [i64; 2], world: [i64; 2]) -> (r: [i128; 2])
        ensures
            r[0] == screen_of(surface[0] as int, self@.pan_x, self@.zoom, world[0] as int),
            r[1] == screen_of(surface[1] as int, self@.pan_y, self@.zoom, world[1] as int),
            -SCREEN_LIMIT <= r[0] <= SCREEN_LIMIT,
            -SCREEN_LIMIT <= r[1] <= SCREEN_LIMIT,
    {
        [
            self.axis_to_screen(surface[0], self.pos[0], world[0]),
            self.axis_to_screen(surface[1], self.pos[1], world[1]),
        ]
    }

    fn axis_to_screen(&self, extent: i64, pan: i64, world: i64) -> (r: i128)
        ensures
            r == screen_of(extent as int, pan as int, self@.zoom, world as int),
            -SCREEN_LIMIT <= r <= SCREEN_LIMIT,
    {
        proof {
            use_type_invariant(self);
        }
        let sum: i128 = pan as i128 + world as i128;
        let z: i128 = self.zoom as i128;
        assert(-0x1_0000_0000_0000_0000 * 30000 <= sum * z <= 0x1_0000_0000_0000_0000 * 30000)
            by (nonlinear_arith)
            requires
                -0x1_0000_0000_0000_0000 <= sum <= 0x1_0000_0000_0000_0000,
                0 <= z <= 30000,
        ;
        extent as i128 * 10000 + sum * z
    }

    /// A length in whole pixels at the current zoom, in surface units.
    pub fn scale(&self, pixels: usize) -> (r: i128)
        ensures
            r == pixels * COORD_DENOM * self@.zoom,
            0 <= r <= SCREEN_LIMIT,
    {
        proof {
            use_type_invariant(self);
        }
        let units: i128 = pixels as i128 * 100;
        let z: i128 = self.zoom as i128;
        assert(0 <= units * z <= 0x1_0000_0000_0000_0000 * 100 * 30000) by (nonlinear_arith)
            requires
                0 <= units <= 0x1_0000_0000_0000_0000 * 100,
                0 <= z <= 30000,
        ;
        units * z
    }
}

} // verus!
