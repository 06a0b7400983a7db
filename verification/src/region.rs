use vstd::prelude::*;

verus! {

/// Which part of the display is captured.
#[derive(Clone, Copy, Debug, PartialEq, Eq, Structural)]
pub enum RegionMode {
    /// The whole display.
    Fullscreen,
    /// A square of side 640 around the display's centre.
    Center640,
    /// A square of side 1280 around the display's centre.
    Center1280,
    /// A rectangle given by its top-left corner and its size.
    Custom { x: u32, y: u32, width: u32, height: u32 },
}

/// The capture settings shared between the control surface and the loop.
#[derive(Clone, Copy, Debug, PartialEq, Eq, Structural)]
pub struct CaptureConfig {
    pub mode: RegionMode,
}

/// An axis-aligned rectangle in display pixels.
#[derive(Clone, Copy, Debug, PartialEq, Eq, Structural)]
pub struct Rect {
    pub x: u32,
    pub y: u32,
    pub width: u32,
    pub height: u32,
}

/// What one tick asks of the frame source.
#[derive(Clone, Copy, Debug, PartialEq, Eq, Structural)]
pub enum CapturePlan {
    /// Capture the whole display.
    Full,
    /// Capture this rectangle; it lies inside the display and is not empty.
    Region(Rect),
    /// Capture nothing: of the region asked for, nothing lies on the display.
    /// The tick is one without a frame.
    Nothing,
}

pub open spec fn min_int(a: int, b: int) -> int {
    if a <= b {
        a
    } else {
        b
    }
}

impl Rect {
    /// The rectangle lies inside a display of the given size:
    /// `[x, x + width) × [y, y + height)` is a subset of `[0, full_w) × [0, full_h)`.
    pub open spec fn within(self, full_w: int, full_h: int) -> bool {
        &&& self.x + self.width <= full_w
        &&& self.y + self.height <= full_h
    }

    /// The rectangle holds at least one pixel.
    pub open spec fn positive(self) -> bool {
        self.width > 0 && self.height > 0
    }
}

/// The square of side `side` around the centre of a display, cut down to the
/// display where the display is smaller.
pub open spec fn centered_square(side: u32, full_w: u32, full_h: u32) -> Rect {
    let w = min_int(side as int, full_w as int);
    let h = min_int(side as int, full_h as int);
    Rect {
        x: ((full_w - w) / 2) as u32,
        y: ((full_h - h) / 2) as u32,
        width: w as u32,
        height: h as u32,
    }
}

/// A requested rectangle cut down to the display. `None` where nothing is
/// left: the request is empty or starts outside the display.
pub open spec fn clip(x: u32, y: u32, width: u32, height: u32, full_w: u32, full_h: u32) -> Option<
    Rect,
> {
    if width == 0 || height == 0 || x >= full_w || y >= full_h {
        None
    } else {
        Some(
            Rect {
                x,
                y,
                width: min_int(width as int, full_w - x) as u32,
                height: min_int(height as int, full_h - y) as u32,
            },
        )
    }
}

/// The plan for a rectangle that was cut down to the display: the rectangle
/// where it holds a pixel, nothing where it is empty.
pub open spec fn region_or_nothing(r: Rect) -> CapturePlan {
    if r.positive() {
        CapturePlan::Region(r)
    } else {
        CapturePlan::Nothing
    }
}

/// The plan for a region mode on a display of the given size. A fixed square
/// or a custom rectangle of which nothing is left on the display gives
/// nothing to capture; no other region takes its place.
pub open spec fn plan_of(mode: RegionMode, full_w: u32, full_h: u32) -> CapturePlan {
    match mode {
        RegionMode::Fullscreen => CapturePlan::Full,
        RegionMode::Center640 => region_or_nothing(centered_square(640, full_w, full_h)),
        RegionMode::Center1280 => region_or_nothing(centered_square(1280, full_w, full_h)),
        RegionMode::Custom { x, y, width, height } => match clip(
            x,
            y,
            width,
            height,
            full_w,
            full_h,
        ) {
            Some(r) => CapturePlan::Region(r),
            None => CapturePlan::Nothing,
        },
    }
}

/// Width and height of the frame that a plan yields.
pub open spec fn frame_size_of(plan: CapturePlan, full_w: u32, full_h: u32) -> (u32, u32) {
    match plan {
        CapturePlan::Full => (full_w, full_h),
        CapturePlan::Region(r) => (r.width, r.height),
        CapturePlan::Nothing => (0, 0),
    }
}

/// Cuts a requested rectangle down to the display.
pub fn clip_region(x: u32, y: u32, width: u32, height: u32, full_w: u32, full_h: u32) -> (r:
    Option<Rect>)
    ensures
        r == clip(x, y, width, height, full_w, full_h),
        r matches Some(rect) ==> rect.within(full_w as int, full_h as int) && rect.positive()
            && rect.x == x && rect.y == y && rect.width <= width && rect.height <= height,
        r is None <==> width == 0 || height == 0 || x >= full_w || y >= full_h,
{
    if width == 0 || height == 0 || x >= full_w || y >= full_h {
        return None;
    }
    let room_w: u32 = full_w - x;
    let room_h: u32 = full_h - y;
    let w: u32 = if width <= room_w {
        width
    } else {
        room_w
    };
    let h: u32 = if height <= room_h {
        height
    } else {
        room_h
    };
    Some(Rect { x, y, width: w, height: h })
}

/// The square of side `side` around the display's centre.
pub fn center_square(side: u32, full_w: u32, full_h: u32) -> (r: Rect)
    ensures
        r == centered_square(side, full_w, full_h),
        r.within(full_w as int, full_h as int),
        r.width == min_int(side as int, full_w as int),
        r.height == min_int(side as int, full_h as int),
        2 * r.x + r.width == full_w || 2 * r.x + r.width + 1 == full_w,
        2 * r.y + r.height == full_h || 2 * r.y + r.height + 1 == full_h,
{
    let w: u32 = if side <= full_w {
        side
    } else {
        full_w
    };
    let h: u32 = if side <= full_h {
        side
    } else {
        full_h
    };
    Rect { x: (full_w - w) / 2, y: (full_h - h) / 2, width: w, height: h }
}

/// The plan for a square that was cut down to the display.
fn square_plan(r: Rect) -> (plan: CapturePlan)
    ensures
        plan == region_or_nothing(r),
{
    if r.width > 0 && r.height > 0 {
        CapturePlan::Region(r)
    } else {
        CapturePlan::Nothing
    }
}

/// Decides what to capture for a region mode on a display of the given size.
pub fn resolve_region(mode: RegionMode, full_w: u32, full_h: u32) -> (plan: CapturePlan)
    ensures
        plan == plan_of(mode, full_w, full_h),
        plan matches CapturePlan::Region(r) ==> r.within(full_w as int, full_h as int)
            && r.positive(),
{
    match mode {
        RegionMode::Fullscreen => CapturePlan::Full,
        RegionMode::Center640 => square_plan(center_square(640, full_w, full_h)),
        RegionMode::Center1280 => square_plan(center_square(1280, full_w, full_h)),
        RegionMode::Custom { x, y, width, height } => match clip_region(
            x,
            y,
            width,
            height,
            full_w,
            full_h,
        ) {
            Some(r) => CapturePlan::Region(r),
            None => CapturePlan::Nothing,
        },
    }
}

/// Width and height of the frame that a plan yields.
pub fn frame_size(plan: CapturePlan, full_w: u32, full_h: u32) -> (size: (u32, u32))
    ensures
        size == frame_size_of(plan, full_w, full_h),
{
    match plan {
        CapturePlan::Full => (full_w, full_h),
        CapturePlan::Region(r) => (r.width, r.height),
        CapturePlan::Nothing => (0, 0),
    }
}

/// Whatever the mode and the display, a rectangle that is captured lies
/// inside the display and holds a pixel.
pub proof fn lemma_plan_stays_inside(mode: RegionMode, full_w: u32, full_h: u32)
    ensures
        plan_of(mode, full_w, full_h) matches CapturePlan::Region(r) ==> r.within(
            full_w as int,
            full_h as int,
        ) && r.positive(),
{
}

/// A region of which nothing is left on the display is not captured, and
/// nothing else is captured in its place: a custom rectangle that is empty
/// or starts outside the display, and a fixed square on a display without
/// pixels, give nothing to capture.
pub proof fn lemma_empty_region_gives_nothing(mode: RegionMode, full_w: u32, full_h: u32)
    ensures
        mode matches RegionMode::Custom { x, y, width, height } ==> (plan_of(mode, full_w, full_h)
            is Nothing <==> width == 0 || height == 0 || x >= full_w || y >= full_h),
        mode is Center640 || mode is Center1280 ==> (plan_of(mode, full_w, full_h) is Nothing
            <==> full_w == 0 || full_h == 0),
        mode is Fullscreen ==> plan_of(mode, full_w, full_h) is Full,
{
}

/// A requested rectangle that starts inside the display is either cut to a
/// rectangle of positive area that lies inside the display, or it is dropped,
/// and it is dropped only where it was empty.
pub proof fn lemma_clip_inside_or_skipped(
    x: u32,
    y: u32,
    width: u32,
    height: u32,
    full_w: u32,
    full_h: u32,
)
    requires
        x < full_w,
        y < full_h,
    ensures
        match clip(x, y, width, height, full_w, full_h) {
            Some(r) => r.within(full_w as int, full_h as int) && r.positive() && r.x == x && r.y
                == y,
            None => width == 0 || height == 0,
        },
{
}

} // verus!
