use crate::error::{Error, Fault};
use crate::region::{clip, clip_region, Rect};
use vstd::prelude::*;

verus! {

/// What came of binding a duplication session to the primary display.
#[derive(Debug)]
pub enum BindOutcome {
    /// A session stands; the display has this size.
    Bound { width: u32, height: u32 },
    /// No primary display was found; the platform's words.
    NoDisplay(String),
    /// The display was found but no duplication session could be made.
    DuplicationFailed(String),
}

/// What came of one attempt to acquire the next frame.
#[derive(Debug)]
pub enum FrameEvent {
    /// A frame: 4 bytes per pixel (blue, green, red, alpha), rows packed.
    Frame(Vec<u8>),
    /// The wait ran out with no new frame.
    Timeout,
    /// The session is no longer valid.
    AccessLost,
    /// The platform refused the rectangle's size.
    InvalidSize,
    /// Any other platform failure; its words.
    Failed(String),
}

/// A capture session as contracts see it.
pub ghost struct SessionView {
    /// The display's width as of the session's last (re)creation.
    pub width: u32,
    /// The display's height as of the session's last (re)creation.
    pub height: u32,
    /// How long one attempt waits for a frame.
    pub timeout_ms: u32,
    /// The platform has reported the session lost, and it was not replaced since.
    pub lost: bool,
    /// The frame captured last, 4 bytes per pixel.
    pub rgba: Seq<u8>,
    /// The detector's input made last, 3 bytes per pixel.
    pub rgb: Seq<u8>,
}

/// The state of a capture session: the display's size as of the session's
/// last (re)creation, the wait per frame, and the buffers it owns.
#[derive(Debug)]
pub struct CaptureContext {
    pub width: u32,
    pub height: u32,
    pub timeout_ms: u32,
    /// The platform has reported the session lost; it serves no capture
    /// until `recreate` has replaced it.
    pub lost: bool,
    pub rgba_buffer: Vec<u8>,
    pub rgb_buffer: Vec<u8>,
}

impl View for CaptureContext {
    type V = SessionView;

    open spec fn view(&self) -> SessionView {
        SessionView {
            width: self.width,
            height: self.height,
            timeout_ms: self.timeout_ms,
            lost: self.lost,
            rgba: self.rgba_buffer@,
            rgb: self.rgb_buffer@,
        }
    }
}

/// A fresh session on a display of the given size.
pub open spec fn fresh_session(width: u32, height: u32, timeout_ms: u32) -> SessionView {
    SessionView {
        width,
        height,
        timeout_ms,
        lost: false,
        rgba: Seq::<u8>::empty(),
        rgb: Seq::<u8>::empty(),
    }
}

/// The session after a frame event: a frame replaces the captured bytes, a
/// lost session is marked so, anything else changes nothing.
pub open spec fn after_event(pre: SessionView, event: FrameEvent) -> SessionView {
    match event {
        FrameEvent::Frame(bytes) => SessionView { rgba: bytes@, ..pre },
        FrameEvent::AccessLost => SessionView { lost: true, ..pre },
        _ => pre,
    }
}

/// The session after it was replaced: the size is the new display's, the
/// buffers and the wait stay.
pub open spec fn after_rebind(pre: SessionView, width: u32, height: u32) -> SessionView {
    SessionView { width, height, lost: false, ..pre }
}

/// What a capture call returns for an event. `Ok(true)` for a frame that is
/// not empty; `Ok(false)` for the soft conditions (timeout, lost session, and
/// for a region capture an invalid size); an error of class capture for the rest.
pub open spec fn event_result(event: FrameEvent, region: bool, res: Result<bool, Error>) -> bool {
    match event {
        FrameEvent::Frame(bytes) => res matches Ok(got) && got == (bytes@.len() > 0),
        FrameEvent::Timeout => res matches Ok(got) && !got,
        FrameEvent::AccessLost => res matches Ok(got) && !got,
        FrameEvent::InvalidSize => if region {
            res matches Ok(got) && !got
        } else {
            res matches Err(e) && e.fault == Fault::FrameAcquireFailed && e.detail@
                == "Invalid crop size"@
        },
        FrameEvent::Failed(words) => res matches Err(e) && e.fault == Fault::FrameAcquireFailed
            && e.detail@ == words@,
    }
}

/// What binding to the display gives: the size, or the error of class device.
pub open spec fn bind_result(bind: BindOutcome, res: Result<(u32, u32), Error>) -> bool {
    match bind {
        BindOutcome::Bound { width, height } => res matches Ok(size) && size == (width, height),
        BindOutcome::NoDisplay(words) => res matches Err(e) && e.fault == Fault::NoDisplay
            && e.detail@ == words@,
        BindOutcome::DuplicationFailed(words) => res matches Err(e) && e.fault
            == Fault::DuplicationFailed && e.detail@ == words@,
    }
}

/// Reads the outcome of binding to the display.
pub fn bound_size(bind: BindOutcome) -> (res: Result<(u32, u32), Error>)
    ensures
        bind_result(bind, res),
{
    match bind {
        BindOutcome::Bound { width, height } => Ok((width, height)),
        BindOutcome::NoDisplay(words) => Err(Error::new(Fault::NoDisplay, words)),
        BindOutcome::DuplicationFailed(words) => Err(Error::new(Fault::DuplicationFailed, words)),
    }
}

/// Makes the session state for a session that was just bound, or reports why
/// none stands.
pub fn create_capture_context(timeout_ms: u32, bind: BindOutcome) -> (res: Result<
    CaptureContext,
    Error,
>)
    ensures
        match bind {
            BindOutcome::Bound { width, height } => res matches Ok(ctx) && ctx@ == fresh_session(
                width,
                height,
                timeout_ms,
            ),
            BindOutcome::NoDisplay(words) => res matches Err(e) && e.fault == Fault::NoDisplay
                && e.detail@ == words@,
            BindOutcome::DuplicationFailed(words) => res matches Err(e) && e.fault
                == Fault::DuplicationFailed && e.detail@ == words@,
        },
{
    match bound_size(bind) {
        Ok((width, height)) => Ok(
            CaptureContext {
                width,
                height,
                timeout_ms,
                lost: false,
                rgba_buffer: Vec::new(),
                rgb_buffer: Vec::new(),
            },
        ),
        Err(e) => Err(e),
    }
}

/// Replaces a lost session by one that was just bound. On an error nothing
/// changes, and the session stays lost.
pub fn recreate(ctx: &mut CaptureContext, bind: BindOutcome) -> (res: Result<(), Error>)
    ensures
        match bind {
            BindOutcome::Bound { width, height } => res is Ok && final(ctx)@ == after_rebind(
                old(ctx)@,
                width,
                height,
            ),
            BindOutcome::NoDisplay(words) => res matches Err(e) && e.fault == Fault::NoDisplay
                && e.detail@ == words@ && final(ctx)@ == old(ctx)@,
            BindOutcome::DuplicationFailed(words) => res matches Err(e) && e.fault
                == Fault::DuplicationFailed && e.detail@ == words@ && final(ctx)@ == old(ctx)@,
        },
{
    match bound_size(bind) {
        Ok((width, height)) => {
            ctx.width = width;
            ctx.height = height;
            ctx.lost = false;
            Ok(())
        },
        Err(e) => Err(e),
    }
}

/// The error for an invalid size where it is not soft.
pub fn invalid_size_error() -> (e: Error)
    ensures
        e.fault == Fault::FrameAcquireFailed,
        e.detail@ == "Invalid crop size"@,
{
    Error::new(Fault::FrameAcquireFailed, String::from_str("Invalid crop size"))
}

/// Takes in the outcome of acquiring a frame of the whole display.
pub fn capture_full(ctx: &mut CaptureContext, event: FrameEvent) -> (res: Result<bool, Error>)
    requires
        !old(ctx).lost,
    ensures
        final(ctx)@ == after_event(old(ctx)@, event),
        event_result(event, false, res),
{
    match event {
        FrameEvent::Frame(bytes) => {
            let got = bytes.len() > 0;
            ctx.rgba_buffer = bytes;
            Ok(got)
        },
        FrameEvent::Timeout => Ok(false),
        FrameEvent::AccessLost => {
            ctx.lost = true;
            Ok(false)
        },
        FrameEvent::InvalidSize => Err(invalid_size_error()),
        FrameEvent::Failed(words) => Err(Error::new(Fault::FrameAcquireFailed, words)),
    }
}

/// The rectangle to crop for a region request, or `None` where the request is
/// answered without acquiring a frame.
pub fn region_crop(ctx: &CaptureContext, x: u32, y: u32, width: u32, height: u32) -> (r: Option<
    Rect,
>)
    ensures
        r == clip(x, y, width, height, ctx.width, ctx.height),
        r matches Some(rect) ==> rect.within(ctx.width as int, ctx.height as int)
            && rect.positive() && rect.x == x && rect.y == y,
{
    clip_region(x, y, width, height, ctx.width, ctx.height)
}

/// Takes in the outcome of acquiring a frame cropped to a region. Where
/// nothing of the request is left on the display the answer is `Ok(false)`
/// and the event is not looked at.
pub fn capture_region(
    ctx: &mut CaptureContext,
    x: u32,
    y: u32,
    width: u32,
    height: u32,
    event: FrameEvent,
) -> (res: Result<bool, Error>)
    requires
        !old(ctx).lost,
    ensures
        match clip(x, y, width, height, old(ctx).width, old(ctx).height) {
            None => res == Ok::<bool, Error>(false) && final(ctx)@ == old(ctx)@,
            Some(_) => final(ctx)@ == after_event(old(ctx)@, event) && event_result(
                event,
                true,
                res,
            ),
        },
{
    if region_crop(ctx, x, y, width, height).is_none() {
        return Ok(false);
    }
    match event {
        FrameEvent::Frame(bytes) => {
            let got = bytes.len() > 0;
            ctx.rgba_buffer = bytes;
            Ok(got)
        },
        FrameEvent::Timeout => Ok(false),
        FrameEvent::AccessLost => {
            ctx.lost = true;
            Ok(false)
        },
        FrameEvent::InvalidSize => Ok(false),
        FrameEvent::Failed(words) => Err(Error::new(Fault::FrameAcquireFailed, words)),
    }
}

} // verus!
