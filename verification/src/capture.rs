use crate::error::Error;
use crate::region::{clip, clip_region, Rect};
use vstd::prelude::*;

pub mod inner;

use inner::{
    after_event, after_rebind, bind_result, bound_size, event_result, fresh_session, BindOutcome,
    FrameEvent, SessionView,
};

verus! {

/// The session state in its plain form, with every field open.
pub type CaptureContext = inner::CaptureContext;

/// Makes the session state for a session that was just bound, or reports why
/// none stands.
pub fn create_capture_context(timeout_ms: u32, bind: BindOutcome) -> (res: Result<
    CaptureContext,
    Error,
>)
    ensures
        bind is Bound <==> res is Ok,
        res matches Ok(ctx) ==> bind matches BindOutcome::Bound { width, height } && ctx@
            == fresh_session(width, height, timeout_ms),
        res matches Err(e) ==> bind_result(bind, Err(e)),
{
    inner::create_capture_context(timeout_ms, bind)
}

/// Takes in the outcome of acquiring a frame of the whole display.
pub fn capture_full(ctx: &mut CaptureContext, event: FrameEvent) -> (res: Result<bool, Error>)
    requires
        !old(ctx).lost,
    ensures
        final(ctx)@ == after_event(old(ctx)@, event),
        event_result(event, false, res),
{
    inner::capture_full(ctx, event)
}

/// Takes in the outcome of acquiring a frame cropped to a region.
pub fn capture_region(
    ctx: &mut CaptureContext,
    x: u32,
    y: u32,
    width: u32,
    height: u32,
    event: FrameEvent,
) -> (res: Result<bool, Error>)
    requires
        !old(ctx).lost,
    ensures
        match clip(x, y, width, height, old(ctx).width, old(ctx).height) {
            None => res == Ok::<bool, Error>(false) && final(ctx)@ == old(ctx)@,
            Some(_) => final(ctx)@ == after_event(old(ctx)@, event) && event_result(
                event,
                true,
                res,
            ),
        },
{
    inner::capture_region(ctx, x, y, width, height, event)
}

/// A capture session bound to the primary display. The size and the wait are
/// read through methods; the buffers are open.
#[derive(Debug)]
pub struct ScreenCapture {
    width: u32,
    height: u32,
    timeout_ms: u32,
    lost: bool,
    pub rgba_buffer: Vec<u8>,
    pub rgb_buffer: Vec<u8>,
}

impl View for ScreenCapture {
    type V = SessionView;

    closed spec fn view(&self) -> SessionView {
        SessionView {
            width: self.width,
            height: self.height,
            timeout_ms: self.timeout_ms,
            lost: self.lost,
            rgba: self.rgba_buffer@,
            rgb: self.rgb_buffer@,
        }
    }
}

impl ScreenCapture {
    /// Makes the session for a display that was just bound, or reports why
    /// none stands.
    pub fn try_new(timeout_ms: u32, bind: BindOutcome) -> (res: Result<ScreenCapture, Error>)
        ensures
            bind is Bound <==> res is Ok,
            res matches Ok(cap) ==> bind matches BindOutcome::Bound { width, height } && cap@
                == fresh_session(width, height, timeout_ms),
            res matches Err(e) ==> bind_result(bind, Err(e)),
    {
        match bound_size(bind) {
            Ok((width, height)) => Ok(
                ScreenCapture {
                    width,
                    height,
                    timeout_ms,
                    lost: false,
                    rgba_buffer: Vec::new(),
                    rgb_buffer: Vec::new(),
                },
            ),
            Err(e) => Err(e),
        }
    }

    /// The display's width as of the session's last (re)creation.
    pub fn width(&self) -> (w: u32)
        ensures
            w == self@.width,
    {
        self.width
    }

    /// The display's height as of the session's last (re)creation.
    pub fn height(&self) -> (h: u32)
        ensures
            h == self@.height,
    {
        self.height
    }

    /// How long one attempt waits for a frame, in milliseconds.
    pub fn timeout_ms(&self) -> (t: u32)
        ensures
            t == self@.timeout_ms,
    {
        self.timeout_ms
    }

    /// The frame captured last, 4 bytes per pixel.
    pub fn rgba(&self) -> (bytes: &Vec<u8>)
        ensures
            bytes@ == self@.rgba,
    {
        &self.rgba_buffer
    }

    /// Whether the session was reported lost and must be replaced before the
    /// next capture.
    pub fn is_lost(&self) -> (b: bool)
        ensures
            b == self@.lost,
    {
        self.lost
    }

    /// Replaces the session by one that was just bound. On an error nothing
    /// changes.
    pub fn recreate(&mut self, bind: BindOutcome) -> (res: Result<(), Error>)
        ensures
            bind is Bound <==> res is Ok,
            bind matches BindOutcome::Bound { width, height } ==> final(self)@ == after_rebind(
                old(self)@,
                width,
                height,
            ),
            res matches Err(e) ==> bind_result(bind, Err(e)) && final(self)@ == old(self)@,
    {
        match bound_size(bind) {
            Ok((width, height)) => {
                self.width = width;
                self.height = height;
                self.lost = false;
                Ok(())
            },
            Err(e) => Err(e),
        }
    }

    /// Takes in the outcome of acquiring a frame of the whole display.
    pub fn capture_full(&mut self, event: FrameEvent) -> (res: Result<bool, Error>)
        requires
            !old(self)@.lost,
        ensures
            final(self)@ == after_event(old(self)@, event),
            event_result(event, false, res),
    {
        match event {
            FrameEvent::Frame(bytes) => {
                let got = bytes.len() > 0;
                self.rgba_buffer = bytes;
                Ok(got)
            },
            FrameEvent::Timeout => Ok(false),
            FrameEvent::AccessLost => {
                self.lost = true;
                Ok(false)
            },
            FrameEvent::InvalidSize => Err(inner::invalid_size_error()),
            FrameEvent::Failed(words) => Err(
                Error::new(crate::error::Fault::FrameAcquireFailed, words),
            ),
        }
    }

    /// The rectangle to crop for a region request, or `None` where the
    /// request is answered without acquiring a frame.
    pub fn region_crop(&self, x: u32, y: u32, width: u32, height: u32) -> (r: Option<Rect>)
        ensures
            r == clip(x, y, width, height, self@.width, self@.height),
            r matches Some(rect) ==> rect.within(self@.width as int, self@.height as int)
                && rect.positive() && rect.x == x && rect.y == y,
    {
        clip_region(x, y, width, height, self.width, self.height)
    }

    /// Takes in the outcome of acquiring a frame cropped to a region. Where
    /// nothing of the request is left on the display the answer is
    /// `Ok(false)` and the event is not looked at.
    pub fn capture_region(&mut self, x: u32, y: u32, width: u32, height: u32, event: FrameEvent) -> (res:
        Result<bool, Error>)
        requires
            !old(self)@.lost,
        ensures
            match clip(x, y, width, height, old(self)@.width, old(self)@.height) {
                None => res == Ok::<bool, Error>(false) && final(self)@ == old(self)@,
                Some(_) => final(self)@ == after_event(old(self)@, event) && event_result(
                    event,
                    true,
                    res,
                ),
            },
    {
        if self.region_crop(x, y, width, height).is_none() {
            return Ok(false);
        }
        match event {
            FrameEvent::Frame(bytes) => {
                let got = bytes.len() > 0;
                self.rgba_buffer = bytes;
                Ok(got)
            },
            FrameEvent::Timeout => Ok(false),
            FrameEvent::AccessLost => {
                self.lost = true;
                Ok(false)
            },
            FrameEvent::InvalidSize => Ok(false),
            FrameEvent::Failed(words) => Err(
                Error::new(crate::error::Fault::FrameAcquireFailed, words),
            ),
        }
    }
}

} // verus!
