use crate::capture::inner::{
    after_event, after_rebind, capture_full, capture_region, recreate, BindOutcome,
    CaptureContext, FrameEvent, SessionView,
};
use crate::error::{Error, Fault};
use crate::model::{plan_for, plan_model, refusal, ModelFile, ModelPlan, PlanView};
use crate::pixel::{
    bgra_to_rgb, check_frame_fits, convert, convert_frame, frame_fits, frame_rgb,
    holds_whole_frame,
};
use crate::region::{clip, frame_size, frame_size_of, plan_of, resolve_region, CapturePlan, Rect};
use crate::target::Detection;
use vstd::prelude::*;

pub use crate::model::{infer_yolo_meta, parse_version_from_name};
pub use crate::region::{CaptureConfig, RegionMode};

verus! {

/// The confidence threshold of a fresh engine: 0.25, in thousandths.
pub const DEFAULT_CONFIDENCE: u16 = 250;

/// The largest confidence: 1, in thousandths.
pub const FULL_CONFIDENCE: u16 = 1000;

/// What one tick did. The two durations are in thousandths of a millisecond.
#[derive(Clone, Copy, Debug, PartialEq, Eq, Structural)]
pub struct CaptureStats {
    /// A new frame was captured and put through the detector.
    pub did_capture: bool,
    /// From the start of the tick to the detector's input being ready.
    pub capture_ms: u64,
    /// The detector's run.
    pub infer_ms: u64,
    /// The detector returned a result set for this frame. Without one there
    /// is nothing to aim at in this tick, whatever an earlier tick found.
    pub has_results: bool,
}

/// What came of building the model from a plan.
#[derive(Debug)]
pub enum BuildOutcome {
    /// The model stands.
    Built,
    /// The back end refused the configuration; its words.
    ConfigRejected(String),
    /// The back end failed to build the model; its words.
    BuildFailed(String),
}

/// What came of one run of the detector.
#[derive(Debug)]
pub enum InferOutcome {
    /// The result set for the image.
    Results(Vec<Detection>),
    /// The detector returned no result set.
    Nothing,
    /// The detector failed; its words.
    Failed(String),
}

/// What the caller reports to the engine in the course of one tick.
#[derive(Debug)]
pub enum TickEvent {
    /// The tick begins.
    Begin,
    /// The frame source answered the request that `plan` stood for.
    Frame { plan: CapturePlan, event: FrameEvent },
    /// A session was bound, or not, in place of the lost one.
    Rebound(BindOutcome),
    /// The detector returned; the durations are those of `CaptureStats`.
    Inferred { outcome: InferOutcome, capture_ms: u64, infer_ms: u64 },
}

/// What the engine asks of the caller next.
#[derive(Clone, Copy, Debug, PartialEq, Eq, Structural)]
pub enum TickAction {
    /// Acquire a frame of the whole display and report it.
    AcquireFull,
    /// Acquire a frame, crop it to this rectangle and report it.
    AcquireRegion(Rect),
    /// Bind a new session in place of the lost one and report the outcome.
    Rebind,
    /// Run the detector on the session's detector input, a frame of this
    /// size, at this confidence threshold (in thousandths), and report.
    Infer { width: u32, height: u32, confidence: u16 },
    /// The tick is over.
    Done(CaptureStats),
}

/// The engine as contracts see it.
pub ghost struct EngineView {
    /// The plan of the model that is loaded, if one is.
    pub model: Option<PlanView>,
    /// The most recent result set.
    pub results: Seq<Detection>,
    /// The loop is meant to run.
    pub running: bool,
    /// The confidence threshold, in thousandths.
    pub confidence: u16,
    /// The region that is captured.
    pub mode: RegionMode,
}

/// The detector's side of the loop: which model is loaded, the confidence
/// threshold, the region to capture, and the most recent result set.
#[derive(Debug)]
pub struct InferenceEngine {
    model: Option<ModelPlan>,
    results: Vec<Detection>,
    is_running: bool,
    conf_threshold: u16,
    capture_config: CaptureConfig,
}

impl View for InferenceEngine {
    type V = EngineView;

    closed spec fn view(&self) -> EngineView {
        EngineView {
            model: match self.model {
                Some(p) => Some(p@),
                None => None,
            },
            results: self.results@,
            running: self.is_running,
            confidence: self.conf_threshold,
            mode: self.capture_config.mode,
        }
    }
}

/// A fresh engine: no model, no results, not running, threshold 0.25, the
/// whole display.
pub open spec fn fresh_engine() -> EngineView {
    EngineView {
        model: None,
        results: Seq::<Detection>::empty(),
        running: false,
        confidence: 250,
        mode: RegionMode::Fullscreen,
    }
}

/// The stats of a tick without a frame.
pub open spec fn idle_stats() -> CaptureStats {
    CaptureStats { did_capture: false, capture_ms: 0, infer_ms: 0, has_results: false }
}

/// The stats of a tick that put a frame through the detector.
pub open spec fn frame_stats(capture_ms: u64, infer_ms: u64, has_results: bool) -> CaptureStats {
    CaptureStats { did_capture: true, capture_ms, infer_ms, has_results }
}

/// What a tick begins with. An engine that is not running does nothing; a
/// lost session is replaced first; else the frame is asked for that the
/// region mode stands for on the display as it is now. Where nothing of the
/// region lies on the display the tick is one without a frame: nothing is
/// captured, and nothing else in its place.
pub open spec fn first_action(e: EngineView, s: SessionView) -> TickAction {
    if !e.running {
        TickAction::Done(idle_stats())
    } else if s.lost {
        TickAction::Rebind
    } else {
        match plan_of(e.mode, s.width, s.height) {
            CapturePlan::Full => TickAction::AcquireFull,
            CapturePlan::Region(r) => TickAction::AcquireRegion(r),
            CapturePlan::Nothing => TickAction::Done(idle_stats()),
        }
    }
}

/// Whether a planned capture is answered without looking at the frame
/// source: a region of which nothing lies on the display.
pub open spec fn nothing_to_capture(plan: CapturePlan, s: SessionView) -> bool {
    match plan {
        CapturePlan::Full => false,
        CapturePlan::Region(r) => clip(r.x, r.y, r.width, r.height, s.width, s.height) is None,
        CapturePlan::Nothing => true,
    }
}

/// The error `e` has this fault and this detail.
pub open spec fn is_error<T>(res: Result<T, Error>, fault: Fault, detail: Seq<char>) -> bool {
    res matches Err(e) && e.fault == fault && e.detail@ == detail
}

/// What holds after the frame source's answer was taken in.
///
/// A lost session asks to be replaced. A soft condition ends the tick
/// without a frame, and so does an empty frame; a lost session is marked and
/// asks to be replaced. A frame with bytes is stored, and then: without a
/// model the tick fails with `ModelNotLoaded`; a frame of four bytes for each
/// pixel of its size is converted pixel by pixel, and the detector is asked
/// for, at the threshold as it is now; a buffer of another length is fitted
/// to the size, unless that size is too large for memory, which fails with
/// `FrameTooLarge`. Any other platform failure is fatal.
pub open spec fn frame_taken(
    e: EngineView,
    pre: SessionView,
    post: SessionView,
    plan: CapturePlan,
    event: FrameEvent,
    res: Result<TickAction, Error>,
) -> bool {
    let size = frame_size_of(plan, pre.width, pre.height);
    if pre.lost {
        post == pre && res == Ok::<TickAction, Error>(TickAction::Rebind)
    } else if nothing_to_capture(plan, pre) {
        post == pre && res == Ok::<TickAction, Error>(TickAction::Done(idle_stats()))
    } else {
        match event {
            FrameEvent::Frame(bytes) => if bytes@.len() == 0 {
                post == after_event(pre, event) && res == Ok::<TickAction, Error>(
                    TickAction::Done(idle_stats()),
                )
            } else if e.model is None {
                post == after_event(pre, event) && is_error(
                    res,
                    Fault::ModelNotLoaded,
                    Seq::<char>::empty(),
                )
            } else if bytes@.len() == 4 * (size.0 * size.1) {
                post == (SessionView { rgb: bgra_to_rgb(bytes@), ..after_event(pre, event) })
                    && res == Ok::<TickAction, Error>(
                    TickAction::Infer { width: size.0, height: size.1, confidence: e.confidence },
                )
            } else if !frame_fits(size.0, size.1) {
                post == after_event(pre, event) && is_error(
                    res,
                    Fault::FrameTooLarge,
                    Seq::<char>::empty(),
                )
            } else {
                post == (SessionView {
                    rgb: frame_rgb(bytes@, pre.rgb, (size.0 * size.1) as nat),
                    ..after_event(pre, event)
                }) && res == Ok::<TickAction, Error>(
                    TickAction::Infer { width: size.0, height: size.1, confidence: e.confidence },
                )
            },
            FrameEvent::Timeout => post == pre && res == Ok::<TickAction, Error>(
                TickAction::Done(idle_stats()),
            ),
            FrameEvent::AccessLost => post == after_event(pre, event) && res == Ok::<
                TickAction,
                Error,
            >(TickAction::Rebind),
            FrameEvent::InvalidSize => post == pre && if plan is Region {
                res == Ok::<TickAction, Error>(TickAction::Done(idle_stats()))
            } else {
                is_error(res, Fault::FrameAcquireFailed, "Invalid crop size"@)
            },
            FrameEvent::Failed(words) => post == pre && is_error(
                res,
                Fault::FrameAcquireFailed,
                words@,
            ),
        }
    }
}

/// What holds after the outcome of binding a new session was taken in: with
/// a session the tick ends without a frame, without one it fails.
pub open spec fn rebind_taken(
    pre: SessionView,
    post: SessionView,
    bind: BindOutcome,
    res: Result<TickAction, Error>,
) -> bool {
    match bind {
        BindOutcome::Bound { width, height } => post == after_rebind(pre, width, height) && res
            == Ok::<TickAction, Error>(TickAction::Done(idle_stats())),
        BindOutcome::NoDisplay(words) => post == pre && is_error(res, Fault::NoDisplay, words@),
        BindOutcome::DuplicationFailed(words) => post == pre && is_error(
            res,
            Fault::DuplicationFailed,
            words@,
        ),
    }
}

/// What holds after the detector's answer was taken in: a result set
/// replaces the one kept, and the tick ends with its durations; without a
/// result set the kept one stays for the control surface to read, and the
/// tick ends marked as having none; a failure is fatal and leaves the kept
/// result set alone.
pub open spec fn inference_taken(
    pre: EngineView,
    post: EngineView,
    outcome: InferOutcome,
    capture_ms: u64,
    infer_ms: u64,
    res: Result<TickAction, Error>,
) -> bool {
    match outcome {
        InferOutcome::Results(found) => post == (EngineView { results: found@, ..pre }) && res
            == Ok::<TickAction, Error>(TickAction::Done(frame_stats(capture_ms, infer_ms, true))),
        InferOutcome::Nothing => post == pre && res == Ok::<TickAction, Error>(
            TickAction::Done(frame_stats(capture_ms, infer_ms, false)),
        ),
        InferOutcome::Failed(words) => post == pre && is_error(
            res,
            Fault::InferenceFailed,
            words@,
        ),
    }
}

impl InferenceEngine {
    /// The confidence threshold never leaves the range from 0 to 1.
    #[verifier::type_invariant]
    spec fn threshold_in_range(self) -> bool {
        self.conf_threshold <= FULL_CONFIDENCE
    }

    /// A fresh engine.
    pub fn new() -> (e: InferenceEngine)
        ensures
            e@ == fresh_engine(),
    {
        InferenceEngine {
            model: None,
            results: Vec::new(),
            is_running: false,
            conf_threshold: DEFAULT_CONFIDENCE,
            capture_config: CaptureConfig { mode: RegionMode::Fullscreen },
        }
    }

    /// Checks a model file and plans the build. The file is refused, in this
    /// order, if its path is empty, if nothing exists there, if it is no
    /// regular file, if its extension is not `onnx`, or if no version is
    /// given and the name gives none. The engine is not changed: the model
    /// that was loaded stays loaded until `model_built` replaces it.
    pub fn load_model(&self, file: &ModelFile, device_type: &str, version_override: Option<u8>) -> (res:
        Result<ModelPlan, Error>)
        ensures
            match refusal(*file, version_override) {
                Some(fault) => is_error(res, fault, file.path@),
                None => res matches Ok(plan) && plan@ == plan_for(
                    *file,
                    device_type@,
                    version_override,
                ),
            },
    {
        plan_model(file, device_type, version_override)
    }

    /// Takes in the outcome of building the model for a plan. A model that
    /// was built replaces the one that was loaded; a failure leaves the
    /// engine as it was.
    pub fn model_built(&mut self, plan: ModelPlan, outcome: BuildOutcome) -> (res: Result<
        (),
        Error,
    >)
        requires
            !old(self)@.running,
        ensures
            match outcome {
                BuildOutcome::Built => res is Ok && final(self)@ == (EngineView {
                    model: Some(plan@),
                    ..old(self)@
                }),
                BuildOutcome::ConfigRejected(words) => is_error(
                    res,
                    Fault::ModelConfigRejected,
                    words@,
                ) && final(self)@ == old(self)@,
                BuildOutcome::BuildFailed(words) => is_error(res, Fault::ModelBuildFailed, words@)
                    && final(self)@ == old(self)@,
            },
    {
        proof {
            use_type_invariant(&*self);
        }
        match outcome {
            BuildOutcome::Built => {
                self.model = Some(plan);
                Ok(())
            },
            BuildOutcome::ConfigRejected(words) => Err(
                Error::new(Fault::ModelConfigRejected, words),
            ),
            BuildOutcome::BuildFailed(words) => Err(Error::new(Fault::ModelBuildFailed, words)),
        }
    }

    /// Whether a model is loaded.
    pub fn is_loaded(&self) -> (b: bool)
        ensures
            b == self@.model is Some,
    {
        self.model.is_some()
    }

    /// The plan of the model that is loaded.
    pub fn loaded_plan(&self) -> (p: Option<ModelPlan>)
        ensures
            match p {
                Some(plan) => self@.model == Some(plan@),
                None => self@.model is None,
            },
    {
        match &self.model {
            Some(plan) => Some(plan.clone()),
            None => None,
        }
    }

    /// Lets the loop run.
    pub fn start(&mut self)
        ensures
            final(self)@ == (EngineView { running: true, ..old(self)@ }),
    {
        proof {
            use_type_invariant(&*self);
        }
        self.is_running = true;
    }

    /// Tells the loop to stop.
    pub fn stop(&mut self)
        ensures
            final(self)@ == (EngineView { running: false, ..old(self)@ }),
    {
        proof {
            use_type_invariant(&*self);
        }
        self.is_running = false;
    }

    /// Whether the loop is meant to run.
    pub fn is_running(&self) -> (b: bool)
        ensures
            b == self@.running,
    {
        self.is_running
    }

    /// Sets the region that is captured from the next tick on.
    pub fn set_region_mode(&mut self, mode: RegionMode)
        ensures
            final(self)@ == (EngineView { mode, ..old(self)@ }),
    {
        proof {
            use_type_invariant(&*self);
        }
        self.capture_config = CaptureConfig { mode };
    }

    /// The capture settings.
    pub fn capture_config(&self) -> (c: CaptureConfig)
        ensures
            c.mode == self@.mode,
    {
        self.capture_config
    }

    /// Sets the confidence threshold, in thousandths, for the detector's
    /// next run.
    pub fn set_confidence(&mut self, value: u16)
        requires
            value <= 1000,
        ensures
            final(self)@ == (EngineView { confidence: value, ..old(self)@ }),
    {
        self.conf_threshold = value;
    }

    /// The confidence threshold, in thousandths.
    pub fn confidence(&self) -> (c: u16)
        ensures
            c == self@.confidence,
            c <= 1000,
    {
        proof {
            use_type_invariant(self);
        }
        self.conf_threshold
    }

    /// The most recent result set.
    pub fn latest(&self) -> (found: &Vec<Detection>)
        ensures
            found@ == self@.results,
    {
        &self.results
    }

    /// A copy of the most recent result set.
    pub fn get_latest_detections(&self) -> (found: Vec<Detection>)
        ensures
            found@ == self@.results,
    {
        let mut found: Vec<Detection> = Vec::new();
        let mut i: usize = 0;
        while i < self.results.len()
            invariant
                i <= self.results@.len(),
                found@ == self.results@.take(i as int),
            decreases self.results@.len() - i,
        {
            found.push(self.results[i]);
            assert(self.results@.take(i + 1) == self.results@.take(i as int).push(
                self.results@[i as int],
            ));
            i = i + 1;
        }
        assert(self.results@.take(self.results@.len() as int) == self.results@);
        found
    }

    /// The confidence threshold for a run of the detector that is about to
    /// start, as it is now. Without a model there is no run.
    pub fn infer(&self) -> (res: Result<u16, Error>)
        ensures
            match self@.model {
                Some(_) => res == Ok::<u16, Error>(self@.confidence),
                None => is_error(res, Fault::ModelNotLoaded, Seq::<char>::empty()),
            },
            res matches Ok(c) ==> c <= 1000,
    {
        if self.model.is_none() {
            return Err(Error::bare(Fault::ModelNotLoaded));
        }
        Ok(self.confidence())
    }

    /// Begins a tick.
    pub fn begin_tick(&self, ctx: &CaptureContext) -> (action: TickAction)
        ensures
            action == first_action(self@, ctx@),
    {
        if !self.is_running {
            return TickAction::Done(CaptureStats { did_capture: false, capture_ms: 0, infer_ms: 0, has_results: false });
        }
        if ctx.lost {
            return TickAction::Rebind;
        }
        match resolve_region(self.capture_config.mode, ctx.width, ctx.height) {
            CapturePlan::Full => TickAction::AcquireFull,
            CapturePlan::Region(r) => TickAction::AcquireRegion(r),
            CapturePlan::Nothing => TickAction::Done(
                CaptureStats { did_capture: false, capture_ms: 0, infer_ms: 0, has_results: false },
            ),
        }
    }

    /// Takes in the frame source's answer to the request that `plan` stood
    /// for, and makes the detector's input from a new frame.
    pub fn frame_arrived(&self, ctx: &mut CaptureContext, plan: CapturePlan, event: FrameEvent) -> (res:
        Result<TickAction, Error>)
        ensures
            frame_taken(self@, old(ctx)@, final(ctx)@, plan, event, res),
    {
        let idle = TickAction::Done(CaptureStats { did_capture: false, capture_ms: 0, infer_ms: 0, has_results: false });
        if ctx.lost {
            return Ok(TickAction::Rebind);
        }
        let (width, height) = frame_size(plan, ctx.width, ctx.height);
        let captured = match plan {
            CapturePlan::Full => capture_full(ctx, event),
            CapturePlan::Region(r) => capture_region(ctx, r.x, r.y, r.width, r.height, event),
            CapturePlan::Nothing => {
                return Ok(idle);
            },
        };
        match captured {
            Err(e) => Err(e),
            Ok(false) => if ctx.lost {
                Ok(TickAction::Rebind)
            } else {
                Ok(idle)
            },
            Ok(true) => {
                let confidence = match self.infer() {
                    Ok(c) => c,
                    Err(e) => {
                        return Err(e);
                    },
                };
                if holds_whole_frame(ctx.rgba_buffer.len(), width, height) {
                    convert(ctx.rgba_buffer.as_slice(), &mut ctx.rgb_buffer);
                    return Ok(TickAction::Infer { width, height, confidence });
                }
                if !check_frame_fits(width, height) {
                    return Err(Error::bare(Fault::FrameTooLarge));
                }
                convert_frame(&ctx.rgba_buffer, &mut ctx.rgb_buffer, width, height);
                Ok(TickAction::Infer { width, height, confidence })
            },
        }
    }

    /// Takes in the detector's answer and keeps its result set.
    pub fn inferred(&mut self, outcome: InferOutcome, capture_ms: u64, infer_ms: u64) -> (res:
        Result<TickAction, Error>)
        ensures
            inference_taken(old(self)@, final(self)@, outcome, capture_ms, infer_ms, res),
    {
        proof {
            use_type_invariant(&*self);
        }
        match outcome {
            InferOutcome::Results(found) => {
                self.results = found;
                Ok(
                    TickAction::Done(
                        CaptureStats { did_capture: true, capture_ms, infer_ms, has_results: true },
                    ),
                )
            },
            InferOutcome::Nothing => Ok(
                TickAction::Done(
                    CaptureStats { did_capture: true, capture_ms, infer_ms, has_results: false },
                ),
            ),
            InferOutcome::Failed(words) => Err(Error::new(Fault::InferenceFailed, words)),
        }
    }

    /// One step of a tick: takes in what the caller reports and says what to
    /// do next. A tick begins with `TickEvent::Begin` and goes on until the
    /// answer is `Done` or an error; between ticks the engine may be set
    /// differently, and a tick reads the settings as they are at each step.
    pub fn capture_once(&mut self, ctx: &mut CaptureContext, event: TickEvent) -> (res: Result<
        TickAction,
        Error,
    >)
        ensures
            match event {
                TickEvent::Begin => res == Ok::<TickAction, Error>(
                    first_action(old(self)@, old(ctx)@),
                ) && final(self)@ == old(self)@ && final(ctx)@ == old(ctx)@,
                TickEvent::Frame { plan, event } => frame_taken(
                    old(self)@,
                    old(ctx)@,
                    final(ctx)@,
                    plan,
                    event,
                    res,
                ) && final(self)@ == old(self)@,
                TickEvent::Rebound(bind) => rebind_taken(old(ctx)@, final(ctx)@, bind, res)
                    && final(self)@ == old(self)@,
                TickEvent::Inferred { outcome, capture_ms, infer_ms } => inference_taken(
                    old(self)@,
                    final(self)@,
                    outcome,
                    capture_ms,
                    infer_ms,
                    res,
                ) && final(ctx)@ == old(ctx)@,
            },
    {
        match event {
            TickEvent::Begin => Ok(self.begin_tick(ctx)),
            TickEvent::Frame { plan, event } => self.frame_arrived(ctx, plan, event),
            TickEvent::Rebound(bind) => match recreate(ctx, bind) {
                Ok(()) => Ok(
                    TickAction::Done(
                        CaptureStats { did_capture: false, capture_ms: 0, infer_ms: 0, has_results: false },
                    ),
                ),
                Err(e) => Err(e),
            },
            TickEvent::Inferred { outcome, capture_ms, infer_ms } => self.inferred(
                outcome,
                capture_ms,
                infer_ms,
            ),
        }
    }
}

/// A tick on a region of which nothing lies on the display is a tick without
/// a frame: for a running engine on a session that stands, the tick ends at
/// once and without a capture exactly where the region mode leaves nothing
/// to capture, and a rectangle that is asked for lies inside the display and
/// holds a pixel.
pub proof fn lemma_empty_region_is_no_frame(e: EngineView, s: SessionView)
    requires
        e.running,
        !s.lost,
    ensures
        first_action(e, s) == TickAction::Done(idle_stats()) <==> plan_of(e.mode, s.width, s.height)
            is Nothing,
        e.mode matches RegionMode::Custom { x, y, width, height } && clip(
            x,
            y,
            width,
            height,
            s.width,
            s.height,
        ) is None ==> first_action(e, s) == TickAction::Done(idle_stats()),
        first_action(e, s) matches TickAction::AcquireRegion(r) ==> r.within(
            s.width as int,
            s.height as int,
        ) && r.positive(),
{
}

/// A frame that holds four bytes for each of its pixels is converted pixel
/// by pixel, whatever its size: the detector's input holds three bytes for
/// each pixel, red, green and blue of the captured blue, green, red and
/// alpha, and the captured bytes are kept as they came.
pub proof fn lemma_whole_frame_is_converted(
    e: EngineView,
    pre: SessionView,
    post: SessionView,
    plan: CapturePlan,
    bytes: Vec<u8>,
    res: Result<TickAction, Error>,
)
    requires
        frame_taken(e, pre, post, plan, FrameEvent::Frame(bytes), res),
        !pre.lost,
        !nothing_to_capture(plan, pre),
        e.model is Some,
        bytes@.len() > 0,
        bytes@.len() == 4 * (frame_size_of(plan, pre.width, pre.height).0 * frame_size_of(
            plan,
            pre.width,
            pre.height,
        ).1),
    ensures
        res matches Ok(TickAction::Infer { width, height, confidence }) && (width, height)
            == frame_size_of(plan, pre.width, pre.height) && confidence == e.confidence,
        post.rgba == bytes@,
        post.rgb == bgra_to_rgb(bytes@),
        post.rgb.len() * 4 == bytes@.len() * 3,
        forall|i: int|
            0 <= i < bytes@.len() / 4 ==> post.rgb[3 * i] == bytes@[4 * i + 2] && post.rgb[3 * i
                + 1] == bytes@[4 * i + 1] && #[trigger] post.rgb[3 * i + 2] == bytes@[4 * i],
{
    let rgb = bgra_to_rgb(bytes@);
    assert forall|i: int| 0 <= i < bytes@.len() / 4 implies rgb[3 * i] == bytes@[4 * i + 2]
        && rgb[3 * i + 1] == bytes@[4 * i + 1] && #[trigger] rgb[3 * i + 2] == bytes@[4 * i] by {
        assert((3 * i) / 3 == i && (3 * i) % 3 == 0);
        assert((3 * i + 1) / 3 == i && (3 * i + 1) % 3 == 1);
        assert((3 * i + 2) / 3 == i && (3 * i + 2) % 3 == 2);
    }
}

} // verus!
