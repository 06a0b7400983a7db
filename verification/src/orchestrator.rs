use crate::config::{ControlSettings, TriggerType};
use crate::error::Error;
use crate::inference::{CaptureStats, InferenceEngine};
use crate::input_listener::{
    armed, cooled_down, unicode_lowercase, InputListener, ListenerView,
};
use crate::target::{
    delta_in_frame, delta_in_frame_of, distance_sq4_half, is_nearest_in_frame, nearest_in_frame,
    Detection,
};
use crate::text::{chars_of, contains_text, occurs};
use vstd::prelude::*;

verus! {

/// The least time between two actuations, in milliseconds.
pub const TRIGGER_COOLDOWN_MS: u64 = 100;

/// The length of a reporting window, in milliseconds.
pub const REPORT_INTERVAL_MS: u64 = 1000;

/// The pause at the end of a tick, in milliseconds.
pub const TICK_PAUSE_MS: u64 = 1;

/// The pause between two samples of the hotkey, in milliseconds.
pub const POLL_INTERVAL_MS: u64 = 10;

/// How many log entries are kept.
pub const LOG_CAPACITY: usize = 500;

/// Where a run stands.
#[derive(Clone, Copy, Debug, PartialEq, Eq, Structural)]
pub enum RunState {
    /// No run; one can be started.
    Stopped,
    /// The capture session is being made.
    Starting,
    /// Ticks are running.
    Running,
    /// The run has ended; the loop is yet to leave.
    Stopping,
}

/// The counters of one reporting window. Durations are in thousandths of a
/// millisecond.
#[derive(Clone, Copy, Debug, PartialEq, Eq, Structural)]
pub struct FrameStats {
    /// Frames put through the detector in this window.
    pub frames: u64,
    /// The sum of their capture times.
    pub capture_total: u128,
    /// The sum of their inference times.
    pub infer_total: u128,
    /// When the window began, in milliseconds.
    pub window_start: u64,
}

/// The throughput of one window. Frames per second are in thousandths, the
/// two means in thousandths of a millisecond; all are rounded down.
#[derive(Clone, Copy, Debug, PartialEq, Eq, Structural)]
pub struct Report {
    pub frames: u64,
    pub elapsed_ms: u64,
    pub fps: u128,
    pub capture_ms: u128,
    pub infer_ms: u128,
}

/// How weighty a log entry is.
#[derive(Clone, Copy, Debug, PartialEq, Eq, Structural)]
pub enum LogLevel {
    Debug,
    Info,
    Error,
}

/// One line of the log.
#[derive(Debug)]
pub struct LogEntry {
    pub level: LogLevel,
    pub message: String,
}

/// What the end of a tick asks of the caller.
#[derive(Debug)]
pub struct TickOutcome {
    /// Move the pointer by this much.
    pub pointer: Option<(i32, i32)>,
    /// Report this throughput.
    pub report: Option<Report>,
    /// The run has ended on this error; report it.
    pub fatal: Option<Error>,
    /// Pause for `TICK_PAUSE_MS` before the next tick. A tick that was
    /// abandoned is followed by the next at once.
    pub pause: bool,
}

/// An empty window that begins at `now_ms`.
pub open spec fn empty_window(now_ms: u64) -> FrameStats {
    FrameStats { frames: 0, capture_total: 0, infer_total: 0, window_start: now_ms }
}

/// Whether the window can take one more frame without a counter leaving its
/// range.
pub open spec fn has_room(w: FrameStats, stats: CaptureStats) -> bool {
    &&& w.frames < u64::MAX
    &&& w.capture_total + stats.capture_ms <= u128::MAX
    &&& w.infer_total + stats.infer_ms <= u128::MAX
}

/// The window after a frame was counted. A frame for which there is no room
/// is not counted.
pub open spec fn counted(w: FrameStats, stats: CaptureStats) -> FrameStats {
    if has_room(w, stats) {
        FrameStats {
            frames: (w.frames + 1) as u64,
            capture_total: (w.capture_total + stats.capture_ms) as u128,
            infer_total: (w.infer_total + stats.infer_ms) as u128,
            window_start: w.window_start,
        }
    } else {
        w
    }
}

/// The milliseconds since the window began; zero where `now` is the earlier.
pub open spec fn window_age(w: FrameStats, now_ms: u64) -> u64 {
    if now_ms >= w.window_start {
        (now_ms - w.window_start) as u64
    } else {
        0
    }
}

/// A report is due: the window is at least one interval old.
pub open spec fn report_due(w: FrameStats, now_ms: u64) -> bool {
    window_age(w, now_ms) >= REPORT_INTERVAL_MS
}

/// The throughput of a window that has lasted `elapsed_ms`: frames per
/// second and the mean times per frame; all zero for a window without frames.
pub open spec fn report_of(w: FrameStats, elapsed_ms: u64) -> Report {
    if w.frames > 0 && elapsed_ms > 0 {
        Report {
            frames: w.frames,
            elapsed_ms,
            fps: (w.frames * 1_000_000 / (elapsed_ms as int)) as u128,
            capture_ms: (w.capture_total / (w.frames as u128)) as u128,
            infer_ms: (w.infer_total / (w.frames as u128)) as u128,
        }
    } else {
        Report { frames: w.frames, elapsed_ms, fps: 0, capture_ms: 0, infer_ms: 0 }
    }
}

/// The log after an entry was added: the newest `LOG_CAPACITY` entries stay.
pub open spec fn newest(entries: Seq<LogEntry>) -> Seq<LogEntry> {
    if entries.len() > LOG_CAPACITY {
        entries.subrange(entries.len() - LOG_CAPACITY, entries.len() as int)
    } else {
        entries
    }
}

/// The text that opens the line of an entry of this level.
pub open spec fn level_prefix(level: LogLevel) -> Seq<char> {
    match level {
        LogLevel::Debug => "[DEBUG] "@,
        LogLevel::Info => "[INFO] "@,
        LogLevel::Error => "[ERROR] "@,
    }
}

/// Whether an entry of this level is shown: debug entries only where asked for.
pub open spec fn is_shown(level: LogLevel, show_debug: bool) -> bool {
    level != LogLevel::Debug || show_debug
}

/// The pointer movement for a trigger that fired: towards the box nearest to
/// the centre of the frame, measured from that centre. The centre of a frame
/// of odd size lies half a pixel off the grid and is taken where it lies.
/// Without a box there is no movement.
pub open spec fn movement_for(
    detections: Seq<Detection>,
    width: u32,
    height: u32,
    settings: ControlSettings,
    pointer: Option<(i32, i32)>,
) -> bool {
    if detections.len() == 0 {
        pointer is None
    } else {
        exists|k: int| #[trigger]
            is_nearest_in_frame(detections, width, height, k) && pointer == Some(
                delta_in_frame_of(detections[k], width, height, settings),
            )
    }
}

/// The boxes that a tick aims at: those that the detector returned for this
/// tick's frame. A tick for which it returned no result set has none, whatever
/// an earlier tick has left behind.
pub open spec fn boxes_of_tick(stats: CaptureStats, kept: Seq<Detection>) -> Seq<Detection> {
    if stats.has_results {
        kept
    } else {
        Seq::<Detection>::empty()
    }
}

impl FrameStats {
    /// An empty window that begins at `now_ms`.
    pub fn new(now_ms: u64) -> (w: FrameStats)
        ensures
            w == empty_window(now_ms),
    {
        FrameStats { frames: 0, capture_total: 0, infer_total: 0, window_start: now_ms }
    }

    /// Counts one frame with its two durations.
    pub fn record(&mut self, stats: CaptureStats)
        ensures
            *final(self) == counted(*old(self), stats),
    {
        if self.frames == u64::MAX {
            return;
        }
        let capture = self.capture_total.checked_add(stats.capture_ms as u128);
        let infer = self.infer_total.checked_add(stats.infer_ms as u128);
        match (capture, infer) {
            (Some(c), Some(i)) => {
                self.frames = self.frames + 1;
                self.capture_total = c;
                self.infer_total = i;
            },
            _ => {},
        }
    }

    /// The throughput of the window as of `now_ms`.
    pub fn summary(&self, now_ms: u64) -> (r: Report)
        ensures
            r == report_of(*self, window_age(*self, now_ms)),
    {
        let elapsed: u64 = if now_ms >= self.window_start {
            now_ms - self.window_start
        } else {
            0
        };
        if self.frames > 0 && elapsed > 0 {
            let frames: u128 = self.frames as u128;
            assert(frames * 1_000_000 <= 0xffff_ffff_ffff_ffff * 1_000_000) by (nonlinear_arith)
                requires
                    frames <= 0xffff_ffff_ffff_ffff,
            ;
            Report {
                frames: self.frames,
                elapsed_ms: elapsed,
                fps: frames * 1_000_000 / (elapsed as u128),
                capture_ms: self.capture_total / frames,
                infer_ms: self.infer_total / frames,
            }
        } else {
            Report { frames: self.frames, elapsed_ms: elapsed, fps: 0, capture_ms: 0, infer_ms: 0 }
        }
    }

    /// Gives the report of the window if one is due, and then begins a new
    /// window at `now_ms`. No tick is counted in two windows.
    pub fn poll_report(&mut self, now_ms: u64) -> (r: Option<Report>)
        ensures
            report_due(*old(self), now_ms) ==> r == Some(
                report_of(*old(self), window_age(*old(self), now_ms)),
            ) && *final(self) == empty_window(now_ms),
            !report_due(*old(self), now_ms) ==> r is None && *final(self) == *old(self),
    {
        let elapsed: u64 = if now_ms >= self.window_start {
            now_ms - self.window_start
        } else {
            0
        };
        if elapsed >= REPORT_INTERVAL_MS {
            let report = self.summary(now_ms);
            self.frames = 0;
            self.capture_total = 0;
            self.infer_total = 0;
            self.window_start = now_ms;
            Some(report)
        } else {
            None
        }
    }
}

impl LogEntry {
    /// The line that is shown for the entry: the level's prefix, then the
    /// message.
    pub fn line(&self) -> (l: String)
        ensures
            l@ == level_prefix(self.level) + self.message@,
    {
        let mut l = String::from_str(
            match self.level {
                LogLevel::Debug => "[DEBUG] ",
                LogLevel::Info => "[INFO] ",
                LogLevel::Error => "[ERROR] ",
            },
        );
        l.append(self.message.as_str());
        l
    }

    /// Whether the entry is shown.
    pub fn shown(&self, show_debug: bool) -> (b: bool)
        ensures
            b == is_shown(self.level, show_debug),
    {
        match self.level {
            LogLevel::Debug => show_debug,
            _ => true,
        }
    }
}

/// Adds an entry to the log and drops the oldest entries beyond
/// `LOG_CAPACITY`.
pub fn push_log(logs: &mut Vec<LogEntry>, level: LogLevel, message: String)
    ensures
        final(logs)@ == newest(old(logs)@.push(LogEntry { level, message })),
{
    logs.push(LogEntry { level, message });
    if logs.len() > LOG_CAPACITY {
        let overflow: usize = logs.len() - LOG_CAPACITY;
        let kept = logs.split_off(overflow);
        *logs = kept;
    }
}

/// The line that tells the user that the model could not be loaded. Where
/// the back end's words say that it was built without an accelerator, the
/// line says so plainly; in a verbose build, and for every other failure,
/// the line carries the words as they are.
pub open spec fn load_failure_line(words: Seq<char>, verbose: bool) -> Seq<char> {
    if !verbose && occurs(words, "Please compile ONNXRuntime with CUDA"@) {
        "模型加载失败: 当前 ONNX Runtime 未启用 CUDA，请安装带 CUDA 支持的版本或调整推理后端设置"@
    } else if !verbose && occurs(words, "Please compile ONNXRuntime with NVTensorRT-RTX"@) {
        "模型加载失败: 当前 ONNX Runtime 未启用 TensorRT-RTX，请安装带 TensorRT-RTX 支持的版本或调整推理后端设置"@
    } else if !verbose && occurs(words, "Please compile ONNXRuntime with TensorRT"@) {
        "模型加载失败: 当前 ONNX Runtime 未启用 TensorRT，请安装带 TensorRT 支持的版本或调整推理后端设置"@
    } else {
        "模型加载失败: "@ + words
    }
}

/// Makes the line that tells the user that the model could not be loaded.
pub fn describe_load_failure(words: &str, verbose: bool) -> (line: String)
    ensures
        line@ == load_failure_line(words@, verbose),
{
    if !verbose {
        let chars = chars_of(words);
        if contains_text(chars.as_slice(), "Please compile ONNXRuntime with CUDA") {
            return String::from_str(
                "模型加载失败: 当前 ONNX Runtime 未启用 CUDA，请安装带 CUDA 支持的版本或调整推理后端设置",
            );
        }
        if contains_text(chars.as_slice(), "Please compile ONNXRuntime with NVTensorRT-RTX") {
            return String::from_str(
                "模型加载失败: 当前 ONNX Runtime 未启用 TensorRT-RTX，请安装带 TensorRT-RTX 支持的版本或调整推理后端设置",
            );
        }
        if contains_text(chars.as_slice(), "Please compile ONNXRuntime with TensorRT") {
            return String::from_str(
                "模型加载失败: 当前 ONNX Runtime 未启用 TensorRT，请安装带 TensorRT 支持的版本或调整推理后端设置",
            );
        }
    }
    let mut line = String::from_str("模型加载失败: ");
    line.append(words);
    line
}

/// The trigger type that the control surface's switch stands for.
pub fn trigger_for(toggle: bool) -> (t: TriggerType)
    ensures
        t == if toggle {
            TriggerType::Toggle
        } else {
            TriggerType::Hold
        },
{
    if toggle {
        TriggerType::Toggle
    } else {
        TriggerType::Hold
    }
}

/// The trigger gate and the aim of one tick: if an actuation is permitted
/// now, the movement that brings the target point of the nearest box to the
/// centre of the frame. A permit starts the cooldown anew even where there
/// is no box to aim at.
pub fn aim(
    listener: &mut InputListener,
    settings: &ControlSettings,
    detections: &[Detection],
    width: u32,
    height: u32,
    now_ms: u64,
) -> (pointer: Option<(i32, i32)>)
    ensures
        ({
            let fire = armed(settings.trigger_type, old(listener)@.pressed, old(listener)@.toggle)
                && cooled_down(old(listener)@.last_trigger, now_ms, TRIGGER_COOLDOWN_MS);
            &&& final(listener)@ == (ListenerView {
                last_trigger: if fire {
                    now_ms
                } else {
                    old(listener)@.last_trigger
                },
                ..old(listener)@
            })
            &&& !fire ==> pointer is None
            &&& fire ==> movement_for(detections@, width, height, *settings, pointer)
        }),
{
    if !listener.should_fire(settings.trigger_type, now_ms, TRIGGER_COOLDOWN_MS) {
        return None;
    }
    match nearest_in_frame(detections, width, height) {
        Some(k) => {
            let d = detections[k];
            assert(is_nearest_in_frame(detections@, width, height, k as int));
            Some(delta_in_frame(&d, width, height, settings))
        },
        None => None,
    }
}

/// The run as contracts see it.
pub ghost struct RunView {
    pub state: RunState,
    pub window: FrameStats,
}

/// Drives a run: `Stopped`, `Starting`, `Running`, `Stopping`, and `Stopped`
/// again. It tells the engine and the hotkey listener when a run begins and
/// ends, and keeps the counters of the reporting window.
#[derive(Debug)]
pub struct LoopOrchestrator {
    state: RunState,
    stats: FrameStats,
}

impl View for LoopOrchestrator {
    type V = RunView;

    closed spec fn view(&self) -> RunView {
        RunView { state: self.state, window: self.stats }
    }
}

/// The listener after a run was asked for: the hotkey is the one of the
/// settings, the toggle is off, a capture of a new hotkey that was under way
/// is ended, and the poller is meant to run.
pub open spec fn listener_armed(pre: ListenerView, settings: ControlSettings) -> ListenerView {
    ListenerView {
        hotkey: unicode_lowercase(settings.hotkey@),
        toggle: false,
        capturing: false,
        running: true,
        ..pre
    }
}

/// What the end of a tick leaves behind and asks for, for a tick that ran
/// while the run was `Running`.
///
/// A fatal error ends the run: the state is `Stopping`, the engine and the
/// poller are told to stop, and the error is handed on. A tick without a
/// frame is abandoned: nothing changes and nothing is asked for. A tick with
/// a frame is counted in the window, the trigger gate and the aim are run on
/// the boxes that the detector returned for this frame, and a report that is
/// due is given. Where the detector returned no result set the trigger is
/// decided all the same, and nothing is aimed at. The centre of the view is
/// the centre of the frame that this tick captured, so it follows the region
/// as the display changes.
pub open spec fn tick_ended(
    pre: RunView,
    post: RunView,
    engine_pre: crate::inference::EngineView,
    engine_post: crate::inference::EngineView,
    listener_pre: ListenerView,
    listener_post: ListenerView,
    settings: ControlSettings,
    result: Result<CaptureStats, Error>,
    width: u32,
    height: u32,
    now_ms: u64,
    out: TickOutcome,
) -> bool {
    match result {
        Err(e) => {
            &&& post == (RunView { state: RunState::Stopping, ..pre })
            &&& engine_post == (crate::inference::EngineView { running: false, ..engine_pre })
            &&& listener_post == (ListenerView { running: false, ..listener_pre })
            &&& out.fatal == Some(e)
            &&& out.pointer is None
            &&& out.report is None
            &&& !out.pause
        },
        Ok(stats) => if !stats.did_capture {
            &&& post == pre
            &&& engine_post == engine_pre
            &&& listener_post == listener_pre
            &&& out.fatal is None
            &&& out.pointer is None
            &&& out.report is None
            &&& !out.pause
        } else {
            let fire = armed(settings.trigger_type, listener_pre.pressed, listener_pre.toggle)
                && cooled_down(listener_pre.last_trigger, now_ms, TRIGGER_COOLDOWN_MS);
            let window = counted(pre.window, stats);
            &&& engine_post == engine_pre
            &&& listener_post == (ListenerView {
                last_trigger: if fire {
                    now_ms
                } else {
                    listener_pre.last_trigger
                },
                ..listener_pre
            })
            &&& out.fatal is None
            &&& out.pause
            &&& !fire ==> out.pointer is None
            &&& fire ==> movement_for(
                boxes_of_tick(stats, engine_pre.results),
                width,
                height,
                settings,
                out.pointer,
            )
            &&& if report_due(window, now_ms) {
                out.report == Some(report_of(window, window_age(window, now_ms))) && post == (RunView {
                    state: RunState::Running,
                    window: empty_window(now_ms),
                })
            } else {
                out.report is None && post == (RunView { state: RunState::Running, window })
            }
        },
    }
}

impl LoopOrchestrator {
    /// No run, and an empty window.
    pub fn new() -> (o: LoopOrchestrator)
        ensures
            o@ == (RunView { state: RunState::Stopped, window: empty_window(0) }),
    {
        LoopOrchestrator { state: RunState::Stopped, stats: FrameStats::new(0) }
    }

    /// Where the run stands.
    pub fn state(&self) -> (s: RunState)
        ensures
            s == self@.state,
    {
        self.state
    }

    /// The counters of the reporting window.
    pub fn window(&self) -> (w: FrameStats)
        ensures
            w == self@.window,
    {
        self.stats
    }

    /// Asks for a run. Where none stands the state becomes `Starting`, and
    /// the listener is set for the run: the hotkey of the settings, the
    /// toggle off, no capture of a new hotkey, the poller running. Returns
    /// whether a run was begun and whether a poller has to be started. Where
    /// a run stands already nothing changes.
    pub fn start(
        &mut self,
        listener: &mut InputListener,
        settings: &ControlSettings,
    ) -> (begun: (bool, bool))
        ensures
            begun.0 == (old(self)@.state == RunState::Stopped),
            begun.0 ==> final(self)@ == (RunView { state: RunState::Starting, ..old(self)@ })
                && final(listener)@ == listener_armed(old(listener)@, *settings) && begun.1
                == !old(listener)@.running,
            !begun.0 ==> final(self)@ == old(self)@ && final(listener)@ == old(listener)@
                && !begun.1,
    {
        match self.state {
            RunState::Stopped => {
                self.state = RunState::Starting;
                listener.set_hotkey(settings.hotkey.as_str());
                listener.set_toggle_state(false);
                listener.stop_capture();
                let spawn = listener.start();
                (true, spawn)
            },
            _ => (false, false),
        }
    }

    /// Takes in whether the capture session stands. With a session the run
    /// is `Running`, the engine is told to run, and a reporting window begins
    /// at `now_ms`. Without one the run is `Stopped` again and the poller is
    /// told to stop. Outside `Starting` nothing changes. Returns whether the
    /// run is `Running` now.
    pub fn session_made(
        &mut self,
        engine: &mut InferenceEngine,
        listener: &mut InputListener,
        created: bool,
        now_ms: u64,
    ) -> (running: bool)
        ensures
            running == (final(self)@.state == RunState::Running),
            old(self)@.state == RunState::Starting && created ==> final(self)@ == (RunView {
                state: RunState::Running,
                window: empty_window(now_ms),
            }) && final(engine)@ == (crate::inference::EngineView { running: true, ..old(engine)@ })
                && final(listener)@ == old(listener)@,
            old(self)@.state == RunState::Starting && !created ==> final(self)@ == (RunView {
                state: RunState::Stopped,
                ..old(self)@
            }) && final(engine)@ == old(engine)@ && final(listener)@ == (ListenerView {
                running: false,
                ..old(listener)@
            }),
            old(self)@.state != RunState::Starting ==> final(self)@ == old(self)@ && final(engine)@
                == old(engine)@ && final(listener)@ == old(listener)@,
    {
        match self.state {
            RunState::Starting => {
                if created {
                    self.state = RunState::Running;
                    self.stats = FrameStats::new(now_ms);
                    engine.start();
                    true
                } else {
                    self.state = RunState::Stopped;
                    listener.stop();
                    false
                }
            },
            RunState::Running => true,
            _ => false,
        }
    }

    /// The top of a tick: reads the stop flag. Returns whether the tick is
    /// to run. A stop that was asked for ends the run: the state is
    /// `Stopping`, and the engine and the poller are told to stop.
    pub fn tick_begins(
        &mut self,
        engine: &mut InferenceEngine,
        listener: &mut InputListener,
        stop_requested: bool,
    ) -> (go: bool)
        ensures
            go == (old(self)@.state == RunState::Running && !stop_requested),
            old(self)@.state == RunState::Running && stop_requested ==> final(self)@ == (RunView {
                state: RunState::Stopping,
                ..old(self)@
            }) && final(engine)@ == (crate::inference::EngineView {
                running: false,
                ..old(engine)@
            }) && final(listener)@ == (ListenerView { running: false, ..old(listener)@ }),
            !(old(self)@.state == RunState::Running && stop_requested) ==> final(self)@ == old(self)@ && final(engine)@ == old(engine)@ && final(listener)@ == old(listener)@,
    {
        match self.state {
            RunState::Running => {
                if stop_requested {
                    self.state = RunState::Stopping;
                    engine.stop();
                    listener.stop();
                    false
                } else {
                    true
                }
            },
            _ => false,
        }
    }

    /// The end of a tick: takes in what the tick gave, for a frame of
    /// `width` by `height`, at `now_ms`. Outside `Running` nothing changes
    /// and nothing is asked for.
    pub fn tick_ends(
        &mut self,
        engine: &mut InferenceEngine,
        listener: &mut InputListener,
        settings: &ControlSettings,
        result: Result<CaptureStats, Error>,
        width: u32,
        height: u32,
        now_ms: u64,
    ) -> (out: TickOutcome)
        ensures
            old(self)@.state == RunState::Running ==> tick_ended(
                old(self)@,
                final(self)@,
                old(engine)@,
                final(engine)@,
                old(listener)@,
                final(listener)@,
                *settings,
                result,
                width,
                height,
                now_ms,
                out,
            ),
            old(self)@.state != RunState::Running ==> final(self)@ == old(self)@ && final(engine)@
                == old(engine)@ && final(listener)@ == old(listener)@ && out.pointer is None
                && out.report is None && out.fatal is None && !out.pause,
    {
        match self.state {
            RunState::Running => {},
            _ => {
                return TickOutcome { pointer: None, report: None, fatal: None, pause: false };
            },
        }
        match result {
            Err(e) => {
                self.state = RunState::Stopping;
                engine.stop();
                listener.stop();
                TickOutcome { pointer: None, report: None, fatal: Some(e), pause: false }
            },
            Ok(stats) => {
                if !stats.did_capture {
                    return TickOutcome { pointer: None, report: None, fatal: None, pause: false };
                }
                self.stats.record(stats);
                let none: Vec<Detection> = Vec::new();
                let boxes = if stats.has_results {
                    engine.latest().as_slice()
                } else {
                    none.as_slice()
                };
                let pointer = aim(listener, settings, boxes, width, height, now_ms);
                let report = self.stats.poll_report(now_ms);
                TickOutcome { pointer, report, fatal: None, pause: true }
            },
        }
    }

    /// Leaves `Stopping`, when the loop has ended: the run is `Stopped`,
    /// ready to be started again. Outside `Stopping` nothing changes.
    pub fn finish(&mut self)
        ensures
            final(self)@ == if old(self)@.state == RunState::Stopping {
                RunView { state: RunState::Stopped, ..old(self)@ }
            } else {
                old(self)@
            },
    {
        match self.state {
            RunState::Stopping => {
                self.state = RunState::Stopped;
            },
            _ => {},
        }
    }
}

/// The tick aims at the nearest box of this tick and at no other: a tick
/// without a result set, or with an empty one, moves nothing; else the
/// movement is the one towards a box such that no box is nearer to the
/// centre of the frame and every box before it is strictly farther.
pub proof fn lemma_tick_aims_at_the_nearest(
    stats: CaptureStats,
    kept: Seq<Detection>,
    width: u32,
    height: u32,
    settings: ControlSettings,
    pointer: Option<(i32, i32)>,
)
    requires
        movement_for(boxes_of_tick(stats, kept), width, height, settings, pointer),
    ensures
        pointer is None <==> !stats.has_results || kept.len() == 0,
        pointer is Some ==> exists|k: int|
            0 <= k < kept.len() && pointer == Some(
                delta_in_frame_of(kept[k], width, height, settings),
            ) && (forall|j: int|
                0 <= j < kept.len() ==> distance_sq4_half(kept[k], width as int, height as int)
                    <= #[trigger] distance_sq4_half(kept[j], width as int, height as int))
                && (forall|j: int|
                0 <= j < k ==> distance_sq4_half(kept[k], width as int, height as int)
                    < #[trigger] distance_sq4_half(kept[j], width as int, height as int)),
{
    if pointer is Some {
        let boxes = boxes_of_tick(stats, kept);
        let k = choose|k: int| #[trigger]
            is_nearest_in_frame(boxes, width, height, k) && pointer == Some(
                delta_in_frame_of(boxes[k], width, height, settings),
            );
        assert(is_nearest_in_frame(kept, width, height, k));
    }
}

} // verus!
