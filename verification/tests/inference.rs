use screen_detect::capture::inner::{BindOutcome, FrameEvent};
use screen_detect::capture::{create_capture_context, CaptureContext};
use screen_detect::error::{ErrorKind, Fault};
use screen_detect::inference::{
    BuildOutcome, CaptureConfig, CaptureStats, InferOutcome, InferenceEngine, RegionMode,
    TickAction, TickEvent, DEFAULT_CONFIDENCE, FULL_CONFIDENCE,
};
use screen_detect::model::{ModelFile, Task};
use screen_detect::region::{CapturePlan, Rect};
use screen_detect::target::Detection;

const IDLE: TickAction = TickAction::Done(CaptureStats {
    did_capture: false,
    capture_ms: 0,
    infer_ms: 0,
    has_results: false,
});

fn context(width: u32, height: u32) -> CaptureContext {
    create_capture_context(0, BindOutcome::Bound { width, height }).unwrap()
}

fn model_file() -> ModelFile {
    ModelFile {
        path: "/models/yolo11n.onnx".to_string(),
        exists: true,
        is_file: true,
        extension: Some("onnx".to_string()),
        stem: "yolo11n".to_string(),
    }
}

fn loaded_engine() -> InferenceEngine {
    let mut engine = InferenceEngine::new();
    let plan = engine.load_model(&model_file(), "cpu", None).unwrap();
    engine.model_built(plan, BuildOutcome::Built).unwrap();
    engine
}

fn det(xmin: i32, ymin: i32, xmax: i32, ymax: i32) -> Detection {
    Detection { xmin, ymin, xmax, ymax, confidence: 800 }
}

#[test]
fn fresh_engine_has_the_defaults() {
    let engine = InferenceEngine::new();
    assert!(!engine.is_loaded());
    assert!(!engine.is_running());
    assert_eq!(engine.confidence(), 250);
    assert_eq!(DEFAULT_CONFIDENCE, 250);
    assert_eq!(FULL_CONFIDENCE, 1000);
    assert_eq!(engine.capture_config(), CaptureConfig { mode: RegionMode::Fullscreen });
    assert!(engine.get_latest_detections().is_empty());
    assert!(engine.loaded_plan().is_none());
}

#[test]
fn infer_without_a_model_is_a_state_error() {
    let engine = InferenceEngine::new();
    let e = engine.infer().unwrap_err();
    assert_eq!(e.fault, Fault::ModelNotLoaded);
    assert_eq!(e.kind(), ErrorKind::State);
    assert_eq!(e.message(), "模型未加载");
}

#[test]
fn infer_reads_the_threshold_as_it_is_now() {
    let mut engine = loaded_engine();
    assert_eq!(engine.infer().unwrap(), 250);
    engine.set_confidence(600);
    assert_eq!(engine.infer().unwrap(), 600);
    engine.set_confidence(0);
    assert_eq!(engine.infer().unwrap(), 0);
    engine.set_confidence(1000);
    assert_eq!(engine.confidence(), 1000);
}

#[test]
fn a_built_model_is_loaded_with_its_plan() {
    let engine = loaded_engine();
    assert!(engine.is_loaded());
    let plan = engine.loaded_plan().unwrap();
    assert_eq!((plan.task, plan.version), (Task::ObjectDetection, 11));
    assert_eq!(plan.path, "/models/yolo11n.onnx");
}

#[test]
fn a_failed_build_leaves_the_engine_as_it_was() {
    let mut engine = InferenceEngine::new();
    let plan = engine.load_model(&model_file(), "cuda", None).unwrap();
    let e = engine.model_built(plan, BuildOutcome::BuildFailed("no CUDA".to_string())).unwrap_err();
    assert_eq!(e.fault, Fault::ModelBuildFailed);
    assert_eq!(e.kind(), ErrorKind::Device);
    assert_eq!(e.message(), "YOLO 模型构建失败: no CUDA");
    assert!(!engine.is_loaded());
    let plan = engine.load_model(&model_file(), "cpu", None).unwrap();
    let e = engine.model_built(plan, BuildOutcome::ConfigRejected("bad".to_string())).unwrap_err();
    assert_eq!(e.fault, Fault::ModelConfigRejected);
    assert_eq!(e.kind(), ErrorKind::Config);
    assert!(!engine.is_loaded());

    let mut engine = loaded_engine();
    let plan = engine.load_model(&model_file(), "cuda", Some(8)).unwrap();
    assert!(engine.model_built(plan, BuildOutcome::BuildFailed(String::new())).is_err());
    assert_eq!(engine.loaded_plan().unwrap().version, 11);
}

#[test]
fn a_stopped_engine_does_nothing() {
    let mut engine = loaded_engine();
    let mut ctx = context(1920, 1080);
    assert_eq!(engine.begin_tick(&ctx), IDLE);
    assert_eq!(engine.capture_once(&mut ctx, TickEvent::Begin).unwrap(), IDLE);
}

#[test]
fn a_tick_begins_with_the_frame_for_the_mode() {
    let mut engine = loaded_engine();
    engine.start();
    assert!(engine.is_running());
    let mut ctx = context(1920, 1080);
    assert_eq!(engine.begin_tick(&ctx), TickAction::AcquireFull);
    engine.set_region_mode(RegionMode::Center640);
    assert_eq!(
        engine.capture_once(&mut ctx, TickEvent::Begin).unwrap(),
        TickAction::AcquireRegion(Rect { x: 640, y: 220, width: 640, height: 640 })
    );
    engine.set_region_mode(RegionMode::Custom { x: 1900, y: 0, width: 100, height: 100 });
    assert_eq!(
        engine.begin_tick(&ctx),
        TickAction::AcquireRegion(Rect { x: 1900, y: 0, width: 20, height: 100 })
    );
    for (x, y, width, height) in [(5000, 0, 100, 100), (0, 1080, 1, 1), (0, 0, 0, 5), (0, 0, 5, 0)] {
        engine.set_region_mode(RegionMode::Custom { x, y, width, height });
        assert_eq!(engine.begin_tick(&ctx), IDLE);
        assert_eq!(engine.capture_once(&mut ctx, TickEvent::Begin).unwrap(), IDLE);
    }
    engine.set_region_mode(RegionMode::Center1280);
    assert_eq!(engine.begin_tick(&context(0, 0)), IDLE);
    ctx.lost = true;
    assert_eq!(engine.begin_tick(&ctx), TickAction::Rebind);
    engine.stop();
    assert_eq!(engine.begin_tick(&ctx), IDLE);
}

#[test]
fn a_frame_becomes_the_detectors_input() {
    let mut engine = loaded_engine();
    engine.start();
    engine.set_confidence(400);
    let mut ctx = context(2, 1);
    let action = engine
        .capture_once(
            &mut ctx,
            TickEvent::Frame {
                plan: CapturePlan::Full,
                event: FrameEvent::Frame(vec![1, 2, 3, 255, 4, 5, 6, 255]),
            },
        )
        .unwrap();
    assert_eq!(action, TickAction::Infer { width: 2, height: 1, confidence: 400 });
    assert_eq!(ctx.rgba_buffer, vec![1, 2, 3, 255, 4, 5, 6, 255]);
    assert_eq!(ctx.rgb_buffer, vec![3, 2, 1, 6, 5, 4]);
}

#[test]
fn a_region_frame_has_the_size_of_the_region() {
    let engine = {
        let mut e = loaded_engine();
        e.start();
        e
    };
    let mut ctx = context(100, 100);
    let plan = CapturePlan::Region(Rect { x: 10, y: 10, width: 1, height: 2 });
    let action = engine
        .frame_arrived(&mut ctx, plan, FrameEvent::Frame(vec![9, 8, 7, 0, 6, 5, 4, 0]))
        .unwrap();
    assert_eq!(action, TickAction::Infer { width: 1, height: 2, confidence: 250 });
    assert_eq!(ctx.rgb_buffer, vec![7, 8, 9, 4, 5, 6]);
}

#[test]
fn soft_conditions_end_the_tick_without_a_frame() {
    let engine = loaded_engine();
    let mut ctx = context(100, 100);
    let region = CapturePlan::Region(Rect { x: 0, y: 0, width: 10, height: 10 });
    assert_eq!(engine.frame_arrived(&mut ctx, CapturePlan::Full, FrameEvent::Timeout).unwrap(), IDLE);
    assert_eq!(engine.frame_arrived(&mut ctx, region, FrameEvent::Timeout).unwrap(), IDLE);
    assert_eq!(engine.frame_arrived(&mut ctx, region, FrameEvent::InvalidSize).unwrap(), IDLE);
    assert_eq!(
        engine.frame_arrived(&mut ctx, CapturePlan::Full, FrameEvent::Frame(Vec::new())).unwrap(),
        IDLE
    );
    let gone = CapturePlan::Region(Rect { x: 100, y: 0, width: 10, height: 10 });
    assert_eq!(
        engine.frame_arrived(&mut ctx, gone, FrameEvent::Failed("ignored".to_string())).unwrap(),
        IDLE
    );
    assert_eq!(
        engine
            .frame_arrived(&mut ctx, CapturePlan::Nothing, FrameEvent::Frame(vec![1, 2, 3, 4]))
            .unwrap(),
        IDLE
    );
    assert!(ctx.rgba_buffer.is_empty());
    assert!(ctx.rgb_buffer.is_empty());
    assert!(!ctx.lost);
}

#[test]
fn a_lost_session_is_rebound_within_the_tick() {
    let mut engine = loaded_engine();
    engine.start();
    let mut ctx = context(1920, 1080);
    let action = engine
        .capture_once(
            &mut ctx,
            TickEvent::Frame { plan: CapturePlan::Full, event: FrameEvent::AccessLost },
        )
        .unwrap();
    assert_eq!(action, TickAction::Rebind);
    assert!(ctx.lost);
    let again = engine
        .frame_arrived(&mut ctx, CapturePlan::Full, FrameEvent::Frame(vec![1, 2, 3, 4]))
        .unwrap();
    assert_eq!(again, TickAction::Rebind);
    assert!(ctx.rgba_buffer.is_empty());
    let action = engine
        .capture_once(&mut ctx, TickEvent::Rebound(BindOutcome::Bound { width: 1280, height: 720 }))
        .unwrap();
    assert_eq!(action, IDLE);
    assert!(!ctx.lost);
    assert_eq!((ctx.width, ctx.height), (1280, 720));
    assert_eq!(engine.begin_tick(&ctx), TickAction::AcquireFull);
}

#[test]
fn a_rebind_that_fails_is_fatal() {
    let mut engine = loaded_engine();
    let mut ctx = context(1920, 1080);
    ctx.lost = true;
    let e = engine
        .capture_once(&mut ctx, TickEvent::Rebound(BindOutcome::DuplicationFailed("no".to_string())))
        .unwrap_err();
    assert_eq!(e.fault, Fault::DuplicationFailed);
    assert_eq!(e.kind(), ErrorKind::Device);
    assert!(ctx.lost);
}

#[test]
fn platform_failures_are_fatal() {
    let engine = loaded_engine();
    let mut ctx = context(10, 10);
    let e = engine
        .frame_arrived(&mut ctx, CapturePlan::Full, FrameEvent::Failed("DXGI".to_string()))
        .unwrap_err();
    assert_eq!((e.fault, e.kind()), (Fault::FrameAcquireFailed, ErrorKind::Capture));
    assert_eq!(e.detail, "DXGI");
    let e = engine.frame_arrived(&mut ctx, CapturePlan::Full, FrameEvent::InvalidSize).unwrap_err();
    assert_eq!(e.fault, Fault::FrameAcquireFailed);
}

#[test]
fn a_frame_without_a_model_is_a_state_error() {
    let mut engine = InferenceEngine::new();
    engine.start();
    let mut ctx = context(1, 1);
    let e = engine
        .frame_arrived(&mut ctx, CapturePlan::Full, FrameEvent::Frame(vec![1, 2, 3, 4]))
        .unwrap_err();
    assert_eq!((e.fault, e.kind()), (Fault::ModelNotLoaded, ErrorKind::State));
    assert_eq!(ctx.rgba_buffer, vec![1, 2, 3, 4]);
    assert!(ctx.rgb_buffer.is_empty());
}

#[test]
fn a_frame_too_large_for_memory_is_refused() {
    let engine = loaded_engine();
    let mut ctx = context(u32::MAX, u32::MAX);
    let e = engine
        .frame_arrived(&mut ctx, CapturePlan::Full, FrameEvent::Frame(vec![1, 2, 3, 4]))
        .unwrap_err();
    assert_eq!((e.fault, e.kind()), (Fault::FrameTooLarge, ErrorKind::Capture));
}

#[test]
fn results_replace_the_ones_kept() {
    let mut engine = loaded_engine();
    let mut ctx = context(10, 10);
    let first = vec![det(0, 0, 4, 4), det(5, 5, 9, 9)];
    let action = engine
        .capture_once(
            &mut ctx,
            TickEvent::Inferred {
                outcome: InferOutcome::Results(first.clone()),
                capture_ms: 1500,
                infer_ms: 7250,
            },
        )
        .unwrap();
    assert_eq!(
        action,
        TickAction::Done(CaptureStats {
            did_capture: true,
            capture_ms: 1500,
            infer_ms: 7250,
            has_results: true
        })
    );
    assert_eq!(engine.get_latest_detections(), first);
    assert_eq!(engine.latest(), &first);
    let action = engine.inferred(InferOutcome::Nothing, 1, 2).unwrap();
    let bare = CaptureStats { did_capture: true, capture_ms: 1, infer_ms: 2, has_results: false };
    assert_eq!(action, TickAction::Done(bare));
    assert_eq!(engine.get_latest_detections(), first);
    let action = engine.inferred(InferOutcome::Results(Vec::new()), 0, 0).unwrap();
    let empty = CaptureStats { did_capture: true, capture_ms: 0, infer_ms: 0, has_results: true };
    assert_eq!(action, TickAction::Done(empty));
    assert!(engine.get_latest_detections().is_empty());
}

#[test]
fn a_failed_run_is_fatal_and_keeps_the_results() {
    let mut engine = loaded_engine();
    let kept = vec![det(1, 2, 3, 4)];
    engine.inferred(InferOutcome::Results(kept.clone()), 0, 0).unwrap();
    let e = engine.inferred(InferOutcome::Failed("shape".to_string()), 5, 6).unwrap_err();
    assert_eq!(e.fault, Fault::InferenceFailed);
    assert_eq!(e.message(), "推理失败: shape");
    assert_eq!(engine.get_latest_detections(), kept);
}

#[test]
fn a_whole_tick_from_begin_to_done() {
    let mut engine = loaded_engine();
    engine.start();
    engine.set_region_mode(RegionMode::Custom { x: 1, y: 1, width: 2, height: 1 });
    let mut ctx = context(4, 4);
    let rect = match engine.capture_once(&mut ctx, TickEvent::Begin).unwrap() {
        TickAction::AcquireRegion(r) => r,
        other => panic!("unexpected {:?}", other),
    };
    assert_eq!(rect, Rect { x: 1, y: 1, width: 2, height: 1 });
    let action = engine
        .capture_once(
            &mut ctx,
            TickEvent::Frame {
                plan: CapturePlan::Region(rect),
                event: FrameEvent::Frame(vec![10, 20, 30, 0, 40, 50, 60, 0]),
            },
        )
        .unwrap();
    assert_eq!(action, TickAction::Infer { width: 2, height: 1, confidence: 250 });
    assert_eq!(ctx.rgb_buffer, vec![30, 20, 10, 60, 50, 40]);
    let found = vec![det(0, 0, 2, 1)];
    let action = engine
        .capture_once(
            &mut ctx,
            TickEvent::Inferred { outcome: InferOutcome::Results(found.clone()), capture_ms: 3, infer_ms: 4 },
        )
        .unwrap();
    let done = CaptureStats { did_capture: true, capture_ms: 3, infer_ms: 4, has_results: true };
    assert_eq!(action, TickAction::Done(done));
    assert_eq!(engine.get_latest_detections(), found);
}

#[test]
fn a_whole_frame_is_converted_pixel_by_pixel() {
    let engine = loaded_engine();
    let mut ctx = context(3, 2);
    ctx.rgb_buffer = vec![9; 40];
    let src: Vec<u8> = (0..24).collect();
    let action = engine
        .frame_arrived(&mut ctx, CapturePlan::Full, FrameEvent::Frame(src.clone()))
        .unwrap();
    assert_eq!(action, TickAction::Infer { width: 3, height: 2, confidence: 250 });
    assert_eq!(ctx.rgba_buffer, src);
    assert_eq!(ctx.rgb_buffer.len(), 18);
    for i in 0..6 {
        assert_eq!(ctx.rgb_buffer[3 * i], src[4 * i + 2]);
        assert_eq!(ctx.rgb_buffer[3 * i + 1], src[4 * i + 1]);
        assert_eq!(ctx.rgb_buffer[3 * i + 2], src[4 * i]);
    }
}

#[test]
fn a_buffer_of_another_length_is_fitted_to_the_frame() {
    let engine = loaded_engine();
    let mut ctx = context(2, 1);
    ctx.rgb_buffer = vec![9; 4];
    let action = engine
        .frame_arrived(&mut ctx, CapturePlan::Full, FrameEvent::Frame(vec![1, 2, 3, 4]))
        .unwrap();
    assert_eq!(action, TickAction::Infer { width: 2, height: 1, confidence: 250 });
    assert_eq!(ctx.rgb_buffer, vec![3, 2, 1, 9, 0, 0]);
}
