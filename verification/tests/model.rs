use screen_detect::error::{ErrorKind, Fault};
use screen_detect::inference::InferenceEngine;
use screen_detect::model::{
    check_extension, device_for, dtype_of, infer_yolo_meta, parse_version_from_name, plan_model,
    DType, Device, ModelFile, Task,
};

fn file(path: &str, stem: &str, extension: Option<&str>) -> ModelFile {
    ModelFile {
        path: path.to_string(),
        exists: true,
        is_file: true,
        extension: extension.map(|e| e.to_string()),
        stem: stem.to_string(),
    }
}

#[test]
fn version_follows_the_yolo_marker() {
    assert_eq!(parse_version_from_name("yolo11n"), Some(11));
    assert_eq!(parse_version_from_name("yolo8"), Some(8));
    assert_eq!(parse_version_from_name("my-yolo26-final"), Some(26));
    assert_eq!(parse_version_from_name("yolo011"), Some(11));
    assert_eq!(parse_version_from_name("yolo255"), Some(255));
    assert_eq!(parse_version_from_name("yolo0"), Some(0));
}

#[test]
fn version_follows_a_v_where_yolo_gives_none() {
    assert_eq!(parse_version_from_name("model_v8_seg"), Some(8));
    assert_eq!(parse_version_from_name("yolov8n"), Some(8));
    assert_eq!(parse_version_from_name("v11"), Some(11));
    assert_eq!(parse_version_from_name("vvv5"), Some(5));
    assert_eq!(parse_version_from_name("very_v12"), Some(12));
    assert_eq!(parse_version_from_name("v999_v7"), Some(7));
    assert_eq!(parse_version_from_name("yolo256v3"), Some(3));
    assert_eq!(parse_version_from_name("yolo_x_yolo9_v4"), Some(4));
}

#[test]
fn yolo_marker_wins_over_an_earlier_v() {
    assert_eq!(parse_version_from_name("v5_yolo8"), Some(8));
}

#[test]
fn a_name_without_marker_gives_no_version() {
    assert_eq!(parse_version_from_name(""), None);
    assert_eq!(parse_version_from_name("model"), None);
    assert_eq!(parse_version_from_name("detector_11"), None);
    assert_eq!(parse_version_from_name("yolo"), None);
    assert_eq!(parse_version_from_name("yolo-11"), None);
    assert_eq!(parse_version_from_name("v"), None);
    assert_eq!(parse_version_from_name("v_8"), None);
    assert_eq!(parse_version_from_name("yolo256"), None);
    assert_eq!(parse_version_from_name("v1000"), None);
    assert_eq!(parse_version_from_name("YOLO11"), None);
    assert_eq!(parse_version_from_name("V8"), None);
    assert_eq!(parse_version_from_name("模型"), None);
}

#[test]
fn version_is_found_among_wide_characters() {
    assert_eq!(parse_version_from_name("模型yolo11"), Some(11));
    assert_eq!(parse_version_from_name("检测v8模型"), Some(8));
}

#[test]
fn file_name_resolves_version_and_task() {
    let meta = infer_yolo_meta(&file("yolo11n.onnx", "yolo11n", Some("onnx")), None).unwrap();
    assert_eq!(meta, (Task::ObjectDetection, 11));
    let meta = infer_yolo_meta(&file("model_v8_seg.onnx", "model_v8_seg", Some("onnx")), None).unwrap();
    assert_eq!(meta, (Task::InstanceSegmentation, 8));
    let meta = infer_yolo_meta(&file("YOLO11N-POSE.onnx", "YOLO11N-POSE", Some("onnx")), None).unwrap();
    assert_eq!(meta, (Task::KeypointsDetection, 11));
}

#[test]
fn task_markers_are_read_in_order() {
    let task = |stem: &str| infer_yolo_meta(&file("p", stem, None), Some(8)).unwrap().0;
    assert_eq!(task("plain"), Task::ObjectDetection);
    assert_eq!(task("a-seg"), Task::InstanceSegmentation);
    assert_eq!(task("segment"), Task::InstanceSegmentation);
    assert_eq!(task("x_pose"), Task::KeypointsDetection);
    assert_eq!(task("x_kpt"), Task::KeypointsDetection);
    assert_eq!(task("x_obb"), Task::OrientedObjectDetection);
    assert_eq!(task("x_cls"), Task::ImageClassification);
    assert_eq!(task("classify"), Task::ImageClassification);
    assert_eq!(task("cls_obb_pose_seg"), Task::InstanceSegmentation);
    assert_eq!(task("cls_obb_kpt"), Task::KeypointsDetection);
    assert_eq!(task("cls_obb"), Task::OrientedObjectDetection);
    assert_eq!(task("X_OBB"), Task::OrientedObjectDetection);
}

#[test]
fn explicit_version_overrides_the_name() {
    let meta = infer_yolo_meta(&file("yolo11n.onnx", "yolo11n", Some("onnx")), Some(26)).unwrap();
    assert_eq!(meta, (Task::ObjectDetection, 26));
    let meta = infer_yolo_meta(&file("best.onnx", "best", Some("onnx")), Some(5)).unwrap();
    assert_eq!(meta, (Task::ObjectDetection, 5));
}

#[test]
fn unresolved_version_is_a_config_error() {
    let e = infer_yolo_meta(&file("/m/best.onnx", "best", Some("onnx")), None).unwrap_err();
    assert_eq!(e.fault, Fault::UnresolvedVersion);
    assert_eq!(e.kind(), ErrorKind::Config);
    assert_eq!(e.detail, "/m/best.onnx");
    assert!(e.message().ends_with(": /m/best.onnx"));
    let e = plan_model(&file("/m/best.onnx", "best", Some("onnx")), "cpu", None).unwrap_err();
    assert_eq!(e.fault, Fault::UnresolvedVersion);
}

#[test]
fn load_refuses_a_text_file_and_stays_unloaded() {
    let engine = InferenceEngine::new();
    let e = engine.load_model(&file("/tmp/notes.txt", "notes", Some("txt")), "cpu", Some(11)).unwrap_err();
    assert_eq!(e.kind(), ErrorKind::Config);
    assert_eq!(e.fault, Fault::WrongModelExtension);
    assert_eq!(e.message(), "模型文件不是 .onnx: /tmp/notes.txt");
    assert!(e.message().contains(".onnx"));
    assert!(!engine.is_loaded());
    assert!(engine.infer().is_err());
}

#[test]
fn load_checks_run_in_order() {
    let mut f = file("", "yolo11n", Some("txt"));
    f.exists = false;
    f.is_file = false;
    let fault = |f: &ModelFile| plan_model(f, "cpu", None).unwrap_err().fault;
    assert_eq!(fault(&f), Fault::EmptyModelPath);
    assert_eq!(plan_model(&f, "cpu", None).unwrap_err().message(), "模型路径为空");
    f.path = "/m/yolo11n.txt".to_string();
    assert_eq!(fault(&f), Fault::ModelFileMissing);
    f.exists = true;
    assert_eq!(fault(&f), Fault::ModelPathNotFile);
    f.is_file = true;
    assert_eq!(fault(&f), Fault::WrongModelExtension);
    f.extension = None;
    assert_eq!(fault(&f), Fault::WrongModelExtension);
    f.extension = Some("onnx".to_string());
    f.stem = "best".to_string();
    assert_eq!(fault(&f), Fault::UnresolvedVersion);
    f.stem = "yolo11n".to_string();
    assert!(plan_model(&f, "cpu", None).is_ok());
    for fault in [
        Fault::EmptyModelPath,
        Fault::ModelFileMissing,
        Fault::ModelPathNotFile,
        Fault::WrongModelExtension,
        Fault::UnresolvedVersion,
    ] {
        assert_eq!(screen_detect::error::fault_kind(fault), ErrorKind::Config);
    }
}

#[test]
fn extension_is_matched_without_case() {
    assert!(check_extension(&Some("onnx".to_string())));
    assert!(check_extension(&Some("ONNX".to_string())));
    assert!(check_extension(&Some("OnNx".to_string())));
    assert!(!check_extension(&Some("onn".to_string())));
    assert!(!check_extension(&Some("onnxx".to_string())));
    assert!(!check_extension(&Some("".to_string())));
    assert!(!check_extension(&None));
}

#[test]
fn plan_holds_device_and_number_format() {
    let f = file("/m/yolo11n-seg.ONNX", "yolo11n-seg", Some("ONNX"));
    let plan = plan_model(&f, "cuda", None).unwrap();
    assert_eq!(plan.task, Task::InstanceSegmentation);
    assert_eq!(plan.version, 11);
    assert_eq!(plan.device, Device::Cuda(0));
    assert_eq!(plan.dtype, DType::Auto);
    assert_eq!(plan.path, "/m/yolo11n-seg.ONNX");
    let plan = plan_model(&f, "cpu", Some(8)).unwrap();
    assert_eq!((plan.version, plan.device, plan.dtype), (8, Device::Cpu(0), DType::Fp32));
}

#[test]
fn device_names_map_to_devices() {
    assert_eq!(device_for("cpu"), Device::Cpu(0));
    assert_eq!(device_for("cuda"), Device::Cuda(0));
    assert_eq!(device_for("tensorrt"), Device::TensorRt(0));
    assert_eq!(device_for("CUDA"), Device::Cpu(0));
    assert_eq!(device_for(""), Device::Cpu(0));
    assert_eq!(device_for("npu"), Device::Cpu(0));
    assert_eq!(dtype_of(Device::Cpu(0)), DType::Fp32);
    assert_eq!(dtype_of(Device::Cpu(3)), DType::Fp32);
    assert_eq!(dtype_of(Device::Cuda(0)), DType::Auto);
    assert_eq!(dtype_of(Device::TensorRt(0)), DType::Auto);
}
