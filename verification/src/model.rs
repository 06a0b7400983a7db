use crate::error::{Error, Fault};
use crate::text::{
    chars_of, contains_text, digits_end, find_text, first_at, is_digit, lower_ascii, lowered,
    number_at, occurs, occurs_at, parse_small, same_chars, same_text, scan_digits,
};
use vstd::prelude::*;

verus! {

/// What a model does with an image.
#[derive(Clone, Copy, Debug, PartialEq, Eq, Structural)]
pub enum Task {
    ObjectDetection,
    InstanceSegmentation,
    KeypointsDetection,
    OrientedObjectDetection,
    ImageClassification,
}

/// Where the model runs; the number is the device's index.
#[derive(Clone, Copy, Debug, PartialEq, Eq, Structural)]
pub enum Device {
    Cpu(usize),
    Cuda(usize),
    TensorRt(usize),
}

/// The number format the model runs in.
#[derive(Clone, Copy, Debug, PartialEq, Eq, Structural)]
pub enum DType {
    /// 32-bit floating point.
    Fp32,
    /// Left to the back end.
    Auto,
}

/// What is known of the model file before it is opened: its path as text,
/// what the file system says of it, and the two parts of its name.
#[derive(Debug)]
pub struct ModelFile {
    /// The path, as it is shown.
    pub path: String,
    /// Something exists at the path.
    pub exists: bool,
    /// What exists at the path is a regular file.
    pub is_file: bool,
    /// The file name's extension, without the dot, if it has one.
    pub extension: Option<String>,
    /// The file name without its extension; empty if there is none.
    pub stem: String,
}

/// All that building the model needs.
#[derive(Debug)]
pub struct ModelPlan {
    pub task: Task,
    pub version: u8,
    pub device: Device,
    pub dtype: DType,
    pub path: String,
}

/// A plan as contracts see it.
pub ghost struct PlanView {
    pub task: Task,
    pub version: u8,
    pub device: Device,
    pub dtype: DType,
    pub path: Seq<char>,
}

impl View for ModelPlan {
    type V = PlanView;

    open spec fn view(&self) -> PlanView {
        PlanView {
            task: self.task,
            version: self.version,
            device: self.device,
            dtype: self.dtype,
            path: self.path@,
        }
    }
}

impl Clone for ModelPlan {
    fn clone(&self) -> (p: ModelPlan)
        ensures
            p@ == self@,
    {
        ModelPlan {
            task: self.task,
            version: self.version,
            device: self.device,
            dtype: self.dtype,
            path: self.path.clone(),
        }
    }
}

/// The version that stands behind the first `v` that a number of at most 255
/// follows directly, looking from position `from` on.
pub open spec fn version_after_v(name: Seq<char>, from: int) -> Option<u8>
    decreases name.len() - from,
{
    if from < 0 || from >= name.len() {
        None
    } else if name[from] == 'v' && number_at(name, from + 1) is Some {
        number_at(name, from + 1)
    } else {
        version_after_v(name, from + 1)
    }
}

/// The version that follows the first `yolo` of the name directly, if a
/// number of at most 255 stands there.
pub open spec fn version_after_yolo(name: Seq<char>) -> Option<u8> {
    if occurs(name, "yolo"@) {
        number_at(name, (choose|at: int| first_at(name, "yolo"@, at)) + 4)
    } else {
        None
    }
}

/// The model version that a name gives: the number behind the first `yolo`,
/// else the number behind the first `v` that has one.
pub open spec fn version_in_name(name: Seq<char>) -> Option<u8> {
    match version_after_yolo(name) {
        Some(v) => Some(v),
        None => version_after_v(name, 0),
    }
}

/// The task that a name gives, by the markers it holds; detection where it
/// holds none.
pub open spec fn task_in_name(name: Seq<char>) -> Task {
    if occurs(name, "seg"@) || occurs(name, "segment"@) {
        Task::InstanceSegmentation
    } else if occurs(name, "pose"@) || occurs(name, "kpt"@) {
        Task::KeypointsDetection
    } else if occurs(name, "obb"@) {
        Task::OrientedObjectDetection
    } else if occurs(name, "cls"@) || occurs(name, "classify"@) {
        Task::ImageClassification
    } else {
        Task::ObjectDetection
    }
}

/// The device that a name selects; the processor for a name that is not known.
pub open spec fn device_named(name: Seq<char>) -> Device {
    if name == "cuda"@ {
        Device::Cuda(0)
    } else if name == "tensorrt"@ {
        Device::TensorRt(0)
    } else {
        Device::Cpu(0)
    }
}

/// The number format for a device: 32-bit floats on the processor, the back
/// end's choice elsewhere.
pub open spec fn dtype_for(device: Device) -> DType {
    match device {
        Device::Cpu(_) => DType::Fp32,
        _ => DType::Auto,
    }
}

/// The file name's extension is `onnx`, in any mix of cases.
pub open spec fn has_model_extension(extension: Option<String>) -> bool {
    extension matches Some(e) && lowered(e@) == "onnx"@
}

/// Why a model file is refused, if it is. The checks run in this order: the
/// path is empty; nothing exists there; it is no regular file; the extension
/// is wrong; no version is given and the name gives none.
pub open spec fn refusal(file: ModelFile, version_override: Option<u8>) -> Option<Fault> {
    if file.path@.len() == 0 {
        Some(Fault::EmptyModelPath)
    } else if !file.exists {
        Some(Fault::ModelFileMissing)
    } else if !file.is_file {
        Some(Fault::ModelPathNotFile)
    } else if !has_model_extension(file.extension) {
        Some(Fault::WrongModelExtension)
    } else if version_override is None && version_in_name(lowered(file.stem@)) is None {
        Some(Fault::UnresolvedVersion)
    } else {
        None
    }
}

/// The version to build with: the one given, else the one in the name.
pub open spec fn resolved_version(stem: Seq<char>, version_override: Option<u8>) -> Option<u8> {
    match version_override {
        Some(v) => Some(v),
        None => version_in_name(lowered(stem)),
    }
}

/// The plan for a model file that is not refused.
pub open spec fn plan_for(file: ModelFile, device_type: Seq<char>, version_override: Option<u8>) -> PlanView {
    PlanView {
        task: task_in_name(lowered(file.stem@)),
        version: resolved_version(file.stem@, version_override).unwrap(),
        device: device_named(device_type),
        dtype: dtype_for(device_named(device_type)),
        path: file.path@,
    }
}

/// Where a text stands in another at all, it stands there at a first position.
pub proof fn lemma_first_occurrence_exists(hay: Seq<char>, needle: Seq<char>, at: int)
    requires
        occurs_at(hay, needle, at),
    ensures
        exists|first: int| first_at(hay, needle, first),
    decreases at,
{
    if exists|j: int| 0 <= j < at && occurs_at(hay, needle, j) {
        let j = choose|j: int| 0 <= j < at && occurs_at(hay, needle, j);
        lemma_first_occurrence_exists(hay, needle, j);
    } else {
        assert(first_at(hay, needle, at));
    }
}

/// There is one first position at most.
pub proof fn lemma_first_at_unique(hay: Seq<char>, needle: Seq<char>, a: int, b: int)
    requires
        first_at(hay, needle, a),
        first_at(hay, needle, b),
    ensures
        a == b,
{
}

/// The version behind the first `v` that has one, looking from `from` on.
fn scan_v_version(name: &[char], from: usize) -> (r: Option<u8>)
    requires
        from <= name@.len(),
    ensures
        r == version_after_v(name@, from as int),
{
    let mut i: usize = from;
    while i < name.len()
        invariant
            from <= i <= name@.len(),
            version_after_v(name@, from as int) == version_after_v(name@, i as int),
        decreases name@.len() - i,
    {
        if name[i] == 'v' {
            let end = scan_digits(name, i + 1);
            match parse_small(name, i + 1, end) {
                Some(v) => {
                    return Some(v);
                },
                None => {},
            }
        }
        i = i + 1;
    }
    None
}

/// The model version that a name gives.
pub fn version_of_chars(name: &[char]) -> (r: Option<u8>)
    ensures
        r == version_in_name(name@),
{
    let marker = chars_of("yolo");
    proof {
        reveal_strlit("yolo");
    }
    assert(marker@.len() == 4);
    match find_text(name, marker.as_slice()) {
        Some(at) => {
            proof {
                let chosen = choose|c: int| first_at(name@, "yolo"@, c);
                lemma_first_at_unique(name@, "yolo"@, at as int, chosen);
            }
            assert(at + 4 <= name.len());
            let start: usize = at + 4;
            let end = scan_digits(name, start);
            match parse_small(name, start, end) {
                Some(v) => {
                    return Some(v);
                },
                None => {},
            }
        },
        None => {},
    }
    scan_v_version(name, 0)
}

/// The model version that a name gives: the number that follows the first
/// `yolo` directly, else the number that follows a `v` directly, taking the
/// first `v` that has one. A number counts if it is at most 255.
pub fn parse_version_from_name(name: &str) -> (r: Option<u8>)
    ensures
        r == version_in_name(name@),
{
    let chars = chars_of(name);
    version_of_chars(chars.as_slice())
}

/// The task that a name gives.
pub fn task_of_chars(name: &[char]) -> (t: Task)
    ensures
        t == task_in_name(name@),
{
    if contains_text(name, "seg") || contains_text(name, "segment") {
        Task::InstanceSegmentation
    } else if contains_text(name, "pose") || contains_text(name, "kpt") {
        Task::KeypointsDetection
    } else if contains_text(name, "obb") {
        Task::OrientedObjectDetection
    } else if contains_text(name, "cls") || contains_text(name, "classify") {
        Task::ImageClassification
    } else {
        Task::ObjectDetection
    }
}

/// The task and the version of the model in a file, from the file's name in
/// lower case and the version given, if one is. Without a version from either
/// the file is refused.
pub fn infer_yolo_meta(file: &ModelFile, version_override: Option<u8>) -> (res: Result<
    (Task, u8),
    Error,
>)
    ensures
        match resolved_version(file.stem@, version_override) {
            Some(v) => res matches Ok(meta) && meta == (task_in_name(lowered(file.stem@)), v),
            None => res matches Err(e) && e.fault == Fault::UnresolvedVersion && e.detail@
                == file.path@,
        },
{
    let raw = chars_of(file.stem.as_str());
    let stem = lower_ascii(raw.as_slice());
    let task = task_of_chars(stem.as_slice());
    let version = match version_override {
        Some(v) => Some(v),
        None => version_of_chars(stem.as_slice()),
    };
    match version {
        Some(v) => Ok((task, v)),
        None => Err(Error::new(Fault::UnresolvedVersion, file.path.clone())),
    }
}

/// The device that a name selects.
pub fn device_for(device_type: &str) -> (d: Device)
    ensures
        d == device_named(device_type@),
{
    if same_text(device_type, "cuda") {
        Device::Cuda(0)
    } else if same_text(device_type, "tensorrt") {
        Device::TensorRt(0)
    } else {
        Device::Cpu(0)
    }
}

/// The number format for a device.
pub fn dtype_of(device: Device) -> (t: DType)
    ensures
        t == dtype_for(device),
{
    match device {
        Device::Cpu(_) => DType::Fp32,
        _ => DType::Auto,
    }
}

/// Whether the file name's extension is `onnx`, in any mix of cases.
pub fn check_extension(extension: &Option<String>) -> (ok: bool)
    ensures
        ok == has_model_extension(*extension),
{
    match extension {
        Some(e) => {
            let raw = chars_of(e.as_str());
            let low = lower_ascii(raw.as_slice());
            let want = chars_of("onnx");
            same_chars(low.as_slice(), want.as_slice())
        },
        None => false,
    }
}

/// Checks a model file and plans the build. Nothing is opened or allocated:
/// a file that is refused is refused here.
pub fn plan_model(file: &ModelFile, device_type: &str, version_override: Option<u8>) -> (res:
    Result<ModelPlan, Error>)
    ensures
        match refusal(*file, version_override) {
            Some(fault) => res matches Err(e) && e.fault == fault && e.detail@ == file.path@,
            None => res matches Ok(plan) && plan@ == plan_for(
                *file,
                device_type@,
                version_override,
            ),
        },
{
    if file.path.as_str().unicode_len() == 0 {
        return Err(Error::new(Fault::EmptyModelPath, file.path.clone()));
    }
    if !file.exists {
        return Err(Error::new(Fault::ModelFileMissing, file.path.clone()));
    }
    if !file.is_file {
        return Err(Error::new(Fault::ModelPathNotFile, file.path.clone()));
    }
    if !check_extension(&file.extension) {
        return Err(Error::new(Fault::WrongModelExtension, file.path.clone()));
    }
    let device = device_for(device_type);
    match infer_yolo_meta(file, version_override) {
        Ok((task, version)) => Ok(
            ModelPlan { task, version, device, dtype: dtype_of(device), path: file.path.clone() },
        ),
        Err(e) => Err(e),
    }
}

/// No number stands behind a position that no digit follows.
proof fn lemma_no_digit_no_number(name: Seq<char>, from: int)
    requires
        0 <= from <= name.len(),
        !(from < name.len() && is_digit(name[from])),
    ensures
        number_at(name, from) is None,
{
    assert(digits_end(name, from) == from);
    assert(name.subrange(from, from).len() == 0);
}

/// Behind no `v` from `from` on stands a digit: then no `v` gives a version.
proof fn lemma_no_v_version(name: Seq<char>, from: int)
    requires
        forall|i: int| from <= i < name.len() - 1 && name[i] == 'v' ==> !is_digit(#[trigger] name[i + 1]),
    ensures
        version_after_v(name, from) is None,
    decreases name.len() - from,
{
    if 0 <= from < name.len() {
        if name[from] == 'v' {
            if from < name.len() - 1 {
                assert(!is_digit(name[from + 1]));
            }
            lemma_no_digit_no_number(name, from + 1);
        }
        lemma_no_v_version(name, from + 1);
    }
}

/// No digit follows a `v` directly, and none follows a `yolo` directly.
pub open spec fn unmarked(name: Seq<char>) -> bool {
    &&& forall|i: int|
        0 <= i < name.len() - 1 && name[i] == 'v' ==> !is_digit(#[trigger] name[i + 1])
    &&& forall|at: int|
        occurs_at(name, "yolo"@, at) && at + 4 < name.len() ==> !is_digit(
            #[trigger] name[at + 4],
        )
}

/// A name that carries neither marker gives no version.
pub proof fn lemma_unmarked_name_gives_no_version(name: Seq<char>)
    requires
        unmarked(name),
    ensures
        version_in_name(name) is None,
{
    reveal_strlit("yolo");
    lemma_no_v_version(name, 0);
    if occurs(name, "yolo"@) {
        let some = choose|at: int| occurs_at(name, "yolo"@, at);
        lemma_first_occurrence_exists(name, "yolo"@, some);
        let at = choose|at: int| first_at(name, "yolo"@, at);
        if at + 4 < name.len() {
            assert(!is_digit(name[at + 4]));
        }
        lemma_no_digit_no_number(name, at + 4);
    }
}

/// A file whose name carries neither marker is refused unless a version is
/// given: if nothing else is wrong with it, for want of a version.
pub proof fn lemma_unmarked_file_is_refused(file: ModelFile)
    requires
        unmarked(lowered(file.stem@)),
    ensures
        refusal(file, None) is Some,
        file.path@.len() > 0 && file.exists && file.is_file && has_model_extension(file.extension)
            ==> refusal(file, None) == Some(Fault::UnresolvedVersion),
{
    lemma_unmarked_name_gives_no_version(lowered(file.stem@));
}

} // verus!
