use vstd::prelude::*;

verus! {

/// The four classes of failure a run can end with.
#[derive(Clone, Copy, Debug, PartialEq, Eq, Structural)]
pub enum ErrorKind {
    /// Bad model path, unresolvable model version, rejected model
    /// configuration, malformed configuration file. Mended by the user, never
    /// retried.
    Config,
    /// No display, no duplication session, or an inference back end that gave up.
    Device,
    /// A platform failure while acquiring a frame that is none of the soft conditions.
    Capture,
    /// Inference was asked for before a model was loaded.
    State,
}

/// The precise condition behind an [`Error`].
#[derive(Clone, Copy, Debug, PartialEq, Eq, Structural)]
pub enum Fault {
    EmptyModelPath,
    ModelFileMissing,
    ModelPathNotFile,
    WrongModelExtension,
    UnresolvedVersion,
    MalformedConfig,
    ModelConfigRejected,
    ModelBuildFailed,
    NoDisplay,
    DuplicationFailed,
    FrameAcquireFailed,
    FrameTooLarge,
    ModelNotLoaded,
    InferenceFailed,
}

/// The class each fault belongs to.
pub open spec fn kind_of(fault: Fault) -> ErrorKind {
    match fault {
        Fault::EmptyModelPath => ErrorKind::Config,
        Fault::ModelFileMissing => ErrorKind::Config,
        Fault::ModelPathNotFile => ErrorKind::Config,
        Fault::WrongModelExtension => ErrorKind::Config,
        Fault::UnresolvedVersion => ErrorKind::Config,
        Fault::MalformedConfig => ErrorKind::Config,
        Fault::ModelConfigRejected => ErrorKind::Config,
        Fault::ModelBuildFailed => ErrorKind::Device,
        Fault::NoDisplay => ErrorKind::Device,
        Fault::DuplicationFailed => ErrorKind::Device,
        Fault::FrameAcquireFailed => ErrorKind::Capture,
        Fault::FrameTooLarge => ErrorKind::Capture,
        Fault::ModelNotLoaded => ErrorKind::State,
        Fault::InferenceFailed => ErrorKind::Device,
    }
}

/// The fixed text that opens the message of each fault.
pub open spec fn headline(fault: Fault) -> Seq<char> {
    match fault {
        Fault::EmptyModelPath => "模型路径为空"@,
        Fault::ModelFileMissing => "模型文件不存在"@,
        Fault::ModelPathNotFile => "模型路径不是文件"@,
        Fault::WrongModelExtension => "模型文件不是 .onnx"@,
        Fault::UnresolvedVersion =>
            "无法从文件名解析 YOLO 版本，请确保文件名包含 yolo8/yolo11/yolo26 或 v8/v11/v26"@,
        Fault::MalformedConfig => "配置文件格式错误"@,
        Fault::ModelConfigRejected => "USLS 配置提交失败"@,
        Fault::ModelBuildFailed => "YOLO 模型构建失败"@,
        Fault::NoDisplay => "获取主显示器失败"@,
        Fault::DuplicationFailed => "创建 DXGI 复制会话失败"@,
        Fault::FrameAcquireFailed => "捕获失败"@,
        Fault::FrameTooLarge => "帧尺寸过大"@,
        Fault::ModelNotLoaded => "模型未加载"@,
        Fault::InferenceFailed => "推理失败"@,
    }
}

/// What `Error::message` returns: the headline alone when there is no detail,
/// else the headline, a colon, a space and the detail.
pub open spec fn message_of(fault: Fault, detail: Seq<char>) -> Seq<char> {
    if detail.len() == 0 {
        headline(fault)
    } else {
        headline(fault) + ": "@ + detail
    }
}

/// A failure: its precise condition and a free-form detail (a path, or the
/// platform's own words).
#[derive(Debug)]
pub struct Error {
    pub fault: Fault,
    pub detail: String,
}

impl Error {
    pub fn new(fault: Fault, detail: String) -> (e: Error)
        ensures
            e.fault == fault,
            e.detail == detail,
    {
        Error { fault, detail }
    }

    /// An error without detail.
    pub fn bare(fault: Fault) -> (e: Error)
        ensures
            e.fault == fault,
            e.detail@ == Seq::<char>::empty(),
    {
        Error { fault, detail: String::new() }
    }

    pub fn kind(&self) -> (k: ErrorKind)
        ensures
            k == kind_of(self.fault),
    {
        fault_kind(self.fault)
    }

    /// The human-readable line reported for this error.
    pub fn message(&self) -> (m: String)
        ensures
            m@ == message_of(self.fault, self.detail@),
    {
        let mut m = String::from_str(fault_headline(self.fault));
        if self.detail.as_str().unicode_len() != 0 {
            m.append(": ");
            m.append(self.detail.as_str());
        }
        m
    }
}

pub fn fault_kind(fault: Fault) -> (k: ErrorKind)
    ensures
        k == kind_of(fault),
{
    match fault {
        Fault::EmptyModelPath => ErrorKind::Config,
        Fault::ModelFileMissing => ErrorKind::Config,
        Fault::ModelPathNotFile => ErrorKind::Config,
        Fault::WrongModelExtension => ErrorKind::Config,
        Fault::UnresolvedVersion => ErrorKind::Config,
        Fault::MalformedConfig => ErrorKind::Config,
        Fault::ModelConfigRejected => ErrorKind::Config,
        Fault::ModelBuildFailed => ErrorKind::Device,
        Fault::NoDisplay => ErrorKind::Device,
        Fault::DuplicationFailed => ErrorKind::Device,
        Fault::FrameAcquireFailed => ErrorKind::Capture,
        Fault::FrameTooLarge => ErrorKind::Capture,
        Fault::ModelNotLoaded => ErrorKind::State,
        Fault::InferenceFailed => ErrorKind::Device,
    }
}

pub fn fault_headline(fault: Fault) -> (s: &'static str)
    ensures
        s@ == headline(fault),
{
    match fault {
        Fault::EmptyModelPath => "模型路径为空",
        Fault::ModelFileMissing => "模型文件不存在",
        Fault::ModelPathNotFile => "模型路径不是文件",
        Fault::WrongModelExtension => "模型文件不是 .onnx",
        Fault::UnresolvedVersion =>
            "无法从文件名解析 YOLO 版本，请确保文件名包含 yolo8/yolo11/yolo26 或 v8/v11/v26",
        Fault::MalformedConfig => "配置文件格式错误",
        Fault::ModelConfigRejected => "USLS 配置提交失败",
        Fault::ModelBuildFailed => "YOLO 模型构建失败",
        Fault::NoDisplay => "获取主显示器失败",
        Fault::DuplicationFailed => "创建 DXGI 复制会话失败",
        Fault::FrameAcquireFailed => "捕获失败",
        Fault::FrameTooLarge => "帧尺寸过大",
        Fault::ModelNotLoaded => "模型未加载",
        Fault::InferenceFailed => "推理失败",
    }
}

} // verus!
