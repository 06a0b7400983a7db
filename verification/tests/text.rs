use screen_detect::error::{fault_headline, fault_kind, Error, ErrorKind, Fault};
use screen_detect::text::{
    chars_of, contains_text, digit, find_text, lower_ascii, lower_char, matches_at, parse_small,
    same_chars, same_text, scan_digits,
};

fn cs(s: &str) -> Vec<char> {
    s.chars().collect()
}

#[test]
fn chars_of_gives_every_character() {
    assert_eq!(chars_of(""), Vec::<char>::new());
    assert_eq!(chars_of("a1"), vec!['a', '1']);
    assert_eq!(chars_of("侧键1"), vec!['侧', '键', '1']);
}

#[test]
fn same_text_compares_whole_strings() {
    assert!(same_text("", ""));
    assert!(same_text("x1", "x1"));
    assert!(!same_text("x1", "x2"));
    assert!(!same_text("x1", "x1 "));
    assert!(!same_text("x", ""));
    assert!(same_chars(&cs("onnx"), &cs("onnx")));
    assert!(!same_chars(&cs("onnx"), &cs("onn")));
    assert!(!same_chars(&cs("onn"), &cs("onnx")));
    assert!(!same_chars(&cs("onnx"), &cs("onny")));
    assert!(same_chars(&[], &[]));
}

#[test]
fn lower_ascii_touches_capitals_only() {
    assert_eq!(lower_char('A'), 'a');
    assert_eq!(lower_char('Z'), 'z');
    assert_eq!(lower_char('a'), 'a');
    assert_eq!(lower_char('@'), '@');
    assert_eq!(lower_char('['), '[');
    assert_eq!(lower_char('É'), 'É');
    assert_eq!(lower_ascii(&cs("YOLO11n-SEG.Onnx É模")), cs("yolo11n-seg.onnx É模"));
    assert_eq!(lower_ascii(&[]), Vec::<char>::new());
}

#[test]
fn find_text_gives_the_first_position() {
    assert_eq!(find_text(&cs("abcabc"), &cs("bc")), Some(1));
    assert_eq!(find_text(&cs("abcabc"), &cs("abc")), Some(0));
    assert_eq!(find_text(&cs("abcabc"), &cs("c")), Some(2));
    assert_eq!(find_text(&cs("abcabc"), &cs("cab")), Some(2));
    assert_eq!(find_text(&cs("abcabc"), &cs("abcabc")), Some(0));
    assert_eq!(find_text(&cs("aab"), &cs("ab")), Some(1));
    assert_eq!(find_text(&cs("abcabc"), &cs("abcabcd")), None);
    assert_eq!(find_text(&cs("abcabc"), &cs("d")), None);
    assert_eq!(find_text(&cs("abc"), &[]), Some(0));
    assert_eq!(find_text(&[], &[]), Some(0));
    assert_eq!(find_text(&[], &cs("a")), None);
    assert_eq!(find_text(&cs("模型yolo"), &cs("yolo")), Some(2));
}

#[test]
fn matches_at_checks_one_position() {
    assert!(matches_at(&cs("abc"), &cs("bc"), 1));
    assert!(!matches_at(&cs("abc"), &cs("bc"), 0));
    assert!(!matches_at(&cs("abc"), &cs("bc"), 2));
    assert!(matches_at(&cs("abc"), &[], 3));
    assert!(!matches_at(&cs("abc"), &[], 4));
    assert!(!matches_at(&cs("abc"), &cs("abcd"), 0));
    assert!(!matches_at(&cs("abc"), &cs("a"), usize::MAX));
}

#[test]
fn contains_text_finds_markers() {
    assert!(contains_text(&cs("model_v8_seg"), "seg"));
    assert!(!contains_text(&cs("model_v8_seg"), "segment"));
    assert!(contains_text(&cs("model_v8_seg"), ""));
    assert!(!contains_text(&cs("se"), "seg"));
}

#[test]
fn scan_digits_stops_at_the_first_other_character() {
    assert!(digit('0') && digit('9') && !digit('/') && !digit(':') && !digit('a') && !digit('٣'));
    assert_eq!(scan_digits(&cs("yolo11n"), 4), 6);
    assert_eq!(scan_digits(&cs("yolo11n"), 0), 0);
    assert_eq!(scan_digits(&cs("yolo11"), 4), 6);
    assert_eq!(scan_digits(&cs("yolo11"), 6), 6);
    assert_eq!(scan_digits(&cs("123"), 0), 3);
    assert_eq!(scan_digits(&[], 0), 0);
    assert_eq!(scan_digits(&cs("123"), 3), 3);
    assert_eq!(scan_digits(&cs("123"), 7), 7);
}

#[test]
fn parse_small_reads_numbers_up_to_255() {
    let parse = |s: &str| parse_small(&cs(s), 0, s.len());
    assert_eq!(parse(""), None);
    assert_eq!(parse("0"), Some(0));
    assert_eq!(parse("8"), Some(8));
    assert_eq!(parse("11"), Some(11));
    assert_eq!(parse("255"), Some(255));
    assert_eq!(parse("256"), None);
    assert_eq!(parse("999"), None);
    assert_eq!(parse("0255"), Some(255));
    assert_eq!(parse("000000000000000000000000026"), Some(26));
    assert_eq!(parse("99999999999999999999999999999"), None);
    assert_eq!(parse_small(&cs("v12x"), 1, 3), Some(12));
    assert_eq!(parse_small(&cs("v12x"), 1, 2), Some(1));
    assert_eq!(parse_small(&cs("v12x"), 2, 2), None);
    assert_eq!(parse_small(&cs("v12x"), 0, 3), None);
    assert_eq!(parse_small(&cs("v12x"), 1, 4), None);
    assert_eq!(parse("+8"), None);
    assert_eq!(parse("1a"), None);
    assert_eq!(parse("999a"), None);
}

#[test]
fn every_fault_has_its_class() {
    let class = [
        (Fault::EmptyModelPath, ErrorKind::Config),
        (Fault::ModelFileMissing, ErrorKind::Config),
        (Fault::ModelPathNotFile, ErrorKind::Config),
        (Fault::WrongModelExtension, ErrorKind::Config),
        (Fault::UnresolvedVersion, ErrorKind::Config),
        (Fault::MalformedConfig, ErrorKind::Config),
        (Fault::ModelConfigRejected, ErrorKind::Config),
        (Fault::ModelBuildFailed, ErrorKind::Device),
        (Fault::NoDisplay, ErrorKind::Device),
        (Fault::DuplicationFailed, ErrorKind::Device),
        (Fault::FrameAcquireFailed, ErrorKind::Capture),
        (Fault::FrameTooLarge, ErrorKind::Capture),
        (Fault::ModelNotLoaded, ErrorKind::State),
        (Fault::InferenceFailed, ErrorKind::Device),
    ];
    for (fault, kind) in class {
        assert_eq!(fault_kind(fault), kind);
        assert_eq!(Error::bare(fault).kind(), kind);
        assert!(!fault_headline(fault).is_empty());
    }
}

#[test]
fn messages_join_headline_and_detail() {
    assert_eq!(Error::bare(Fault::NoDisplay).message(), "获取主显示器失败");
    assert_eq!(Error::bare(Fault::NoDisplay).detail, "");
    assert_eq!(Error::new(Fault::NoDisplay, "none".to_string()).message(), "获取主显示器失败: none");
    assert_eq!(
        Error::new(Fault::ModelFileMissing, "C:/m.onnx".to_string()).message(),
        "模型文件不存在: C:/m.onnx"
    );
    assert_eq!(
        Error::new(Fault::ModelPathNotFile, "C:/m".to_string()).message(),
        "模型路径不是文件: C:/m"
    );
    assert_eq!(fault_headline(Fault::FrameTooLarge), "帧尺寸过大");
    assert_eq!(fault_headline(Fault::ModelConfigRejected), "USLS 配置提交失败");
}
