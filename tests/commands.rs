use cmtools::args::{build_args, ProcessOptions};
use cmtools::provision::{cache_file_name, needs_write};
use cmtools::text::{is_white_space_char, same_text, trim_text};
use cmtools::tool::Tool;

fn options(area: bool, std_name: Option<&str>, windows: Option<bool>, language: &str) -> ProcessOptions {
    ProcessOptions {
        use_area_data: area,
        std_sample_name: std_name.map(|s| s.to_string()),
        windows_optimization: windows,
        language: language.to_string(),
    }
}

fn strings(v: &[&str]) -> Vec<String> {
    v.iter().map(|s| s.to_string()).collect()
}

#[test]
fn parses_every_tool_name() {
    assert!(matches!(Tool::from_str("AneuFiler"), Ok(Tool::AneuFiler)));
    assert!(matches!(Tool::from_str("Aneu23"), Ok(Tool::Aneu23)));
    assert!(matches!(Tool::from_str("SMNFiler"), Ok(Tool::SMNFiler)));
    assert!(matches!(Tool::from_str("SHCarrier"), Ok(Tool::SHCarrier)));
    assert!(matches!(Tool::from_str("UPDFiler"), Ok(Tool::UPDFiler)));
}

#[test]
fn unknown_tool_name_is_an_error_that_carries_it() {
    match Tool::from_str("aneufiler") {
        Err(cmtools::error::ProcessError::UnknownTool { tool }) => assert_eq!(tool, "aneufiler"),
        _ => panic!("expected an unknown tool error"),
    }
    assert!(Tool::from_str("").is_err());
}

#[test]
fn executable_names() {
    assert_eq!(Tool::AneuFiler.exe_name(), "AneuFiler.exe");
    assert_eq!(Tool::Aneu23.exe_name(), "Aneu23.exe");
    assert_eq!(Tool::SMNFiler.exe_name(), "SMNFiler.exe");
    assert_eq!(Tool::SHCarrier.exe_name(), "SHCarrier.exe");
    assert_eq!(Tool::UPDFiler.exe_name(), "UPDFiler.exe");
}

#[test]
fn capabilities() {
    assert!(!Tool::AneuFiler.supports_std_sample());
    assert!(Tool::Aneu23.supports_std_sample());
    assert!(Tool::SMNFiler.supports_std_sample());
    assert!(Tool::SHCarrier.supports_std_sample());
    assert!(!Tool::UPDFiler.supports_std_sample());
    assert!(!Tool::AneuFiler.supports_windows_optimization());
    assert!(!Tool::Aneu23.supports_windows_optimization());
    assert!(Tool::SMNFiler.supports_windows_optimization());
    assert!(Tool::SHCarrier.supports_windows_optimization());
    assert!(Tool::UPDFiler.supports_windows_optimization());
    assert!(Tool::AneuFiler.accepts_area_data());
    assert!(!Tool::UPDFiler.accepts_area_data());
    assert_eq!(Tool::SMNFiler.area_flag(), "-a");
    assert_eq!(Tool::Aneu23.area_flag(), "-Area");
    assert_eq!(Tool::SMNFiler.std_sample_flag(), "-c");
    assert_eq!(Tool::SHCarrier.std_sample_flag(), "-STD");
}

#[test]
fn aneufiler_with_area_data() {
    let o = options(true, Some("STD1"), Some(true), "en");
    let args = build_args(Tool::AneuFiler, &o, "/data/a.raw", Some("/data"));
    assert_eq!(args, strings(&["-i", "/data/a.raw", "-Area"]));
}

#[test]
fn smnfiler_takes_every_option() {
    let o = options(true, Some("  STD 1 "), Some(true), "zh");
    let args = build_args(Tool::SMNFiler, &o, "/d/x.raw", Some("/d"));
    assert_eq!(
        args,
        strings(&["-i", "/d/x.raw", "-a", "-c", "STD 1", "-e", "GBK", "-o", "/d", "-l"])
    );
}

#[test]
fn smnfiler_in_english_without_parent() {
    let o = options(false, None, None, "en");
    let args = build_args(Tool::SMNFiler, &o, "x.raw", None);
    assert_eq!(args, strings(&["-i", "x.raw"]));
}

#[test]
fn shcarrier_spells_flags_in_words() {
    let o = options(true, Some("S"), Some(true), "zh");
    let args = build_args(Tool::SHCarrier, &o, "/d/x.raw", Some("/d"));
    assert_eq!(args, strings(&["-i", "/d/x.raw", "-Area", "-STD", "S", "-GBK"]));
}

#[test]
fn updfiler_ignores_area_and_std_sample() {
    let o = options(true, Some("S"), Some(true), "en");
    let args = build_args(Tool::UPDFiler, &o, "/d/x.raw", Some("/d"));
    assert_eq!(args, strings(&["-i", "/d/x.raw", "-GBK"]));
}

#[test]
fn encoding_flag_never_for_tools_without_it() {
    for on in [None, Some(false), Some(true)] {
        let o = options(false, None, on, "en");
        assert_eq!(build_args(Tool::AneuFiler, &o, "f", None), strings(&["-i", "f"]));
        assert_eq!(build_args(Tool::Aneu23, &o, "f", None), strings(&["-i", "f"]));
    }
    let off = options(false, None, Some(false), "en");
    assert_eq!(build_args(Tool::SHCarrier, &off, "f", None), strings(&["-i", "f"]));
}

#[test]
fn blank_std_sample_name_is_never_emitted() {
    for blank in ["", "   ", "\t\n", "\u{3000}\u{a0}"] {
        let o = options(false, Some(blank), None, "en");
        assert_eq!(build_args(Tool::Aneu23, &o, "f", None), strings(&["-i", "f"]));
        assert_eq!(build_args(Tool::SMNFiler, &o, "f", None), strings(&["-i", "f"]));
    }
}

#[test]
fn building_twice_gives_the_same_arguments() {
    let o = options(true, Some(" S "), Some(true), "zh");
    let first = build_args(Tool::SMNFiler, &o, "/d/x.raw", Some("/d"));
    let _other = build_args(Tool::Aneu23, &o, "/e/y.raw", Some("/e"));
    let second = build_args(Tool::SMNFiler, &o, "/d/x.raw", Some("/d"));
    assert_eq!(first, second);
}

#[test]
fn trims_unicode_white_space() {
    assert_eq!(trim_text("  a b  "), "a b");
    assert_eq!(trim_text("\u{2003}x\u{3000}"), "x");
    assert_eq!(trim_text("   "), "");
    assert_eq!(trim_text(""), "");
    assert_eq!(trim_text("x"), "x");
    assert_eq!(trim_text("名称 "), "名称");
}

#[test]
fn compares_text() {
    assert!(same_text("zh", "zh"));
    assert!(!same_text("zh", "zh-CN"));
    assert!(!same_text("en", "zh"));
    assert!(same_text("", ""));
}

#[test]
fn cache_is_rewritten_only_when_needed() {
    assert!(needs_write(None, 10));
    assert!(needs_write(Some(9), 10));
    assert!(needs_write(Some(11), 10));
    assert!(!needs_write(Some(10), 10));
    assert!(!needs_write(Some(0), 0));
}

#[test]
fn cache_file_names() {
    assert_eq!(cache_file_name(Tool::AneuFiler), "cmtools_AneuFiler.exe");
    assert_eq!(cache_file_name(Tool::UPDFiler), "cmtools_UPDFiler.exe");
}

#[test]
fn white_space_characters() {
    for c in [' ', '\t', '\n', '\r', '\u{b}', '\u{c}', '\u{85}', '\u{a0}', '\u{2000}', '\u{200a}', '\u{3000}'] {
        assert!(is_white_space_char(c));
        assert_eq!(is_white_space_char(c), c.is_whitespace());
    }
    for c in ['a', '_', '\u{200b}', '\u{feff}', '名'] {
        assert!(!is_white_space_char(c));
        assert_eq!(is_white_space_char(c), c.is_whitespace());
    }
}
