use vtracer_service::invoker::{
    build_args, judge_exit, read_exit, tool_program, ConversionError,
};
use vtracer_service::options::{ConversionOptions, ConvertOptions};

fn options_with_preset(preset: Option<&str>) -> ConversionOptions {
    let mut d = ConvertOptions::default();
    d.preset = preset.map(|p| p.to_string());
    ConversionOptions::resolve(d).unwrap()
}

fn flag_positions(args: &[String], flag: &str) -> Vec<usize> {
    let mut found = Vec::new();
    let mut i = 0;
    while i < args.len() {
        if args[i] == flag {
            found.push(i);
        }
        i += 2;
    }
    found
}

#[test]
fn tool_is_vtracer() {
    assert_eq!(tool_program(), "vtracer");
}

#[test]
fn default_options_give_every_documented_default() {
    let args = build_args("/tmp/in.png", "/tmp/out.svg", &ConversionOptions::default());
    let expected = vec![
        "--input", "/tmp/in.png",
        "--output", "/tmp/out.svg",
        "--colormode", "color",
        "--hierarchical", "stacked",
        "--filter_speckle", "2",
        "--corner_threshold", "60",
        "--color_precision", "8",
        "--gradient_step", "0",
        "--mode", "spline",
        "--path_precision", "1",
        "--segment_length", "8",
        "--splice_threshold", "2.5",
    ];
    assert_eq!(args, expected);
}

#[test]
fn submitted_values_reach_the_arguments() {
    let d = ConvertOptions {
        color_mode: "binary".to_string(),
        hierarchical: "cutout".to_string(),
        filter_speckle: Some(10),
        corner_threshold: Some(90),
        color_precision: Some(4),
        gradient_step: Some(16),
        mode: "polygon".to_string(),
        path_precision: Some(5),
        preset: Some("bw".to_string()),
        segment_length: Some(12),
        splice_threshold: Some(0.75f32.to_string()),
    };
    let o = ConversionOptions::resolve(d).unwrap();
    let args = build_args("a", "b", &o);
    let expected = vec![
        "--input", "a",
        "--output", "b",
        "--colormode", "binary",
        "--hierarchical", "cutout",
        "--filter_speckle", "10",
        "--corner_threshold", "90",
        "--color_precision", "4",
        "--gradient_step", "16",
        "--mode", "polygon",
        "--path_precision", "5",
        "--segment_length", "12",
        "--splice_threshold", "0.75",
        "--preset", "bw",
    ];
    assert_eq!(args, expected);
}

#[test]
fn no_preset_no_flag() {
    let args = build_args("i", "o", &options_with_preset(None));
    assert_eq!(args.len(), 24);
    assert!(flag_positions(&args, "--preset").is_empty());
    assert!(!args.iter().any(|a| a == "--preset"));
}

#[test]
fn preset_gives_exactly_one_pair() {
    let args = build_args("i", "o", &options_with_preset(Some("photo")));
    assert_eq!(args.len(), 26);
    assert_eq!(flag_positions(&args, "--preset"), vec![24]);
    assert_eq!(args[25], "photo");
}

#[test]
fn empty_preset_is_still_passed() {
    let args = build_args("i", "o", &options_with_preset(Some("")));
    assert_eq!(flag_positions(&args, "--preset"), vec![24]);
    assert_eq!(args[25], "");
}

#[test]
fn a_value_that_looks_like_a_flag_stays_a_value() {
    let mut d = ConvertOptions::default();
    d.color_mode = "--preset".to_string();
    let o = ConversionOptions::resolve(d).unwrap();
    let args = build_args("i", "o", &o);
    assert_eq!(args[5], "--preset");
    assert!(flag_positions(&args, "--preset").is_empty());
}

#[test]
fn each_flag_occurs_once() {
    let args = build_args("i", "o", &options_with_preset(Some("photo")));
    let mut i = 0;
    while i < args.len() {
        assert_eq!(flag_positions(&args, &args[i]), vec![i]);
        assert!(args[i].starts_with("--"));
        i += 2;
    }
}

#[test]
fn successful_exit_is_no_error() {
    assert!(read_exit(true, b"warning: something").is_ok());
    assert!(judge_exit(true, "ignored".to_string()).is_ok());
}

#[test]
fn failed_exit_carries_the_diagnostic() {
    match read_exit(false, b"cannot decode image") {
        Err(ConversionError::ToolFailed { diagnostic }) => {
            assert_eq!(diagnostic, "cannot decode image")
        }
        other => panic!("unexpected {other:?}"),
    }
    match judge_exit(false, "boom".to_string()) {
        Err(ConversionError::ToolFailed { diagnostic }) => assert_eq!(diagnostic, "boom"),
        other => panic!("unexpected {other:?}"),
    }
}

#[test]
fn diagnostic_bytes_are_decoded_lossily() {
    match read_exit(false, &[0x62, 0x61, 0x64, 0xff, 0x21]) {
        Err(ConversionError::ToolFailed { diagnostic }) => {
            assert_eq!(diagnostic, "bad\u{fffd}!")
        }
        other => panic!("unexpected {other:?}"),
    }
    match read_exit(false, "hatalı girdi".as_bytes()) {
        Err(ConversionError::ToolFailed { diagnostic }) => assert_eq!(diagnostic, "hatalı girdi"),
        other => panic!("unexpected {other:?}"),
    }
    match read_exit(false, b"") {
        Err(ConversionError::ToolFailed { diagnostic }) => assert_eq!(diagnostic, ""),
        other => panic!("unexpected {other:?}"),
    }
}

#[test]
fn error_messages() {
    let e = ConversionError::ToolFailed { diagnostic: "no such file".to_string() };
    assert_eq!(e.message(), "vtracer failed: no such file");
    let e = ConversionError::LaunchFailed { detail: "No such file or directory (os error 2)".to_string() };
    assert_eq!(e.message(), "No such file or directory (os error 2)");
    let e = ConversionError::OutputUnreadable { detail: "stream did not contain valid UTF-8".to_string() };
    assert_eq!(e.message(), "stream did not contain valid UTF-8");
}
