use vtracer_service::options::{
    default_color_mode, default_hierarchical, default_mode, default_splice_threshold,
    ConversionOptions, ConvertOptions, DEFAULT_COLOR_PRECISION, DEFAULT_CORNER_THRESHOLD,
    DEFAULT_FILTER_SPECKLE, DEFAULT_GRADIENT_STEP, DEFAULT_PATH_PRECISION, DEFAULT_SEGMENT_LENGTH,
};
use vtracer_service::text::{decimal_string, is_decimal_text, str_equal};

fn document() -> ConvertOptions {
    ConvertOptions {
        color_mode: "binary".to_string(),
        hierarchical: "cutout".to_string(),
        filter_speckle: Some(4),
        corner_threshold: None,
        color_precision: Some(6),
        gradient_step: None,
        mode: "polygon".to_string(),
        path_precision: Some(3),
        preset: Some("poster".to_string()),
        segment_length: None,
        splice_threshold: Some("45".to_string()),
    }
}

#[test]
fn default_vocabulary() {
    assert_eq!(default_color_mode(), "color");
    assert_eq!(default_hierarchical(), "stacked");
    assert_eq!(default_mode(), "spline");
    assert_eq!(default_splice_threshold(), "2.5");
}

#[test]
fn default_numbers() {
    assert_eq!(DEFAULT_FILTER_SPECKLE, 2);
    assert_eq!(DEFAULT_CORNER_THRESHOLD, 60);
    assert_eq!(DEFAULT_COLOR_PRECISION, 8);
    assert_eq!(DEFAULT_GRADIENT_STEP, 0);
    assert_eq!(DEFAULT_PATH_PRECISION, 1);
    assert_eq!(DEFAULT_SEGMENT_LENGTH, 8);
}

#[test]
fn default_options_hold_every_default() {
    let o = ConversionOptions::default();
    assert_eq!(o.color_mode(), "color");
    assert_eq!(o.hierarchical(), "stacked");
    assert_eq!(o.filter_speckle(), 2);
    assert_eq!(o.corner_threshold(), 60);
    assert_eq!(o.color_precision(), 8);
    assert_eq!(o.gradient_step(), 0);
    assert_eq!(o.mode(), "spline");
    assert_eq!(o.path_precision(), 1);
    assert_eq!(o.preset(), None);
    assert_eq!(o.segment_length(), 8);
    assert_eq!(o.splice_threshold(), "2.5");
}

#[test]
fn default_document_names_nothing() {
    let d = ConvertOptions::default();
    assert_eq!(d.color_mode, "color");
    assert_eq!(d.hierarchical, "stacked");
    assert_eq!(d.mode, "spline");
    assert_eq!(d.filter_speckle, None);
    assert_eq!(d.preset, None);
    assert_eq!(d.splice_threshold, None);
    let o = ConversionOptions::resolve(d).unwrap();
    assert_eq!(o.corner_threshold(), 60);
    assert_eq!(o.splice_threshold(), "2.5");
}

#[test]
fn resolve_keeps_named_fields_and_fills_the_rest() {
    let o = ConversionOptions::resolve(document()).unwrap();
    assert_eq!(o.color_mode(), "binary");
    assert_eq!(o.hierarchical(), "cutout");
    assert_eq!(o.filter_speckle(), 4);
    assert_eq!(o.corner_threshold(), 60);
    assert_eq!(o.color_precision(), 6);
    assert_eq!(o.gradient_step(), 0);
    assert_eq!(o.mode(), "polygon");
    assert_eq!(o.path_precision(), 3);
    assert_eq!(o.preset(), Some("poster"));
    assert_eq!(o.segment_length(), 8);
    assert_eq!(o.splice_threshold(), "45");
}

#[test]
fn resolve_keeps_a_value_equal_to_its_default() {
    let mut d = document();
    d.filter_speckle = Some(2);
    d.gradient_step = Some(0);
    let o = ConversionOptions::resolve(d).unwrap();
    assert_eq!(o.filter_speckle(), 2);
    assert_eq!(o.gradient_step(), 0);
}

#[test]
fn resolve_turns_down_a_negative_threshold() {
    let mut d = document();
    d.splice_threshold = Some((-1.5f32).to_string());
    assert!(ConversionOptions::resolve(d).is_none());
}

#[test]
fn resolve_turns_down_thresholds_that_are_no_numbers() {
    for text in ["NaN", "inf", "-0", "", ".", "1.", ".5", "1e5", "1.2.3", "+1", " 1", "١"] {
        let mut d = document();
        d.splice_threshold = Some(text.to_string());
        assert!(ConversionOptions::resolve(d).is_none(), "{text:?}");
    }
}

#[test]
fn resolve_or_default_falls_back_to_defaults() {
    let o = ConversionOptions::resolve_or_default(None);
    assert_eq!(o.color_mode(), "color");
    assert_eq!(o.splice_threshold(), "2.5");
    let mut d = document();
    d.splice_threshold = Some("-3".to_string());
    let o = ConversionOptions::resolve_or_default(Some(d));
    assert_eq!(o.color_mode(), "color");
    assert_eq!(o.filter_speckle(), 2);
    assert_eq!(o.preset(), None);
    let o = ConversionOptions::resolve_or_default(Some(document()));
    assert_eq!(o.color_mode(), "binary");
    assert_eq!(o.splice_threshold(), "45");
}

#[test]
fn rendered_floats_are_decimals() {
    for value in [0.0f32, 2.5, 10.0, 0.1, 45.0, 1e-7, 3.4e38] {
        assert!(is_decimal_text(&value.to_string()), "{value}");
    }
    for value in [-2.5f32, f32::NAN, f32::INFINITY, -0.0] {
        assert!(!is_decimal_text(&value.to_string()), "{value}");
    }
}

#[test]
fn decimal_grammar() {
    for text in ["0", "7", "60", "2.5", "0.000001", "100.0", "007"] {
        assert!(is_decimal_text(text), "{text:?}");
    }
    for text in ["", ".", "5.", ".5", "-1", "1,5", "1.5.2", "0x10", "2.5 ", "²"] {
        assert!(!is_decimal_text(text), "{text:?}");
    }
}

#[test]
fn decimal_rendering() {
    assert_eq!(decimal_string(0), "0");
    assert_eq!(decimal_string(7), "7");
    assert_eq!(decimal_string(10), "10");
    assert_eq!(decimal_string(60), "60");
    assert_eq!(decimal_string(1000), "1000");
    assert_eq!(decimal_string(4_294_967_295), "4294967295");
    for n in [1u32, 9, 11, 99, 100, 101, 12345, 999_999, 2_147_483_648] {
        assert_eq!(decimal_string(n), n.to_string());
    }
}

#[test]
fn string_comparison() {
    assert!(str_equal("", ""));
    assert!(str_equal("image", "image"));
    assert!(!str_equal("image", "images"));
    assert!(!str_equal("image", "imagE"));
    assert!(!str_equal("a", ""));
    assert!(str_equal("dönüş", "dönüş"));
    assert!(!str_equal("dönüş", "donus"));
}
