//! The conversion parameters: the document a request may submit, the
//! defaults, and the fully resolved set that is handed to the tool.

use crate::text::{is_decimal, is_decimal_text};
use vstd::prelude::*;

verus! {

/// Speckle filter used when a request names none.
pub const DEFAULT_FILTER_SPECKLE: u32 = 2;

/// Corner threshold used when a request names none.
pub const DEFAULT_CORNER_THRESHOLD: u32 = 60;

/// Color precision used when a request names none.
pub const DEFAULT_COLOR_PRECISION: u32 = 8;

/// Gradient step used when a request names none.
pub const DEFAULT_GRADIENT_STEP: u32 = 0;

/// Path precision used when a request names none.
pub const DEFAULT_PATH_PRECISION: u32 = 1;

/// Segment length used when a request names none.
pub const DEFAULT_SEGMENT_LENGTH: u32 = 8;

/// The color mode used when a request names none.
pub fn default_color_mode() -> (mode: String)
    ensures
        mode@ == "color"@,
{
    "color".to_owned()
}

/// The layering used when a request names none.
pub fn default_hierarchical() -> (layering: String)
    ensures
        layering@ == "stacked"@,
{
    "stacked".to_owned()
}

/// The curve fitting mode used when a request names none.
pub fn default_mode() -> (mode: String)
    ensures
        mode@ == "spline"@,
{
    "spline".to_owned()
}

/// The splice threshold used when a request names none, as decimal text.
pub fn default_splice_threshold() -> (threshold: String)
    ensures
        threshold@ == "2.5"@,
        is_decimal(threshold@),
{
    proof {
        lemma_default_threshold_is_decimal();
    }
    "2.5".to_owned()
}

/// The default splice threshold is a plain decimal number.
pub proof fn lemma_default_threshold_is_decimal()
    ensures
        is_decimal("2.5"@),
{
    reveal_strlit("2.5");
    let s = "2.5"@;
    assert(s.len() == 3 && s[0] == '2' && s[1] == '.' && s[2] == '5');
    assert(crate::text::has_point_at(s, 1));
}

/// What of an optional text a contract speaks of: its characters.
pub open spec fn text_of(text: Option<String>) -> Option<Seq<char>> {
    match text {
        Some(t) => Some(t@),
        None => None,
    }
}

/// An options document as a request submits it. The three vocabulary fields
/// are always present; a numeric field or the preset may be left out.
///
/// The splice threshold is held as the decimal text of the number, the form
/// in which it reaches the tool.
#[derive(Debug)]
pub struct ConvertOptions {
    pub color_mode: String,
    pub hierarchical: String,
    pub filter_speckle: Option<u32>,
    pub corner_threshold: Option<u32>,
    pub color_precision: Option<u32>,
    pub gradient_step: Option<u32>,
    pub mode: String,
    pub path_precision: Option<u32>,
    pub preset: Option<String>,
    pub segment_length: Option<u32>,
    pub splice_threshold: Option<String>,
}

/// The mathematical content of a [`ConvertOptions`].
pub struct ConvertOptionsView {
    pub color_mode: Seq<char>,
    pub hierarchical: Seq<char>,
    pub filter_speckle: Option<u32>,
    pub corner_threshold: Option<u32>,
    pub color_precision: Option<u32>,
    pub gradient_step: Option<u32>,
    pub mode: Seq<char>,
    pub path_precision: Option<u32>,
    pub preset: Option<Seq<char>>,
    pub segment_length: Option<u32>,
    pub splice_threshold: Option<Seq<char>>,
}

/// The mathematical content of a [`ConversionOptions`]: every field but the
/// preset holds a concrete value.
pub struct ConversionOptionsView {
    pub color_mode: Seq<char>,
    pub hierarchical: Seq<char>,
    pub filter_speckle: u32,
    pub corner_threshold: u32,
    pub color_precision: u32,
    pub gradient_step: u32,
    pub mode: Seq<char>,
    pub path_precision: u32,
    pub preset: Option<Seq<char>>,
    pub segment_length: u32,
    pub splice_threshold: Seq<char>,
}

/// The value of a numeric field: what was submitted, else the default.
pub open spec fn number_or(submitted: Option<u32>, default: u32) -> u32 {
    match submitted {
        Some(n) => n,
        None => default,
    }
}

/// The parameter set in which every field has its documented default.
pub open spec fn default_options() -> ConversionOptionsView {
    ConversionOptionsView {
        color_mode: "color"@,
        hierarchical: "stacked"@,
        filter_speckle: 2,
        corner_threshold: 60,
        color_precision: 8,
        gradient_step: 0,
        mode: "spline"@,
        path_precision: 1,
        preset: None,
        segment_length: 8,
        splice_threshold: "2.5"@,
    }
}

impl ConvertOptionsView {
    /// A document is acceptable when its splice threshold, if it names
    /// one, is a plain non-negative decimal number.
    pub open spec fn acceptable(self) -> bool {
        self.splice_threshold matches Some(t) ==> is_decimal(t)
    }

    /// The parameter set the document stands for: each field it names,
    /// and the default for each it leaves out.
    pub open spec fn resolved(self) -> ConversionOptionsView {
        ConversionOptionsView {
            color_mode: self.color_mode,
            hierarchical: self.hierarchical,
            filter_speckle: number_or(self.filter_speckle, 2),
            corner_threshold: number_or(self.corner_threshold, 60),
            color_precision: number_or(self.color_precision, 8),
            gradient_step: number_or(self.gradient_step, 0),
            mode: self.mode,
            path_precision: number_or(self.path_precision, 1),
            preset: self.preset,
            segment_length: number_or(self.segment_length, 8),
            splice_threshold: match self.splice_threshold {
                Some(t) => t,
                None => "2.5"@,
            },
        }
    }
}

impl ConversionOptionsView {
    /// The constraint on a resolved parameter set: the splice threshold is
    /// a plain non-negative decimal number.
    pub open spec fn wf(self) -> bool {
        is_decimal(self.splice_threshold)
    }
}

/// The parameter set a request runs with: the one its document stands for,
/// or the defaults when it submitted no document, one that could not be
/// read, or one that is not acceptable.
pub open spec fn resolved_or_default(document: Option<ConvertOptionsView>) -> ConversionOptionsView {
    match document {
        Some(d) => if d.acceptable() {
            d.resolved()
        } else {
            default_options()
        },
        None => default_options(),
    }
}

impl View for ConvertOptions {
    type V = ConvertOptionsView;

    open spec fn view(&self) -> ConvertOptionsView {
        ConvertOptionsView {
            color_mode: self.color_mode@,
            hierarchical: self.hierarchical@,
            filter_speckle: self.filter_speckle,
            corner_threshold: self.corner_threshold,
            color_precision: self.color_precision,
            gradient_step: self.gradient_step,
            mode: self.mode@,
            path_precision: self.path_precision,
            preset: text_of(self.preset),
            segment_length: self.segment_length,
            splice_threshold: text_of(self.splice_threshold),
        }
    }
}

impl Default for ConvertOptions {
    /// The document that names nothing: default vocabulary, no number, no
    /// preset.
    fn default() -> (document: ConvertOptions)
        ensures
            document@.resolved() == default_options(),
            document@.acceptable(),
            document@.color_mode == "color"@,
            document@.hierarchical == "stacked"@,
            document@.mode == "spline"@,
            document@.filter_speckle is None,
            document@.corner_threshold is None,
            document@.color_precision is None,
            document@.gradient_step is None,
            document@.path_precision is None,
            document@.preset is None,
            document@.segment_length is None,
            document@.splice_threshold is None,
    {
        ConvertOptions {
            color_mode: default_color_mode(),
            hierarchical: default_hierarchical(),
            filter_speckle: None,
            corner_threshold: None,
            color_precision: None,
            gradient_step: None,
            mode: default_mode(),
            path_precision: None,
            preset: None,
            segment_length: None,
            splice_threshold: None,
        }
    }
}

/// The resolved, fully defaulted parameter set passed to the tool. It is
/// built once per request and not changed afterwards.
#[derive(Debug)]
pub struct ConversionOptions {
    color_mode: String,
    hierarchical: String,
    filter_speckle: u32,
    corner_threshold: u32,
    color_precision: u32,
    gradient_step: u32,
    mode: String,
    path_precision: u32,
    preset: Option<String>,
    segment_length: u32,
    splice_threshold: String,
}

impl View for ConversionOptions {
    type V = ConversionOptionsView;

    closed spec fn view(&self) -> ConversionOptionsView {
        ConversionOptionsView {
            color_mode: self.color_mode@,
            hierarchical: self.hierarchical@,
            filter_speckle: self.filter_speckle,
            corner_threshold: self.corner_threshold,
            color_precision: self.color_precision,
            gradient_step: self.gradient_step,
            mode: self.mode@,
            path_precision: self.path_precision,
            preset: text_of(self.preset),
            segment_length: self.segment_length,
            splice_threshold: self.splice_threshold@,
        }
    }
}

fn number_or_default(submitted: Option<u32>, default: u32) -> (value: u32)
    ensures
        value == number_or(submitted, default),
{
    match submitted {
        Some(n) => n,
        None => default,
    }
}

impl ConversionOptions {
    #[verifier::type_invariant]
    spec fn threshold_is_decimal(self) -> bool {
        is_decimal(self.splice_threshold@)
    }

    /// The color mode.
    pub fn color_mode(&self) -> (value: &str)
        ensures
            value@ == self@.color_mode,
    {
        self.color_mode.as_str()
    }

    /// The layering of the shapes.
    pub fn hierarchical(&self) -> (value: &str)
        ensures
            value@ == self@.hierarchical,
    {
        self.hierarchical.as_str()
    }

    /// The speckle filter.
    pub fn filter_speckle(&self) -> (value: u32)
        ensures
            value == self@.filter_speckle,
    {
        self.filter_speckle
    }

    /// The corner threshold.
    pub fn corner_threshold(&self) -> (value: u32)
        ensures
            value == self@.corner_threshold,
    {
        self.corner_threshold
    }

    /// The color precision.
    pub fn color_precision(&self) -> (value: u32)
        ensures
            value == self@.color_precision,
    {
        self.color_precision
    }

    /// The gradient step.
    pub fn gradient_step(&self) -> (value: u32)
        ensures
            value == self@.gradient_step,
    {
        self.gradient_step
    }

    /// The curve fitting mode.
    pub fn mode(&self) -> (value: &str)
        ensures
            value@ == self@.mode,
    {
        self.mode.as_str()
    }

    /// The path precision.
    pub fn path_precision(&self) -> (value: u32)
        ensures
            value == self@.path_precision,
    {
        self.path_precision
    }

    /// The preset, if the request named one.
    pub fn preset(&self) -> (value: Option<&str>)
        ensures
            value is Some <==> self@.preset is Some,
            value matches Some(p) ==> self@.preset == Some(p@),
    {
        match &self.preset {
            Some(p) => Some(p.as_str()),
            None => None,
        }
    }

    /// The segment length.
    pub fn segment_length(&self) -> (value: u32)
        ensures
            value == self@.segment_length,
    {
        self.segment_length
    }

    /// The splice threshold, as decimal text.
    pub fn splice_threshold(&self) -> (value: &str)
        ensures
            value@ == self@.splice_threshold,
            is_decimal(value@),
    {
        proof {
            use_type_invariant(self);
        }
        self.splice_threshold.as_str()
    }

    /// Resolves a submitted document: each field it names is kept, each it
    /// leaves out takes its default. A document with an unacceptable
    /// splice threshold resolves to nothing.
    pub fn resolve(document: ConvertOptions) -> (resolved: Option<ConversionOptions>)
        ensures
            resolved is Some <==> document@.acceptable(),
            resolved matches Some(o) ==> o@ == document@.resolved() && o@.wf(),
    {
        let splice_threshold = match document.splice_threshold {
            Some(t) => {
                if !is_decimal_text(t.as_str()) {
                    return None;
                }
                t
            },
            None => default_splice_threshold(),
        };
        Some(
            ConversionOptions {
                color_mode: document.color_mode,
                hierarchical: document.hierarchical,
                filter_speckle: number_or_default(document.filter_speckle, DEFAULT_FILTER_SPECKLE),
                corner_threshold: number_or_default(
                    document.corner_threshold,
                    DEFAULT_CORNER_THRESHOLD,
                ),
                color_precision: number_or_default(
                    document.color_precision,
                    DEFAULT_COLOR_PRECISION,
                ),
                gradient_step: number_or_default(document.gradient_step, DEFAULT_GRADIENT_STEP),
                mode: document.mode,
                path_precision: number_or_default(document.path_precision, DEFAULT_PATH_PRECISION),
                preset: document.preset,
                segment_length: number_or_default(document.segment_length, DEFAULT_SEGMENT_LENGTH),
                splice_threshold,
            },
        )
    }

    /// The parameter set a request runs with: the one its document stands
    /// for, or the defaults when there is no usable document.
    pub fn resolve_or_default(document: Option<ConvertOptions>) -> (resolved: ConversionOptions)
        ensures
            resolved@ == resolved_or_default(
                match document {
                    Some(d) => Some(d@),
                    None => None,
                },
            ),
            resolved@.wf(),
    {
        let resolved = match document {
            Some(d) => ConversionOptions::resolve(d),
            None => None,
        };
        match resolved {
            Some(o) => o,
            None => ConversionOptions::default(),
        }
    }
}

impl Default for ConversionOptions {
    /// The parameter set in which every field has its documented default.
    fn default() -> (options: ConversionOptions)
        ensures
            options@ == default_options(),
            options@.wf(),
    {
        ConversionOptions {
            color_mode: default_color_mode(),
            hierarchical: default_hierarchical(),
            filter_speckle: DEFAULT_FILTER_SPECKLE,
            corner_threshold: DEFAULT_CORNER_THRESHOLD,
            color_precision: DEFAULT_COLOR_PRECISION,
            gradient_step: DEFAULT_GRADIENT_STEP,
            mode: default_mode(),
            path_precision: DEFAULT_PATH_PRECISION,
            preset: None,
            segment_length: DEFAULT_SEGMENT_LENGTH,
            splice_threshold: default_splice_threshold(),
        }
    }
}

} // verus!
