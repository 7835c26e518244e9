//! The invocation of the vectorization tool: its argument list and the
//! reading of its outcome.

use crate::options::{default_options, ConversionOptions, ConversionOptionsView};
use crate::text::{decimal_string, decimal_text, is_decimal};
use vstd::prelude::*;
use vstd::string::*;
use vstd::utf8::{decode_utf8, valid_utf8};

verus! {

/// The name under which the tool is started.
pub open spec fn tool_name() -> Seq<char> {
    "vtracer"@
}

/// The name under which the tool is started.
pub fn tool_program() -> (program: String)
    ensures
        program@ == tool_name(),
{
    "vtracer".to_owned()
}

/// The arguments that every invocation carries: one flag and one value for
/// the input, the output and each parameter but the preset, in this order.
pub open spec fn fixed_args(
    input: Seq<char>,
    output: Seq<char>,
    options: ConversionOptionsView,
) -> Seq<Seq<char>> {
    seq![
        "--input"@,
        input,
        "--output"@,
        output,
        "--colormode"@,
        options.color_mode,
        "--hierarchical"@,
        options.hierarchical,
        "--filter_speckle"@,
        decimal_text(options.filter_speckle as nat),
        "--corner_threshold"@,
        decimal_text(options.corner_threshold as nat),
        "--color_precision"@,
        decimal_text(options.color_precision as nat),
        "--gradient_step"@,
        decimal_text(options.gradient_step as nat),
        "--mode"@,
        options.mode,
        "--path_precision"@,
        decimal_text(options.path_precision as nat),
        "--segment_length"@,
        decimal_text(options.segment_length as nat),
        "--splice_threshold"@,
        options.splice_threshold,
    ]
}

/// The arguments that carry the preset: the flag and the value when the
/// parameter set names one, nothing otherwise.
pub open spec fn preset_args(preset: Option<Seq<char>>) -> Seq<Seq<char>> {
    match preset {
        Some(p) => seq!["--preset"@, p],
        None => Seq::empty(),
    }
}

/// The argument list of a conversion.
pub open spec fn conversion_args(
    input: Seq<char>,
    output: Seq<char>,
    options: ConversionOptionsView,
) -> Seq<Seq<char>> {
    fixed_args(input, output, options) + preset_args(options.preset)
}

fn push_flag(args: &mut Vec<String>, name: &str, value: String)
    ensures
        final(args).deep_view() == old(args).deep_view().push(name@).push(value@),
{
    args.push(name.to_owned());
    args.push(value);
    assert(args.deep_view() =~= old(args).deep_view().push(name@).push(value@));
}

/// Builds the argument list of a conversion from the two paths and the
/// resolved parameter set.
pub fn build_args(input_path: &str, output_path: &str, options: &ConversionOptions) -> (args: Vec<
    String,
>)
    ensures
        args.deep_view() == conversion_args(input_path@, output_path@, options@),
        is_decimal(args.deep_view()[23]),
{
    let mut args: Vec<String> = Vec::new();
    assert(args.deep_view() =~= Seq::<Seq<char>>::empty());
    push_flag(&mut args, "--input", input_path.to_owned());
    push_flag(&mut args, "--output", output_path.to_owned());
    push_flag(&mut args, "--colormode", options.color_mode().to_owned());
    push_flag(&mut args, "--hierarchical", options.hierarchical().to_owned());
    push_flag(&mut args, "--filter_speckle", decimal_string(options.filter_speckle()));
    push_flag(&mut args, "--corner_threshold", decimal_string(options.corner_threshold()));
    push_flag(&mut args, "--color_precision", decimal_string(options.color_precision()));
    push_flag(&mut args, "--gradient_step", decimal_string(options.gradient_step()));
    push_flag(&mut args, "--mode", options.mode().to_owned());
    push_flag(&mut args, "--path_precision", decimal_string(options.path_precision()));
    push_flag(&mut args, "--segment_length", decimal_string(options.segment_length()));
    push_flag(&mut args, "--splice_threshold", options.splice_threshold().to_owned());
    assert(args.deep_view() =~= fixed_args(input_path@, output_path@, options@));
    match options.preset() {
        Some(preset) => {
            push_flag(&mut args, "--preset", preset.to_owned());
        },
        None => {},
    }
    assert(args.deep_view() =~= conversion_args(input_path@, output_path@, options@));
    args
}

/// What `String::from_utf8_lossy` gives for `bytes`.
pub uninterp spec fn utf8_lossy(bytes: Seq<u8>) -> Seq<char>;

/// The text of a byte string that may not be valid UTF-8.
///
/// Trusted: the body calls `String::from_utf8_lossy` and takes the text out
/// of the result. The contract names the result and claims what the
/// documentation states of valid UTF-8: the text is the one those bytes
/// encode. Of other bytes it claims nothing; the function puts U+FFFD in
/// place of each invalid sequence.
#[verifier::external_body]
fn lossy_text(bytes: &[u8]) -> (text: String)
    ensures
        text@ == utf8_lossy(bytes@),
        valid_utf8(bytes@) ==> text@ == decode_utf8(bytes@),
{
    String::from_utf8_lossy(bytes).into_owned()
}

/// Why a conversion failed.
#[derive(Debug)]
pub enum ConversionError {
    /// The tool ran and reported a failure; the diagnostic is what it wrote
    /// to standard error.
    ToolFailed { diagnostic: String },
    /// The tool could not be started.
    LaunchFailed { detail: String },
    /// The tool reported success, but its output is missing or unreadable.
    OutputUnreadable { detail: String },
}

/// The mathematical content of a [`ConversionError`].
pub enum ConversionErrorView {
    ToolFailed { diagnostic: Seq<char> },
    LaunchFailed { detail: Seq<char> },
    OutputUnreadable { detail: Seq<char> },
}

impl View for ConversionError {
    type V = ConversionErrorView;

    open spec fn view(&self) -> ConversionErrorView {
        match self {
            ConversionError::ToolFailed { diagnostic } => ConversionErrorView::ToolFailed {
                diagnostic: diagnostic@,
            },
            ConversionError::LaunchFailed { detail } => ConversionErrorView::LaunchFailed {
                detail: detail@,
            },
            ConversionError::OutputUnreadable { detail } => ConversionErrorView::OutputUnreadable {
                detail: detail@,
            },
        }
    }
}

impl ConversionErrorView {
    /// The message of the error. That of a tool failure carries the whole
    /// diagnostic.
    pub open spec fn message(self) -> Seq<char> {
        match self {
            ConversionErrorView::ToolFailed { diagnostic } => "vtracer failed: "@ + diagnostic,
            ConversionErrorView::LaunchFailed { detail } => detail,
            ConversionErrorView::OutputUnreadable { detail } => detail,
        }
    }
}

impl ConversionError {
    /// The message of the error.
    pub fn message(&self) -> (message: String)
        ensures
            message@ == self@.message(),
    {
        match self {
            ConversionError::ToolFailed { diagnostic } => {
                let mut message = "vtracer failed: ".to_owned();
                message.append(diagnostic.as_str());
                message
            },
            ConversionError::LaunchFailed { detail } => detail.clone(),
            ConversionError::OutputUnreadable { detail } => detail.clone(),
        }
    }
}

/// What the exit of the tool means, given the text of its standard error:
/// nothing is wrong after a success, a failure carries the diagnostic.
pub open spec fn exit_outcome(success: bool, diagnostic: Seq<char>) -> Result<
    (),
    ConversionErrorView,
> {
    if success {
        Ok(())
    } else {
        Err(ConversionErrorView::ToolFailed { diagnostic })
    }
}

/// Reads the exit of the tool, given the text of its standard error.
pub fn judge_exit(success: bool, diagnostic: String) -> (outcome: Result<(), ConversionError>)
    ensures
        match outcome {
            Ok(_) => exit_outcome(success, diagnostic@) == Ok::<(), ConversionErrorView>(()),
            Err(e) => exit_outcome(success, diagnostic@) == Err::<(), ConversionErrorView>(e@),
        },
{
    if success {
        Ok(())
    } else {
        Err(ConversionError::ToolFailed { diagnostic })
    }
}

/// Reads the exit of the tool, given the bytes of its standard error.
pub fn read_exit(success: bool, stderr: &[u8]) -> (outcome: Result<(), ConversionError>)
    ensures
        match outcome {
            Ok(_) => exit_outcome(success, utf8_lossy(stderr@)) == Ok::<(), ConversionErrorView>(
                (),
            ),
            Err(e) => exit_outcome(success, utf8_lossy(stderr@)) == Err::<
                (),
                ConversionErrorView,
            >(e@),
        },
        !success && valid_utf8(stderr@) ==> (outcome matches Err(
            ConversionError::ToolFailed { diagnostic },
        ) && diagnostic@ == decode_utf8(stderr@)),
{
    if success {
        Ok(())
    } else {
        judge_exit(false, lossy_text(stderr))
    }
}

/// Whether index `i` of an argument list holds the flag `name`. Flags stand
/// at the even indices, each followed by its value.
pub open spec fn flag_at(args: Seq<Seq<char>>, i: int, name: Seq<char>) -> bool {
    0 <= i < args.len() && i % 2 == 0 && args[i] == name
}

/// The flags of the argument list, in the order in which they are passed.
pub open spec fn flag_names() -> Seq<Seq<char>> {
    seq![
        "--input"@,
        "--output"@,
        "--colormode"@,
        "--hierarchical"@,
        "--filter_speckle"@,
        "--corner_threshold"@,
        "--color_precision"@,
        "--gradient_step"@,
        "--mode"@,
        "--path_precision"@,
        "--segment_length"@,
        "--splice_threshold"@,
        "--preset"@,
    ]
}

/// No two flags share a name.
pub proof fn lemma_flag_names_distinct()
    ensures
        flag_names().len() == 13,
        forall|j: int, k: int| 0 <= j < k < 13 ==> flag_names()[j] != flag_names()[k],
{
    reveal_strlit("--input");
    reveal_strlit("--output");
    reveal_strlit("--colormode");
    reveal_strlit("--hierarchical");
    reveal_strlit("--filter_speckle");
    reveal_strlit("--corner_threshold");
    reveal_strlit("--color_precision");
    reveal_strlit("--gradient_step");
    reveal_strlit("--mode");
    reveal_strlit("--path_precision");
    reveal_strlit("--segment_length");
    reveal_strlit("--splice_threshold");
    reveal_strlit("--preset");
    let names = flag_names();
    assert(names[0].len() == 7);
    assert(names[1].len() == 8 && names[1][2] == 'o');
    assert(names[2].len() == 11);
    assert(names[3].len() == 14);
    assert(names[4].len() == 16 && names[4][2] == 'f');
    assert(names[5].len() == 18 && names[5][2] == 'c');
    assert(names[6].len() == 17);
    assert(names[7].len() == 15);
    assert(names[8].len() == 6);
    assert(names[9].len() == 16 && names[9][2] == 'p');
    assert(names[10].len() == 16 && names[10][2] == 's');
    assert(names[11].len() == 18 && names[11][2] == 's');
    assert(names[12].len() == 8 && names[12][2] == 'p');
}

/// Every argument list is made of pairs: the flag at index `2 * k` is the
/// `k`-th flag name. A list without preset has twelve pairs, one with a
/// preset thirteen.
pub proof fn lemma_args_are_pairs(
    input: Seq<char>,
    output: Seq<char>,
    options: ConversionOptionsView,
)
    ensures
        conversion_args(input, output, options).len() == if options.preset is Some {
            26int
        } else {
            24int
        },
        forall|k: int|
            0 <= 2 * k < conversion_args(input, output, options).len() ==> conversion_args(
                input,
                output,
                options,
            )[2 * k] == #[trigger] flag_names()[k],
{
    let args = conversion_args(input, output, options);
    assert forall|k: int| 0 <= 2 * k < args.len() implies args[2 * k] == #[trigger] flag_names()[k] by {
        if k == 0 {
        } else if k == 1 {
        } else if k == 2 {
        } else if k == 3 {
        } else if k == 4 {
        } else if k == 5 {
        } else if k == 6 {
        } else if k == 7 {
        } else if k == 8 {
        } else if k == 9 {
        } else if k == 10 {
        } else if k == 11 {
        } else {
            assert(k == 12);
        }
    }
}

/// A parameter set without preset yields no `--preset` flag; one with a
/// preset yields exactly one, followed by the preset itself.
pub proof fn lemma_preset_flag(input: Seq<char>, output: Seq<char>, options: ConversionOptionsView)
    ensures
        options.preset is None ==> forall|i: int|
            !flag_at(conversion_args(input, output, options), i, "--preset"@),
        options.preset matches Some(p) ==> {
            let args = conversion_args(input, output, options);
            &&& flag_at(args, 24, "--preset"@)
            &&& args[25] == p
            &&& forall|i: int| flag_at(args, i, "--preset"@) ==> i == 24
        },
{
    let args = conversion_args(input, output, options);
    lemma_flag_names_distinct();
    lemma_args_are_pairs(input, output, options);
    assert(flag_names()[12] == "--preset"@);
    assert forall|i: int| flag_at(args, i, "--preset"@) implies i == 24 && options.preset is Some by {
        let k = i / 2;
        assert(i == 2 * k);
        assert(args[2 * k] == flag_names()[k]);
    }
}

/// Each parameter is passed exactly once: the flag at an even index of an
/// argument list occurs at no other even index.
pub proof fn lemma_each_flag_once(input: Seq<char>, output: Seq<char>, options: ConversionOptionsView)
    ensures
        forall|i: int, j: int|
            #![trigger conversion_args(input, output, options)[i], conversion_args(input, output, options)[j]]
            0 <= i < j < conversion_args(input, output, options).len() && i % 2 == 0 && j % 2 == 0
                ==> conversion_args(input, output, options)[i] != conversion_args(
                input,
                output,
                options,
            )[j],
{
    let args = conversion_args(input, output, options);
    lemma_flag_names_distinct();
    lemma_args_are_pairs(input, output, options);
    assert forall|i: int, j: int|
        0 <= i < j < args.len() && i % 2 == 0 && j % 2 == 0 implies #[trigger] args[i]
        != #[trigger] args[j] by {
        let a = i / 2;
        let b = j / 2;
        assert(i == 2 * a && j == 2 * b);
        assert(args[2 * a] == flag_names()[a]);
        assert(args[2 * b] == flag_names()[b]);
    }
}

/// The argument list of a request that names no parameter carries every
/// documented default.
pub proof fn lemma_default_args(input: Seq<char>, output: Seq<char>)
    ensures
        conversion_args(input, output, default_options()) == seq![
            "--input"@,
            input,
            "--output"@,
            output,
            "--colormode"@,
            "color"@,
            "--hierarchical"@,
            "stacked"@,
            "--filter_speckle"@,
            "2"@,
            "--corner_threshold"@,
            "60"@,
            "--color_precision"@,
            "8"@,
            "--gradient_step"@,
            "0"@,
            "--mode"@,
            "spline"@,
            "--path_precision"@,
            "1"@,
            "--segment_length"@,
            "8"@,
            "--splice_threshold"@,
            "2.5"@,
        ],
{
    reveal_strlit("0");
    reveal_strlit("1");
    reveal_strlit("2");
    reveal_strlit("8");
    reveal_strlit("60");
    assert(decimal_text(0) =~= "0"@);
    assert(decimal_text(1) =~= "1"@);
    assert(decimal_text(2) =~= "2"@);
    assert(decimal_text(8) =~= "8"@);
    assert(decimal_text(6) =~= seq!['6']);
    assert(decimal_text(60) =~= "60"@);
    assert(preset_args(default_options().preset) =~= Seq::empty());
    assert(conversion_args(input, output, default_options()) =~= fixed_args(
        input,
        output,
        default_options(),
    ));
}

} // verus!
