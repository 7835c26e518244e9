//! The temporary workspace of one conversion: a fresh identifier and the
//! two file paths derived from it.

use vstd::prelude::*;
use vstd::string::*;

verus! {

/// Whether `c` is a digit of lower-case hexadecimal notation.
pub open spec fn is_lower_hex(c: char) -> bool {
    ('0' <= c && c <= '9') || ('a' <= c && c <= 'f')
}

/// Whether index `i` of an identifier holds a hyphen.
pub open spec fn is_hyphen_index(i: int) -> bool {
    i == 8 || i == 13 || i == 18 || i == 23
}

/// The shape of an identifier: 36 characters, hyphens after the 8th, 12th,
/// 16th and 20th hexadecimal digit, lower-case hexadecimal digits
/// elsewhere.
pub open spec fn is_identifier(s: Seq<char>) -> bool {
    &&& s.len() == 36
    &&& forall|i: int|
        0 <= i < 36 ==> if is_hyphen_index(i) {
            #[trigger] s[i] == '-'
        } else {
            is_lower_hex(s[i])
        }
}

/// The marks of a randomly drawn identifier: version digit `4`, and a
/// variant digit of `8`, `9`, `a` or `b`.
pub open spec fn is_random_identifier(s: Seq<char>) -> bool {
    &&& is_identifier(s)
    &&& s[14] == '4'
    &&& (s[19] == '8' || s[19] == '9' || s[19] == 'a' || s[19] == 'b')
}

/// Draws a fresh identifier.
///
/// Trusted: the body calls `uuid::Uuid::new_v4` and renders the value with
/// the `Display` impl of `uuid::Uuid`. The contract claims what holds of
/// every value drawn: `new_v4` fixes the version and variant bits, and
/// `Display` writes the lower-case hyphenated form. Which identifier comes
/// back is left open; two calls may differ. `new_v4` aborts if the operating
/// system cannot supply random bytes.
#[verifier::external_body]
pub(crate) fn fresh_identifier() -> (id: String)
    ensures
        is_random_identifier(id@),
{
    uuid::Uuid::new_v4().to_string()
}

/// The directory that holds the files of every conversion in flight.
pub open spec fn temp_dir() -> Seq<char> {
    "/tmp"@
}

/// The path of the staged input of the conversion with identifier `id`.
pub open spec fn input_path(id: Seq<char>, extension: Seq<char>) -> Seq<char> {
    "/tmp/input_"@ + id + "."@ + extension
}

/// The path at which the tool writes the result of the conversion with
/// identifier `id`.
pub open spec fn output_path(id: Seq<char>) -> Seq<char> {
    "/tmp/output_"@ + id + ".svg"@
}

/// The two files of one conversion.
#[derive(Debug)]
pub struct TempPaths {
    pub input: String,
    pub output: String,
}

/// The mathematical content of a [`TempPaths`].
pub struct TempPathsView {
    pub input: Seq<char>,
    pub output: Seq<char>,
}

impl View for TempPaths {
    type V = TempPathsView;

    open spec fn view(&self) -> TempPathsView {
        TempPathsView { input: self.input@, output: self.output@ }
    }
}

/// The paths of the conversion with identifier `id`, whose input has the
/// given extension.
pub open spec fn temp_paths(id: Seq<char>, extension: Seq<char>) -> TempPathsView {
    TempPathsView { input: input_path(id, extension), output: output_path(id) }
}

/// Whether `paths` are those of some conversion with a well-formed
/// identifier and the given extension.
pub open spec fn allocated(paths: TempPathsView, extension: Seq<char>) -> bool {
    exists|id: Seq<char>|
        is_random_identifier(id) && paths == #[trigger] temp_paths(id, extension)
}

/// The directory in which the files are placed.
pub fn temp_directory() -> (directory: String)
    ensures
        directory@ == temp_dir(),
{
    "/tmp".to_owned()
}

/// Derives the two paths of a conversion from its identifier.
pub fn paths_for(id: &str, extension: &str) -> (paths: TempPaths)
    ensures
        paths@ == temp_paths(id@, extension@),
{
    let mut input = "/tmp/input_".to_owned();
    input.append(id);
    input.append(".");
    input.append(extension);
    let mut output = "/tmp/output_".to_owned();
    output.append(id);
    output.append(".svg");
    TempPaths { input, output }
}

/// Reserves the workspace of one conversion: draws a fresh identifier and
/// derives the two paths from it. No file is touched.
pub fn allocate(extension: &str) -> (paths: TempPaths)
    ensures
        allocated(paths@, extension@),
{
    let id = fresh_identifier();
    paths_for(id.as_str(), extension)
}

/// Both paths of a conversion lie directly in the temporary directory,
/// under names that begin with `input_` and `output_`.
pub proof fn lemma_paths_in_temp_dir(id: Seq<char>, extension: Seq<char>)
    ensures
        input_path(id, extension) == temp_dir() + "/input_"@ + id + "."@ + extension,
        output_path(id) == temp_dir() + "/output_"@ + id + ".svg"@,
{
    reveal_strlit("/tmp");
    reveal_strlit("/input_");
    reveal_strlit("/output_");
    reveal_strlit("/tmp/input_");
    reveal_strlit("/tmp/output_");
    assert("/tmp/input_"@ =~= temp_dir() + "/input_"@);
    assert("/tmp/output_"@ =~= temp_dir() + "/output_"@);
}

/// The identifier can be read back from an input path.
pub proof fn lemma_input_path_holds_id(id: Seq<char>, extension: Seq<char>)
    requires
        id.len() == 36,
    ensures
        input_path(id, extension).len() == 48 + extension.len(),
        input_path(id, extension).subrange(11, 47) == id,
        input_path(id, extension)[5] == 'i',
{
    reveal_strlit("/tmp/input_");
    reveal_strlit(".");
    assert(input_path(id, extension).subrange(11, 47) =~= id);
}

/// The identifier can be read back from an output path.
pub proof fn lemma_output_path_holds_id(id: Seq<char>)
    requires
        id.len() == 36,
    ensures
        output_path(id).len() == 52,
        output_path(id).subrange(12, 48) == id,
        output_path(id)[5] == 'o',
{
    reveal_strlit("/tmp/output_");
    reveal_strlit(".svg");
    assert(output_path(id).subrange(12, 48) =~= id);
}

/// Conversions with distinct identifiers share no file: their input paths
/// differ, their output paths differ, and the input of one is never the
/// output of the other, whatever the extensions.
pub proof fn lemma_distinct_identifiers_distinct_paths(
    id1: Seq<char>,
    extension1: Seq<char>,
    id2: Seq<char>,
    extension2: Seq<char>,
)
    requires
        is_identifier(id1),
        is_identifier(id2),
        id1 != id2,
    ensures
        input_path(id1, extension1) != input_path(id2, extension2),
        output_path(id1) != output_path(id2),
        input_path(id1, extension1) != output_path(id2),
        output_path(id1) != input_path(id2, extension2),
{
    lemma_input_path_holds_id(id1, extension1);
    lemma_input_path_holds_id(id2, extension2);
    lemma_output_path_holds_id(id1);
    lemma_output_path_holds_id(id2);
}

/// The input and the output of one conversion are different files.
pub proof fn lemma_input_is_not_output(id: Seq<char>, extension: Seq<char>)
    requires
        is_identifier(id),
    ensures
        input_path(id, extension) != output_path(id),
{
    lemma_input_path_holds_id(id, extension);
    lemma_output_path_holds_id(id);
}

} // verus!
