//! The ingestion of a multipart upload: which fields count, what each one
//! changes, and whether the upload may be converted.

use crate::options::{
    default_options, text_of, ConversionOptions, ConversionOptionsView, ConvertOptions,
    ConvertOptionsView,
};
use crate::response::{invalid_upload, Response, ResponseView};
use crate::text::str_equal;
use vstd::prelude::*;
use vstd::string::*;

verus! {

/// The largest image, in bytes, that is converted.
pub const MAX_IMAGE_BYTES: usize = 10_485_760;

/// What a field of the upload is, judged by its name.
#[derive(Debug, Clone, Copy, PartialEq, Eq)]
pub enum FieldKind {
    /// The options document.
    Options,
    /// The image to convert.
    Image,
    /// A field that the service ignores.
    Other,
}

/// The kind of the field with the given name. A field without name counts
/// as one with the empty name.
pub open spec fn field_kind(name: Option<Seq<char>>) -> FieldKind {
    match name {
        Some(n) => if n == "options"@ {
            FieldKind::Options
        } else if n == "image"@ {
            FieldKind::Image
        } else {
            FieldKind::Other
        },
        None => FieldKind::Other,
    }
}

/// Tells which kind of field a name stands for.
pub fn classify_field(name: Option<&str>) -> (kind: FieldKind)
    ensures
        kind == field_kind(
            match name {
                Some(n) => Some(n@),
                None => None,
            },
        ),
{
    match name {
        Some(n) => {
            if str_equal(n, "options") {
                FieldKind::Options
            } else if str_equal(n, "image") {
                FieldKind::Image
            } else {
                FieldKind::Other
            }
        },
        None => FieldKind::Other,
    }
}

/// What `std::path::Path::extension` gives for the path written as
/// `filename`, on the platform the library is built for.
pub uninterp spec fn path_extension(filename: Seq<char>) -> Option<Seq<char>>;

/// What `str::to_lowercase` gives for `text`.
pub uninterp spec fn lowercase(text: Seq<char>) -> Seq<char>;

/// The extension of a file name as the standard library reads it.
///
/// Trusted: the body calls `std::path::Path::extension` on the name and
/// turns the result back into a string, which cannot fail for a name that
/// came as a string. The contract only names the result.
#[verifier::external_body]
fn extension_of_path(filename: &str) -> (extension: Option<String>)
    ensures
        text_of(extension) == path_extension(filename@),
{
    let extension = std::path::Path::new(filename).extension()?;
    Some(extension.to_str()?.to_owned())
}

/// The lower-case form of a text.
///
/// Trusted: the body calls `str::to_lowercase`. The contract only names the
/// result.
#[verifier::external_body]
fn lowercase_text(text: &str) -> (lower: String)
    ensures
        lower@ == lowercase(text@),
{
    text.to_lowercase()
}

/// The extension under which an image with the given file name is staged:
/// the extension of the name in lower case, if the name has one.
pub open spec fn derived_extension(filename: Seq<char>) -> Option<Seq<char>> {
    match path_extension(filename) {
        Some(e) => Some(lowercase(e)),
        None => None,
    }
}

/// Puts an extension, as read from a file name, into the form under which
/// an image is staged.
pub fn normalize_extension(extension: Option<String>) -> (normal: Option<String>)
    ensures
        text_of(normal) == match text_of(extension) {
            Some(e) => Some(lowercase(e)),
            None => None,
        },
{
    match extension {
        Some(e) => Some(lowercase_text(e.as_str())),
        None => None,
    }
}

/// Derives the extension of an image from the file name it was sent with.
pub fn derive_extension(filename: &str) -> (extension: Option<String>)
    ensures
        text_of(extension) == derived_extension(filename@),
{
    normalize_extension(extension_of_path(filename))
}

/// One field of a multipart upload, as far as the service reads it.
#[derive(Debug)]
pub enum Field {
    /// A field named `options`. The document is absent when the text of
    /// the field could not be read or is no options document.
    Options { document: Option<ConvertOptions> },
    /// A field named `image` whose bytes were read.
    Image { payload: Vec<u8>, filename: Option<String> },
    /// A field named `image` whose bytes could not be read.
    UnreadableImage,
    /// A field of any other name.
    Other,
}

/// The mathematical content of a [`Field`].
pub enum FieldView {
    Options { document: Option<ConvertOptionsView> },
    Image { payload: Seq<u8>, filename: Option<Seq<char>> },
    UnreadableImage,
    Other,
}

impl View for Field {
    type V = FieldView;

    open spec fn view(&self) -> FieldView {
        match self {
            Field::Options { document } => FieldView::Options {
                document: match document {
                    Some(d) => Some(d@),
                    None => None,
                },
            },
            Field::Image { payload, filename } => FieldView::Image {
                payload: payload@,
                filename: text_of(*filename),
            },
            Field::UnreadableImage => FieldView::UnreadableImage,
            Field::Other => FieldView::Other,
        }
    }
}

/// What has been gathered from the fields read so far.
#[derive(Debug)]
pub struct Upload {
    pub options: ConversionOptions,
    pub image: Option<Vec<u8>>,
    pub extension: Option<String>,
}

/// The mathematical content of an [`Upload`].
pub struct UploadView {
    pub options: ConversionOptionsView,
    pub image: Option<Seq<u8>>,
    pub extension: Option<Seq<char>>,
}

impl View for Upload {
    type V = UploadView;

    open spec fn view(&self) -> UploadView {
        UploadView {
            options: self.options@,
            image: match self.image {
                Some(bytes) => Some(bytes@),
                None => None,
            },
            extension: text_of(self.extension),
        }
    }
}

/// The upload before any field is read: default options, no image.
pub open spec fn empty_upload() -> UploadView {
    UploadView { options: default_options(), image: None, extension: None }
}

/// The options after a field named `options`: those of its document when
/// it is usable, the ones before otherwise.
pub open spec fn options_after(
    before: ConversionOptionsView,
    document: Option<ConvertOptionsView>,
) -> ConversionOptionsView {
    match document {
        Some(d) => if d.acceptable() {
            d.resolved()
        } else {
            before
        },
        None => before,
    }
}

/// The extension after an image field: the one derived from its file name
/// when it has a name, the one before otherwise.
pub open spec fn extension_after(before: Option<Seq<char>>, filename: Option<Seq<char>>) -> Option<
    Seq<char>,
> {
    match filename {
        Some(f) => derived_extension(f),
        None => before,
    }
}

/// The effect of one field: the upload after it, or the answer that ends
/// the request.
pub open spec fn accepted(upload: UploadView, field: FieldView) -> Result<UploadView, ResponseView> {
    match field {
        FieldView::Options { document } => Ok(
            UploadView { options: options_after(upload.options, document), ..upload },
        ),
        FieldView::Image { payload, filename } => Ok(
            UploadView {
                image: Some(payload),
                extension: extension_after(upload.extension, filename),
                ..upload
            },
        ),
        FieldView::UnreadableImage => Err(invalid_upload()),
        FieldView::Other => Ok(upload),
    }
}

/// The effect of all fields of a request, read in order: the upload that
/// they leave, or the answer of the first field that ends the request.
pub open spec fn received(fields: Seq<FieldView>) -> Result<UploadView, ResponseView>
    decreases fields.len(),
{
    if fields.len() == 0 {
        Ok(empty_upload())
    } else {
        match received(fields.drop_last()) {
            Ok(upload) => accepted(upload, fields.last()),
            Err(response) => Err(response),
        }
    }
}

/// Whether a field is an options field that carries no usable document:
/// its text could not be read, is no options document, or holds a splice
/// threshold that is no plain decimal number.
pub open spec fn unusable_options(field: FieldView) -> bool {
    field matches FieldView::Options { document } && (document matches Some(d) ==> !d.acceptable())
}

impl Upload {
    /// The upload before any field is read.
    pub fn new() -> (upload: Upload)
        ensures
            upload@ == empty_upload(),
    {
        Upload { options: ConversionOptions::default(), image: None, extension: None }
    }

    /// Takes in a field named `options`.
    pub fn accept_options(self, document: Option<ConvertOptions>) -> (upload: Upload)
        ensures
            upload@ == (UploadView {
                options: options_after(
                    self@.options,
                    match document {
                        Some(d) => Some(d@),
                        None => None,
                    },
                ),
                ..self@
            }),
    {
        let resolved = match document {
            Some(d) => ConversionOptions::resolve(d),
            None => None,
        };
        match resolved {
            Some(options) => Upload { options, image: self.image, extension: self.extension },
            None => self,
        }
    }

    /// Takes in the bytes of a field named `image` and the extension
    /// derived from its file name. `extension` is absent when the field
    /// has no file name; the extension gathered so far then stays.
    pub fn accept_image(self, payload: Vec<u8>, extension: Option<Option<String>>) -> (upload:
        Upload)
        ensures
            upload@ == (UploadView {
                image: Some(payload@),
                extension: match extension {
                    Some(e) => text_of(e),
                    None => self@.extension,
                },
                ..self@
            }),
    {
        let extension = match extension {
            Some(e) => e,
            None => self.extension,
        };
        Upload { options: self.options, image: Some(payload), extension }
    }

    /// Takes in one field: the upload after it, or the answer that ends the
    /// request.
    pub fn accept(self, field: Field) -> (outcome: Result<Upload, Response>)
        ensures
            match outcome {
                Ok(upload) => accepted(self@, field@) == Ok::<UploadView, ResponseView>(upload@),
                Err(response) => accepted(self@, field@) == Err::<UploadView, ResponseView>(
                    response@,
                ),
            },
    {
        match field {
            Field::Options { document } => Ok(self.accept_options(document)),
            Field::Image { payload, filename } => {
                let extension = match filename {
                    Some(name) => Some(derive_extension(name.as_str())),
                    None => None,
                };
                Ok(self.accept_image(payload, extension))
            },
            Field::UnreadableImage => Err(Response::invalid_upload()),
            Field::Other => Ok(self),
        }
    }
}

/// An options field without usable document changes nothing.
pub proof fn lemma_unusable_options_change_nothing(upload: UploadView, field: FieldView)
    requires
        unusable_options(field),
    ensures
        accepted(upload, field) == Ok::<UploadView, ResponseView>(upload),
{
}

/// A request with an options field that carries no usable document
/// proceeds as the same request without that field.
pub proof fn lemma_unusable_options_as_absent(fields: Seq<FieldView>, i: int)
    requires
        0 <= i < fields.len(),
        unusable_options(fields[i]),
    ensures
        received(fields) == received(fields.remove(i)),
    decreases fields.len(),
{
    if i == fields.len() - 1 {
        assert(fields.remove(i) =~= fields.drop_last());
        match received(fields.drop_last()) {
            Ok(upload) => {
                lemma_unusable_options_change_nothing(upload, fields.last());
            },
            Err(_) => {},
        }
    } else {
        lemma_unusable_options_as_absent(fields.drop_last(), i);
        assert(fields.remove(i).drop_last() =~= fields.drop_last().remove(i));
        assert(fields.remove(i).last() == fields.last());
    }
}

/// Whether no field of a request carries a usable options document.
pub open spec fn no_usable_options(fields: Seq<FieldView>) -> bool {
    forall|i: int|
        0 <= i < fields.len() && #[trigger] fields[i] is Options ==> unusable_options(fields[i])
}

/// A request without usable options document runs with every documented
/// default.
pub proof fn lemma_defaults_without_usable_options(fields: Seq<FieldView>)
    requires
        no_usable_options(fields),
    ensures
        received(fields) matches Ok(upload) ==> upload.options == default_options(),
    decreases fields.len(),
{
    if fields.len() > 0 {
        let front = fields.drop_last();
        assert forall|i: int| 0 <= i < front.len() && #[trigger] front[i] is Options implies unusable_options(
            front[i],
        ) by {
            assert(front[i] == fields[i]);
        }
        lemma_defaults_without_usable_options(front);
        assert(fields.last() == fields[fields.len() - 1]);
    }
}

/// The options of a request are those of its last usable document.
pub proof fn lemma_last_usable_options_count(fields: Seq<FieldView>, i: int)
    requires
        0 <= i < fields.len(),
        fields[i] matches FieldView::Options { document: Some(d) } && d.acceptable(),
        forall|j: int| i < j < fields.len() && #[trigger] fields[j] is Options ==> unusable_options(
            fields[j],
        ),
    ensures
        received(fields) matches Ok(upload) ==> upload.options == (fields[i]->document->0).resolved(),
    decreases fields.len(),
{
    let front = fields.drop_last();
    if i == fields.len() - 1 {
    } else {
        assert(front[i] == fields[i]);
        assert forall|j: int| i < j < front.len() && #[trigger] front[j] is Options implies unusable_options(
            front[j],
        ) by {
            assert(front[j] == fields[j]);
        }
        lemma_last_usable_options_count(front, i);
        assert(fields.last() == fields[fields.len() - 1]);
    }
}

/// Whether every image field of a request could be read.
pub open spec fn all_images_readable(fields: Seq<FieldView>) -> bool {
    forall|i: int| 0 <= i < fields.len() ==> !(#[trigger] fields[i] is UnreadableImage)
}

/// A request ends while its fields are read exactly if one of its image
/// fields could not be read; the answer is then a client error.
pub proof fn lemma_unreadable_image_ends_request(fields: Seq<FieldView>)
    ensures
        received(fields) is Ok <==> all_images_readable(fields),
        received(fields) matches Err(response) ==> response == invalid_upload(),
        invalid_upload().status == 400,
    decreases fields.len(),
{
    if fields.len() > 0 {
        let front = fields.drop_last();
        lemma_unreadable_image_ends_request(front);
        if all_images_readable(fields) {
            assert forall|i: int| 0 <= i < front.len() implies !(#[trigger] front[i]
                is UnreadableImage) by {
                assert(front[i] == fields[i]);
            }
            assert(!(fields[fields.len() - 1] is UnreadableImage));
        } else {
            let bad = choose|i: int| 0 <= i < fields.len() && #[trigger] fields[i] is UnreadableImage;
            if bad < front.len() {
                assert(front[bad] == fields[bad]);
            }
        }
        if all_images_readable(front) && !(fields.last() is UnreadableImage) {
            assert forall|i: int| 0 <= i < fields.len() implies !(#[trigger] fields[i]
                is UnreadableImage) by {
                if i < front.len() {
                    assert(front[i] == fields[i]);
                }
            }
        }
    }
}

/// A request without image field leaves an upload without image.
pub proof fn lemma_no_image_field_no_image(fields: Seq<FieldView>)
    requires
        forall|i: int| 0 <= i < fields.len() ==> !(#[trigger] fields[i] is Image),
    ensures
        received(fields) matches Ok(upload) ==> upload.image is None,
    decreases fields.len(),
{
    if fields.len() > 0 {
        let front = fields.drop_last();
        assert forall|i: int| 0 <= i < front.len() implies !(#[trigger] front[i] is Image) by {
            assert(front[i] == fields[i]);
        }
        lemma_no_image_field_no_image(front);
        assert(!(fields[fields.len() - 1] is Image));
    }
}

/// The image of a request is the payload of its last image field.
pub proof fn lemma_last_image_counts(fields: Seq<FieldView>, i: int)
    requires
        0 <= i < fields.len(),
        fields[i] is Image,
        forall|j: int| i < j < fields.len() ==> !(#[trigger] fields[j] is Image),
    ensures
        received(fields) matches Ok(upload) ==> upload.image == Some(fields[i]->payload),
    decreases fields.len(),
{
    let front = fields.drop_last();
    if i == fields.len() - 1 {
    } else {
        assert(front[i] == fields[i]);
        assert forall|j: int| i < j < front.len() implies !(#[trigger] front[j] is Image) by {
            assert(front[j] == fields[j]);
        }
        lemma_last_image_counts(front, i);
        assert(!(fields[fields.len() - 1] is Image));
    }
}

} // verus!
