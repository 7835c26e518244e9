//! The unit of work of one request: the admission of an upload and the job
//! that an admitted upload becomes.

use crate::options::{ConversionOptions, ConversionOptionsView};
use crate::response::{image_too_large, missing_image, Response, ResponseView};
use crate::upload::{
    all_images_readable, lemma_last_image_counts, lemma_no_image_field_no_image,
    lemma_unreadable_image_ends_request, received, FieldView, Upload, UploadView, MAX_IMAGE_BYTES,
};
use crate::workspace::{
    fresh_identifier, is_identifier, is_random_identifier, paths_for, temp_paths, TempPaths,
    TempPathsView,
};
use vstd::prelude::*;
use vstd::string::*;

verus! {

/// The extension under which an image without usable file name is staged.
pub open spec fn fallback_extension() -> Seq<char> {
    "png"@
}

/// The extension under which the image of an upload is staged.
pub open spec fn staged_extension(extension: Option<Seq<char>>) -> Seq<char> {
    match extension {
        Some(e) => e,
        None => fallback_extension(),
    }
}

/// The answer that turns an upload away, if it is turned away: an upload
/// without image, or with an image above the ceiling.
pub open spec fn rejection(upload: UploadView) -> Option<ResponseView> {
    match upload.image {
        None => Some(missing_image()),
        Some(bytes) => if bytes.len() > MAX_IMAGE_BYTES {
            Some(image_too_large())
        } else {
            None
        },
    }
}

/// One conversion: the image, the extension it is staged under, the
/// identifier that names its files, and the resolved parameters.
#[derive(Debug)]
pub struct ConversionJob {
    pub identifier: String,
    pub extension: String,
    pub image: Vec<u8>,
    pub options: ConversionOptions,
}

/// The mathematical content of a [`ConversionJob`].
pub struct ConversionJobView {
    pub identifier: Seq<char>,
    pub extension: Seq<char>,
    pub image: Seq<u8>,
    pub options: ConversionOptionsView,
}

impl View for ConversionJob {
    type V = ConversionJobView;

    open spec fn view(&self) -> ConversionJobView {
        ConversionJobView {
            identifier: self.identifier@,
            extension: self.extension@,
            image: self.image@,
            options: self.options@,
        }
    }
}

impl ConversionJobView {
    /// A job is well formed when its identifier has the shape of one.
    pub open spec fn wf(self) -> bool {
        is_identifier(self.identifier)
    }

    /// The two files of the job.
    pub open spec fn paths(self) -> TempPathsView {
        temp_paths(self.identifier, self.extension)
    }
}

/// The job that an upload with an image becomes under the given identifier.
pub open spec fn job_of(upload: UploadView, identifier: Seq<char>) -> ConversionJobView
    recommends
        upload.image is Some,
{
    ConversionJobView {
        identifier,
        extension: staged_extension(upload.extension),
        image: upload.image->0,
        options: upload.options,
    }
}

/// What the admission of an upload under a given identifier yields: the
/// answer that turns it away, or its job.
pub open spec fn admission(upload: UploadView, identifier: Seq<char>) -> Result<
    ConversionJobView,
    ResponseView,
> {
    match rejection(upload) {
        Some(response) => Err(response),
        None => Ok(job_of(upload, identifier)),
    }
}

impl ConversionJob {
    /// The two files of the job.
    pub fn paths(&self) -> (paths: TempPaths)
        ensures
            paths@ == self@.paths(),
    {
        paths_for(self.identifier.as_str(), self.extension.as_str())
    }
}

/// Judges the upload of a finished request: the answer that turns it away,
/// if it has no image or one above the ceiling.
pub fn validate(upload: &Upload) -> (answer: Option<Response>)
    ensures
        match answer {
            Some(response) => rejection(upload@) == Some(response@),
            None => rejection(upload@) is None,
        },
{
    match &upload.image {
        None => Some(Response::missing_image()),
        Some(bytes) => {
            if bytes.len() > MAX_IMAGE_BYTES {
                Some(Response::image_too_large())
            } else {
                None
            }
        },
    }
}

/// Admits an upload under the given identifier: the job it becomes, or the
/// answer that turns it away.
pub fn prepare_job_with(upload: Upload, identifier: String) -> (outcome: Result<ConversionJob, Response>)
    ensures
        match outcome {
            Ok(job) => admission(upload@, identifier@) == Ok::<ConversionJobView, ResponseView>(
                job@,
            ),
            Err(response) => admission(upload@, identifier@) == Err::<
                ConversionJobView,
                ResponseView,
            >(response@),
        },
{
    match validate(&upload) {
        Some(response) => Err(response),
        None => {
            let extension = match upload.extension {
                Some(e) => e,
                None => "png".to_owned(),
            };
            match upload.image {
                Some(image) => Ok(
                    ConversionJob { identifier, extension, image, options: upload.options },
                ),
                None => Err(Response::missing_image()),
            }
        },
    }
}

/// Admits the upload of a finished request. An upload that is not turned away
/// becomes a job under a fresh identifier; no identifier is drawn for one
/// that is turned away.
pub fn prepare_job(upload: Upload) -> (outcome: Result<ConversionJob, Response>)
    ensures
        match outcome {
            Ok(job) => is_random_identifier(job@.identifier) && admission(
                upload@,
                job@.identifier,
            ) == Ok::<ConversionJobView, ResponseView>(job@),
            Err(response) => rejection(upload@) == Some(response@),
        },
{
    match validate(&upload) {
        Some(response) => Err(response),
        None => prepare_job_with(upload, fresh_identifier()),
    }
}

/// An upload without image is turned away with a client error.
pub proof fn lemma_missing_image_rejected(upload: UploadView, identifier: Seq<char>)
    requires
        upload.image is None,
    ensures
        admission(upload, identifier) == Err::<ConversionJobView, ResponseView>(missing_image()),
        missing_image().status == 400,
{
}

/// An upload whose image exceeds the ceiling is turned away with a client
/// error.
pub proof fn lemma_oversized_image_rejected(upload: UploadView, identifier: Seq<char>)
    requires
        upload.image matches Some(bytes) && bytes.len() > MAX_IMAGE_BYTES,
    ensures
        admission(upload, identifier) == Err::<ConversionJobView, ResponseView>(image_too_large()),
        image_too_large().status == 400,
{
}

/// An upload with an image within the ceiling is admitted, whatever else it
/// holds, and its job carries the image and the options unchanged.
pub proof fn lemma_image_within_ceiling_admitted(upload: UploadView, identifier: Seq<char>)
    requires
        upload.image matches Some(bytes) && bytes.len() <= MAX_IMAGE_BYTES,
    ensures
        admission(upload, identifier) == Ok::<ConversionJobView, ResponseView>(
            job_of(upload, identifier),
        ),
        job_of(upload, identifier).image == upload.image->0,
        job_of(upload, identifier).options == upload.options,
{
}

/// What becomes of a request with the given fields: the job it is
/// converted as, under the given identifier, or the answer that ends it
/// before anything is staged.
pub open spec fn request_outcome(fields: Seq<FieldView>, identifier: Seq<char>) -> Result<
    ConversionJobView,
    ResponseView,
> {
    match received(fields) {
        Ok(upload) => admission(upload, identifier),
        Err(response) => Err(response),
    }
}

/// Whether field `i` is the last image field of a request.
pub open spec fn last_image_at(fields: Seq<FieldView>, i: int) -> bool {
    &&& 0 <= i < fields.len()
    &&& fields[i] is Image
    &&& forall|j: int| i < j < fields.len() ==> !(#[trigger] fields[j] is Image)
}

/// A request without image field is answered with a client error and
/// becomes no job: nothing is staged for it. If its fields could all be
/// read, the answer says that the image is missing.
pub proof fn lemma_request_without_image(fields: Seq<FieldView>, identifier: Seq<char>)
    requires
        forall|i: int| 0 <= i < fields.len() ==> !(#[trigger] fields[i] is Image),
    ensures
        request_outcome(fields, identifier) matches Err(response) && response.status == 400,
        all_images_readable(fields) ==> request_outcome(fields, identifier) == Err::<
            ConversionJobView,
            ResponseView,
        >(missing_image()),
{
    lemma_unreadable_image_ends_request(fields);
    lemma_no_image_field_no_image(fields);
}

/// A request whose image exceeds the ceiling is answered with a client
/// error and becomes no job: nothing is staged for it.
pub proof fn lemma_request_with_oversized_image(
    fields: Seq<FieldView>,
    i: int,
    identifier: Seq<char>,
)
    requires
        last_image_at(fields, i),
        all_images_readable(fields),
        (fields[i]->payload).len() > MAX_IMAGE_BYTES,
    ensures
        request_outcome(fields, identifier) == Err::<ConversionJobView, ResponseView>(
            image_too_large(),
        ),
        image_too_large().status == 400,
{
    lemma_unreadable_image_ends_request(fields);
    lemma_last_image_counts(fields, i);
}

/// A request whose fields could all be read and whose image is within the
/// ceiling becomes a job for that image, whatever its other fields hold.
pub proof fn lemma_request_with_image(fields: Seq<FieldView>, i: int, identifier: Seq<char>)
    requires
        last_image_at(fields, i),
        all_images_readable(fields),
        (fields[i]->payload).len() <= MAX_IMAGE_BYTES,
    ensures
        request_outcome(fields, identifier) matches Ok(job) && job.image == fields[i]->payload
            && job.identifier == identifier,
{
    lemma_unreadable_image_ends_request(fields);
    lemma_last_image_counts(fields, i);
}

} // verus!
