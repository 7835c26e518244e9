//! The answers of the service: a status and either a plain text or the
//! payload of a finished conversion.

use vstd::prelude::*;
use vstd::string::*;

verus! {

/// Status of a successful conversion.
pub const STATUS_OK: u16 = 200;

/// Status of a request that the client has to mend.
pub const STATUS_BAD_REQUEST: u16 = 400;

/// Status of a conversion that failed on the server.
pub const STATUS_INTERNAL_SERVER_ERROR: u16 = 500;

/// The payload of a finished conversion.
#[derive(Debug)]
pub struct ConvertResponse {
    pub success: bool,
    pub svg_content: String,
}

/// What a response carries.
#[derive(Debug)]
pub enum Body {
    /// A plain text that describes a failure.
    Text(String),
    /// The structured payload of a success.
    Converted(ConvertResponse),
}

/// An answer to a request.
#[derive(Debug)]
pub struct Response {
    pub status: u16,
    pub body: Body,
}

/// The mathematical content of a [`Body`].
pub enum BodyView {
    Text(Seq<char>),
    Converted { success: bool, svg_content: Seq<char> },
}

/// The mathematical content of a [`Response`].
pub struct ResponseView {
    pub status: u16,
    pub body: BodyView,
}

impl View for Body {
    type V = BodyView;

    open spec fn view(&self) -> BodyView {
        match self {
            Body::Text(t) => BodyView::Text(t@),
            Body::Converted(c) => BodyView::Converted {
                success: c.success,
                svg_content: c.svg_content@,
            },
        }
    }
}

impl View for Response {
    type V = ResponseView;

    open spec fn view(&self) -> ResponseView {
        ResponseView { status: self.status, body: self.body@ }
    }
}

/// A failure with the given status and text.
pub open spec fn failure(status: u16, text: Seq<char>) -> ResponseView {
    ResponseView { status, body: BodyView::Text(text) }
}

/// The answer to an upload whose image could not be read.
pub open spec fn invalid_upload() -> ResponseView {
    failure(400, "invalid image upload"@)
}

/// The answer to an upload without image.
pub open spec fn missing_image() -> ResponseView {
    failure(400, "'image' field (multipart) gereklidir"@)
}

/// The answer to an upload whose image exceeds the ceiling.
pub open spec fn image_too_large() -> ResponseView {
    failure(400, "Dosya çok büyük. Maksimum 10MB desteklenir."@)
}

/// The answer when the temporary directory could not be created.
pub open spec fn directory_failed() -> ResponseView {
    failure(500, "Geçici dizin oluşturulamadı"@)
}

/// The answer when the input could not be written.
pub open spec fn write_failed() -> ResponseView {
    failure(500, "Input dosyası yazılamadı"@)
}

/// The answer to a conversion that failed with the given message.
pub open spec fn conversion_failed(message: Seq<char>) -> ResponseView {
    failure(500, "Dönüştürme hatası: "@ + message)
}

/// The answer when the pipeline is driven with an outcome that does not
/// belong to the step it is in.
pub open spec fn out_of_order() -> ResponseView {
    failure(500, "conversion pipeline driven out of order"@)
}

/// The answer to a finished conversion.
pub open spec fn converted(svg: Seq<char>) -> ResponseView {
    ResponseView { status: 200, body: BodyView::Converted { success: true, svg_content: svg } }
}

impl Response {
    fn failure(status: u16, text: &str) -> (response: Response)
        ensures
            response@ == failure(status, text@),
    {
        Response { status, body: Body::Text(text.to_owned()) }
    }

    /// The answer to an upload whose image could not be read.
    pub fn invalid_upload() -> (response: Response)
        ensures
            response@ == invalid_upload(),
    {
        Response::failure(STATUS_BAD_REQUEST, "invalid image upload")
    }

    /// The answer to an upload without image.
    pub fn missing_image() -> (response: Response)
        ensures
            response@ == missing_image(),
    {
        Response::failure(STATUS_BAD_REQUEST, "'image' field (multipart) gereklidir")
    }

    /// The answer to an upload whose image exceeds the ceiling.
    pub fn image_too_large() -> (response: Response)
        ensures
            response@ == image_too_large(),
    {
        Response::failure(STATUS_BAD_REQUEST, "Dosya çok büyük. Maksimum 10MB desteklenir.")
    }

    /// The answer when the temporary directory could not be created.
    pub fn directory_failed() -> (response: Response)
        ensures
            response@ == directory_failed(),
    {
        Response::failure(STATUS_INTERNAL_SERVER_ERROR, "Geçici dizin oluşturulamadı")
    }

    /// The answer when the input could not be written.
    pub fn write_failed() -> (response: Response)
        ensures
            response@ == write_failed(),
    {
        Response::failure(STATUS_INTERNAL_SERVER_ERROR, "Input dosyası yazılamadı")
    }

    /// The answer to a conversion that failed with the given message.
    pub fn conversion_failed(message: &str) -> (response: Response)
        ensures
            response@ == conversion_failed(message@),
    {
        let mut text = "Dönüştürme hatası: ".to_owned();
        text.append(message);
        Response { status: STATUS_INTERNAL_SERVER_ERROR, body: Body::Text(text) }
    }

    /// The answer when the pipeline is driven out of order.
    pub fn out_of_order() -> (response: Response)
        ensures
            response@ == out_of_order(),
    {
        Response::failure(STATUS_INTERNAL_SERVER_ERROR, "conversion pipeline driven out of order")
    }

    /// The answer to a finished conversion.
    pub fn converted(svg: String) -> (response: Response)
        ensures
            response@ == converted(svg@),
    {
        Response {
            status: STATUS_OK,
            body: Body::Converted(ConvertResponse { success: true, svg_content: svg }),
        }
    }
}

} // verus!
