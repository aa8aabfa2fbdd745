//! The failures a submission can meet, how they are described to a client,
//! and which HTTP status each one is answered with.

use vstd::prelude::*;

use crate::text::{decimal, u64_to_decimal};

verus! {

/// Largest upload accepted, in bytes (10 MiB).
pub const MAX_PAYLOAD_BYTES: u64 = 10 * 1024 * 1024;

/// All possible failure states during submission processing.
#[derive(Debug, Clone, PartialEq, Eq)]
pub enum SubmissionError {
    /// Filesystem I/O failure (directory creation, file write, flush),
    /// with the description of the underlying error.
    IoError(String),
    /// Incoming payload exceeds the 10 MiB ceiling.
    PayloadTooLarge,
    /// The uploaded file's MIME type is not application/zip or application/gzip.
    InvalidMimeType(String),
    /// Multipart stream-level error (malformed boundary, truncated stream, etc.).
    MultipartError(String),
    /// Failure during Docker image building, decompression or container control.
    BuildError(String),
    /// No file field was found in the multipart payload.
    NoFileField,
}

/// The mathematical value of a [`SubmissionError`]: its variant and the text it carries.
pub enum ErrorView {
    IoError(Seq<char>),
    PayloadTooLarge,
    InvalidMimeType(Seq<char>),
    MultipartError(Seq<char>),
    BuildError(Seq<char>),
    NoFileField,
}

impl View for SubmissionError {
    type V = ErrorView;

    open spec fn view(&self) -> ErrorView {
        match self {
            SubmissionError::IoError(s) => ErrorView::IoError(s@),
            SubmissionError::PayloadTooLarge => ErrorView::PayloadTooLarge,
            SubmissionError::InvalidMimeType(s) => ErrorView::InvalidMimeType(s@),
            SubmissionError::MultipartError(s) => ErrorView::MultipartError(s@),
            SubmissionError::BuildError(s) => ErrorView::BuildError(s@),
            SubmissionError::NoFileField => ErrorView::NoFileField,
        }
    }
}

/// Structured error body returned to clients on failure.
#[derive(Debug, Clone, PartialEq, Eq)]
pub struct ErrorResponse {
    pub error_code: u16,
    pub message: String,
}

/// The HTTP status a failure is answered with.
pub open spec fn status_of(e: ErrorView) -> u16 {
    match e {
        ErrorView::IoError(_) => 500,
        ErrorView::PayloadTooLarge => 413,
        ErrorView::InvalidMimeType(_) => 415,
        ErrorView::MultipartError(_) => 400,
        ErrorView::BuildError(_) => 500,
        ErrorView::NoFileField => 400,
    }
}

/// The human-readable description of a failure.
pub open spec fn message_of(e: ErrorView) -> Seq<char> {
    match e {
        ErrorView::IoError(d) => "Filesystem I/O error: "@ + d,
        ErrorView::PayloadTooLarge => "Payload exceeds maximum allowed size of "@ + decimal(
            MAX_PAYLOAD_BYTES as nat,
        ) + " bytes (10 MiB)"@,
        ErrorView::InvalidMimeType(m) => "Unsupported media type '"@ + m
            + "'. Only application/zip and application/gzip are accepted"@,
        ErrorView::MultipartError(m) => "Multipart processing error: "@ + m,
        ErrorView::BuildError(m) => "Build system error: "@ + m,
        ErrorView::NoFileField => "No file field found in multipart payload"@,
    }
}

impl SubmissionError {
    /// The HTTP status code of this failure: 500 for I/O and build failures,
    /// 413 for an oversized payload, 415 for a refused media type and 400
    /// for a malformed multipart body or a missing file field.
    pub fn status_code(&self) -> (code: u16)
        ensures
            code == status_of(self@),
    {
        match self {
            SubmissionError::IoError(_) => 500,
            SubmissionError::PayloadTooLarge => 413,
            SubmissionError::InvalidMimeType(_) => 415,
            SubmissionError::MultipartError(_) => 400,
            SubmissionError::BuildError(_) => 500,
            SubmissionError::NoFileField => 400,
        }
    }

    /// The description of this failure shown to clients.
    pub fn message(&self) -> (text: String)
        ensures
            text@ == message_of(self@),
    {
        match self {
            SubmissionError::IoError(e) => {
                let mut t = String::from_str("Filesystem I/O error: ");
                t.append(e.as_str());
                t
            },
            SubmissionError::PayloadTooLarge => {
                let mut t = String::from_str("Payload exceeds maximum allowed size of ");
                let n = u64_to_decimal(MAX_PAYLOAD_BYTES);
                t.append(n.as_str());
                t.append(" bytes (10 MiB)");
                t
            },
            SubmissionError::InvalidMimeType(mime) => {
                let mut t = String::from_str("Unsupported media type '");
                t.append(mime.as_str());
                t.append("'. Only application/zip and application/gzip are accepted");
                t
            },
            SubmissionError::MultipartError(msg) => {
                let mut t = String::from_str("Multipart processing error: ");
                t.append(msg.as_str());
                t
            },
            SubmissionError::BuildError(msg) => {
                let mut t = String::from_str("Build system error: ");
                t.append(msg.as_str());
                t
            },
            SubmissionError::NoFileField => String::from_str("No file field found in multipart payload"),
        }
    }

    /// The JSON body sent with the failure: its status code and its description.
    pub fn error_body(&self) -> (body: ErrorResponse)
        ensures
            body.error_code == status_of(self@),
            body.message@ == message_of(self@),
    {
        let status = self.status_code();
        ErrorResponse { error_code: status, message: self.message() }
    }
}

/// The steps of building and running a submission whose failures are
/// reported as build errors prefixed by what was being done.
#[derive(Debug, Clone, Copy, PartialEq, Eq, Structural)]
pub enum FailureContext {
    ZipOpen,
    DockerConnect,
    BuildStream,
    Compiler,
    ContainerCreate,
    ContainerStart,
    Inspect,
    PortMapping,
}

/// The text a failure of each step starts with.
pub open spec fn context_prefix(context: FailureContext) -> Seq<char> {
    match context {
        FailureContext::ZipOpen => "Zip error: "@,
        FailureContext::DockerConnect => "Docker connection failed: "@,
        FailureContext::BuildStream => "Build stream error: "@,
        FailureContext::Compiler => "Compiler Error: "@,
        FailureContext::ContainerCreate => "Container creation failed: "@,
        FailureContext::ContainerStart => "Container start failed: "@,
        FailureContext::Inspect => "Inspect failed: "@,
        FailureContext::PortMapping => "Invalid port mapping: "@,
    }
}

/// The build error reporting that `context` failed with `detail`.
pub fn build_failure(context: FailureContext, detail: &str) -> (e: SubmissionError)
    ensures
        e@ == ErrorView::BuildError(context_prefix(context) + detail@),
{
    let mut text = String::from_str(
        match context {
            FailureContext::ZipOpen => "Zip error: ",
            FailureContext::DockerConnect => "Docker connection failed: ",
            FailureContext::BuildStream => "Build stream error: ",
            FailureContext::Compiler => "Compiler Error: ",
            FailureContext::ContainerCreate => "Container creation failed: ",
            FailureContext::ContainerStart => "Container start failed: ",
            FailureContext::Inspect => "Inspect failed: ",
            FailureContext::PortMapping => "Invalid port mapping: ",
        },
    );
    text.append(detail);
    SubmissionError::BuildError(text)
}

} // verus!

verus! {

/// A failure's description carries the text the failure holds: the
/// description of an I/O, multipart or build failure ends with its detail,
/// and that of a refused media type quotes the media type.
pub proof fn lemma_message_carries_detail(e: ErrorView)
    ensures
        e matches ErrorView::IoError(d) ==> message_of(e).skip(message_of(e).len() - d.len()) == d,
        e matches ErrorView::MultipartError(d) ==> message_of(e).skip(message_of(e).len() - d.len())
            == d,
        e matches ErrorView::BuildError(d) ==> message_of(e).skip(message_of(e).len() - d.len())
            == d,
        e matches ErrorView::InvalidMimeType(m) ==> message_of(e).subrange(
            "Unsupported media type '"@.len() as int,
            ("Unsupported media type '"@.len() + m.len()) as int,
        ) == m,
{
    let t = message_of(e);
    match e {
        ErrorView::IoError(d) => {
            assert(t.skip(t.len() - d.len()) =~= d);
        },
        ErrorView::MultipartError(d) => {
            assert(t.skip(t.len() - d.len()) =~= d);
        },
        ErrorView::BuildError(d) => {
            assert(t.skip(t.len() - d.len()) =~= d);
        },
        ErrorView::InvalidMimeType(m) => {
            let p = "Unsupported media type '"@;
            assert(t.subrange(p.len() as int, (p.len() + m.len()) as int) =~= m);
        },
        _ => {},
    }
}

/// A build failure's text ends with the detail it reports.
pub proof fn lemma_build_failure_carries_detail(context: FailureContext, detail: Seq<char>)
    ensures
        ({
            let t = context_prefix(context) + detail;
            t.skip(t.len() - detail.len()) == detail
        }),
{
    let t = context_prefix(context) + detail;
    assert(t.skip(t.len() - detail.len()) =~= detail);
}

} // verus!
