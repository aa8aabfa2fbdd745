use benchmarking_platform::errors::{build_failure, FailureContext, SubmissionError};

#[test]
fn status_codes_by_variant() {
    assert_eq!(SubmissionError::IoError("x".into()).status_code(), 500);
    assert_eq!(SubmissionError::PayloadTooLarge.status_code(), 413);
    assert_eq!(SubmissionError::InvalidMimeType("text/plain".into()).status_code(), 415);
    assert_eq!(SubmissionError::MultipartError("x".into()).status_code(), 400);
    assert_eq!(SubmissionError::BuildError("x".into()).status_code(), 500);
    assert_eq!(SubmissionError::NoFileField.status_code(), 400);
}

#[test]
fn messages_by_variant() {
    assert_eq!(
        SubmissionError::IoError("disk full".into()).message(),
        "Filesystem I/O error: disk full"
    );
    assert_eq!(
        SubmissionError::PayloadTooLarge.message(),
        "Payload exceeds maximum allowed size of 10485760 bytes (10 MiB)"
    );
    assert_eq!(
        SubmissionError::InvalidMimeType("text/plain".into()).message(),
        "Unsupported media type 'text/plain'. Only application/zip and application/gzip are accepted"
    );
    assert_eq!(
        SubmissionError::MultipartError("truncated".into()).message(),
        "Multipart processing error: truncated"
    );
    assert_eq!(
        SubmissionError::BuildError("boom".into()).message(),
        "Build system error: boom"
    );
    assert_eq!(SubmissionError::NoFileField.message(), "No file field found in multipart payload");
}

#[test]
fn error_body_matches_status_and_message() {
    for e in [
        SubmissionError::PayloadTooLarge,
        SubmissionError::NoFileField,
        SubmissionError::InvalidMimeType("image/png".into()),
    ] {
        let body = e.error_body();
        assert_eq!(body.error_code, e.status_code());
        assert_eq!(body.message, e.message());
    }
}

#[test]
fn build_failures_carry_their_context() {
    let cases = [
        (FailureContext::ZipOpen, "Zip error: bad"),
        (FailureContext::DockerConnect, "Docker connection failed: bad"),
        (FailureContext::BuildStream, "Build stream error: bad"),
        (FailureContext::Compiler, "Compiler Error: bad"),
        (FailureContext::ContainerCreate, "Container creation failed: bad"),
        (FailureContext::ContainerStart, "Container start failed: bad"),
        (FailureContext::Inspect, "Inspect failed: bad"),
        (FailureContext::PortMapping, "Invalid port mapping: bad"),
    ];
    for (ctx, text) in cases {
        assert_eq!(build_failure(ctx, "bad"), SubmissionError::BuildError(text.to_string()));
    }
}
