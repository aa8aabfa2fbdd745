use benchmarking_platform::builder::BuildSession;
use benchmarking_platform::builder::BuildAction;
use benchmarking_platform::errors::SubmissionError;
use benchmarking_platform::handlers::{
    validate_content_type, ArchiveKind, FieldInfo, UploadAction, UploadPhase, UploadSession,
};

const BASE: &str = "/tmp/benchmarking_platform/submissions";

fn file_field(content_type: Option<&str>) -> FieldInfo {
    FieldInfo { has_filename: true, content_type: content_type.map(str::to_owned) }
}

fn form_field() -> FieldInfo {
    FieldInfo { has_filename: false, content_type: None }
}

fn reply_err(a: UploadAction) -> SubmissionError {
    match a {
        UploadAction::Reply { outcome: Err(e) } => e,
        _ => panic!("expected an error reply"),
    }
}

fn is_uuid(s: &str) -> bool {
    s.len() == 36
        && s.chars().enumerate().all(|(i, c)| {
            if [8, 13, 18, 23].contains(&i) {
                c == '-'
            } else {
                c.is_ascii_digit() || ('a'..='f').contains(&c)
            }
        })
}

#[test]
fn content_types() {
    assert_eq!(validate_content_type(&Some("application/zip".into())), Ok(ArchiveKind::Zip));
    assert_eq!(validate_content_type(&Some("application/gzip".into())), Ok(ArchiveKind::Gzip));
    assert_eq!(
        validate_content_type(&Some("application/x-tar".into())),
        Err(SubmissionError::InvalidMimeType("application/x-tar".into()))
    );
    assert_eq!(
        validate_content_type(&None),
        Err(SubmissionError::InvalidMimeType("missing Content-Type".into()))
    );
    assert_eq!(ArchiveKind::Zip.extension(), "zip");
    assert_eq!(ArchiveKind::Gzip.extension(), "gz");
}

#[test]
fn empty_body_has_no_file_field() {
    let mut s = UploadSession::new();
    assert_eq!(reply_err(s.on_field(None)), SubmissionError::NoFileField);
    assert_eq!(s.phase, UploadPhase::Done);
}

#[test]
fn multipart_error_on_field() {
    let mut s = UploadSession::new();
    assert_eq!(
        reply_err(s.on_field(Some(Err("bad boundary".into())))),
        SubmissionError::MultipartError("bad boundary".into())
    );
}

#[test]
fn refused_media_types() {
    let mut s = UploadSession::new();
    assert_eq!(
        reply_err(s.on_field(Some(Ok(file_field(Some("text/plain")))))),
        SubmissionError::InvalidMimeType("text/plain".into())
    );
    let mut s = UploadSession::new();
    assert_eq!(
        reply_err(s.on_field(Some(Ok(file_field(None))))),
        SubmissionError::InvalidMimeType("missing Content-Type".into())
    );
}

#[test]
fn accepted_zip_upload_runs_to_reply() {
    let mut s = UploadSession::new();
    let dir = match s.on_field(Some(Ok(file_field(Some("application/zip"))))) {
        UploadAction::CreateDir { dir } => dir,
        _ => panic!("expected directory creation"),
    };
    assert!(is_uuid(&s.submission_id));
    assert_eq!(dir, format!("{}/{}", BASE, s.submission_id));
    let file = match s.on_dir_created(Ok(())) {
        UploadAction::CreateFile { file } => file,
        _ => panic!("expected file creation"),
    };
    assert_eq!(file, format!("{}/submission.zip", dir));
    assert!(matches!(s.on_file_created(Ok(())), UploadAction::NextChunk));
    assert!(matches!(s.on_chunk(Some(Ok(1000))), UploadAction::WriteChunk));
    assert!(matches!(s.on_chunk_written(Ok(())), UploadAction::NextChunk));
    assert!(matches!(s.on_chunk(Some(Ok(24))), UploadAction::WriteChunk));
    assert!(matches!(s.on_chunk_written(Ok(())), UploadAction::NextChunk));
    assert!(matches!(s.on_chunk(None), UploadAction::Flush));
    assert!(matches!(s.on_flushed(Ok(())), UploadAction::ShutDown));
    match s.on_shut_down(Ok(())) {
        UploadAction::Reply { outcome: Ok(accepted) } => {
            assert_eq!(accepted.file_size_bytes, 1024);
            assert_eq!(accepted.submission_id, s.submission_id);
        }
        _ => panic!("expected acceptance"),
    }
    // The archive is stored where the builder looks for it.
    match BuildSession::start(&s.submission_id).1 {
        BuildAction::Extract { zip_file, extract_to } => {
            assert_eq!(zip_file, file);
            assert_eq!(extract_to, dir);
        }
        _ => panic!("expected extraction"),
    }
}

#[test]
fn gzip_upload_is_stored_with_gz_extension() {
    let mut s = UploadSession::new();
    s.on_field_with_id(Some(Ok(file_field(Some("application/gzip")))), "abc");
    match s.on_dir_created(Ok(())) {
        UploadAction::CreateFile { file } => assert_eq!(file, format!("{}/abc/submission.gz", BASE)),
        _ => panic!("expected file creation"),
    }
}

#[test]
fn fresh_sessions_get_distinct_ids() {
    let mut a = UploadSession::new();
    let mut b = UploadSession::new();
    a.on_field(Some(Ok(file_field(Some("application/zip")))));
    b.on_field(Some(Ok(file_field(Some("application/zip")))));
    assert_ne!(a.submission_id, b.submission_id);
}

#[test]
fn oversized_upload_is_aborted_and_removed() {
    let mut s = UploadSession::new();
    s.on_field_with_id(Some(Ok(file_field(Some("application/zip")))), "sub-1");
    s.on_dir_created(Ok(()));
    s.on_file_created(Ok(()));
    assert!(matches!(s.on_chunk(Some(Ok(10 * 1024 * 1024 - 1))), UploadAction::WriteChunk));
    assert!(matches!(s.on_chunk_written(Ok(())), UploadAction::NextChunk));
    match s.on_chunk(Some(Ok(2))) {
        UploadAction::Abort { dir, error } => {
            assert_eq!(dir, format!("{}/sub-1", BASE));
            assert_eq!(error, SubmissionError::PayloadTooLarge);
        }
        _ => panic!("expected abort"),
    }
    assert_eq!(s.phase, UploadPhase::Done);
    assert_eq!(s.written, 10 * 1024 * 1024 - 1);
}

#[test]
fn exactly_ten_mebibytes_is_accepted() {
    let mut s = UploadSession::new();
    s.on_field_with_id(Some(Ok(file_field(Some("application/zip")))), "edge");
    s.on_dir_created(Ok(()));
    s.on_file_created(Ok(()));
    assert!(matches!(s.on_chunk(Some(Ok(10 * 1024 * 1024))), UploadAction::WriteChunk));
    s.on_chunk_written(Ok(()));
    assert!(matches!(s.on_chunk(Some(Ok(0))), UploadAction::WriteChunk));
    s.on_chunk_written(Ok(()));
    s.on_chunk(None);
    s.on_flushed(Ok(()));
    match s.on_shut_down(Ok(())) {
        UploadAction::Reply { outcome: Ok(accepted) } => assert_eq!(accepted.file_size_bytes, 10485760),
        _ => panic!("expected acceptance"),
    }
}

#[test]
fn huge_chunk_does_not_overflow() {
    let mut s = UploadSession::new();
    s.on_field_with_id(Some(Ok(file_field(Some("application/zip")))), "x");
    s.on_dir_created(Ok(()));
    s.on_file_created(Ok(()));
    assert!(matches!(s.on_chunk(Some(Ok(usize::MAX))), UploadAction::Abort { .. }));
}

#[test]
fn io_failures_are_reported() {
    let mut s = UploadSession::new();
    s.on_field_with_id(Some(Ok(file_field(Some("application/zip")))), "x");
    assert_eq!(
        reply_err(s.on_dir_created(Err("permission denied".into()))),
        SubmissionError::IoError("permission denied".into())
    );

    let mut s = UploadSession::new();
    s.on_field_with_id(Some(Ok(file_field(Some("application/zip")))), "x");
    s.on_dir_created(Ok(()));
    s.on_file_created(Ok(()));
    s.on_chunk(Some(Ok(5)));
    assert_eq!(
        reply_err(s.on_chunk_written(Err("no space".into()))),
        SubmissionError::IoError("no space".into())
    );
    assert_eq!(s.written, 0);

    let mut s = UploadSession::new();
    s.on_field_with_id(Some(Ok(file_field(Some("application/zip")))), "x");
    s.on_dir_created(Ok(()));
    s.on_file_created(Ok(()));
    assert_eq!(
        reply_err(s.on_chunk(Some(Err("truncated".into())))),
        SubmissionError::MultipartError("truncated".into())
    );

    let mut s = UploadSession::new();
    s.on_field_with_id(Some(Ok(file_field(Some("application/zip")))), "x");
    s.on_dir_created(Ok(()));
    assert_eq!(
        reply_err(s.on_file_created(Err("read-only".into()))),
        SubmissionError::IoError("read-only".into())
    );

    let mut s = UploadSession::new();
    s.on_field_with_id(Some(Ok(file_field(Some("application/zip")))), "x");
    s.on_dir_created(Ok(()));
    s.on_file_created(Ok(()));
    s.on_chunk(None);
    assert_eq!(reply_err(s.on_flushed(Err("eio".into()))), SubmissionError::IoError("eio".into()));

    let mut s = UploadSession::new();
    s.on_field_with_id(Some(Ok(file_field(Some("application/zip")))), "x");
    s.on_dir_created(Ok(()));
    s.on_file_created(Ok(()));
    s.on_chunk(None);
    s.on_flushed(Ok(()));
    assert_eq!(reply_err(s.on_shut_down(Err("eio".into()))), SubmissionError::IoError("eio".into()));
}

#[test]
fn form_fields_before_the_file_are_skipped() {
    let mut s = UploadSession::new();
    assert!(matches!(s.on_field(Some(Ok(form_field()))), UploadAction::NextField));
    assert_eq!(s.phase, UploadPhase::AwaitingField);
    let text_field = FieldInfo { has_filename: false, content_type: Some("text/plain".into()) };
    assert!(matches!(s.on_field(Some(Ok(text_field))), UploadAction::NextField));
    let dir = match s.on_field(Some(Ok(file_field(Some("application/zip"))))) {
        UploadAction::CreateDir { dir } => dir,
        _ => panic!("expected directory creation"),
    };
    assert_eq!(dir, format!("{}/{}", BASE, s.submission_id));
    s.on_dir_created(Ok(()));
    s.on_file_created(Ok(()));
    s.on_chunk(Some(Ok(3)));
    s.on_chunk_written(Ok(()));
    s.on_chunk(None);
    s.on_flushed(Ok(()));
    match s.on_shut_down(Ok(())) {
        UploadAction::Reply { outcome: Ok(accepted) } => assert_eq!(accepted.file_size_bytes, 3),
        _ => panic!("expected acceptance"),
    }
}

#[test]
fn body_of_form_fields_only_has_no_file_field() {
    let mut s = UploadSession::new();
    assert!(matches!(s.on_field(Some(Ok(form_field()))), UploadAction::NextField));
    assert!(matches!(s.on_field(Some(Ok(form_field()))), UploadAction::NextField));
    assert_eq!(reply_err(s.on_field(None)), SubmissionError::NoFileField);
}

#[test]
fn multipart_error_after_skipped_field() {
    let mut s = UploadSession::new();
    s.on_field(Some(Ok(form_field())));
    assert_eq!(
        reply_err(s.on_field(Some(Err("truncated".into())))),
        SubmissionError::MultipartError("truncated".into())
    );
}

#[test]
fn only_the_first_file_field_decides() {
    let mut s = UploadSession::new();
    s.on_field(Some(Ok(form_field())));
    assert_eq!(
        reply_err(s.on_field(Some(Ok(file_field(Some("image/png")))))),
        SubmissionError::InvalidMimeType("image/png".into())
    );
    assert_eq!(s.phase, UploadPhase::Done);
}
