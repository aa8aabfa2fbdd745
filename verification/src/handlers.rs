//! Intake of a submission upload: fields that name no file are skipped, and
//! the first file field of a multipart body is checked for its media type and streamed into a fresh submission
//! directory, within a 10 MiB ceiling.  The decisions are a state machine;
//! the driver performs each action and reports its outcome.

use vstd::prelude::*;

use crate::errors::{ErrorView, SubmissionError, MAX_PAYLOAD_BYTES};
use crate::paths::{joined, submission_dir, submission_dir_of};
use crate::text::{opt_text, str_equal};

verus! {

/// The media type of a zip archive.
pub open spec fn mime_zip() -> Seq<char> {
    "application/zip"@
}

/// The media type of a gzip archive.
pub open spec fn mime_gzip() -> Seq<char> {
    "application/gzip"@
}

/// The two kinds of archive a submission may be uploaded as.
#[derive(Debug, Clone, Copy, PartialEq, Eq, Structural)]
pub enum ArchiveKind {
    Zip,
    Gzip,
}

/// The archive kind a media type stands for, if it is one of the two accepted.
pub open spec fn kind_of_mime(mime: Seq<char>) -> Option<ArchiveKind> {
    if mime == mime_zip() {
        Some(ArchiveKind::Zip)
    } else if mime == mime_gzip() {
        Some(ArchiveKind::Gzip)
    } else {
        None
    }
}

/// The file extension an archive kind is stored with.
pub open spec fn extension_of(kind: ArchiveKind) -> Seq<char> {
    match kind {
        ArchiveKind::Zip => "zip"@,
        ArchiveKind::Gzip => "gz"@,
    }
}

/// The name an uploaded archive is stored under in its submission directory.
pub open spec fn upload_name_of(kind: ArchiveKind) -> Seq<char> {
    "submission."@ + extension_of(kind)
}

/// The path an uploaded archive of submission `submission_id` is stored at.
pub open spec fn upload_path_of(submission_id: Seq<char>, kind: ArchiveKind) -> Seq<char> {
    joined(submission_dir_of(submission_id), upload_name_of(kind))
}

/// The error a field is refused with when it carries no media type.
pub open spec fn missing_content_type() -> Seq<char> {
    "missing Content-Type"@
}

/// What a field's media type decides: the archive kind, or the refusal.
pub open spec fn content_type_verdict(content_type: Option<Seq<char>>) -> Result<
    ArchiveKind,
    ErrorView,
> {
    match content_type {
        None => Err(ErrorView::InvalidMimeType(missing_content_type())),
        Some(ct) => match kind_of_mime(ct) {
            Some(kind) => Ok(kind),
            None => Err(ErrorView::InvalidMimeType(ct)),
        },
    }
}

/// A lowercase hexadecimal digit.
pub open spec fn is_lower_hex(c: char) -> bool {
    ('0' <= c && c <= '9') || ('a' <= c && c <= 'f')
}

/// The textual form of a UUID: 36 characters, hyphens at positions 8, 13,
/// 18 and 23, lowercase hexadecimal digits elsewhere.
pub open spec fn is_uuid_text(s: Seq<char>) -> bool {
    &&& s.len() == 36
    &&& forall|i: int|
        0 <= i < 36 ==> if i == 8 || i == 13 || i == 18 || i == 23 {
            s[i] == '-'
        } else {
            is_lower_hex(#[trigger] s[i])
        }
}

/// JSON body returned on 202 Accepted.
#[derive(Debug, Clone, PartialEq, Eq)]
pub struct SubmissionAccepted {
    pub submission_id: String,
    pub file_size_bytes: u64,
}

impl ArchiveKind {
    /// The file extension this archive kind is stored with.
    pub fn extension(&self) -> (ext: &'static str)
        ensures
            ext@ == extension_of(*self),
    {
        match self {
            ArchiveKind::Zip => "zip",
            ArchiveKind::Gzip => "gz",
        }
    }
}

/// Checks a field's media type: application/zip and application/gzip are
/// accepted, anything else (or no media type) is refused as unsupported.
pub fn validate_content_type(content_type: &Option<String>) -> (verdict: Result<
    ArchiveKind,
    SubmissionError,
>)
    ensures
        match verdict {
            Ok(kind) => content_type_verdict(opt_text(content_type)) == Ok::<
                ArchiveKind,
                ErrorView,
            >(kind),
            Err(e) => content_type_verdict(opt_text(content_type)) == Err::<ArchiveKind, ErrorView>(
                e@,
            ),
        },
{
    match content_type {
        None => Err(SubmissionError::InvalidMimeType(String::from_str("missing Content-Type"))),
        Some(ct) => {
            if str_equal(ct.as_str(), "application/zip") {
                Ok(ArchiveKind::Zip)
            } else if str_equal(ct.as_str(), "application/gzip") {
                Ok(ArchiveKind::Gzip)
            } else {
                Err(SubmissionError::InvalidMimeType(ct.clone()))
            }
        },
    }
}

/// The path an uploaded archive of kind `kind` is stored at in `dir`.
pub fn upload_path(dir: &str, kind: ArchiveKind) -> (path: String)
    ensures
        path@ == joined(dir@, upload_name_of(kind)),
{
    let mut name = String::from_str("submission.");
    name.append(kind.extension());
    crate::paths::join_path(dir, name.as_str())
}

/// A fresh submission identifier: a random (version 4) UUID in its
/// hyphenated lowercase form.
///
/// Calls `uuid::Uuid::new_v4` and formats the result with `to_string`,
/// which writes the 36-character hyphenated lowercase form; the contract
/// states that shape and nothing of which UUID came out.
#[verifier::external_body]
fn new_submission_id() -> (id: String)
    ensures
        is_uuid_text(id@),
{
    uuid::Uuid::new_v4().to_string()
}

} // verus!

verus! {

/// Where an upload is in its course.
#[derive(Debug, Clone, Copy, PartialEq, Eq, Structural)]
pub enum UploadPhase {
    /// Waiting for the next field of the multipart body; no file field
    /// has been seen yet.
    AwaitingField,
    /// Waiting for the submission directory to be created.
    CreatingDir,
    /// Waiting for the archive file to be created.
    CreatingFile,
    /// Waiting for the next chunk of the file field.
    Receiving,
    /// Waiting for the current chunk to be written.
    Writing,
    /// Waiting for the written data to be flushed.
    Flushing,
    /// Waiting for the file to be shut down.
    ShuttingDown,
    /// The upload is answered.
    Done,
}

/// What the driver of an upload has to do next.
pub enum UploadAction {
    /// Read the next field of the multipart body.
    NextField,
    /// Create the directory `dir` and its missing parents.
    CreateDir { dir: String },
    /// Create (or truncate) the file `file`.
    CreateFile { file: String },
    /// Read the next chunk of the file field.
    NextChunk,
    /// Append the chunk just read to the file.
    WriteChunk,
    /// Flush the file.
    Flush,
    /// Shut the file down.
    ShutDown,
    /// Close the file, remove the directory `dir` with all its content, and
    /// answer with `error`.
    Abort { dir: String, error: SubmissionError },
    /// Answer the request: 202 with the body, after which the submission is
    /// built and run, or the error.
    Reply { outcome: Result<SubmissionAccepted, SubmissionError> },
}

/// The action that answers with the error `e`.
pub open spec fn is_reply_err(action: UploadAction, e: ErrorView) -> bool {
    match action {
        UploadAction::Reply { outcome: Err(err) } => err@ == e,
        _ => false,
    }
}

/// What the upload needs to know of one multipart field.
#[derive(Debug, Clone, PartialEq, Eq)]
pub struct FieldInfo {
    /// Whether the field's Content-Disposition names a file.
    pub has_filename: bool,
    /// The field's media type, if the client gave one.
    pub content_type: Option<String>,
}

/// Two states of an upload concern the same submission: identifier,
/// archive kind, directory and file.
pub open spec fn same_submission(a: UploadSession, b: UploadSession) -> bool {
    &&& a.submission_id == b.submission_id
    &&& a.kind == b.kind
    &&& a.dir == b.dir
    &&& a.file == b.file
    &&& a.opened == b.opened
}

/// An upload of one submission, from its first file field to the answer.
pub struct UploadSession {
    pub phase: UploadPhase,
    pub kind: ArchiveKind,
    pub submission_id: String,
    pub dir: String,
    pub file: String,
    /// Bytes written to the file so far.
    pub written: u64,
    /// Bytes that will have been written once the current chunk is.
    pub pending: u64,
    /// Whether a field was accepted and the submission's paths are set.
    pub opened: bool,
    /// The lengths of the chunks written so far, in order.
    pub chunks: Ghost<Seq<nat>>,
}

/// The total length of a sequence of chunks.
pub open spec fn total_len(chunks: Seq<nat>) -> nat
    decreases chunks.len(),
{
    if chunks.len() == 0 {
        0
    } else {
        total_len(chunks.drop_last()) + chunks.last()
    }
}

impl UploadSession {
    /// The bytes written are the total of the chunks written; never more
    /// than the ceiling is written or about to be written; and
    /// once a field is accepted the directory and file are those of the
    /// submission identifier and archive kind.
    pub open spec fn wf(&self) -> bool {
        &&& self.written == total_len(self.chunks@)
        &&& self.written <= MAX_PAYLOAD_BYTES
        &&& self.pending <= MAX_PAYLOAD_BYTES
        &&& self.written <= self.pending
        &&& self.phase != UploadPhase::Writing ==> self.pending == self.written
        &&& self.phase == UploadPhase::AwaitingField ==> !self.opened && self.written == 0
        &&& (self.phase != UploadPhase::AwaitingField && self.phase != UploadPhase::Done)
            ==> self.opened
        &&& self.opened ==> {
            &&& self.dir@ == submission_dir_of(self.submission_id@)
            &&& self.file@ == upload_path_of(self.submission_id@, self.kind)
        }
    }

    /// A new upload, waiting for the first field of the body.
    pub fn new() -> (session: UploadSession)
        ensures
            session.wf(),
            session.phase == UploadPhase::AwaitingField,
            session.written == 0,
            session.chunks@ == Seq::<nat>::empty(),
    {
        UploadSession {
            phase: UploadPhase::AwaitingField,
            kind: ArchiveKind::Zip,
            submission_id: String::new(),
            dir: String::new(),
            file: String::new(),
            written: 0,
            pending: 0,
            opened: false,
            chunks: Ghost(Seq::empty()),
        }
    }

    /// Handles the next field of the body, given the identifier the
    /// submission gets if the field is accepted.  The end of the body
    /// before any file field answers "no file field"; a multipart error
    /// answers with it; a field that names no file is skipped and the next
    /// field read; the first file field decides the upload: if its media
    /// type is not an accepted archive it is refused, otherwise the
    /// submission directory is created.
    pub fn on_field_with_id(
        &mut self,
        field: Option<Result<FieldInfo, String>>,
        submission_id: &str,
    ) -> (action: UploadAction)
        requires
            old(self).wf(),
            old(self).phase == UploadPhase::AwaitingField,
        ensures
            final(self).wf(),
            final(self).chunks@ == old(self).chunks@,
            final(self).written == 0,
            match field {
                None => final(self).phase == UploadPhase::Done && is_reply_err(
                    action,
                    ErrorView::NoFileField,
                ),
                Some(Err(e)) => final(self).phase == UploadPhase::Done && is_reply_err(
                    action,
                    ErrorView::MultipartError(e@),
                ),
                Some(Ok(f)) => if !f.has_filename {
                    &&& *final(self) == *old(self)
                    &&& action is NextField
                } else {
                    match content_type_verdict(opt_text(&f.content_type)) {
                        Err(refusal) => final(self).phase == UploadPhase::Done && is_reply_err(
                            action,
                            refusal,
                        ),
                        Ok(kind) => {
                            &&& final(self).phase == UploadPhase::CreatingDir
                            &&& final(self).kind == kind
                            &&& final(self).submission_id@ == submission_id@
                            &&& action matches UploadAction::CreateDir { dir } && dir@
                                == submission_dir_of(final(self).submission_id@)
                        },
                    }
                },
            },
    {
        match field {
            None => {
                self.phase = UploadPhase::Done;
                UploadAction::Reply { outcome: Err(SubmissionError::NoFileField) }
            },
            Some(Err(e)) => {
                self.phase = UploadPhase::Done;
                UploadAction::Reply { outcome: Err(SubmissionError::MultipartError(e)) }
            },
            Some(Ok(f)) => {
                if !f.has_filename {
                    return UploadAction::NextField;
                }
                match validate_content_type(&f.content_type) {
                    Err(refusal) => {
                        self.phase = UploadPhase::Done;
                        UploadAction::Reply { outcome: Err(refusal) }
                    },
                    Ok(kind) => {
                        let dir = submission_dir(submission_id);
                        let file = upload_path(dir.as_str(), kind);
                        self.phase = UploadPhase::CreatingDir;
                        self.kind = kind;
                        self.submission_id = String::from_str(submission_id);
                        self.dir = dir.clone();
                        self.file = file;
                        self.opened = true;
                        UploadAction::CreateDir { dir }
                    },
                }
            },
        }
    }

    /// Handles the next field of the body: as [`Self::on_field_with_id`],
    /// with a fresh random UUID as the identifier of an accepted field.
    pub fn on_field(&mut self, field: Option<Result<FieldInfo, String>>) -> (action: UploadAction)
        requires
            old(self).wf(),
            old(self).phase == UploadPhase::AwaitingField,
        ensures
            final(self).wf(),
            final(self).chunks@ == old(self).chunks@,
            final(self).written == 0,
            match field {
                None => final(self).phase == UploadPhase::Done && is_reply_err(
                    action,
                    ErrorView::NoFileField,
                ),
                Some(Err(e)) => final(self).phase == UploadPhase::Done && is_reply_err(
                    action,
                    ErrorView::MultipartError(e@),
                ),
                Some(Ok(f)) => if !f.has_filename {
                    &&& *final(self) == *old(self)
                    &&& action is NextField
                } else {
                    match content_type_verdict(opt_text(&f.content_type)) {
                        Err(refusal) => final(self).phase == UploadPhase::Done && is_reply_err(
                            action,
                            refusal,
                        ),
                        Ok(kind) => {
                            &&& final(self).phase == UploadPhase::CreatingDir
                            &&& final(self).kind == kind
                            &&& is_uuid_text(final(self).submission_id@)
                            &&& action matches UploadAction::CreateDir { dir } && dir@
                                == submission_dir_of(final(self).submission_id@)
                        },
                    }
                },
            },
    {
        let accepted = match &field {
            Some(Ok(f)) => f.has_filename && validate_content_type(&f.content_type).is_ok(),
            _ => false,
        };
        if accepted {
            let id = new_submission_id();
            self.on_field_with_id(field, id.as_str())
        } else {
            self.on_field_with_id(field, "")
        }
    }

    /// Handles the creation of the submission directory: a failure answers
    /// with an I/O error, a success creates the archive file.
    pub fn on_dir_created(&mut self, outcome: Result<(), String>) -> (action: UploadAction)
        requires
            old(self).wf(),
            old(self).phase == UploadPhase::CreatingDir,
        ensures
            final(self).wf(),
            same_submission(*final(self), *old(self)),
            final(self).chunks@ == old(self).chunks@,
            final(self).written == old(self).written,
            match outcome {
                Err(e) => final(self).phase == UploadPhase::Done && is_reply_err(
                    action,
                    ErrorView::IoError(e@),
                ),
                Ok(()) => {
                    &&& final(self).phase == UploadPhase::CreatingFile
                    &&& action matches UploadAction::CreateFile { file } && file@
                        == upload_path_of(old(self).submission_id@, old(self).kind)
                },
            },
    {
        match outcome {
            Err(e) => {
                self.phase = UploadPhase::Done;
                UploadAction::Reply { outcome: Err(SubmissionError::IoError(e)) }
            },
            Ok(()) => {
                self.phase = UploadPhase::CreatingFile;
                UploadAction::CreateFile { file: self.file.clone() }
            },
        }
    }

    /// Handles the creation of the archive file: a failure answers with an
    /// I/O error, a success starts reading chunks.
    pub fn on_file_created(&mut self, outcome: Result<(), String>) -> (action: UploadAction)
        requires
            old(self).wf(),
            old(self).phase == UploadPhase::CreatingFile,
        ensures
            final(self).wf(),
            same_submission(*final(self), *old(self)),
            final(self).chunks@ == old(self).chunks@,
            final(self).written == old(self).written,
            match outcome {
                Err(e) => final(self).phase == UploadPhase::Done && is_reply_err(
                    action,
                    ErrorView::IoError(e@),
                ),
                Ok(()) => final(self).phase == UploadPhase::Receiving && action
                    is NextChunk,
            },
    {
        match outcome {
            Err(e) => {
                self.phase = UploadPhase::Done;
                UploadAction::Reply { outcome: Err(SubmissionError::IoError(e)) }
            },
            Ok(()) => {
                self.phase = UploadPhase::Receiving;
                UploadAction::NextChunk
            },
        }
    }

    /// Handles the next chunk of the file field, given by its length.  The
    /// end of the field flushes the file; a multipart error answers with it;
    /// a chunk that would take the total past 10 MiB aborts the upload,
    /// removing the submission directory; any other chunk is written.
    pub fn on_chunk(&mut self, chunk: Option<Result<usize, String>>) -> (action: UploadAction)
        requires
            old(self).wf(),
            old(self).phase == UploadPhase::Receiving,
        ensures
            final(self).wf(),
            same_submission(*final(self), *old(self)),
            final(self).chunks@ == old(self).chunks@,
            final(self).written == old(self).written,
            match chunk {
                None => final(self).phase == UploadPhase::Flushing && action is Flush,
                Some(Err(e)) => final(self).phase == UploadPhase::Done && is_reply_err(
                    action,
                    ErrorView::MultipartError(e@),
                ),
                Some(Ok(len)) => if old(self).written + len > MAX_PAYLOAD_BYTES {
                    &&& final(self).phase == UploadPhase::Done
                    &&& action matches UploadAction::Abort { dir, error } && dir@ == old(
                        self,
                    ).dir@ && error@ == ErrorView::PayloadTooLarge
                } else {
                    &&& final(self).phase == UploadPhase::Writing
                    &&& final(self).pending == old(self).written + len
                    &&& action is WriteChunk
                },
            },
    {
        match chunk {
            None => {
                self.phase = UploadPhase::Flushing;
                UploadAction::Flush
            },
            Some(Err(e)) => {
                self.phase = UploadPhase::Done;
                UploadAction::Reply { outcome: Err(SubmissionError::MultipartError(e)) }
            },
            Some(Ok(len)) => {
                let len = len as u64;
                if len > MAX_PAYLOAD_BYTES - self.written {
                    self.phase = UploadPhase::Done;
                    UploadAction::Abort { dir: self.dir.clone(), error: SubmissionError::PayloadTooLarge }
                } else {
                    self.pending = self.written + len;
                    self.phase = UploadPhase::Writing;
                    UploadAction::WriteChunk
                }
            },
        }
    }

    /// Handles the write of the current chunk: a failure answers with an
    /// I/O error, a success counts the chunk and reads the next one.
    pub fn on_chunk_written(&mut self, outcome: Result<(), String>) -> (action: UploadAction)
        requires
            old(self).wf(),
            old(self).phase == UploadPhase::Writing,
        ensures
            final(self).wf(),
            same_submission(*final(self), *old(self)),
            outcome is Ok ==> final(self).chunks@ == old(self).chunks@.push(
                (old(self).pending - old(self).written) as nat,
            ),
            outcome is Err ==> final(self).chunks@ == old(self).chunks@,
            match outcome {
                Err(e) => final(self).phase == UploadPhase::Done && final(self).written == old(
                    self,
                ).written && is_reply_err(action, ErrorView::IoError(e@)),
                Ok(()) => final(self).phase == UploadPhase::Receiving && final(self).written
                    == old(self).pending && action is NextChunk,
            },
    {
        match outcome {
            Err(e) => {
                self.phase = UploadPhase::Done;
                self.pending = self.written;
                UploadAction::Reply { outcome: Err(SubmissionError::IoError(e)) }
            },
            Ok(()) => {
                proof {
                    let added = (self.pending - self.written) as nat;
                    assert(self.chunks@.push(added).drop_last() =~= self.chunks@);
                    self.chunks@ = self.chunks@.push(added);
                }
                self.written = self.pending;
                self.phase = UploadPhase::Receiving;
                UploadAction::NextChunk
            },
        }
    }

    /// Handles the flush of the file: a failure answers with an I/O error,
    /// a success shuts the file down.
    pub fn on_flushed(&mut self, outcome: Result<(), String>) -> (action: UploadAction)
        requires
            old(self).wf(),
            old(self).phase == UploadPhase::Flushing,
        ensures
            final(self).wf(),
            same_submission(*final(self), *old(self)),
            final(self).chunks@ == old(self).chunks@,
            final(self).written == old(self).written,
            match outcome {
                Err(e) => final(self).phase == UploadPhase::Done && is_reply_err(
                    action,
                    ErrorView::IoError(e@),
                ),
                Ok(()) => final(self).phase == UploadPhase::ShuttingDown && action is ShutDown,
            },
    {
        match outcome {
            Err(e) => {
                self.phase = UploadPhase::Done;
                UploadAction::Reply { outcome: Err(SubmissionError::IoError(e)) }
            },
            Ok(()) => {
                self.phase = UploadPhase::ShuttingDown;
                UploadAction::ShutDown
            },
        }
    }

    /// Handles the shutdown of the file: a failure answers with an I/O
    /// error, a success accepts the submission with the number of bytes
    /// written.
    pub fn on_shut_down(&mut self, outcome: Result<(), String>) -> (action: UploadAction)
        requires
            old(self).wf(),
            old(self).phase == UploadPhase::ShuttingDown,
        ensures
            final(self).wf(),
            same_submission(*final(self), *old(self)),
            final(self).chunks@ == old(self).chunks@,
            final(self).phase == UploadPhase::Done,
            final(self).written == old(self).written,
            match outcome {
                Err(e) => is_reply_err(action, ErrorView::IoError(e@)),
                Ok(()) => {
                    &&& action matches UploadAction::Reply { outcome: Ok(accepted) }
                    &&& accepted.submission_id@ == old(self).submission_id@
                    &&& accepted.file_size_bytes == old(self).written
                    &&& accepted.file_size_bytes == total_len(old(self).chunks@)
                    &&& accepted.file_size_bytes <= MAX_PAYLOAD_BYTES
                },
            },
    {
        self.phase = UploadPhase::Done;
        match outcome {
            Err(e) => UploadAction::Reply { outcome: Err(SubmissionError::IoError(e)) },
            Ok(()) => UploadAction::Reply {
                outcome: Ok(
                    SubmissionAccepted {
                        submission_id: self.submission_id.clone(),
                        file_size_bytes: self.written,
                    },
                ),
            },
        }
    }
}

} // verus!

verus! {

/// A submission identified by a UUID lives in its own directory directly
/// under the base directory: `<base>/<id>`.
pub proof fn lemma_uuid_submission_dir(submission_id: Seq<char>)
    requires
        is_uuid_text(submission_id),
    ensures
        submission_dir_of(submission_id) == crate::paths::base_dir() + seq!['/'] + submission_id,
{
    assert(is_lower_hex(submission_id[0]));
    crate::paths::lemma_submission_dir_under_base(submission_id);
}

/// An archive uploaded as a zip is stored exactly where the builder looks
/// for the archive to unpack; one uploaded as gzip is stored elsewhere, so
/// the builder never finds it.
pub proof fn lemma_upload_reaches_builder(submission_id: Seq<char>)
    ensures
        upload_path_of(submission_id, ArchiveKind::Zip) == crate::builder::zip_path_of(
            submission_id,
        ),
        upload_path_of(submission_id, ArchiveKind::Gzip) != crate::builder::zip_path_of(
            submission_id,
        ),
{
    reveal_strlit("submission.");
    reveal_strlit("zip");
    reveal_strlit("gz");
    reveal_strlit("submission.zip");
    assert(upload_name_of(ArchiveKind::Zip) =~= "submission.zip"@);
    let dir = submission_dir_of(submission_id);
    let gz = upload_name_of(ArchiveKind::Gzip);
    let zip = upload_name_of(ArchiveKind::Zip);
    assert(gz.len() == 13);
    assert(zip.len() == 14);
    assert(gz[0] == 's');
    assert(zip[0] == 's');
    assert(joined(dir, gz).len() + 1 == joined(dir, zip).len());
}

} // verus!

verus! {

/// Where the processing of an accepted submission is in its course.
#[derive(Debug, Clone, Copy, PartialEq, Eq, Structural)]
pub enum PipelineStage {
    Building,
    Running,
    Done,
}

/// What the driver of an accepted submission's processing has to do next.
pub enum PipelineAction {
    /// Build the image of the submission.
    Build { submission_id: String },
    /// Run the built image of the submission.
    Run { submission_id: String },
    /// Stop: the build failed with `error`, and nothing is run.
    BuildFailed { error: SubmissionError },
    /// Stop: the run failed with `error`.
    RunFailed { error: SubmissionError },
    /// Stop: the submission was built and run.
    Finished,
}

/// The processing of an accepted submission in the background: its image
/// is built, and only a successful build is run.
pub struct SubmissionPipeline {
    pub stage: PipelineStage,
    pub submission_id: String,
}

impl SubmissionPipeline {
    /// Starts processing submission `submission_id`; the first action is to
    /// build its image.
    pub fn start(submission_id: &str) -> (res: (SubmissionPipeline, PipelineAction))
        ensures
            res.0.stage == PipelineStage::Building,
            res.0.submission_id@ == submission_id@,
            res.1 matches PipelineAction::Build { submission_id: id } && id@ == submission_id@,
    {
        (
            SubmissionPipeline {
                stage: PipelineStage::Building,
                submission_id: String::from_str(submission_id),
            },
            PipelineAction::Build { submission_id: String::from_str(submission_id) },
        )
    }

    /// Handles the end of the build: a failure stops, a success runs the image.
    pub fn on_built(&mut self, outcome: Result<(), SubmissionError>) -> (action: PipelineAction)
        requires
            old(self).stage == PipelineStage::Building,
        ensures
            final(self).submission_id == old(self).submission_id,
            match outcome {
                Err(e) => {
                    &&& final(self).stage == PipelineStage::Done
                    &&& action matches PipelineAction::BuildFailed { error } && error@ == e@
                },
                Ok(()) => {
                    &&& final(self).stage == PipelineStage::Running
                    &&& action matches PipelineAction::Run { submission_id } && submission_id@
                        == old(self).submission_id@
                },
            },
    {
        match outcome {
            Err(error) => {
                self.stage = PipelineStage::Done;
                PipelineAction::BuildFailed { error }
            },
            Ok(()) => {
                self.stage = PipelineStage::Running;
                PipelineAction::Run { submission_id: self.submission_id.clone() }
            },
        }
    }

    /// Handles the end of the run: it stops, reporting a failure if there was one.
    pub fn on_run(&mut self, outcome: Result<(), SubmissionError>) -> (action: PipelineAction)
        requires
            old(self).stage == PipelineStage::Running,
        ensures
            final(self).submission_id == old(self).submission_id,
            final(self).stage == PipelineStage::Done,
            match outcome {
                Err(e) => action matches PipelineAction::RunFailed { error } && error@ == e@,
                Ok(()) => action is Finished,
            },
    {
        self.stage = PipelineStage::Done;
        match outcome {
            Err(error) => PipelineAction::RunFailed { error },
            Ok(()) => PipelineAction::Finished,
        }
    }
}

} // verus!

verus! {

/// Exactly two media types are accepted: "application/zip", as a zip
/// archive, and "application/gzip", as a gzip archive.  Any other media
/// type is refused as unsupported, naming that type, and a field without
/// one is refused as "missing Content-Type".
pub proof fn lemma_accepted_media_types(ct: Option<Seq<char>>)
    ensures
        content_type_verdict(ct) == Ok::<ArchiveKind, ErrorView>(ArchiveKind::Zip) <==> ct == Some(
            "application/zip"@,
        ),
        content_type_verdict(ct) == Ok::<ArchiveKind, ErrorView>(ArchiveKind::Gzip) <==> ct == Some(
            "application/gzip"@,
        ),
        forall|m: Seq<char>|
            ct == Some(m) && m != "application/zip"@ && m != "application/gzip"@
                ==> content_type_verdict(ct) == Err::<ArchiveKind, ErrorView>(
                ErrorView::InvalidMimeType(m),
            ),
        ct == None::<Seq<char>> ==> content_type_verdict(ct) == Err::<ArchiveKind, ErrorView>(
            ErrorView::InvalidMimeType("missing Content-Type"@),
        ),
{
    reveal_strlit("application/zip");
    reveal_strlit("application/gzip");
    assert("application/zip"@ != "application/gzip"@) by {
        assert("application/zip"@[12] != "application/gzip"@[12]);
    }
}

} // verus!
