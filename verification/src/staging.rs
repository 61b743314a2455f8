//! Where the voice attachment of an inbound message is staged, and how staging
//! can end.
//!
//! The relay does not move bytes itself. It says which operation comes next:
//! resolve the remote file, find the working directory, create the local file,
//! copy the bytes. The caller performs it and reports how it went. The first
//! failure ends staging; when all four went through, the attachment is stored.

use vstd::prelude::*;

verus! {

/// The directory, below the working directory, that staged files are written to.
pub const STAGING_DIR: &'static str = "tmp";

/// The extension of a staged voice file.
pub const STAGING_EXTENSION: &'static str = "ogg";

/// The path of the local file for the remote file `file_id`:
/// `<working_dir>/tmp/<file_id>.ogg`.
pub open spec fn staging_path_spec(working_dir: Seq<char>, file_id: Seq<char>) -> Seq<char> {
    working_dir + seq!['/'] + STAGING_DIR@ + seq!['/'] + file_id + seq!['.'] + STAGING_EXTENSION@
}

/// Names the local file that the remote file `file_id` is staged in.
pub fn staging_path(working_dir: &str, file_id: &str) -> (path: String)
    ensures
        path@ == staging_path_spec(working_dir@, file_id@),
{
    proof {
        reveal_strlit("/");
        reveal_strlit(".");
    }
    let mut path = String::from_str(working_dir);
    path.append("/");
    path.append(STAGING_DIR);
    path.append("/");
    path.append(file_id);
    path.append(".");
    path.append(STAGING_EXTENSION);
    assert("/"@ =~= seq!['/']);
    assert("."@ =~= seq!['.']);
    path
}

/// A voice attachment that has been written to local storage.
#[derive(Clone, Debug, PartialEq, Eq)]
pub struct StagedAttachment {
    working_dir: String,
    file_id: String,
}

/// The mathematical content of a [`StagedAttachment`].
pub struct StagedAttachmentView {
    pub working_dir: Seq<char>,
    pub file_id: Seq<char>,
}

impl StagedAttachmentView {
    /// The path of the staged file.
    pub open spec fn path(self) -> Seq<char> {
        staging_path_spec(self.working_dir, self.file_id)
    }
}

impl View for StagedAttachment {
    type V = StagedAttachmentView;

    closed spec fn view(&self) -> StagedAttachmentView {
        StagedAttachmentView { working_dir: self.working_dir@, file_id: self.file_id@ }
    }
}

impl StagedAttachment {
    /// The attachment for the remote file `file_id`, staged below `working_dir`.
    pub fn new(working_dir: String, file_id: String) -> (attachment: StagedAttachment)
        ensures
            attachment@ == (StagedAttachmentView { working_dir: working_dir@, file_id: file_id@ }),
    {
        StagedAttachment { working_dir, file_id }
    }

    /// The identifier of the remote file.
    pub fn file_id(&self) -> (file_id: &String)
        ensures
            file_id@ == self@.file_id,
    {
        &self.file_id
    }

    /// The working directory the file was staged below.
    pub fn working_dir(&self) -> (working_dir: &String)
        ensures
            working_dir@ == self@.working_dir,
    {
        &self.working_dir
    }

    /// The path of the staged file.
    pub fn path(&self) -> (path: String)
        ensures
            path@ == self@.path(),
    {
        staging_path(self.working_dir.as_str(), self.file_id.as_str())
    }
}

/// The step of staging that failed.
#[derive(Clone, Copy, Debug, PartialEq, Eq, Structural)]
pub enum StagingStage {
    /// The remote file could not be resolved to something downloadable.
    Resolution,
    /// The local file could not be created.
    Creation,
    /// The bytes could not be copied into the local file.
    Streaming,
}

/// Why an attachment could not be staged.
#[derive(Clone, Debug, PartialEq, Eq)]
pub struct StagingFailure {
    pub stage: StagingStage,
    /// What the failing operation reported.
    pub detail: String,
}

/// The mathematical content of a [`StagingFailure`].
pub struct StagingFailureView {
    pub stage: StagingStage,
    pub detail: Seq<char>,
}

impl View for StagingFailure {
    type V = StagingFailureView;

    open spec fn view(&self) -> StagingFailureView {
        StagingFailureView { stage: self.stage, detail: self.detail@ }
    }
}

/// How staging ended for one inbound message.
#[derive(Clone, Debug, PartialEq, Eq)]
pub enum Staging {
    /// Nothing was staged.
    Skipped,
    /// The attachment is in local storage.
    Stored(StagedAttachment),
    /// Staging was attempted and failed.
    Failed(StagingFailure),
}

/// The mathematical content of a [`Staging`].
pub enum StagingView {
    Skipped,
    Stored(StagedAttachmentView),
    Failed(StagingFailureView),
}

impl View for Staging {
    type V = StagingView;

    open spec fn view(&self) -> StagingView {
        match self {
            Staging::Skipped => StagingView::Skipped,
            Staging::Stored(attachment) => StagingView::Stored(attachment@),
            Staging::Failed(failure) => StagingView::Failed(failure@),
        }
    }
}

/// The mathematical content of what an operation reported: on success the text
/// it produced, on failure what it said went wrong.
pub open spec fn text_outcome(outcome: Result<String, String>) -> Result<Seq<char>, Seq<char>> {
    match outcome {
        Ok(text) => Ok(text@),
        Err(detail) => Err(detail@),
    }
}

/// The mathematical content of what an operation without a result reported.
pub open spec fn unit_outcome(outcome: Result<(), String>) -> Result<(), Seq<char>> {
    match outcome {
        Ok(()) => Ok(()),
        Err(detail) => Err(detail@),
    }
}

/// Staging that waits for the remote file to be resolved.
#[derive(Debug, PartialEq, Eq)]
pub struct Resolving {
    file_id: String,
}

/// Staging that waits for the working directory.
#[derive(Debug, PartialEq, Eq)]
pub struct Locating {
    file_id: String,
    remote_path: String,
}

/// Staging that waits for the local file to be created.
#[derive(Debug, PartialEq, Eq)]
pub struct Creating {
    attachment: StagedAttachment,
    remote_path: String,
}

/// Staging that waits for the bytes to be copied.
#[derive(Debug, PartialEq, Eq)]
pub struct Streaming {
    attachment: StagedAttachment,
    remote_path: String,
}

/// Where staging stands, and with it the operation the caller is to perform.
#[derive(Debug, PartialEq, Eq)]
pub enum StagingStep {
    /// Resolve the remote file to what it can be downloaded from.
    Resolve(Resolving),
    /// Find the working directory of the process.
    Locate(Locating),
    /// Create the local file.
    Create(Creating),
    /// Copy the bytes of the remote file into the local file.
    Stream(Streaming),
    /// Staging has ended.
    Done(Staging),
}

/// The mathematical content of a [`StagingStep`].
pub enum StagingStepView {
    Resolve { file_id: Seq<char> },
    Locate { file_id: Seq<char>, remote_path: Seq<char> },
    Create { attachment: StagedAttachmentView, remote_path: Seq<char> },
    Stream { attachment: StagedAttachmentView, remote_path: Seq<char> },
    Done(StagingView),
}

impl View for Resolving {
    type V = StagingStepView;

    closed spec fn view(&self) -> StagingStepView {
        StagingStepView::Resolve { file_id: self.file_id@ }
    }
}

impl View for Locating {
    type V = StagingStepView;

    closed spec fn view(&self) -> StagingStepView {
        StagingStepView::Locate { file_id: self.file_id@, remote_path: self.remote_path@ }
    }
}

impl View for Creating {
    type V = StagingStepView;

    closed spec fn view(&self) -> StagingStepView {
        StagingStepView::Create { attachment: self.attachment@, remote_path: self.remote_path@ }
    }
}

impl View for Streaming {
    type V = StagingStepView;

    closed spec fn view(&self) -> StagingStepView {
        StagingStepView::Stream { attachment: self.attachment@, remote_path: self.remote_path@ }
    }
}

impl View for StagingStep {
    type V = StagingStepView;

    open spec fn view(&self) -> StagingStepView {
        match self {
            StagingStep::Resolve(job) => job@,
            StagingStep::Locate(job) => job@,
            StagingStep::Create(job) => job@,
            StagingStep::Stream(job) => job@,
            StagingStep::Done(staging) => StagingStepView::Done(staging@),
        }
    }
}

/// The end of staging at `stage` with what the failed operation reported.
pub open spec fn failed_at(stage: StagingStage, detail: Seq<char>) -> StagingStepView {
    StagingStepView::Done(StagingView::Failed(StagingFailureView { stage, detail }))
}

/// The first step for a message: nothing to stage without a voice attachment,
/// else the remote file of the attachment is to be resolved.
pub open spec fn begin_staging_spec(voice: Option<Seq<char>>) -> StagingStepView {
    match voice {
        None => StagingStepView::Done(StagingView::Skipped),
        Some(file_id) => StagingStepView::Resolve { file_id },
    }
}

/// The step that follows `step` when its operation reported `outcome`.
///
/// A success leads from resolving to locating, from there to creating the file
/// `<working directory>/tmp/<file id>.ogg`, from there to streaming, and from
/// there to the stored attachment. A failure ends staging at the stage of the
/// operation that failed; finding the working directory counts as part of
/// creating the file. A text that an operation without a result reports is not
/// read. Staging that has ended stays as it is.
pub open spec fn staging_step_spec(
    step: StagingStepView,
    outcome: Result<Seq<char>, Seq<char>>,
) -> StagingStepView {
    match step {
        StagingStepView::Resolve { file_id } => match outcome {
            Ok(remote_path) => StagingStepView::Locate { file_id, remote_path },
            Err(detail) => failed_at(StagingStage::Resolution, detail),
        },
        StagingStepView::Locate { file_id, remote_path } => match outcome {
            Ok(working_dir) => StagingStepView::Create {
                attachment: StagedAttachmentView { working_dir, file_id },
                remote_path,
            },
            Err(detail) => failed_at(StagingStage::Creation, detail),
        },
        StagingStepView::Create { attachment, remote_path } => match outcome {
            Ok(_) => StagingStepView::Stream { attachment, remote_path },
            Err(detail) => failed_at(StagingStage::Creation, detail),
        },
        StagingStepView::Stream { attachment, remote_path } => match outcome {
            Ok(_) => StagingStepView::Done(StagingView::Stored(attachment)),
            Err(detail) => failed_at(StagingStage::Streaming, detail),
        },
        StagingStepView::Done(staging) => StagingStepView::Done(staging),
    }
}

/// The outcome of an operation without a result, as [`staging_step_spec`] takes it.
pub open spec fn without_text(outcome: Result<(), Seq<char>>) -> Result<Seq<char>, Seq<char>> {
    match outcome {
        Ok(()) => Ok(Seq::empty()),
        Err(detail) => Err(detail),
    }
}

/// Starts staging for a message whose voice attachment, if any, is `voice`.
pub fn begin_staging(voice: &Option<String>) -> (step: StagingStep)
    ensures
        step@ == begin_staging_spec(voice.deep_view()),
{
    match voice {
        None => StagingStep::Done(Staging::Skipped),
        Some(file_id) => StagingStep::Resolve(Resolving { file_id: file_id.clone() }),
    }
}

fn failed(stage: StagingStage, detail: String) -> (step: StagingStep)
    ensures
        step@ == failed_at(stage, detail@),
{
    StagingStep::Done(Staging::Failed(StagingFailure { stage, detail }))
}

impl Resolving {
    /// The identifier of the remote file to resolve.
    pub fn file_id(&self) -> (file_id: &String)
        ensures
            self@ == (StagingStepView::Resolve { file_id: file_id@ }),
    {
        &self.file_id
    }

    /// Takes the outcome of resolving: the path under which the remote file can
    /// be downloaded, or what went wrong.
    pub fn resolved(self, outcome: Result<String, String>) -> (step: StagingStep)
        ensures
            step@ == staging_step_spec(self@, text_outcome(outcome)),
    {
        match outcome {
            Ok(remote_path) => StagingStep::Locate(
                Locating { file_id: self.file_id, remote_path },
            ),
            Err(detail) => failed(StagingStage::Resolution, detail),
        }
    }
}

impl Locating {
    /// Takes the outcome of finding the working directory: the directory, or what
    /// went wrong.
    pub fn located(self, outcome: Result<String, String>) -> (step: StagingStep)
        ensures
            step@ == staging_step_spec(self@, text_outcome(outcome)),
    {
        match outcome {
            Ok(working_dir) => StagingStep::Create(
                Creating {
                    attachment: StagedAttachment::new(working_dir, self.file_id),
                    remote_path: self.remote_path,
                },
            ),
            Err(detail) => failed(StagingStage::Creation, detail),
        }
    }
}

impl Creating {
    /// The path of the local file to create.
    pub fn path(&self) -> (path: String)
        ensures
            self@ matches StagingStepView::Create { attachment, .. } && path@ == attachment.path(),
    {
        self.attachment.path()
    }

    /// Takes the outcome of creating the local file.
    pub fn created(self, outcome: Result<(), String>) -> (step: StagingStep)
        ensures
            step@ == staging_step_spec(self@, without_text(unit_outcome(outcome))),
    {
        match outcome {
            Ok(()) => StagingStep::Stream(
                Streaming { attachment: self.attachment, remote_path: self.remote_path },
            ),
            Err(detail) => failed(StagingStage::Creation, detail),
        }
    }
}

impl Streaming {
    /// The path under which the remote file can be downloaded.
    pub fn remote_path(&self) -> (remote_path: &String)
        ensures
            self@ matches StagingStepView::Stream { remote_path: from, .. } && remote_path@ == from,
    {
        &self.remote_path
    }

    /// The path of the local file to copy into.
    pub fn path(&self) -> (path: String)
        ensures
            self@ matches StagingStepView::Stream { attachment, .. } && path@ == attachment.path(),
    {
        self.attachment.path()
    }

    /// Takes the outcome of copying the bytes.
    pub fn streamed(self, outcome: Result<(), String>) -> (step: StagingStep)
        ensures
            step@ == staging_step_spec(self@, without_text(unit_outcome(outcome))),
    {
        match outcome {
            Ok(()) => StagingStep::Done(Staging::Stored(self.attachment)),
            Err(detail) => failed(StagingStage::Streaming, detail),
        }
    }
}

/// How staging ends for a message with voice attachment `file_id` when the four
/// operations report `resolved`, `located`, `created` and `streamed`. An operation
/// that is never reached has its outcome ignored.
pub open spec fn staging_run(
    file_id: Seq<char>,
    resolved: Result<Seq<char>, Seq<char>>,
    located: Result<Seq<char>, Seq<char>>,
    created: Result<(), Seq<char>>,
    streamed: Result<(), Seq<char>>,
) -> StagingStepView {
    let first = begin_staging_spec(Some(file_id));
    let second = staging_step_spec(first, resolved);
    let third = staging_step_spec(second, located);
    let fourth = staging_step_spec(third, without_text(created));
    staging_step_spec(fourth, without_text(streamed))
}

/// The first failure among the four operations of staging, if any failed: the
/// stage it counts to and what the operation reported.
pub open spec fn first_failure(
    resolved: Result<Seq<char>, Seq<char>>,
    located: Result<Seq<char>, Seq<char>>,
    created: Result<(), Seq<char>>,
    streamed: Result<(), Seq<char>>,
) -> Option<StagingFailureView> {
    if resolved is Err {
        Some(StagingFailureView { stage: StagingStage::Resolution, detail: resolved->Err_0 })
    } else if located is Err {
        Some(StagingFailureView { stage: StagingStage::Creation, detail: located->Err_0 })
    } else if created is Err {
        Some(StagingFailureView { stage: StagingStage::Creation, detail: created->Err_0 })
    } else if streamed is Err {
        Some(StagingFailureView { stage: StagingStage::Streaming, detail: streamed->Err_0 })
    } else {
        None
    }
}

/// Staging ends after at most four operations. The attachment is stored exactly
/// when all four went through, and it is then the file of this attachment below
/// the working directory that was found. Otherwise staging has failed at the
/// first operation that failed, with what that operation reported.
pub proof fn lemma_staging_run(
    file_id: Seq<char>,
    resolved: Result<Seq<char>, Seq<char>>,
    located: Result<Seq<char>, Seq<char>>,
    created: Result<(), Seq<char>>,
    streamed: Result<(), Seq<char>>,
)
    ensures
        staging_run(file_id, resolved, located, created, streamed) == StagingStepView::Done(
            match first_failure(resolved, located, created, streamed) {
                None => StagingView::Stored(
                    StagedAttachmentView { working_dir: located->Ok_0, file_id },
                ),
                Some(failure) => StagingView::Failed(failure),
            },
        ),
        first_failure(resolved, located, created, streamed) is None <==> resolved is Ok && located
            is Ok && created is Ok && streamed is Ok,
{
}

} // verus!
