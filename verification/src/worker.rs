use crate::commands::DownloadTicket;
use crate::downloads::{
    after_finish, after_progress, after_transfer_start, record_of, DownloadManager, DownloadStatus,
    RecordView,
};
use crate::error::CoreError;
use crate::events::{closing_event, progress_event, started_event, DownloadEvent, EventStatus, EventView};
use crate::catalog::ModelInfo;
use vstd::prelude::*;

verus! {

/// How many bytes a worker reads from the response at a time; progress is
/// reported once for every chunk.
pub const DOWNLOAD_CHUNK_BYTES: usize = 65536;

/// On which side a download broke off.
#[derive(Clone, Copy, Debug, PartialEq, Eq, Structural)]
pub enum FailureKind {
    Network,
    Io,
}

/// Where a download worker stands. Each phase but the last two waits for
/// the outcome of one piece of outside work.
#[derive(Clone, Copy, Debug, PartialEq, Eq, Structural)]
pub enum Phase {
    PreparingDir,
    ClearingStaleTemp,
    Requesting,
    CreatingTemp,
    Transferring,
    Syncing,
    RemovingOld,
    Publishing,
    CleaningUp,
    Completed,
    Failed,
}

/// The outside work that a worker asks for.
#[derive(Clone, Copy, Debug, PartialEq, Eq, Structural)]
pub enum WorkerAction {
    /// Create the directory that holds the artifacts.
    PrepareDirectory,
    /// Delete a temporary file left by an earlier run, if there is one.
    ClearStaleTemp,
    /// Send the request for the model's bytes.
    SendRequest,
    /// Create the temporary file.
    CreateTemp,
    /// Read the next chunk of the response and write it to the temporary file.
    TransferChunk,
    /// Flush the temporary file and sync it to disk.
    SyncTemp,
    /// Delete the artifact that is to be replaced, if there is one.
    RemoveOldArtifact,
    /// Rename the temporary file to the artifact's final path.
    Publish,
    /// Delete the temporary file of a download that broke off.
    RemoveTemp,
    /// Nothing: the worker is done.
    Stop,
}

/// The outcome of a piece of outside work.
#[derive(Debug)]
pub enum WorkerEvent {
    /// The work was done.
    Done,
    /// The response headers arrived.
    Response { success: bool, status: String, content_length: Option<u64> },
    /// A chunk of `len` bytes was read and written.
    Chunk { len: u64 },
    /// The response has no more bytes.
    EndOfBody,
    /// The work failed.
    Failed { kind: FailureKind, message: String },
}

/// A download worker as a mathematical value.
pub struct TaskView {
    pub name: Seq<char>,
    pub overwrite: bool,
    pub phase: Phase,
    pub downloaded: u64,
    pub total: Option<u64>,
    pub failure: Option<(FailureKind, Seq<char>)>,
    pub temp_removed: bool,
}

/// The work that a phase waits for.
pub open spec fn action_of(phase: Phase) -> WorkerAction {
    match phase {
        Phase::PreparingDir => WorkerAction::PrepareDirectory,
        Phase::ClearingStaleTemp => WorkerAction::ClearStaleTemp,
        Phase::Requesting => WorkerAction::SendRequest,
        Phase::CreatingTemp => WorkerAction::CreateTemp,
        Phase::Transferring => WorkerAction::TransferChunk,
        Phase::Syncing => WorkerAction::SyncTemp,
        Phase::RemovingOld => WorkerAction::RemoveOldArtifact,
        Phase::Publishing => WorkerAction::Publish,
        Phase::CleaningUp => WorkerAction::RemoveTemp,
        Phase::Completed => WorkerAction::Stop,
        Phase::Failed => WorkerAction::Stop,
    }
}

/// The message for a response that is no success.
pub open spec fn http_failure_message(status: Seq<char>) -> Seq<char> {
    "Failed to download model: HTTP "@ + status
}

/// The message for an outcome that the phase does not wait for.
pub open spec fn unexpected_message() -> Seq<char> {
    "Unexpected worker event"@
}

/// The failure, if any, that `event` means to a worker in `phase`. Only
/// the phases that cannot tolerate a failure are asked.
pub open spec fn failure_of(phase: Phase, event: WorkerEvent) -> Option<(FailureKind, Seq<char>)> {
    match event {
        WorkerEvent::Failed { kind, message } => Some((kind, message@)),
        WorkerEvent::Done => if phase == Phase::Requesting || phase == Phase::Transferring {
            Some((FailureKind::Io, unexpected_message()))
        } else {
            None
        },
        WorkerEvent::Response { success, status, content_length } => if phase != Phase::Requesting {
            Some((FailureKind::Io, unexpected_message()))
        } else if success {
            None
        } else {
            Some((FailureKind::Network, http_failure_message(status@)))
        },
        WorkerEvent::Chunk { .. } => if phase == Phase::Transferring {
            None
        } else {
            Some((FailureKind::Io, unexpected_message()))
        },
        WorkerEvent::EndOfBody => if phase == Phase::Transferring {
            None
        } else {
            Some((FailureKind::Io, unexpected_message()))
        },
    }
}

/// The byte count after `len` more bytes, pinned at the largest count.
pub open spec fn counted(downloaded: u64, len: u64) -> u64 {
    if downloaded + len > u64::MAX {
        u64::MAX
    } else {
        (downloaded + len) as u64
    }
}

/// The phase that follows `phase` when its work went well.
pub open spec fn next_phase(phase: Phase, overwrite: bool, event: WorkerEvent) -> Phase {
    match phase {
        Phase::PreparingDir => Phase::ClearingStaleTemp,
        Phase::ClearingStaleTemp => Phase::Requesting,
        Phase::Requesting => Phase::CreatingTemp,
        Phase::CreatingTemp => Phase::Transferring,
        Phase::Transferring => if event is Chunk {
            Phase::Transferring
        } else {
            Phase::Syncing
        },
        Phase::Syncing => if overwrite {
            Phase::RemovingOld
        } else {
            Phase::Publishing
        },
        Phase::RemovingOld => Phase::Publishing,
        Phase::Publishing => Phase::Completed,
        Phase::CleaningUp => Phase::Failed,
        Phase::Completed => Phase::Completed,
        Phase::Failed => Phase::Failed,
    }
}

/// The message of the failure that a worker remembers.
pub open spec fn failure_message(task: TaskView) -> Option<Seq<char>> {
    match task.failure {
        Some(failure) => Some(failure.1),
        None => None,
    }
}

/// The worker after `event`. A finished worker stays as it is. A stale
/// temporary file that cannot be cleared does not stop the download. Any
/// other failure sends the worker to clean up, after which it is Failed and
/// remembers whether the temporary file was removed.
pub open spec fn task_after(task: TaskView, event: WorkerEvent) -> TaskView {
    match task.phase {
        Phase::Completed | Phase::Failed => task,
        Phase::ClearingStaleTemp => TaskView { phase: Phase::Requesting, ..task },
        Phase::CleaningUp => TaskView { phase: Phase::Failed, temp_removed: event is Done, ..task },
        _ => match failure_of(task.phase, event) {
            Some(failure) => TaskView { phase: Phase::CleaningUp, failure: Some(failure), ..task },
            None => TaskView {
                phase: next_phase(task.phase, task.overwrite, event),
                downloaded: match event {
                    WorkerEvent::Chunk { len } => counted(task.downloaded, len),
                    WorkerEvent::Response { .. } => 0,
                    _ => task.downloaded,
                },
                total: match event {
                    WorkerEvent::Response { content_length, .. } => content_length,
                    _ => task.total,
                },
                ..task
            },
        },
    }
}

/// The registry after the worker took `event`: a failure is recorded at
/// once, the response headers start the transfer, each chunk moves the
/// counters, and the rename completes the record.
pub open spec fn registry_after(
    task: TaskView,
    reg: Map<Seq<char>, RecordView>,
    event: WorkerEvent,
) -> Map<Seq<char>, RecordView> {
    match task.phase {
        Phase::Completed | Phase::Failed | Phase::ClearingStaleTemp | Phase::CleaningUp => reg,
        _ => match failure_of(task.phase, event) {
            Some(failure) => after_finish(reg, task.name, Some(failure.1)),
            None => match event {
                WorkerEvent::Response { content_length, .. } => after_transfer_start(
                    reg,
                    task.name,
                    content_length,
                ),
                WorkerEvent::Chunk { len } => after_progress(
                    reg,
                    task.name,
                    counted(task.downloaded, len),
                    task.total,
                ),
                _ => if task.phase == Phase::Publishing {
                    after_finish(reg, task.name, None)
                } else {
                    reg
                },
            },
        },
    }
}

/// The progress event, if any, that the worker gives out on `event`: one
/// for the headers, one for each chunk, one when the artifact is
/// published, and one, after cleaning up, for a download that broke off.
pub open spec fn notice_after(
    task: TaskView,
    reg: Map<Seq<char>, RecordView>,
    event: WorkerEvent,
) -> Option<EventView> {
    match task.phase {
        Phase::Completed | Phase::Failed | Phase::ClearingStaleTemp => None,
        Phase::CleaningUp => Some(
            closing_event(reg, task.name, EventStatus::Error, failure_message(task)),
        ),
        _ => match failure_of(task.phase, event) {
            Some(_) => None,
            None => match event {
                WorkerEvent::Response { content_length, .. } => Some(
                    started_event(task.name, content_length),
                ),
                WorkerEvent::Chunk { len } => Some(
                    progress_event(task.name, counted(task.downloaded, len), task.total),
                ),
                _ => if task.phase == Phase::Publishing {
                    Some(
                        closing_event(
                            after_finish(reg, task.name, None),
                            task.name,
                            EventStatus::Completed,
                            None,
                        ),
                    )
                } else {
                    None
                },
            },
        },
    }
}

/// A download worker: it asks for one piece of outside work at a time and
/// decides from each outcome what comes next.
pub struct DownloadTask {
    model: ModelInfo,
    overwrite: bool,
    phase: Phase,
    downloaded: u64,
    total: Option<u64>,
    failure: Option<(FailureKind, String)>,
    temp_removed: bool,
}

impl View for DownloadTask {
    type V = TaskView;

    closed spec fn view(&self) -> TaskView {
        TaskView {
            name: self.model.name@,
            overwrite: self.overwrite,
            phase: self.phase,
            downloaded: self.downloaded,
            total: self.total,
            failure: match self.failure {
                Some((kind, message)) => Some((kind, message@)),
                None => None,
            },
            temp_removed: self.temp_removed,
        }
    }
}

/// The worker that has done nothing yet.
pub open spec fn new_task(name: Seq<char>, overwrite: bool) -> TaskView {
    TaskView {
        name,
        overwrite,
        phase: Phase::PreparingDir,
        downloaded: 0,
        total: None,
        failure: None,
        temp_removed: false,
    }
}

impl DownloadTask {
    /// The model that this worker fetches.
    pub closed spec fn model(&self) -> ModelInfo {
        self.model
    }

    /// The worker for a claimed download.
    pub fn new(ticket: &DownloadTicket) -> (r: Self)
        ensures
            r@ == new_task(ticket.model.name@, ticket.overwrite),
            r.model() == ticket.model,
    {
        DownloadTask {
            model: ticket.model,
            overwrite: ticket.overwrite,
            phase: Phase::PreparingDir,
            downloaded: 0,
            total: None,
            failure: None,
            temp_removed: false,
        }
    }

    /// The catalog entry of the model that this worker fetches.
    pub fn model_info(&self) -> (r: ModelInfo)
        ensures
            r == self.model(),
            r.name@ == self@.name,
    {
        self.model
    }

    /// The phase that the worker is in.
    pub fn phase(&self) -> (r: Phase)
        ensures
            r == self@.phase,
    {
        self.phase
    }

    /// The outside work that the worker waits for.
    pub fn action(&self) -> (r: WorkerAction)
        ensures
            r == action_of(self@.phase),
    {
        match self.phase {
            Phase::PreparingDir => WorkerAction::PrepareDirectory,
            Phase::ClearingStaleTemp => WorkerAction::ClearStaleTemp,
            Phase::Requesting => WorkerAction::SendRequest,
            Phase::CreatingTemp => WorkerAction::CreateTemp,
            Phase::Transferring => WorkerAction::TransferChunk,
            Phase::Syncing => WorkerAction::SyncTemp,
            Phase::RemovingOld => WorkerAction::RemoveOldArtifact,
            Phase::Publishing => WorkerAction::Publish,
            Phase::CleaningUp => WorkerAction::RemoveTemp,
            Phase::Completed => WorkerAction::Stop,
            Phase::Failed => WorkerAction::Stop,
        }
    }

    /// Why the download broke off, as an error of the core; `None` while
    /// it has not.
    pub fn failure_kind(&self) -> (r: Option<CoreError>)
        ensures
            r == (match self@.failure {
                Some(failure) => Some(
                    if failure.0 == FailureKind::Network {
                        CoreError::NetworkFailure
                    } else {
                        CoreError::IoFailure
                    },
                ),
                None => None,
            }),
    {
        match &self.failure {
            Some((kind, _)) => match kind {
                FailureKind::Network => Some(CoreError::NetworkFailure),
                FailureKind::Io => Some(CoreError::IoFailure),
            },
            None => None,
        }
    }

    /// Whether the temporary file of a download that broke off was removed.
    pub fn temp_removed(&self) -> (r: bool)
        ensures
            r == self@.temp_removed,
    {
        self.temp_removed
    }

    /// Sends the worker to clean up after a failure, which is recorded in
    /// the registry at once.
    fn fail(&mut self, downloads: &mut DownloadManager, kind: FailureKind, message: String)
        ensures
            final(self)@ == (TaskView {
                phase: Phase::CleaningUp,
                failure: Some((kind, message@)),
                ..old(self)@
            }),
            final(self).model() == old(self).model(),
            final(downloads)@ == after_finish(old(downloads)@, old(self)@.name, Some(message@)),
    {
        downloads.finish(self.model.name, Err(message.clone()));
        self.failure = Some((kind, message));
        self.phase = Phase::CleaningUp;
    }

    /// Takes the outcome of the work that the worker waited for: moves to
    /// the next phase, brings the registry up to date, and gives the
    /// progress event to send out, if there is one.
    pub fn advance(&mut self, downloads: &mut DownloadManager, event: WorkerEvent) -> (notice: Option<
        DownloadEvent,
    >)
        ensures
            final(self)@ == task_after(old(self)@, event),
            final(self).model() == old(self).model(),
            final(downloads)@ == registry_after(old(self)@, old(downloads)@, event),
            match notice {
                Some(n) => notice_after(old(self)@, old(downloads)@, event) == Some(n@),
                None => notice_after(old(self)@, old(downloads)@, event) is None,
            },
    {
        match self.phase {
            Phase::Completed | Phase::Failed => None,
            Phase::ClearingStaleTemp => {
                self.phase = Phase::Requesting;
                None
            },
            Phase::CleaningUp => {
                self.temp_removed = match event {
                    WorkerEvent::Done => true,
                    _ => false,
                };
                self.phase = Phase::Failed;
                let message = match &self.failure {
                    Some((_, text)) => Some(text.clone()),
                    None => None,
                };
                Some(DownloadEvent::closing(downloads, self.model.name, EventStatus::Error, message))
            },
            Phase::Requesting => match event {
                WorkerEvent::Failed { kind, message } => {
                    self.fail(downloads, kind, message);
                    None
                },
                WorkerEvent::Response { success, status, content_length } => {
                    if success {
                        downloads.begin_transfer(self.model.name, content_length);
                        self.downloaded = 0;
                        self.total = content_length;
                        self.phase = Phase::CreatingTemp;
                        Some(DownloadEvent::started(self.model.name, content_length))
                    } else {
                        let mut message = "Failed to download model: HTTP ".to_owned();
                        message.append(status.as_str());
                        self.fail(downloads, FailureKind::Network, message);
                        None
                    }
                },
                _ => {
                    self.fail(downloads, FailureKind::Io, "Unexpected worker event".to_owned());
                    None
                },
            },
            Phase::Transferring => match event {
                WorkerEvent::Failed { kind, message } => {
                    self.fail(downloads, kind, message);
                    None
                },
                WorkerEvent::Chunk { len } => {
                    let downloaded = if len > u64::MAX - self.downloaded {
                        u64::MAX
                    } else {
                        self.downloaded + len
                    };
                    self.downloaded = downloaded;
                    downloads.update_progress(self.model.name, downloaded, self.total);
                    Some(DownloadEvent::progress(self.model.name, downloaded, self.total))
                },
                WorkerEvent::EndOfBody => {
                    self.phase = Phase::Syncing;
                    None
                },
                _ => {
                    self.fail(downloads, FailureKind::Io, "Unexpected worker event".to_owned());
                    None
                },
            },
            _ => match event {
                WorkerEvent::Failed { kind, message } => {
                    self.fail(downloads, kind, message);
                    None
                },
                WorkerEvent::Done => {
                    match self.phase {
                        Phase::PreparingDir => {
                            self.phase = Phase::ClearingStaleTemp;
                            None
                        },
                        Phase::CreatingTemp => {
                            self.phase = Phase::Transferring;
                            None
                        },
                        Phase::Syncing => {
                            self.phase = if self.overwrite {
                                Phase::RemovingOld
                            } else {
                                Phase::Publishing
                            };
                            None
                        },
                        Phase::RemovingOld => {
                            self.phase = Phase::Publishing;
                            None
                        },
                        _ => {
                            downloads.finish(self.model.name, Ok(()));
                            self.phase = Phase::Completed;
                            Some(
                                DownloadEvent::closing(
                                    downloads,
                                    self.model.name,
                                    EventStatus::Completed,
                                    None,
                                ),
                            )
                        },
                    }
                },
                _ => {
                    self.fail(downloads, FailureKind::Io, "Unexpected worker event".to_owned());
                    None
                },
            },
        }
    }
}

/// What the disk holds for the model of one worker: its artifact under the
/// final path, and the temporary file that a download is written to.
pub struct Files {
    pub artifact: bool,
    pub temp: bool,
}

/// The disk after a piece of outside work with outcome `event`, where the
/// worker is the only one to touch the two files. Work that was done has
/// its effect: clearing and cleaning up remove the temporary file,
/// creating it makes it, removing the old artifact removes that, and the
/// rename turns the temporary file into the artifact. Work with any other
/// outcome leaves the disk as it was.
pub open spec fn files_after(action: WorkerAction, event: WorkerEvent, files: Files) -> Files {
    if !(event is Done) {
        files
    } else {
        match action {
            WorkerAction::ClearStaleTemp | WorkerAction::RemoveTemp => Files {
                temp: false,
                ..files
            },
            WorkerAction::CreateTemp => Files { temp: true, ..files },
            WorkerAction::RemoveOldArtifact => Files { artifact: false, ..files },
            WorkerAction::Publish => Files { artifact: true, temp: false },
            _ => files,
        }
    }
}

/// The worker and the disk after the outcomes `events`, one after the
/// other, each being the outcome of the work that the worker waited for.
pub open spec fn run(task: TaskView, files: Files, events: Seq<WorkerEvent>) -> (TaskView, Files)
    decreases events.len(),
{
    if events.len() == 0 {
        (task, files)
    } else {
        let before = run(task, files, events.drop_last());
        (
            task_after(before.0, events.last()),
            files_after(action_of(before.0.phase), events.last(), before.1),
        )
    }
}

/// What holds of a worker and the disk at every point of a run that began
/// with the artifact present or not as `artifact_before` says.
pub open spec fn run_invariant(task: TaskView, files: Files, artifact_before: bool) -> bool {
    &&& task.phase == Phase::Completed ==> files.artifact && !files.temp
    &&& task.phase == Phase::Failed && task.temp_removed ==> !files.temp
    &&& files.artifact ==> artifact_before || task.phase == Phase::Completed
    &&& task.phase == Phase::Failed || task.phase == Phase::CleaningUp <==> task.failure is Some
}

/// Every run of a new worker keeps the invariant.
pub proof fn lemma_run_invariant(
    name: Seq<char>,
    overwrite: bool,
    files: Files,
    events: Seq<WorkerEvent>,
)
    ensures
        run_invariant(
            run(new_task(name, overwrite), files, events).0,
            run(new_task(name, overwrite), files, events).1,
            files.artifact,
        ),
    decreases events.len(),
{
    if events.len() > 0 {
        lemma_run_invariant(name, overwrite, files, events.drop_last());
    }
}

/// After a worker reports Completed, the artifact is under its final path
/// and the temporary file is gone.
pub proof fn completed_download_is_published(
    name: Seq<char>,
    overwrite: bool,
    files: Files,
    events: Seq<WorkerEvent>,
)
    requires
        run(new_task(name, overwrite), files, events).0.phase == Phase::Completed,
    ensures
        run(new_task(name, overwrite), files, events).1.artifact,
        !run(new_task(name, overwrite), files, events).1.temp,
{
    lemma_run_invariant(name, overwrite, files, events);
}

/// After a worker reports Failed for a model that had no artifact when the
/// download began, there is still none; and where its cleaning up was
/// done, the temporary file is gone too.
pub proof fn failed_download_leaves_nothing(
    name: Seq<char>,
    overwrite: bool,
    files: Files,
    events: Seq<WorkerEvent>,
)
    requires
        !files.artifact,
        run(new_task(name, overwrite), files, events).0.phase == Phase::Failed,
    ensures
        !run(new_task(name, overwrite), files, events).1.artifact,
        run(new_task(name, overwrite), files, events).0.temp_removed ==> !run(
            new_task(name, overwrite),
            files,
            events,
        ).1.temp,
{
    lemma_run_invariant(name, overwrite, files, events);
}

/// No partly written artifact is ever seen: whatever the outcomes, an
/// artifact is under the final path only if it was there before the
/// download began or the download was completed.
pub proof fn no_partial_artifact(
    name: Seq<char>,
    overwrite: bool,
    files: Files,
    events: Seq<WorkerEvent>,
)
    ensures
        run(new_task(name, overwrite), files, events).1.artifact ==> files.artifact || run(
            new_task(name, overwrite),
            files,
            events,
        ).0.phase == Phase::Completed,
{
    lemma_run_invariant(name, overwrite, files, events);
}

/// A worker changes no record but that of its own model.
pub proof fn worker_touches_only_its_record(
    task: TaskView,
    reg: Map<Seq<char>, RecordView>,
    event: WorkerEvent,
    other: Seq<char>,
)
    requires
        other != task.name,
    ensures
        record_of(registry_after(task, reg, event), other) == record_of(reg, other),
{
}

/// When a worker completes, its record, if it still has one, says
/// Completed and holds no error; when a download breaks off, the record
/// says Failed and holds the failure's message.
pub proof fn outcome_is_recorded(task: TaskView, reg: Map<Seq<char>, RecordView>, event: WorkerEvent)
    requires
        reg.contains_key(task.name),
    ensures
        task.phase != Phase::Completed && task_after(task, event).phase == Phase::Completed
            ==> registry_after(task, reg, event)[task.name].status == DownloadStatus::Completed
            && registry_after(task, reg, event)[task.name].error is None,
        task.phase != Phase::CleaningUp && task_after(task, event).phase == Phase::CleaningUp
            ==> registry_after(task, reg, event)[task.name].status == DownloadStatus::Failed
            && task_after(task, event).failure is Some && registry_after(
            task,
            reg,
            event,
        )[task.name].error == failure_message(task_after(task, event)),
{
}

} // verus!
