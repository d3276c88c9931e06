use crate::catalog::{find_model_info, known_model, model_named, ModelInfo, DEFAULT_MODEL};
use crate::downloads::{
    after_activation, after_claim, after_startup_load, claim_result, downloading, fresh_record,
    DownloadManager, DownloadStatus, RecordView,
};
use crate::error::CoreError;
use crate::events::{closing_event, queued_event, removed_event, DownloadEvent, EventStatus};
use vstd::prelude::*;

verus! {

/// The right to run one download: the model to fetch, whether an existing
/// artifact is to be replaced, and the event that announces it.
#[derive(Debug)]
pub struct DownloadTicket {
    pub model: ModelInfo,
    pub overwrite: bool,
    pub event: DownloadEvent,
}

/// Claims the download of `model_name` and, where the claim is accepted,
/// hands out the ticket for the worker to be spawned with.
/// `artifact_present` says whether the artifact is on disk.
pub fn spawn_model_download(
    downloads: &mut DownloadManager,
    model_name: &str,
    artifact_present: bool,
    overwrite: bool,
) -> (r: Result<DownloadTicket, CoreError>)
    ensures
        final(downloads)@ == after_claim(old(downloads)@, model_name@, artifact_present, overwrite),
        match r {
            Ok(ticket) => claim_result(old(downloads)@, model_name@, artifact_present, overwrite)
                is Ok && ticket.model == model_named(model_name@) && ticket.model.name@
                == model_name@ && ticket.overwrite == overwrite && ticket.event@ == queued_event(
                model_name@,
                overwrite,
            ),
            Err(e) => claim_result(old(downloads)@, model_name@, artifact_present, overwrite)
                == Err::<(), CoreError>(e),
        },
{
    match downloads.claim(model_name, artifact_present, overwrite) {
        Err(e) => Err(e),
        Ok(_) => {
            match find_model_info(model_name) {
                Some(model) => Ok(
                    DownloadTicket {
                        model,
                        overwrite,
                        event: DownloadEvent::queued(model_name, overwrite),
                    },
                ),
                None => Err(CoreError::UnknownModel),
            }
        },
    }
}

/// Starts the download of a model that is not on disk yet.
pub fn start_model_download(
    downloads: &mut DownloadManager,
    model_name: &str,
    artifact_present: bool,
) -> (r: Result<DownloadTicket, CoreError>)
    ensures
        final(downloads)@ == after_claim(old(downloads)@, model_name@, artifact_present, false),
        match r {
            Ok(ticket) => claim_result(old(downloads)@, model_name@, artifact_present, false)
                is Ok && ticket.model == model_named(model_name@) && ticket.model.name@
                == model_name@ && !ticket.overwrite && ticket.event@ == queued_event(
                model_name@,
                false,
            ),
            Err(e) => claim_result(old(downloads)@, model_name@, artifact_present, false) == Err::<
                (),
                CoreError,
            >(e),
        },
{
    spawn_model_download(downloads, model_name, artifact_present, false)
}

/// Starts a fresh download of a model, whether or not it is on disk. A
/// download that is running for it blocks this as it blocks any claim.
pub fn refresh_model_download(
    downloads: &mut DownloadManager,
    model_name: &str,
    artifact_present: bool,
) -> (r: Result<DownloadTicket, CoreError>)
    ensures
        final(downloads)@ == after_claim(old(downloads)@, model_name@, artifact_present, true),
        match r {
            Ok(ticket) => claim_result(old(downloads)@, model_name@, artifact_present, true)
                is Ok && ticket.model == model_named(model_name@) && ticket.model.name@
                == model_name@ && ticket.overwrite && ticket.event@ == queued_event(
                model_name@,
                true,
            ),
            Err(e) => claim_result(old(downloads)@, model_name@, artifact_present, true) == Err::<
                (),
                CoreError,
            >(e),
        },
{
    spawn_model_download(downloads, model_name, artifact_present, true)
}

/// Whether the artifact of `name` may be deleted: the name must be known,
/// the model neither active nor being downloaded, and the artifact on disk.
pub open spec fn removal_check(
    is_active: bool,
    reg: Map<Seq<char>, RecordView>,
    name: Seq<char>,
    artifact_present: bool,
) -> Result<(), CoreError> {
    if !known_model(name) {
        Err(CoreError::UnknownModel)
    } else if is_active {
        Err(CoreError::ActiveModelBusy)
    } else if downloading(reg, name) {
        Err(CoreError::DownloadInProgress)
    } else if !artifact_present {
        Err(CoreError::ModelNotDownloaded)
    } else {
        Ok(())
    }
}

/// Decides whether the artifact of `model_name` may be deleted. `is_active`
/// says whether it is the selected model. Nothing is changed: on `Ok` the
/// caller deletes the file and then calls `forget_model`.
pub fn remove_model(
    is_active: bool,
    downloads: &DownloadManager,
    model_name: &str,
    artifact_present: bool,
) -> (r: Result<(), CoreError>)
    ensures
        r == removal_check(is_active, downloads@, model_name@, artifact_present),
{
    if find_model_info(model_name).is_none() {
        Err(CoreError::UnknownModel)
    } else if is_active {
        Err(CoreError::ActiveModelBusy)
    } else if downloads.is_downloading(model_name) {
        Err(CoreError::DownloadInProgress)
    } else if !artifact_present {
        Err(CoreError::ModelNotDownloaded)
    } else {
        Ok(())
    }
}

/// Forgets the record of a model whose artifact was deleted and gives the
/// event that says so.
pub fn forget_model(downloads: &mut DownloadManager, model_name: &str) -> (event: DownloadEvent)
    ensures
        final(downloads)@ == old(downloads)@.remove(model_name@),
        event@ == removed_event(model_name@),
{
    downloads.remove(model_name);
    DownloadEvent::removed(model_name)
}

/// Whether `name` may become the active model: the name must be known, no
/// download may run for it, and its artifact must be on disk.
pub open spec fn switch_check(
    reg: Map<Seq<char>, RecordView>,
    name: Seq<char>,
    artifact_present: bool,
) -> Result<(), CoreError> {
    if !known_model(name) {
        Err(CoreError::UnknownModel)
    } else if downloading(reg, name) {
        Err(CoreError::DownloadInProgress)
    } else if !artifact_present {
        Err(CoreError::ModelNotDownloaded)
    } else {
        Ok(())
    }
}

/// Decides whether `model_name` may become the active model. Nothing is
/// changed: on `Ok` the caller loads the engine, hands what it gave to the
/// runtime's `complete_activation`, and after a successful swap calls
/// `model_activated`.
pub fn switch_model(downloads: &DownloadManager, model_name: &str, artifact_present: bool) -> (r:
    Result<(), CoreError>)
    ensures
        r == switch_check(downloads@, model_name@, artifact_present),
{
    if find_model_info(model_name).is_none() {
        Err(CoreError::UnknownModel)
    } else if downloads.is_downloading(model_name) {
        Err(CoreError::DownloadInProgress)
    } else if !artifact_present {
        Err(CoreError::ModelNotDownloaded)
    } else {
        Ok(())
    }
}

/// Brings the registry in line with a model that was just swapped in and
/// gives the event that announces it. `artifact_len` is the length of the
/// artifact where it could be read.
pub fn model_activated(
    downloads: &mut DownloadManager,
    model_name: &str,
    artifact_len: Option<u64>,
) -> (event: DownloadEvent)
    ensures
        final(downloads)@ == after_activation(old(downloads)@, model_name@, artifact_len),
        event@ == closing_event(final(downloads)@, model_name@, EventStatus::Active, None),
{
    downloads.record_activation(model_name, artifact_len);
    DownloadEvent::closing(downloads, model_name, EventStatus::Active, None)
}

/// Brings the registry in line with the model that was found on disk at
/// startup and loaded, and gives the event that announces it.
pub fn startup_model_loaded(
    downloads: &mut DownloadManager,
    model_name: &str,
    artifact_len: Option<u64>,
) -> (event: DownloadEvent)
    ensures
        final(downloads)@ == after_startup_load(old(downloads)@, model_name@, artifact_len),
        event@ == closing_event(final(downloads)@, model_name@, EventStatus::Active, None),
{
    downloads.record_startup_load(model_name, artifact_len);
    DownloadEvent::closing(downloads, model_name, EventStatus::Active, None)
}

/// What the user reads when a removal is refused.
pub open spec fn removal_refusal(error: CoreError) -> Seq<char> {
    match error {
        CoreError::DownloadInProgress => "Download in progress. Please wait for it to finish."@,
        CoreError::ModelNotDownloaded => "Model file not found."@,
        _ => crate::error::message_of(error),
    }
}

/// The message for a removal that was refused with `error`.
pub fn removal_message(error: CoreError) -> (r: &'static str)
    ensures
        r@ == removal_refusal(error),
{
    match error {
        CoreError::DownloadInProgress => "Download in progress. Please wait for it to finish.",
        CoreError::ModelNotDownloaded => "Model file not found.",
        _ => error.message(),
    }
}

/// What the user reads when a switch is refused.
pub open spec fn switch_refusal(error: CoreError) -> Seq<char> {
    match error {
        CoreError::DownloadInProgress => "Model is still downloading."@,
        _ => crate::error::message_of(error),
    }
}

/// The message for a switch that was refused with `error`.
pub fn switch_failure_message(error: CoreError) -> (r: &'static str)
    ensures
        r@ == switch_refusal(error),
{
    match error {
        CoreError::DownloadInProgress => "Model is still downloading.",
        _ => error.message(),
    }
}

/// What the user reads after a switch.
pub open spec fn switch_message(name: Seq<char>) -> Seq<char> {
    "Model "@ + name + " loaded successfully"@
}

/// The message for a successful switch to `model_name`.
pub fn switch_report(model_name: &str) -> (r: String)
    ensures
        r@ == switch_message(model_name@),
{
    let mut text = "Model ".to_owned();
    text.append(model_name);
    text.append(" loaded successfully");
    text
}

/// The model to bring up at startup: the stored selection, or the default
/// model where nothing valid is stored.
pub fn startup_model(selected: Option<String>) -> (r: String)
    ensures
        r@ == (match selected {
            Some(name) => name@,
            None => DEFAULT_MODEL@,
        }),
{
    match selected {
        Some(name) => name,
        None => DEFAULT_MODEL.to_owned(),
    }
}

/// How long the watchdog sleeps between two looks at the default model,
/// in seconds.
pub const WATCHDOG_INTERVAL_SECS: u64 = 30;

/// What the watchdog does on one wake-up: it claims the download of the
/// default model exactly when its artifact is missing and no download is
/// running for it. It never waits and never touches a running download.
pub fn watchdog_tick(downloads: &mut DownloadManager, default_present: bool) -> (r: Option<
    DownloadTicket,
>)
    ensures
        r is Some == (!default_present && !downloading(old(downloads)@, DEFAULT_MODEL@)),
        final(downloads)@ == (if r is Some {
            old(downloads)@.insert(DEFAULT_MODEL@, fresh_record(DownloadStatus::Downloading))
        } else {
            old(downloads)@
        }),
        r matches Some(ticket) ==> ticket.model == model_named(DEFAULT_MODEL@) && !ticket.overwrite
            && ticket.event@ == queued_event(DEFAULT_MODEL@, false),
{
    if default_present || downloads.is_downloading(DEFAULT_MODEL) {
        return None;
    }
    proof {
        crate::catalog::default_model_known();
    }
    match spawn_model_download(downloads, DEFAULT_MODEL, false, false) {
        Ok(ticket) => Some(ticket),
        Err(_) => None,
    }
}

} // verus!
