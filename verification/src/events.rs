use crate::downloads::{message_view, DownloadManager, RecordView};
use vstd::prelude::*;

verus! {

/// The stage that a progress event reports.
#[derive(Clone, Copy, Debug, PartialEq, Eq, Structural)]
pub enum EventStatus {
    Queued,
    Started,
    Downloading,
    Completed,
    Error,
    Removed,
    Active,
    Refreshing,
}

/// The tag that each stage goes by on the wire.
pub open spec fn tag_of(status: EventStatus) -> Seq<char> {
    match status {
        EventStatus::Queued => "queued"@,
        EventStatus::Started => "started"@,
        EventStatus::Downloading => "downloading"@,
        EventStatus::Completed => "completed"@,
        EventStatus::Error => "error"@,
        EventStatus::Removed => "removed"@,
        EventStatus::Active => "active"@,
        EventStatus::Refreshing => "refreshing"@,
    }
}

impl EventStatus {
    /// The stage's tag.
    pub fn tag(self) -> (r: &'static str)
        ensures
            r@ == tag_of(self),
    {
        match self {
            EventStatus::Queued => "queued",
            EventStatus::Started => "started",
            EventStatus::Downloading => "downloading",
            EventStatus::Completed => "completed",
            EventStatus::Error => "error",
            EventStatus::Removed => "removed",
            EventStatus::Active => "active",
            EventStatus::Refreshing => "refreshing",
        }
    }
}

/// The coarse percentage of an event, as the two counts it is the ratio
/// of. `Unknown` is left out of the event; a `Ratio` with a total of zero
/// stands for zero percent; `Complete` is one hundred percent.
#[derive(Clone, Copy, Debug, PartialEq, Eq, Structural)]
pub enum Percent {
    Unknown,
    Ratio { downloaded: u64, total: u64 },
    Complete,
}

/// A progress event for the surrounding shell.
#[derive(Debug)]
pub struct DownloadEvent {
    pub model_name: String,
    pub downloaded_bytes: u64,
    pub total_bytes: Option<u64>,
    pub percent: Percent,
    pub status: EventStatus,
    pub error: Option<String>,
}

/// A progress event as a mathematical value.
pub struct EventView {
    pub model_name: Seq<char>,
    pub downloaded_bytes: u64,
    pub total_bytes: Option<u64>,
    pub percent: Percent,
    pub status: EventStatus,
    pub error: Option<Seq<char>>,
}

impl View for DownloadEvent {
    type V = EventView;

    open spec fn view(&self) -> EventView {
        EventView {
            model_name: self.model_name@,
            downloaded_bytes: self.downloaded_bytes,
            total_bytes: self.total_bytes,
            percent: self.percent,
            status: self.status,
            error: message_view(self.error),
        }
    }
}

/// The percentage of `downloaded` bytes where the total may be unknown.
pub open spec fn percent_of(downloaded: u64, total: Option<u64>) -> Percent {
    match total {
        Some(t) => Percent::Ratio { downloaded, total: t },
        None => Percent::Unknown,
    }
}

/// The counters that `reg` holds for `name`: zero and unknown where it
/// holds no record.
pub open spec fn counters_of(reg: Map<Seq<char>, RecordView>, name: Seq<char>) -> (u64, Option<u64>) {
    if reg.contains_key(name) {
        (reg[name].downloaded_bytes, reg[name].total_bytes)
    } else {
        (0, None)
    }
}

/// The event for a claim that was accepted.
pub open spec fn queued_event(name: Seq<char>, overwrite: bool) -> EventView {
    EventView {
        model_name: name,
        downloaded_bytes: 0,
        total_bytes: None,
        percent: Percent::Unknown,
        status: if overwrite {
            EventStatus::Refreshing
        } else {
            EventStatus::Queued
        },
        error: None,
    }
}

/// The event for response headers that arrived.
pub open spec fn started_event(name: Seq<char>, total: Option<u64>) -> EventView {
    EventView {
        model_name: name,
        downloaded_bytes: 0,
        total_bytes: total,
        percent: percent_of(0, total),
        status: EventStatus::Started,
        error: None,
    }
}

/// The event for a chunk that was written.
pub open spec fn progress_event(name: Seq<char>, downloaded: u64, total: Option<u64>) -> EventView {
    EventView {
        model_name: name,
        downloaded_bytes: downloaded,
        total_bytes: total,
        percent: percent_of(downloaded, total),
        status: EventStatus::Downloading,
        error: None,
    }
}

/// The event for a download that ended, or a model that became active,
/// with the counters that the registry holds for it: `status` is
/// one of Completed, Active, at one hundred percent, or Error, with the
/// message and no percentage.
pub open spec fn closing_event(
    reg: Map<Seq<char>, RecordView>,
    name: Seq<char>,
    status: EventStatus,
    error: Option<Seq<char>>,
) -> EventView {
    EventView {
        model_name: name,
        downloaded_bytes: counters_of(reg, name).0,
        total_bytes: counters_of(reg, name).1,
        percent: if status == EventStatus::Error {
            Percent::Unknown
        } else {
            Percent::Complete
        },
        status,
        error,
    }
}

/// The event for a model that was removed.
pub open spec fn removed_event(name: Seq<char>) -> EventView {
    EventView {
        model_name: name,
        downloaded_bytes: 0,
        total_bytes: None,
        percent: Percent::Unknown,
        status: EventStatus::Removed,
        error: None,
    }
}

impl DownloadEvent {
    /// The event for a claim that was accepted: refreshing where a refresh
    /// was asked for, queued otherwise.
    pub fn queued(model_name: &str, overwrite: bool) -> (r: Self)
        ensures
            r@ == queued_event(model_name@, overwrite),
    {
        DownloadEvent {
            model_name: model_name.to_owned(),
            downloaded_bytes: 0,
            total_bytes: None,
            percent: Percent::Unknown,
            status: if overwrite {
                EventStatus::Refreshing
            } else {
                EventStatus::Queued
            },
            error: None,
        }
    }

    /// The event for response headers that arrived.
    pub fn started(model_name: &str, total: Option<u64>) -> (r: Self)
        ensures
            r@ == started_event(model_name@, total),
    {
        DownloadEvent {
            model_name: model_name.to_owned(),
            downloaded_bytes: 0,
            total_bytes: total,
            percent: match total {
                Some(t) => Percent::Ratio { downloaded: 0, total: t },
                None => Percent::Unknown,
            },
            status: EventStatus::Started,
            error: None,
        }
    }

    /// The event for a chunk that was written.
    pub fn progress(model_name: &str, downloaded: u64, total: Option<u64>) -> (r: Self)
        ensures
            r@ == progress_event(model_name@, downloaded, total),
    {
        DownloadEvent {
            model_name: model_name.to_owned(),
            downloaded_bytes: downloaded,
            total_bytes: total,
            percent: match total {
                Some(t) => Percent::Ratio { downloaded, total: t },
                None => Percent::Unknown,
            },
            status: EventStatus::Downloading,
            error: None,
        }
    }

    /// The event that closes a download or announces the active model, with
    /// the counters read from the registry.
    pub fn closing(
        downloads: &DownloadManager,
        model_name: &str,
        status: EventStatus,
        error: Option<String>,
    ) -> (r: Self)
        ensures
            r@ == closing_event(downloads@, model_name@, status, message_view(error)),
    {
        let counters = match downloads.get(model_name) {
            Some(rec) => (rec.downloaded_bytes, rec.total_bytes),
            None => (0, None),
        };
        DownloadEvent {
            model_name: model_name.to_owned(),
            downloaded_bytes: counters.0,
            total_bytes: counters.1,
            percent: match status {
                EventStatus::Error => Percent::Unknown,
                _ => Percent::Complete,
            },
            status,
            error,
        }
    }

    /// The event for a model that was removed.
    pub fn removed(model_name: &str) -> (r: Self)
        ensures
            r@ == removed_event(model_name@),
    {
        DownloadEvent {
            model_name: model_name.to_owned(),
            downloaded_bytes: 0,
            total_bytes: None,
            percent: Percent::Unknown,
            status: EventStatus::Removed,
            error: None,
        }
    }
}

/// A percentage is left out exactly when the total is unknown.
pub proof fn percent_known_with_total(downloaded: u64, total: Option<u64>)
    ensures
        percent_of(downloaded, total) is Unknown <==> total is None,
{
}

} // verus!
