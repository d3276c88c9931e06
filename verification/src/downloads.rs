use crate::catalog::{catalog, find_model_info, get_available_models, known_model};
use crate::error::CoreError;
use vstd::hash_map::StringHashMap;
use vstd::prelude::*;

verus! {

/// Where a download stands.
#[derive(Clone, Copy, Debug, PartialEq, Eq, Structural)]
pub enum DownloadStatus {
    Downloading,
    Completed,
    Failed,
}

/// What is known about one model's download.
#[derive(Debug)]
pub struct DownloadRecord {
    pub status: DownloadStatus,
    pub downloaded_bytes: u64,
    pub total_bytes: Option<u64>,
    pub error: Option<String>,
}

/// A download record as a mathematical value.
pub struct RecordView {
    pub status: DownloadStatus,
    pub downloaded_bytes: u64,
    pub total_bytes: Option<u64>,
    pub error: Option<Seq<char>>,
}

impl View for DownloadRecord {
    type V = RecordView;

    open spec fn view(&self) -> RecordView {
        RecordView {
            status: self.status,
            downloaded_bytes: self.downloaded_bytes,
            total_bytes: self.total_bytes,
            error: match self.error {
                Some(message) => Some(message@),
                None => None,
            },
        }
    }
}

impl Clone for DownloadRecord {
    fn clone(&self) -> (r: Self)
        ensures
            r@ == self@,
    {
        DownloadRecord {
            status: self.status,
            downloaded_bytes: self.downloaded_bytes,
            total_bytes: self.total_bytes,
            error: match &self.error {
                Some(message) => Some(message.clone()),
                None => None,
            },
        }
    }
}

/// The record of a download in `status` that has moved no bytes yet.
pub open spec fn fresh_record(status: DownloadStatus) -> RecordView {
    RecordView { status, downloaded_bytes: 0, total_bytes: None, error: None }
}

impl DownloadRecord {
    /// A record in `status` with zeroed counters and no error.
    pub fn new(status: DownloadStatus) -> (r: Self)
        ensures
            r@ == fresh_record(status),
    {
        DownloadRecord { status, downloaded_bytes: 0, total_bytes: None, error: None }
    }
}

/// Whether `reg` holds a record for `name` whose download is running.
pub open spec fn downloading(reg: Map<Seq<char>, RecordView>, name: Seq<char>) -> bool {
    reg.contains_key(name) && reg[name].status == DownloadStatus::Downloading
}

/// What a claim for `name` answers on registry `reg`: an unknown name is
/// refused first, then a running download, then an artifact that is already
/// on disk unless a refresh was asked for.
pub open spec fn claim_result(
    reg: Map<Seq<char>, RecordView>,
    name: Seq<char>,
    artifact_present: bool,
    overwrite: bool,
) -> Result<(), CoreError> {
    if !known_model(name) {
        Err(CoreError::UnknownModel)
    } else if downloading(reg, name) {
        Err(CoreError::DownloadInProgress)
    } else if artifact_present && !overwrite {
        Err(CoreError::AlreadyDownloaded)
    } else {
        Ok(())
    }
}

/// The registry after a claim: an accepted claim leaves a fresh record in
/// status Downloading under `name`, a refused one changes nothing.
pub open spec fn after_claim(
    reg: Map<Seq<char>, RecordView>,
    name: Seq<char>,
    artifact_present: bool,
    overwrite: bool,
) -> Map<Seq<char>, RecordView> {
    if claim_result(reg, name, artifact_present, overwrite) is Ok {
        reg.insert(name, fresh_record(DownloadStatus::Downloading))
    } else {
        reg
    }
}

/// The registry after a progress report for `name`.
pub open spec fn after_progress(
    reg: Map<Seq<char>, RecordView>,
    name: Seq<char>,
    downloaded: u64,
    total: Option<u64>,
) -> Map<Seq<char>, RecordView> {
    if reg.contains_key(name) {
        reg.insert(name, RecordView { downloaded_bytes: downloaded, total_bytes: total, ..reg[name] })
    } else {
        reg
    }
}

/// The registry after the response headers for `name` arrived.
pub open spec fn after_transfer_start(
    reg: Map<Seq<char>, RecordView>,
    name: Seq<char>,
    total: Option<u64>,
) -> Map<Seq<char>, RecordView> {
    if reg.contains_key(name) {
        reg.insert(
            name,
            RecordView {
                status: DownloadStatus::Downloading,
                downloaded_bytes: 0,
                total_bytes: total,
                error: None,
            },
        )
    } else {
        reg
    }
}

/// The registry after the download for `name` ended, with the failure
/// message if it failed.
pub open spec fn after_finish(
    reg: Map<Seq<char>, RecordView>,
    name: Seq<char>,
    failure: Option<Seq<char>>,
) -> Map<Seq<char>, RecordView> {
    if reg.contains_key(name) {
        reg.insert(
            name,
            RecordView {
                status: if failure is Some {
                    DownloadStatus::Failed
                } else {
                    DownloadStatus::Completed
                },
                error: failure,
                ..reg[name]
            },
        )
    } else {
        reg
    }
}

/// The registry after `name` became the active model, with the size of its
/// artifact where that could be read.
pub open spec fn after_activation(
    reg: Map<Seq<char>, RecordView>,
    name: Seq<char>,
    artifact_len: Option<u64>,
) -> Map<Seq<char>, RecordView> {
    if reg.contains_key(name) {
        let rec = reg[name];
        let sized = rec.total_bytes is None && artifact_len is Some;
        reg.insert(
            name,
            RecordView {
                status: DownloadStatus::Completed,
                downloaded_bytes: if sized {
                    artifact_len->0
                } else {
                    rec.downloaded_bytes
                },
                total_bytes: if sized {
                    artifact_len
                } else {
                    rec.total_bytes
                },
                error: None,
            },
        )
    } else {
        reg
    }
}

/// The registry after the artifact of `name`, found on disk at startup, was
/// loaded: a record is created where none was, and its counters follow the
/// artifact's size where that could be read.
pub open spec fn after_startup_load(
    reg: Map<Seq<char>, RecordView>,
    name: Seq<char>,
    artifact_len: Option<u64>,
) -> Map<Seq<char>, RecordView> {
    if !known_model(name) {
        reg
    } else {
        let rec = if reg.contains_key(name) {
            reg[name]
        } else {
            fresh_record(DownloadStatus::Completed)
        };
        reg.insert(
            name,
            RecordView {
                status: DownloadStatus::Completed,
                downloaded_bytes: match artifact_len {
                    Some(len) => len,
                    None => rec.downloaded_bytes,
                },
                total_bytes: match artifact_len {
                    Some(len) => Some(len),
                    None => rec.total_bytes,
                },
                error: None,
            },
        )
    }
}

/// The record that `reg` holds for `name`, if any.
pub open spec fn record_of(reg: Map<Seq<char>, RecordView>, name: Seq<char>) -> Option<RecordView> {
    if reg.contains_key(name) {
        Some(reg[name])
    } else {
        None
    }
}

/// An optional record as a mathematical value.
pub open spec fn record_view(rec: Option<DownloadRecord>) -> Option<RecordView> {
    match rec {
        Some(r) => Some(r@),
        None => None,
    }
}

/// An optional message as a mathematical value.
pub open spec fn message_view(message: Option<String>) -> Option<Seq<char>> {
    match message {
        Some(m) => Some(m@),
        None => None,
    }
}

/// Every key of `reg` names a catalog entry.
pub open spec fn keys_known(reg: Map<Seq<char>, RecordView>) -> bool {
    forall|name: Seq<char>| reg.contains_key(name) ==> known_model(name)
}

/// The download registry: at most one record per model name. It is the data
/// that the registry lock guards; every method is one critical section.
pub struct DownloadManager {
    records: StringHashMap<DownloadRecord>,
}

impl View for DownloadManager {
    type V = Map<Seq<char>, RecordView>;

    closed spec fn view(&self) -> Map<Seq<char>, RecordView> {
        self.records@.map_values(|r: DownloadRecord| r@)
    }
}

impl Default for DownloadManager {
    fn default() -> (r: Self)
        ensures
            r@ == Map::<Seq<char>, RecordView>::empty(),
    {
        DownloadManager::new()
    }
}

impl DownloadManager {
    /// The empty registry.
    pub fn new() -> (r: Self)
        ensures
            r@ == Map::<Seq<char>, RecordView>::empty(),
    {
        let r = DownloadManager { records: StringHashMap::new() };
        assert(r@ =~= Map::<Seq<char>, RecordView>::empty());
        r
    }

    /// A copy of the record for `name`, if there is one.
    pub fn get(&self, name: &str) -> (r: Option<DownloadRecord>)
        ensures
            r is Some == self@.contains_key(name@),
            r matches Some(rec) ==> rec@ == self@[name@],
    {
        match self.records.get(name) {
            Some(rec) => Some(rec.clone()),
            None => None,
        }
    }

    /// Whether a download for `name` is running.
    pub fn is_downloading(&self, name: &str) -> (r: bool)
        ensures
            r == downloading(self@, name@),
    {
        match self.records.get(name) {
            Some(rec) => rec.status == DownloadStatus::Downloading,
            None => false,
        }
    }

    /// Reserves the exclusive right to download `model_name`.
    /// `artifact_present` says whether its artifact is on disk already,
    /// `overwrite` whether a refresh was asked for.
    pub fn claim(&mut self, model_name: &str, artifact_present: bool, overwrite: bool) -> (r: Result<
        (),
        CoreError,
    >)
        ensures
            r == claim_result(old(self)@, model_name@, artifact_present, overwrite),
            final(self)@ == after_claim(old(self)@, model_name@, artifact_present, overwrite),
    {
        if find_model_info(model_name).is_none() {
            return Err(CoreError::UnknownModel);
        }
        if self.is_downloading(model_name) {
            return Err(CoreError::DownloadInProgress);
        }
        if artifact_present && !overwrite {
            return Err(CoreError::AlreadyDownloaded);
        }
        self.records.insert(model_name.to_owned(), DownloadRecord::new(DownloadStatus::Downloading));
        assert(self@ =~= after_claim(old(self)@, model_name@, artifact_present, overwrite));
        Ok(())
    }

    /// Records that the response headers arrived: the transfer starts from
    /// zero bytes with the announced total. Nothing changes if the record
    /// is gone.
    pub fn begin_transfer(&mut self, model_name: &str, total: Option<u64>)
        ensures
            final(self)@ == after_transfer_start(old(self)@, model_name@, total),
    {
        if self.records.contains_key(model_name) {
            let rec = DownloadRecord {
                status: DownloadStatus::Downloading,
                downloaded_bytes: 0,
                total_bytes: total,
                error: None,
            };
            self.records.insert(model_name.to_owned(), rec);
        }
        assert(self@ =~= after_transfer_start(old(self)@, model_name@, total));
    }

    /// Overwrites the counters of the record for `model_name`. Nothing
    /// changes if the record is gone.
    pub fn update_progress(&mut self, model_name: &str, downloaded: u64, total: Option<u64>)
        ensures
            final(self)@ == after_progress(old(self)@, model_name@, downloaded, total),
    {
        let updated = match self.records.get(model_name) {
            Some(rec) => Some(
                DownloadRecord {
                    status: rec.status,
                    downloaded_bytes: downloaded,
                    total_bytes: total,
                    error: match &rec.error {
                        Some(message) => Some(message.clone()),
                        None => None,
                    },
                },
            ),
            None => None,
        };
        match updated {
            Some(rec) => {
                self.records.insert(model_name.to_owned(), rec);
            },
            None => {},
        }
        assert(self@ =~= after_progress(old(self)@, model_name@, downloaded, total));
    }

    /// Ends the download for `model_name`: Completed on `Ok`, Failed with
    /// the message on `Err`. The counters stay as last reported. Nothing
    /// changes if the record is gone.
    pub fn finish(&mut self, model_name: &str, outcome: Result<(), String>)
        ensures
            final(self)@ == after_finish(
                old(self)@,
                model_name@,
                match outcome {
                    Ok(_) => None,
                    Err(message) => Some(message@),
                },
            ),
    {
        let ghost failure: Option<Seq<char>> = match &outcome {
            Ok(_) => None,
            Err(message) => Some(message@),
        };
        let counters = match self.records.get(model_name) {
            Some(rec) => Some((rec.downloaded_bytes, rec.total_bytes)),
            None => None,
        };
        match counters {
            Some((downloaded_bytes, total_bytes)) => {
                let rec = match outcome {
                    Ok(_) => DownloadRecord {
                        status: DownloadStatus::Completed,
                        downloaded_bytes,
                        total_bytes,
                        error: None,
                    },
                    Err(message) => DownloadRecord {
                        status: DownloadStatus::Failed,
                        downloaded_bytes,
                        total_bytes,
                        error: Some(message),
                    },
                };
                self.records.insert(model_name.to_owned(), rec);
            },
            None => {},
        }
        assert(self@ =~= after_finish(old(self)@, model_name@, failure));
    }

    /// Records that `model_name` became the active model. An existing
    /// record turns Completed and loses its error; where it had no total
    /// and the artifact's size is known, both counters take that size.
    pub fn record_activation(&mut self, model_name: &str, artifact_len: Option<u64>)
        ensures
            final(self)@ == after_activation(old(self)@, model_name@, artifact_len),
    {
        let counters = match self.records.get(model_name) {
            Some(rec) => Some((rec.downloaded_bytes, rec.total_bytes)),
            None => None,
        };
        match counters {
            Some((downloaded_bytes, total_bytes)) => {
                let rec = match (total_bytes, artifact_len) {
                    (None, Some(len)) => DownloadRecord {
                        status: DownloadStatus::Completed,
                        downloaded_bytes: len,
                        total_bytes: Some(len),
                        error: None,
                    },
                    _ => DownloadRecord {
                        status: DownloadStatus::Completed,
                        downloaded_bytes,
                        total_bytes,
                        error: None,
                    },
                };
                self.records.insert(model_name.to_owned(), rec);
            },
            None => {},
        }
        assert(self@ =~= after_activation(old(self)@, model_name@, artifact_len));
    }

    /// Records that the artifact of `model_name` was found on disk at
    /// startup and loaded. A record is created where none was; it is
    /// Completed, without error, and its counters take the artifact's size
    /// where that is known. An unknown name changes nothing.
    pub fn record_startup_load(&mut self, model_name: &str, artifact_len: Option<u64>)
        ensures
            final(self)@ == after_startup_load(old(self)@, model_name@, artifact_len),
    {
        if find_model_info(model_name).is_none() {
            return ;
        }
        let counters = match self.records.get(model_name) {
            Some(rec) => (rec.downloaded_bytes, rec.total_bytes),
            None => (0, None),
        };
        let rec = match artifact_len {
            Some(len) => DownloadRecord {
                status: DownloadStatus::Completed,
                downloaded_bytes: len,
                total_bytes: Some(len),
                error: None,
            },
            None => DownloadRecord {
                status: DownloadStatus::Completed,
                downloaded_bytes: counters.0,
                total_bytes: counters.1,
                error: None,
            },
        };
        self.records.insert(model_name.to_owned(), rec);
        assert(self@ =~= after_startup_load(old(self)@, model_name@, artifact_len));
    }

    /// Forgets the record for `model_name`.
    pub fn remove(&mut self, model_name: &str)
        ensures
            final(self)@ == old(self)@.remove(model_name@),
    {
        self.records.remove(model_name);
        assert(self@ =~= old(self)@.remove(model_name@));
    }

    /// A copy of the registry for status reporting, taken in one go: entry
    /// `i` is the record of the `i`-th catalog model, if it has one.
    pub fn snapshot(&self) -> (r: Vec<Option<DownloadRecord>>)
        ensures
            r@.len() == catalog().len(),
            forall|i: int|
                0 <= i < catalog().len() ==> record_view(#[trigger] r@[i]) == record_of(
                    self@,
                    catalog()[i].name@,
                ),
    {
        let models = get_available_models();
        let mut out: Vec<Option<DownloadRecord>> = Vec::new();
        let mut i: usize = 0;
        while i < models.len()
            invariant
                models@ == catalog(),
                0 <= i <= models.len(),
                out@.len() == i,
                forall|j: int|
                    0 <= j < i ==> record_view(#[trigger] out@[j]) == record_of(
                        self@,
                        catalog()[j].name@,
                    ),
            decreases models.len() - i,
        {
            out.push(self.get(models[i].name));
            i += 1;
        }
        out
    }
}

/// Once a claim for a model was accepted, every further claim for it is
/// refused with `DownloadInProgress`, whatever it says of the artifact or
/// of refreshing. Claims are whole critical sections, so two concurrent
/// claims for one model are two claims in some order: exactly one wins.
pub proof fn second_claim_is_refused(
    reg: Map<Seq<char>, RecordView>,
    name: Seq<char>,
    artifact_present: bool,
    overwrite: bool,
    artifact_present_again: bool,
    overwrite_again: bool,
)
    requires
        claim_result(reg, name, artifact_present, overwrite) is Ok,
    ensures
        claim_result(
            after_claim(reg, name, artifact_present, overwrite),
            name,
            artifact_present_again,
            overwrite_again,
        ) == Err::<(), CoreError>(CoreError::DownloadInProgress),
{
}

/// Two claims without refresh for a catalog model that is neither on disk
/// nor being downloaded: the first is accepted, the second refused with
/// `DownloadInProgress`.
pub proof fn one_of_two_claims_wins(reg: Map<Seq<char>, RecordView>, name: Seq<char>)
    requires
        known_model(name),
        !downloading(reg, name),
    ensures
        claim_result(reg, name, false, false) is Ok,
        claim_result(after_claim(reg, name, false, false), name, false, false) == Err::<
            (),
            CoreError,
        >(CoreError::DownloadInProgress),
{
}

/// A claim for one model leaves the records of all other models as they
/// were.
pub proof fn claim_leaves_others(
    reg: Map<Seq<char>, RecordView>,
    name: Seq<char>,
    other: Seq<char>,
    artifact_present: bool,
    overwrite: bool,
)
    requires
        other != name,
    ensures
        record_of(after_claim(reg, name, artifact_present, overwrite), other) == record_of(
            reg,
            other,
        ),
{
}

/// A registry whose keys are all known holds nothing that a snapshot over
/// the catalog would miss: every record is that of some catalog model.
pub proof fn snapshot_covers_registry(reg: Map<Seq<char>, RecordView>, name: Seq<char>)
    requires
        keys_known(reg),
        reg.contains_key(name),
    ensures
        exists|i: int|
            0 <= i < catalog().len() && #[trigger] catalog()[i].name@ == name && record_of(
                reg,
                catalog()[i].name@,
            ) == Some(reg[name]),
{
    assert(known_model(name));
    let i = crate::catalog::catalog_index(name);
    assert(record_of(reg, catalog()[i].name@) == Some(reg[name]));
}

/// No registry operation gives a record to a name outside the catalog.
pub proof fn operations_keep_keys_known(
    reg: Map<Seq<char>, RecordView>,
    name: Seq<char>,
    artifact_present: bool,
    overwrite: bool,
    downloaded: u64,
    total: Option<u64>,
    failure: Option<Seq<char>>,
    artifact_len: Option<u64>,
)
    requires
        keys_known(reg),
    ensures
        keys_known(after_claim(reg, name, artifact_present, overwrite)),
        keys_known(after_transfer_start(reg, name, total)),
        keys_known(after_progress(reg, name, downloaded, total)),
        keys_known(after_finish(reg, name, failure)),
        keys_known(after_activation(reg, name, artifact_len)),
        keys_known(after_startup_load(reg, name, artifact_len)),
        keys_known(reg.remove(name)),
{
}

} // verus!
