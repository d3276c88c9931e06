use crate::catalog::{catalog, catalog_names_distinct, get_available_models, ModelInfo};
use crate::downloads::{
    downloading, message_view, record_of, record_view, DownloadRecord, DownloadStatus, RecordView,
};
use crate::runtime::{active_in, RuntimeView};
use crate::text::same_text;
use vstd::prelude::*;

verus! {

/// What the disk holds for one model: whether its artifact is there and, if
/// its metadata could be read, how long it is.
#[derive(Clone, Copy, Debug, PartialEq, Eq, Structural)]
pub struct Artifact {
    pub present: bool,
    pub len: Option<u64>,
}

/// The report on one model.
#[derive(Debug)]
pub struct ModelStatus {
    pub name: String,
    pub size_mb: u32,
    pub is_downloaded: bool,
    pub is_downloading: bool,
    pub is_active: bool,
    pub downloaded_bytes: u64,
    pub total_bytes: Option<u64>,
    pub error: Option<String>,
}

/// The report on one model as a mathematical value.
pub struct StatusView {
    pub name: Seq<char>,
    pub size_mb: u32,
    pub is_downloaded: bool,
    pub is_downloading: bool,
    pub is_active: bool,
    pub downloaded_bytes: u64,
    pub total_bytes: Option<u64>,
    pub error: Option<Seq<char>>,
}

impl View for ModelStatus {
    type V = StatusView;

    open spec fn view(&self) -> StatusView {
        StatusView {
            name: self.name@,
            size_mb: self.size_mb,
            is_downloaded: self.is_downloaded,
            is_downloading: self.is_downloading,
            is_active: self.is_active,
            downloaded_bytes: self.downloaded_bytes,
            total_bytes: self.total_bytes,
            error: message_view(self.error),
        }
    }
}

/// What the disk holds for the `i`-th catalog model; a model that
/// `artifacts` does not reach counts as absent.
pub open spec fn artifact_at(artifacts: Seq<Artifact>, i: int) -> Artifact {
    if 0 <= i < artifacts.len() {
        artifacts[i]
    } else {
        Artifact { present: false, len: None }
    }
}

/// The record of the `i`-th catalog model in a snapshot of the registry; a
/// model that the snapshot does not reach has none.
pub open spec fn snapshot_at(records: Seq<Option<DownloadRecord>>, i: int) -> Option<RecordView> {
    if 0 <= i < records.len() {
        record_view(records[i])
    } else {
        None
    }
}

/// The report on `model`: the counters and the error come from its record
/// where it has one; without a record the counters are the length of the
/// artifact on disk, where there is one and its length is known.
pub open spec fn status_of(
    model: ModelInfo,
    artifact: Artifact,
    record: Option<RecordView>,
    active_model: Option<Seq<char>>,
) -> StatusView {
    let counters: (u64, Option<u64>) = match record {
        Some(rec) => (rec.downloaded_bytes, rec.total_bytes),
        None => if artifact.present && artifact.len is Some {
            (artifact.len->0, artifact.len)
        } else {
            (0, None)
        },
    };
    StatusView {
        name: model.name@,
        size_mb: model.size_mb,
        is_downloaded: artifact.present,
        is_downloading: record matches Some(rec) && rec.status == DownloadStatus::Downloading,
        is_active: active_model == Some(model.name@),
        downloaded_bytes: counters.0,
        total_bytes: counters.1,
        error: match record {
            Some(rec) => rec.error,
            None => None,
        },
    }
}

/// The reports on all catalog models, in catalog order, from what the disk
/// holds, a snapshot of the registry and the name of the selected model.
pub open spec fn statuses(
    artifacts: Seq<Artifact>,
    records: Seq<Option<DownloadRecord>>,
    active_model: Option<Seq<char>>,
) -> Seq<StatusView> {
    Seq::new(
        catalog().len(),
        |i: int|
            status_of(catalog()[i], artifact_at(artifacts, i), snapshot_at(records, i), active_model),
    )
}

/// An optional name as a mathematical value.
pub open spec fn text_view(text: Option<&str>) -> Option<Seq<char>> {
    match text {
        Some(t) => Some(t@),
        None => None,
    }
}

/// The views of a list of reports.
pub open spec fn status_views(list: Seq<ModelStatus>) -> Seq<StatusView> {
    list.map_values(|s: ModelStatus| s@)
}

/// Reports on every catalog model. `artifacts` holds what the disk has for
/// each and `records` the registry's snapshot, both in catalog order;
/// `active_model` is the name of the selected model. All three are plain
/// copies, so no lock is held while the reports are made.
pub fn gather_model_statuses(
    artifacts: &Vec<Artifact>,
    records: &Vec<Option<DownloadRecord>>,
    active_model: Option<&str>,
) -> (r: Vec<ModelStatus>)
    ensures
        status_views(r@) == statuses(artifacts@, records@, text_view(active_model)),
{
    let models = get_available_models();
    let mut out: Vec<ModelStatus> = Vec::new();
    let mut i: usize = 0;
    while i < models.len()
        invariant
            models@ == catalog(),
            0 <= i <= models.len(),
            out@.len() == i,
            forall|j: int|
                0 <= j < i ==> (#[trigger] out@[j])@ == status_of(
                    catalog()[j],
                    artifact_at(artifacts@, j),
                    snapshot_at(records@, j),
                    text_view(active_model),
                ),
        decreases models.len() - i,
    {
        let model = models[i];
        let artifact = if i < artifacts.len() {
            artifacts[i]
        } else {
            Artifact { present: false, len: None }
        };
        let record = if i < records.len() {
            match &records[i] {
                Some(rec) => Some(rec.clone()),
                None => None,
            }
        } else {
            None
        };
        let is_downloading = match &record {
            Some(rec) => rec.status == DownloadStatus::Downloading,
            None => false,
        };
        let counters: (u64, Option<u64>) = match &record {
            Some(rec) => (rec.downloaded_bytes, rec.total_bytes),
            None => match (artifact.present, artifact.len) {
                (true, Some(len)) => (len, Some(len)),
                _ => (0, None),
            },
        };
        let error = match record {
            Some(rec) => rec.error,
            None => None,
        };
        let is_active = match active_model {
            Some(active) => same_text(active, model.name),
            None => false,
        };
        out.push(
            ModelStatus {
                name: model.name.to_owned(),
                size_mb: model.size_mb,
                is_downloaded: artifact.present,
                is_downloading,
                is_active,
                downloaded_bytes: counters.0,
                total_bytes: counters.1,
                error,
            },
        );
        i += 1;
    }
    assert(status_views(out@) =~= statuses(artifacts@, records@, text_view(active_model)));
    out
}

/// The names of the first `upto` catalog models whose artifact is on disk.
pub open spec fn downloaded_names(artifacts: Seq<Artifact>, upto: int) -> Seq<Seq<char>>
    decreases upto,
{
    if upto <= 0 {
        Seq::empty()
    } else if artifact_at(artifacts, upto - 1).present {
        downloaded_names(artifacts, upto - 1).push(catalog()[upto - 1].name@)
    } else {
        downloaded_names(artifacts, upto - 1)
    }
}

/// The characters of each name.
pub open spec fn name_views(names: Seq<String>) -> Seq<Seq<char>> {
    names.map_values(|s: String| s@)
}

/// The names of the models whose artifact is on disk, in catalog order.
pub fn get_downloaded_models(artifacts: &Vec<Artifact>) -> (r: Vec<String>)
    ensures
        name_views(r@) == downloaded_names(artifacts@, catalog().len() as int),
{
    let models = get_available_models();
    let mut out: Vec<String> = Vec::new();
    let mut i: usize = 0;
    while i < models.len()
        invariant
            models@ == catalog(),
            0 <= i <= models.len(),
            name_views(out@) == downloaded_names(artifacts@, i as int),
        decreases models.len() - i,
    {
        if i < artifacts.len() && artifacts[i].present {
            let ghost before = out@;
            out.push(models[i].name.to_owned());
            assert(name_views(out@) =~= name_views(before).push(models@[i as int].name@));
        }
        i += 1;
    }
    out
}

/// At most one report says `is_active`: two reports that both say so are
/// the same report.
pub proof fn at_most_one_active(
    artifacts: Seq<Artifact>,
    records: Seq<Option<DownloadRecord>>,
    active_model: Option<Seq<char>>,
    i: int,
    j: int,
)
    requires
        0 <= i < catalog().len(),
        0 <= j < catalog().len(),
        statuses(artifacts, records, active_model)[i].is_active,
        statuses(artifacts, records, active_model)[j].is_active,
    ensures
        i == j,
{
    catalog_names_distinct();
}

/// With nothing selected no report says `is_active`.
pub proof fn none_active_without_selection(
    artifacts: Seq<Artifact>,
    records: Seq<Option<DownloadRecord>>,
    i: int,
)
    requires
        0 <= i < catalog().len(),
    ensures
        !statuses(artifacts, records, None)[i].is_active,
{
}

/// Reports made from a snapshot of registry `reg` and from the selected
/// model of `runtime` say of each model what the two hold for it.
pub proof fn statuses_follow_registry<C>(
    artifacts: Seq<Artifact>,
    records: Seq<Option<DownloadRecord>>,
    reg: Map<Seq<char>, RecordView>,
    runtime: RuntimeView<C>,
    i: int,
)
    requires
        0 <= i < catalog().len(),
        records.len() == catalog().len(),
        forall|k: int|
            0 <= k < catalog().len() ==> record_view(#[trigger] records[k]) == record_of(
                reg,
                catalog()[k].name@,
            ),
    ensures
        statuses(artifacts, records, runtime.current_model).len() == catalog().len(),
        statuses(artifacts, records, runtime.current_model)[i].name == catalog()[i].name@,
        statuses(artifacts, records, runtime.current_model)[i].is_downloading == downloading(
            reg,
            catalog()[i].name@,
        ),
        statuses(artifacts, records, runtime.current_model)[i].is_active == active_in(
            runtime,
            catalog()[i].name@,
        ),
        statuses(artifacts, records, runtime.current_model)[i].is_downloaded == artifact_at(
            artifacts,
            i,
        ).present,
{
}

} // verus!
