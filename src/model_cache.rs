use vstd::prelude::*;

use crate::error::PipelineError;
use crate::text::{decimal, decimal_text, occurs_at, occurs_at_exec, remove_all_occurrences, removed_all};

verus! {

/// Prefix of every model weights file in the cache directory.
pub open spec fn model_prefix() -> Seq<char> {
    "ggml-"@
}

/// Extension of every model weights file in the cache directory.
pub open spec fn model_suffix() -> Seq<char> {
    ".bin"@
}

/// Remote location that every model weights file is fetched from.
pub open spec fn model_source() -> Seq<char> {
    "https://huggingface.co/ggerganov/whisper.cpp/resolve/main/"@
}

/// The canonical cache file name of the model called `name`.
pub open spec fn model_file_name_of(name: Seq<char>) -> Seq<char> {
    model_prefix() + name + model_suffix()
}

/// The canonical cache path of the model called `name` under `cache_dir`.
pub open spec fn model_path_of(cache_dir: Seq<char>, name: Seq<char>) -> Seq<char> {
    cache_dir + "/"@ + model_file_name_of(name)
}

/// Where a download of the model is written before it is complete.
pub open spec fn partial_path_of(cache_dir: Seq<char>, name: Seq<char>) -> Seq<char> {
    model_path_of(cache_dir, name) + ".part"@
}

/// The name of the model that a cache file called `file` holds, if it is one.
pub open spec fn listed_model_name(file: Seq<char>) -> Option<Seq<char>> {
    if file.len() >= 9 && occurs_at(file, model_prefix(), 0)
        && occurs_at(file, model_suffix(), file.len() - 4) {
        Some(removed_all(file.subrange(0, file.len() - 4), model_prefix()))
    } else {
        None
    }
}

/// Returns the cache directory of model weights under an application-owned
/// local data root.
pub fn models_dir(local_data_root: &str) -> (r: String)
    ensures
        r@ == local_data_root@ + "/whisper_models"@,
{
    let mut r = String::from_str(local_data_root);
    r.append("/whisper_models");
    r
}

/// Returns the canonical cache file name of a model.
pub fn model_file_name(name: &str) -> (r: String)
    ensures
        r@ == model_file_name_of(name@),
{
    let mut r = String::from_str("ggml-");
    r.append(name);
    r.append(".bin");
    r
}

/// Returns the URL that the weights of a model are downloaded from.
pub fn model_url(name: &str) -> (r: String)
    ensures
        r@ == model_source() + model_file_name_of(name@),
{
    let mut r = String::from_str("https://huggingface.co/ggerganov/whisper.cpp/resolve/main/");
    let file = model_file_name(name);
    r.append(file.as_str());
    r
}

/// Returns the canonical cache path of a model under `cache_dir`.
pub fn model_path(cache_dir: &str, name: &str) -> (r: String)
    ensures
        r@ == model_path_of(cache_dir@, name@),
{
    let mut r = String::from_str(cache_dir);
    r.append("/");
    let file = model_file_name(name);
    r.append(file.as_str());
    r
}

/// Returns the path that a download of a model is written to until it is
/// complete; it is renamed to the canonical path only then.
pub fn partial_model_path(cache_dir: &str, name: &str) -> (r: String)
    ensures
        r@ == partial_path_of(cache_dir@, name@),
        r@ != model_path_of(cache_dir@, name@),
{
    let mut r = model_path(cache_dir, name);
    r.append(".part");
    assert(r@.len() != model_path_of(cache_dir@, name@).len()) by {
        reveal_strlit(".part");
    }
    r
}

/// Returns the model name that a cache file holds: the file is named
/// `ggml-<stem>.bin`, and the name is its stem with every `ggml-` removed.
pub fn model_name_of_file(file: &str) -> (r: Option<String>)
    ensures
        r matches Some(n) ==> listed_model_name(file@) == Some(n@),
        r is None ==> listed_model_name(file@) is None,
{
    proof {
        reveal_strlit("ggml-");
        reveal_strlit(".bin");
    }
    let len = file.unicode_len();
    if len < 9 {
        return None;
    }
    if !occurs_at_exec(file, len, "ggml-", 5, 0) || !occurs_at_exec(file, len, ".bin", 4, len - 4) {
        return None;
    }
    let stem = file.substring_char(0, len - 4);
    Some(remove_all_occurrences(stem, "ggml-"))
}

/// The model names that the cache files called `files` hold, in order.
pub open spec fn listed_model_names(files: Seq<Seq<char>>) -> Seq<Seq<char>>
    decreases files.len(),
{
    if files.len() == 0 {
        Seq::empty()
    } else {
        let rest = listed_model_names(files.drop_last());
        match listed_model_name(files.last()) {
            Some(n) => rest.push(n),
            None => rest,
        }
    }
}

/// Returns, in order, the names of the models held by the cache files
/// called `files`; other files are left out.
pub fn list_model_names(files: &Vec<String>) -> (r: Vec<String>)
    ensures
        r@.map_values(|s: String| s@) == listed_model_names(files@.map_values(|s: String| s@)),
{
    let mut r: Vec<String> = Vec::new();
    let mut i: usize = 0;
    while i < files.len()
        invariant
            i <= files@.len(),
            r@.map_values(|s: String| s@)
                == listed_model_names(files@.subrange(0, i as int).map_values(|s: String| s@)),
        decreases files@.len() - i,
    {
        let ghost before = r@.map_values(|s: String| s@);
        assert(files@.subrange(0, i + 1).map_values(|s: String| s@).drop_last()
            =~= files@.subrange(0, i as int).map_values(|s: String| s@));
        match model_name_of_file(files[i].as_str()) {
            Some(n) => {
                r.push(n);
                assert(r@.map_values(|s: String| s@) =~= before.push(r@.last()@));
            },
            None => {},
        }
        i = i + 1;
    }
    assert(files@.subrange(0, i as int) =~= files@);
    r
}

/// Whether an HTTP status code reports success (2xx).
pub open spec fn is_success_status(code: u16) -> bool {
    200 <= code <= 299
}

/// Checks the status of a model download response; any status outside
/// 2xx fails the download.
pub fn check_download_status(code: u16) -> (r: Result<(), PipelineError>)
    ensures
        r is Ok <==> is_success_status(code),
        r matches Err(e) ==> (e matches PipelineError::Network(m) && m@ == "HTTP error: "@ + decimal(code as nat)),
{
    if 200 <= code && code <= 299 {
        Ok(())
    } else {
        let mut m = String::from_str("HTTP error: ");
        let digits = decimal_text(code as u64);
        m.append(digits.as_str());
        Err(PipelineError::Network(m))
    }
}

/// What the cache knows of one model.
#[derive(Debug, Clone, Copy, PartialEq, Eq, Structural)]
pub enum ModelStatus {
    /// Not known to be on disk and not being fetched.
    Absent,
    /// One download is in flight; it writes to the partial path.
    Downloading,
    /// The canonical file is complete on disk.
    Present,
}

/// What a resolver must do next for a resolution request.
#[derive(Debug, Clone, Copy, PartialEq, Eq, Structural)]
pub enum ResolveAction {
    /// Return the canonical path; no network access.
    UseCached,
    /// Download to the partial path, then report the outcome.
    Download,
    /// Another download of the same model is in flight: wait for it, then
    /// ask again.
    Wait,
}

/// What a resolver must do when a download has ended.
#[derive(Debug, Clone, Copy, PartialEq, Eq, Structural)]
pub enum FinishAction {
    /// Rename the partial file to the canonical path.
    Commit,
    /// Remove the partial file.
    Discard,
    /// No download was in flight: nothing to do.
    Ignore,
}

/// Next status and action for a resolution request; `on_disk` says whether
/// the canonical file exists.
pub open spec fn request_step(s: ModelStatus, on_disk: bool) -> (ModelStatus, ResolveAction) {
    match s {
        ModelStatus::Present => (ModelStatus::Present, ResolveAction::UseCached),
        ModelStatus::Downloading => (ModelStatus::Downloading, ResolveAction::Wait),
        ModelStatus::Absent => if on_disk {
            (ModelStatus::Present, ResolveAction::UseCached)
        } else {
            (ModelStatus::Downloading, ResolveAction::Download)
        },
    }
}

/// Next status and action when a download ends, successfully or not.
pub open spec fn finish_step(s: ModelStatus, succeeded: bool) -> (ModelStatus, FinishAction) {
    match s {
        ModelStatus::Downloading => if succeeded {
            (ModelStatus::Present, FinishAction::Commit)
        } else {
            (ModelStatus::Absent, FinishAction::Discard)
        },
        _ => (s, FinishAction::Ignore),
    }
}

/// The resolution state of one model name. Resolvers of the same name share
/// one slot and take turns on it, which serialises their downloads.
#[derive(Debug)]
pub struct ModelSlot {
    pub status: ModelStatus,
}

impl ModelSlot {
    /// A slot for a model that has not been looked at yet.
    pub fn new() -> (r: ModelSlot)
        ensures
            r.status == ModelStatus::Absent,
    {
        ModelSlot { status: ModelStatus::Absent }
    }

    /// Decides what a resolution request must do.
    pub fn request(&mut self, on_disk: bool) -> (r: ResolveAction)
        ensures
            (final(self).status, r) == request_step(old(self).status, on_disk),
    {
        match self.status {
            ModelStatus::Present => ResolveAction::UseCached,
            ModelStatus::Downloading => ResolveAction::Wait,
            ModelStatus::Absent => {
                if on_disk {
                    self.status = ModelStatus::Present;
                    ResolveAction::UseCached
                } else {
                    self.status = ModelStatus::Downloading;
                    ResolveAction::Download
                }
            },
        }
    }

    /// Records the end of a download and decides what to do with its file.
    pub fn finish(&mut self, succeeded: bool) -> (r: FinishAction)
        ensures
            (final(self).status, r) == finish_step(old(self).status, succeeded),
    {
        match self.status {
            ModelStatus::Downloading => {
                if succeeded {
                    self.status = ModelStatus::Present;
                    FinishAction::Commit
                } else {
                    self.status = ModelStatus::Absent;
                    FinishAction::Discard
                }
            },
            _ => FinishAction::Ignore,
        }
    }
}

/// Status and actions after a run of resolution requests on one slot, in
/// order, with no download ending between them.
pub open spec fn request_run(s: ModelStatus, on_disk: Seq<bool>) -> (ModelStatus, Seq<ResolveAction>)
    decreases on_disk.len(),
{
    if on_disk.len() == 0 {
        (s, Seq::empty())
    } else {
        let (s1, acts) = request_run(s, on_disk.drop_last());
        let (s2, a) = request_step(s1, on_disk.last());
        (s2, acts.push(a))
    }
}

/// Number of downloads that a run of actions starts.
pub open spec fn downloads(acts: Seq<ResolveAction>) -> nat
    decreases acts.len(),
{
    if acts.len() == 0 {
        0
    } else {
        downloads(acts.drop_last()) + if acts.last() == ResolveAction::Download { 1nat } else { 0nat }
    }
}

/// Resolving a model that the cache has not seen twice, with the first
/// resolution's download (if it needed one) completed in between, downloads
/// at most once, and only when the file was missing; the second resolution
/// uses the cached file without any network access.
pub proof fn lemma_resolve_twice_downloads_once(first_on_disk: bool, second_on_disk: bool)
    ensures
        ({
            let (s1, a1) = request_step(ModelStatus::Absent, first_on_disk);
            let s2 = if a1 == ResolveAction::Download { finish_step(s1, true).0 } else { s1 };
            let (s3, a2) = request_step(s2, second_on_disk);
            &&& (a1 == ResolveAction::Download) == !first_on_disk
            &&& a1 != ResolveAction::Wait
            &&& a2 == ResolveAction::UseCached
            &&& s3 == ModelStatus::Present
        }),
{
}

proof fn lemma_request_run_shape(on_disk: Seq<bool>)
    requires
        on_disk.len() > 0,
    ensures
        ({
            let (s, acts) = request_run(ModelStatus::Absent, on_disk);
            &&& acts.len() == on_disk.len()
            &&& downloads(acts) == if on_disk[0] { 0nat } else { 1nat }
            &&& s == if on_disk[0] { ModelStatus::Present } else { ModelStatus::Downloading }
            &&& forall|i: int| 0 < i < acts.len() ==> acts[i] == if on_disk[0] {
                ResolveAction::UseCached
            } else {
                ResolveAction::Wait
            }
            &&& acts[0] == if on_disk[0] { ResolveAction::UseCached } else { ResolveAction::Download }
        }),
    decreases on_disk.len(),
{
    if on_disk.len() > 1 {
        lemma_request_run_shape(on_disk.drop_last());
        assert(on_disk.drop_last()[0] == on_disk[0]);
        let (s0, acts0) = request_run(ModelStatus::Absent, on_disk.drop_last());
        let (s, acts) = request_run(ModelStatus::Absent, on_disk);
        assert(acts.drop_last() =~= acts0);
    } else {
        assert(on_disk.drop_last().len() == 0);
        assert(request_run(ModelStatus::Absent, on_disk.drop_last())
            == (ModelStatus::Absent, Seq::<ResolveAction>::empty()));
        let (s, acts) = request_run(ModelStatus::Absent, on_disk);
        assert(acts =~= seq![acts[0]]);
        assert(acts.drop_last() =~= Seq::<ResolveAction>::empty());
        assert(downloads(acts.drop_last()) == 0);
    }
}

/// Any number of resolution requests for a model that the cache has not
/// seen, arriving before any download ends, start at most one download:
/// the first request downloads (unless the file is already on disk) and all
/// later ones wait for it. Once that download succeeds, every one of them
/// asking again is given the cached file, with no further download.
pub proof fn lemma_concurrent_resolutions_download_once(on_disk: Seq<bool>, again: Seq<bool>)
    requires
        on_disk.len() > 0,
        again.len() == on_disk.len(),
    ensures
        ({
            let (s, acts) = request_run(ModelStatus::Absent, on_disk);
            let s_done = finish_step(s, true).0;
            let (s_after, acts_after) = request_run(s_done, again);
            &&& downloads(acts) <= 1
            &&& (downloads(acts) == 1) == !on_disk[0]
            &&& forall|i: int| 0 < i < acts.len() ==> acts[i] != ResolveAction::Download
            &&& acts_after.len() == again.len()
            &&& downloads(acts_after) == 0
            &&& forall|i: int| 0 <= i < acts_after.len() ==> acts_after[i] == ResolveAction::UseCached
            &&& s_after == ModelStatus::Present
        }),
{
    lemma_request_run_shape(on_disk);
    lemma_present_run(again);
}

proof fn lemma_present_run(on_disk: Seq<bool>)
    ensures
        ({
            let (s, acts) = request_run(ModelStatus::Present, on_disk);
            &&& s == ModelStatus::Present
            &&& acts.len() == on_disk.len()
            &&& downloads(acts) == 0
            &&& forall|i: int| 0 <= i < acts.len() ==> acts[i] == ResolveAction::UseCached
        }),
    decreases on_disk.len(),
{
    if on_disk.len() > 0 {
        lemma_present_run(on_disk.drop_last());
        let (s0, acts0) = request_run(ModelStatus::Present, on_disk.drop_last());
        let (s, acts) = request_run(ModelStatus::Present, on_disk);
        assert(acts.drop_last() =~= acts0);
    }
}

} // verus!
