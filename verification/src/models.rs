//! The catalogue of Whisper models and what the library reports about them.
use vstd::prelude::*;
use crate::text::{append, opt_view};

verus! {

/// Where the model files are downloaded from.
pub open spec fn hf_base_url() -> Seq<char> {
    "https://huggingface.co/ggerganov/whisper.cpp/resolve/main"@
}

/// The models on offer: file name and size in bytes.
pub open spec fn model_catalog() -> Seq<(Seq<char>, u64)> {
    seq![
        ("ggml-small-q5_1.bin"@, 199_229_440u64),
        ("ggml-medium-q5_0.bin"@, 565_190_656u64),
        ("ggml-large-v3-turbo-q5_0.bin"@, 601_968_640u64),
    ]
}

/// A model of the catalogue.
#[derive(Debug, PartialEq, Eq)]
pub struct ModelEntry {
    pub filename: String,
    pub size_bytes: u64,
}

/// A catalogue model and whether it is on disk.
#[derive(Debug, PartialEq, Eq)]
pub struct WhisperModelInfo {
    pub name: String,
    pub size_bytes: u64,
    pub downloaded: bool,
    pub path: Option<String>,
}

/// The models on offer, in the order they are listed.
pub fn whisper_models() -> (v: Vec<ModelEntry>)
    ensures
        v@.len() == model_catalog().len(),
        forall|i: int|
            0 <= i < v@.len() ==> (#[trigger] v@[i]).filename@ == model_catalog()[i].0 && v@[i].size_bytes
                == model_catalog()[i].1,
{
    let mut v: Vec<ModelEntry> = Vec::new();
    v.push(ModelEntry { filename: "ggml-small-q5_1.bin".to_owned(), size_bytes: 199_229_440 });
    v.push(ModelEntry { filename: "ggml-medium-q5_0.bin".to_owned(), size_bytes: 565_190_656 });
    v.push(ModelEntry { filename: "ggml-large-v3-turbo-q5_0.bin".to_owned(), size_bytes: 601_968_640 });
    v
}

/// The report on one model: downloaded exactly when a path was found for
/// it, and the path only then.
pub fn model_info(entry: &ModelEntry, found_at: Option<String>) -> (info: WhisperModelInfo)
    ensures
        info.name@ == entry.filename@,
        info.size_bytes == entry.size_bytes,
        info.downloaded == found_at.is_some(),
        opt_view(info.path) == opt_view(found_at),
{
    let downloaded = found_at.is_some();
    WhisperModelInfo {
        name: entry.filename.clone(),
        size_bytes: entry.size_bytes,
        downloaded,
        path: found_at,
    }
}

/// Where the i-th model's file was found: `found[i]`, or nowhere where
/// `found` is shorter.
pub open spec fn found_at(found: Seq<Option<String>>, i: int) -> Option<Seq<char>> {
    if 0 <= i < found.len() {
        opt_view(found[i])
    } else {
        None
    }
}

/// The report on every model of the catalogue, where `found[i]` is the path
/// of the i-th model's file if it is on disk.
pub fn list_model_infos(found: Vec<Option<String>>) -> (infos: Vec<WhisperModelInfo>)
    ensures
        infos@.len() == model_catalog().len(),
        forall|i: int|
            0 <= i < infos@.len() ==> {
                &&& (#[trigger] infos@[i]).name@ == model_catalog()[i].0
                &&& infos@[i].size_bytes == model_catalog()[i].1
                &&& infos@[i].downloaded == found_at(found@, i).is_some()
                &&& opt_view(infos@[i].path) == found_at(found@, i)
            },
{
    let entries = whisper_models();
    let mut found = found;
    let ghost found0 = found@;
    let mut infos: Vec<WhisperModelInfo> = Vec::new();
    let mut i: usize = 0;
    while i < entries.len()
        invariant
            i <= entries@.len(),
            entries@.len() == model_catalog().len(),
            found@.len() == found0.len(),
            forall|k: int| i <= k < found@.len() ==> found@[k] == found0[k],
            forall|k: int|
                0 <= k < entries@.len() ==> (#[trigger] entries@[k]).filename@ == model_catalog()[k].0
                    && entries@[k].size_bytes == model_catalog()[k].1,
            infos@.len() == i,
            forall|k: int|
                0 <= k < i ==> {
                    &&& (#[trigger] infos@[k]).name@ == model_catalog()[k].0
                    &&& infos@[k].size_bytes == model_catalog()[k].1
                    &&& infos@[k].downloaded == found_at(found0, k).is_some()
                    &&& opt_view(infos@[k].path) == found_at(found0, k)
                },
        decreases entries.len() - i,
    {
        let mut here: Option<String> = None;
        if i < found.len() {
            std::mem::swap(&mut here, &mut found[i]);
        }
        infos.push(model_info(&entries[i], here));
        i = i + 1;
    }
    infos
}

/// The address a model file is downloaded from.
pub fn model_download_url(model_name: &str) -> (url: String)
    ensures
        url@ == hf_base_url() + "/"@ + model_name@,
{
    let mut url = "https://huggingface.co/ggerganov/whisper.cpp/resolve/main".to_owned();
    append(&mut url, "/");
    append(&mut url, model_name);
    url
}

/// What a request to download a model leads to.
#[derive(Debug, PartialEq, Eq)]
pub enum ModelFetch {
    /// The model is on disk already; nothing to do.
    AlreadyPresent,
    /// Fetch the model from this address.
    Fetch(String),
}

/// Decides whether a model has to be downloaded, given whether its file is
/// on disk: only a missing model is fetched, from its download address.
pub fn plan_model_download(model_name: &str, present: bool) -> (r: ModelFetch)
    ensures
        match r {
            ModelFetch::AlreadyPresent => present,
            ModelFetch::Fetch(url) => !present && url@ == hf_base_url() + "/"@ + model_name@,
        },
{
    if present {
        ModelFetch::AlreadyPresent
    } else {
        ModelFetch::Fetch(model_download_url(model_name))
    }
}

/// The error given when the chosen model is not on disk.
pub fn model_not_found_message(model_name: &str) -> (m: String)
    ensures
        m@ == "Model '"@ + model_name@ + "' not found. Download it in Settings → Transcription."@,
{
    let mut m = "Model '".to_owned();
    append(&mut m, model_name);
    append(&mut m, "' not found. Download it in Settings → Transcription.");
    m
}

/// The error given when the model server answers with an unsuccessful
/// status; `status` is the status as the HTTP client writes it.
pub fn http_status_message(status: &str) -> (m: String)
    ensures
        m@ == "HTTP "@ + status@,
{
    let mut m = "HTTP ".to_owned();
    append(&mut m, status);
    m
}

} // verus!
