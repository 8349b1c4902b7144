//! Where a Parakeet model comes from: a local directory, or the ONNX files of a
//! Hugging Face repository, the int8 set first and the fp32 set after it.

use vstd::prelude::*;

use crate::config::DEFAULT_PARAKEET_MODEL;
use crate::config::DEFAULT_PARAKEET_ONNX_REPO;
use crate::models::FileFetch;
use crate::models::ModelError;
use crate::paths::probe_dir;
use crate::paths::DirProbe;
use crate::text::same_text;
use crate::text::texts;

verus! {

/// The Parakeet engine is built into this program, so it is always there.
pub open spec fn spec_parakeet_available() -> bool {
    true
}

/// Whether the Parakeet engine can run here (it always can).
pub fn parakeet_is_available() -> (r: bool)
    ensures
        r == spec_parakeet_available(),
{
    true
}

/// Where a Parakeet model is read from.
#[derive(Debug, Clone, PartialEq, Eq)]
pub enum ParakeetModelSource {
    /// An existing local directory.
    LocalDir(String),
    /// A Hugging Face repository id.
    HuggingFaceRepo(String),
}

/// The source for `model_id_or_path`, given whether it names an existing
/// directory: the directory if so, the repository of that id otherwise.
pub fn model_source_from_probe(model_id_or_path: &str, is_dir: bool) -> (r: ParakeetModelSource)
    ensures
        is_dir ==> (r matches ParakeetModelSource::LocalDir(p) && p@ == model_id_or_path@),
        !is_dir ==> (r matches ParakeetModelSource::HuggingFaceRepo(id) && id@
            == model_id_or_path@),
{
    if is_dir {
        ParakeetModelSource::LocalDir(model_id_or_path.to_owned())
    } else {
        ParakeetModelSource::HuggingFaceRepo(model_id_or_path.to_owned())
    }
}

/// The source for `model_id_or_path`: a local directory when the file
/// system has a directory at that very path, a repository id otherwise. The
/// probe of the file system comes back with it.
pub fn resolve_parakeet_model_source(model_id_or_path: &str) -> (r: (ParakeetModelSource, DirProbe))
    ensures
        r.1.path() == model_id_or_path@,
        r.1.found() ==> (r.0 matches ParakeetModelSource::LocalDir(p) && p@ == model_id_or_path@),
        !r.1.found() ==> (r.0 matches ParakeetModelSource::HuggingFaceRepo(id) && id@
            == model_id_or_path@),
{
    let probe = probe_dir(model_id_or_path);
    let source = model_source_from_probe(model_id_or_path, probe.is_dir());
    (source, probe)
}

/// The repository a Parakeet model id is fetched from: the default model's
/// ONNX export for the default model, the id itself otherwise.
pub open spec fn parakeet_repo_for(repo_id: Seq<char>) -> Seq<char> {
    if repo_id == DEFAULT_PARAKEET_MODEL@ {
        DEFAULT_PARAKEET_ONNX_REPO@
    } else {
        repo_id
    }
}

/// The repository to fetch for `repo_id`.
pub fn resolve_parakeet_repo_id<'a>(repo_id: &'a str) -> (r: &'a str)
    ensures
        r@ == parakeet_repo_for(repo_id@),
{
    if same_text(repo_id, DEFAULT_PARAKEET_MODEL) {
        return DEFAULT_PARAKEET_ONNX_REPO;
    }
    repo_id
}

/// The int8 ONNX file set, preferred for its faster load and smaller size.
pub open spec fn int8_files() -> Seq<Seq<char>> {
    seq![
        "encoder-model.int8.onnx"@,
        "decoder_joint-model.int8.onnx"@,
        "nemo128.onnx"@,
        "vocab.txt"@,
    ]
}

/// The fp32 ONNX file set, the fallback.
pub open spec fn fp32_files() -> Seq<Seq<char>> {
    seq![
        "encoder-model.onnx"@,
        "encoder-model.onnx.data"@,
        "decoder_joint-model.onnx"@,
        "nemo128.onnx"@,
        "vocab.txt"@,
    ]
}

/// `f` is about to fetch `files` from `repo`, all of them into one
/// directory, and has fetched nothing yet.
pub open spec fn fresh_fetch_of(f: FileFetch, repo: Seq<char>, files: Seq<Seq<char>>) -> bool {
    &&& f.wf()
    &&& f.repo() == repo
    &&& f.files() == files
    &&& f.in_dir() == Seq::new(files.len(), |k: int| true)
    &&& f.fetched().len() == 0
    &&& f.dir() is None
}

/// A fetch of `files` from `repo_id`, every file kept in the model directory.
fn fetch_all_into_one_dir(repo_id: &str, files: Vec<String>) -> (r: FileFetch)
    ensures
        fresh_fetch_of(r, repo_id@, texts(files@)),
{
    let mut in_dir: Vec<bool> = Vec::new();
    let mut i: usize = 0;
    while i < files.len()
        invariant
            i <= files.len(),
            in_dir@ == Seq::new(i as nat, |k: int| true),
        decreases files.len() - i,
    {
        in_dir.push(true);
        i = i + 1;
    }
    let ghost all = texts(files@);
    let r = FileFetch::new(repo_id, files, in_dir);
    assert(r.in_dir() =~= Seq::new(all.len(), |k: int| true));
    r
}

/// What comes next for a Parakeet model: its directory is known, or files
/// must be fetched first.
#[derive(Debug)]
pub enum ParakeetStep {
    /// The model directory.
    Ready(String),
    /// Fetch these files; their directory is the model directory.
    Fetch(FileFetch),
}

/// The download of the Parakeet model `repo_id` begins with the int8 set of
/// its ONNX repository (the ONNX export of the default model, the id itself
/// otherwise), at the `main` branch.
pub fn download_parakeet_model_dir(repo_id: &str) -> (r: FileFetch)
    ensures
        fresh_fetch_of(r, parakeet_repo_for(repo_id@), int8_files()),
{
    let resolved_repo_id = resolve_parakeet_repo_id(repo_id);
    let files: Vec<String> = vec![
        "encoder-model.int8.onnx".to_owned(),
        "decoder_joint-model.int8.onnx".to_owned(),
        "nemo128.onnx".to_owned(),
        "vocab.txt".to_owned(),
    ];
    assert(texts(files@) =~= int8_files());
    fetch_all_into_one_dir(resolved_repo_id, files)
}

/// After the int8 set of `repo_id` was fetched: its directory when that
/// worked, otherwise the fp32 set of the same repository.
pub fn parakeet_after_int8(repo_id: &str, int8: Result<String, ModelError>) -> (r: ParakeetStep)
    ensures
        match int8 {
            Ok(d) => r matches ParakeetStep::Ready(s) && s@ == d@,
            Err(_) => r matches ParakeetStep::Fetch(f) && fresh_fetch_of(
                f,
                parakeet_repo_for(repo_id@),
                fp32_files(),
            ),
        },
{
    match int8 {
        Ok(d) => ParakeetStep::Ready(d),
        Err(_) => {
            let resolved_repo_id = resolve_parakeet_repo_id(repo_id);
            let files: Vec<String> = vec![
                "encoder-model.onnx".to_owned(),
                "encoder-model.onnx.data".to_owned(),
                "decoder_joint-model.onnx".to_owned(),
                "nemo128.onnx".to_owned(),
                "vocab.txt".to_owned(),
            ];
            assert(texts(files@) =~= fp32_files());
            ParakeetStep::Fetch(fetch_all_into_one_dir(resolved_repo_id, files))
        },
    }
}

/// After the fp32 set of `repo_id` was fetched: its directory when that
/// worked; otherwise both sets failed, and the fp32 failure is the cause.
pub fn parakeet_after_fp32(repo_id: &str, fp32: Result<String, ModelError>) -> (r: Result<
    String,
    ModelError,
>)
    ensures
        match fp32 {
            Ok(d) => r matches Ok(s) && s@ == d@,
            Err(e) => r matches Err(ModelError::BothFileSetsFailed { repo_id: q, last_error })
                && q@ == parakeet_repo_for(repo_id@) && *last_error == e,
        },
{
    match fp32 {
        Ok(d) => Ok(d),
        Err(e) => {
            let resolved_repo_id = resolve_parakeet_repo_id(repo_id);
            Err(
                ModelError::BothFileSetsFailed {
                    repo_id: resolved_repo_id.to_owned(),
                    last_error: Box::new(e),
                },
            )
        },
    }
}

/// Where the Parakeet model `model_id_or_path` is read from, given whether it
/// names an existing directory: that directory as it is, or else the int8
/// set of its repository.
pub fn parakeet_dir_from_probe(model_id_or_path: &str, is_dir: bool) -> (r: ParakeetStep)
    ensures
        is_dir ==> (r matches ParakeetStep::Ready(p) && p@ == model_id_or_path@),
        !is_dir ==> (r matches ParakeetStep::Fetch(f) && fresh_fetch_of(
            f,
            parakeet_repo_for(model_id_or_path@),
            int8_files(),
        )),
{
    match model_source_from_probe(model_id_or_path, is_dir) {
        ParakeetModelSource::LocalDir(path) => ParakeetStep::Ready(path),
        ParakeetModelSource::HuggingFaceRepo(repo_id) => ParakeetStep::Fetch(
            download_parakeet_model_dir(repo_id.as_str()),
        ),
    }
}

/// Where the Parakeet model `model_id_or_path` is read from: when the file
/// system has a directory at that very path it is used as it is; any other
/// text is a repository id, whose int8 set is fetched first. The probe of the
/// file system comes back with it.
pub fn resolve_parakeet_model_dir(model_id_or_path: &str) -> (r: (ParakeetStep, DirProbe))
    ensures
        r.1.path() == model_id_or_path@,
        r.1.found() ==> (r.0 matches ParakeetStep::Ready(p) && p@ == model_id_or_path@),
        !r.1.found() ==> (r.0 matches ParakeetStep::Fetch(f) && fresh_fetch_of(
            f,
            parakeet_repo_for(model_id_or_path@),
            int8_files(),
        )),
{
    let probe = probe_dir(model_id_or_path);
    let step = parakeet_dir_from_probe(model_id_or_path, probe.is_dir());
    (step, probe)
}

/// Fetching never changes the repository twice: the ONNX repository of the
/// default model is fetched as itself.
pub proof fn law_repo_resolution_idempotent(repo_id: Seq<char>)
    ensures
        parakeet_repo_for(parakeet_repo_for(repo_id)) == parakeet_repo_for(repo_id),
{
    reveal_strlit("mlx-community/parakeet-tdt-0.6b-v3");
    reveal_strlit("istupakov/parakeet-tdt-0.6b-v3-onnx");
    if repo_id == DEFAULT_PARAKEET_MODEL@ {
        assert(DEFAULT_PARAKEET_ONNX_REPO@[0] != DEFAULT_PARAKEET_MODEL@[0]);
    }
}

/// Only the default model is fetched from another repository, its ONNX
/// export; every other id is fetched as it is given.
pub proof fn law_only_the_default_model_is_redirected(repo_id: Seq<char>)
    ensures
        repo_id != DEFAULT_PARAKEET_MODEL@ ==> parakeet_repo_for(repo_id) == repo_id,
        repo_id == "mlx-community/parakeet-tdt-0.6b-v3"@ ==> parakeet_repo_for(repo_id)
            == "istupakov/parakeet-tdt-0.6b-v3-onnx"@,
{
}

} // verus!
