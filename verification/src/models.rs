//! Errors of model resolution, and the fetching of a model's files from a
//! Hugging Face repository: which file is asked for next, and the rule that
//! the files of a model must land in one directory.

use vstd::prelude::*;

use crate::paths::parent_dir;
use crate::paths::path_parent;
use crate::paths::paths_equal;
use crate::paths::same_path;
use crate::text::texts;

verus! {

/// Why a model could not be located or fetched.
#[derive(Debug)]
pub enum ModelError {
    /// The hub client could not be set up.
    HubUnavailable { cause: String },
    /// A file could not be fetched from a repository.
    FetchFailed { filename: String, repo_id: String, cause: String },
    /// A fetched file's path has no parent directory.
    NoParentDir { path: String },
    /// The files of one model landed in different directories.
    MixedDirectories { repo_id: String },
    /// No file was fetched, so no directory is known.
    NoModelDir { repo_id: String },
    /// Neither the int8 nor the fp32 file set could be fetched.
    BothFileSetsFailed { repo_id: String, last_error: Box<ModelError> },
    /// A Moonshine model id names neither the tiny nor the base variant.
    UnsupportedMoonshineVariant { model: String },
}

/// The one-line description of an error (its outermost context).
pub open spec fn model_error_text(e: ModelError) -> Seq<char> {
    match e {
        ModelError::HubUnavailable { .. } => "failed to initialize Hugging Face API"@,
        ModelError::FetchFailed { filename, repo_id, .. } => "failed to fetch '"@ + filename@
            + "' from '"@ + repo_id@ + "'"@,
        ModelError::NoParentDir { path } => "could not resolve parent directory for '"@ + path@
            + "'"@,
        ModelError::MixedDirectories { repo_id } => "downloaded model files from '"@ + repo_id@
            + "' did not resolve to one directory"@,
        ModelError::NoModelDir { repo_id } => "failed to resolve model directory for '"@
            + repo_id@ + "'"@,
        ModelError::BothFileSetsFailed { repo_id, .. } =>
            "failed to download both int8 and fp32 model files from '"@ + repo_id@ + "'"@,
        ModelError::UnsupportedMoonshineVariant { model } => "unsupported Moonshine variant '"@
            + model@ + "': only 'tiny' and 'base' are supported"@,
    }
}

/// The descriptions of an error and of what caused it, outermost first: a
/// hub failure carries the hub's own text as its cause, and a failure of both
/// file sets carries the fp32 failure.
pub open spec fn model_error_chain(e: ModelError) -> Seq<Seq<char>>
    decreases e,
{
    match e {
        ModelError::HubUnavailable { cause } => seq![model_error_text(e), cause@],
        ModelError::FetchFailed { cause, .. } => seq![model_error_text(e), cause@],
        ModelError::BothFileSetsFailed { last_error, .. } => seq![model_error_text(e)]
            + model_error_chain(*last_error),
        _ => seq![model_error_text(e)],
    }
}

impl ModelError {
    /// The one-line description of this error.
    pub fn message(&self) -> (r: String)
        ensures
            r@ == model_error_text(*self),
    {
        let mut out = String::new();
        match self {
            ModelError::HubUnavailable { .. } => {
                out.append("failed to initialize Hugging Face API");
            },
            ModelError::FetchFailed { filename, repo_id, .. } => {
                out.append("failed to fetch '");
                out.append(filename.as_str());
                out.append("' from '");
                out.append(repo_id.as_str());
                out.append("'");
            },
            ModelError::NoParentDir { path } => {
                out.append("could not resolve parent directory for '");
                out.append(path.as_str());
                out.append("'");
            },
            ModelError::MixedDirectories { repo_id } => {
                out.append("downloaded model files from '");
                out.append(repo_id.as_str());
                out.append("' did not resolve to one directory");
            },
            ModelError::NoModelDir { repo_id } => {
                out.append("failed to resolve model directory for '");
                out.append(repo_id.as_str());
                out.append("'");
            },
            ModelError::BothFileSetsFailed { repo_id, .. } => {
                out.append("failed to download both int8 and fp32 model files from '");
                out.append(repo_id.as_str());
                out.append("'");
            },
            ModelError::UnsupportedMoonshineVariant { model } => {
                out.append("unsupported Moonshine variant '");
                out.append(model.as_str());
                out.append("': only 'tiny' and 'base' are supported");
            },
        }
        out
    }

    /// The descriptions of this error and of its causes, outermost first.
    pub fn causes(&self) -> (r: Vec<String>)
        ensures
            texts(r@) == model_error_chain(*self),
        decreases self,
    {
        let mut out: Vec<String> = Vec::new();
        out.push(self.message());
        match self {
            ModelError::HubUnavailable { cause } => {
                out.push(cause.clone());
            },
            ModelError::FetchFailed { cause, .. } => {
                out.push(cause.clone());
            },
            ModelError::BothFileSetsFailed { last_error, .. } => {
                let inner = last_error.causes();
                let ghost head = texts(out@);
                let mut k: usize = 0;
                while k < inner.len()
                    invariant
                        k <= inner@.len(),
                        texts(out@) == head + texts(inner@).take(k as int),
                    decreases inner.len() - k,
                {
                    let c = inner[k].clone();
                    let ghost before = out@;
                    out.push(c);
                    assert(texts(out@) =~= texts(before).push(c@));
                    assert(texts(inner@).take(k + 1) =~= texts(inner@).take(k as int).push(c@));
                    k = k + 1;
                }
                assert(texts(inner@).take(k as int) =~= texts(inner@));
            },
            _ => {},
        }
        assert(texts(out@) =~= model_error_chain(*self));
        out
    }
}

/// A fetched file lies directly in the directory `dir`: its parent is `dir`,
/// or a path equal to it component by component.
pub open spec fn lands_in(path: Seq<char>, dir: Seq<char>) -> bool {
    match path_parent(path) {
        Some(p) => p == dir || paths_equal(dir, p),
        None => false,
    }
}

/// How the fetched `paths` (the first of a list whose files are kept
/// together where `in_dir` says so) relate to the directory learnt from
/// them: none is known while no kept file was fetched; otherwise it is the
/// parent of a kept file, and every kept file lands in it.
pub open spec fn all_land_in(paths: Seq<Seq<char>>, in_dir: Seq<bool>, dir: Option<Seq<char>>) -> bool {
    match dir {
        None => forall|k: int| 0 <= k < paths.len() ==> !#[trigger] in_dir[k],
        Some(d) => {
            &&& exists|k: int|
                0 <= k < paths.len() && in_dir[k] && #[trigger] path_parent(paths[k]) == Some(d)
            &&& forall|k: int| 0 <= k < paths.len() && in_dir[k] ==> #[trigger] lands_in(paths[k], d)
        },
    }
}

/// The directory that the fetched files of one model share, as it is learnt
/// file by file.
#[derive(Debug)]
pub struct DirCollector {
    dir: Option<String>,
}

impl View for DirCollector {
    type V = Option<Seq<char>>;

    closed spec fn view(&self) -> Option<Seq<char>> {
        match self.dir {
            Some(d) => Some(d@),
            None => None,
        }
    }
}

impl DirCollector {
    /// No file seen yet.
    pub fn new() -> (r: Self)
        ensures
            r@ is None,
    {
        DirCollector { dir: None }
    }

    /// Takes in the fetched file at `path`: its parent becomes the model
    /// directory if none is known yet, must be the same path as it otherwise,
    /// and must exist.
    pub fn observe(&mut self, path: &str, repo_id: &str) -> (r: Result<(), ModelError>)
        ensures
            match path_parent(path@) {
                None => {
                    &&& r matches Err(ModelError::NoParentDir { path: p }) && p@ == path@
                    &&& final(self)@ == old(self)@
                },
                Some(parent) => match old(self)@ {
                    None => (r is Ok && final(self)@ == Some(parent)),
                    Some(dir) => if paths_equal(dir, parent) {
                        r is Ok && final(self)@ == old(self)@
                    } else {
                        &&& r matches Err(ModelError::MixedDirectories { repo_id: q })
                            && q@ == repo_id@
                        &&& final(self)@ == old(self)@
                    },
                },
            },
    {
        let parent = parent_dir(path);
        match parent {
            None => Err(ModelError::NoParentDir { path: path.to_owned() }),
            Some(parent) => {
                match &self.dir {
                    None => {
                        self.dir = Some(parent);
                        Ok(())
                    },
                    Some(dir) => {
                        if same_path(dir.as_str(), parent.as_str()) {
                            Ok(())
                        } else {
                            Err(ModelError::MixedDirectories { repo_id: repo_id.to_owned() })
                        }
                    },
                }
            },
        }
    }

    /// The shared directory, or `NoModelDir` when no file was taken in.
    pub fn finish(self, repo_id: &str) -> (r: Result<String, ModelError>)
        ensures
            match self@ {
                Some(dir) => (r matches Ok(d) && d@ == dir),
                None => (r matches Err(ModelError::NoModelDir { repo_id: q }) && q@ == repo_id@),
            },
    {
        match self.dir {
            Some(dir) => Ok(dir),
            None => Err(ModelError::NoModelDir { repo_id: repo_id.to_owned() }),
        }
    }
}

/// The branch every model file is fetched from.
pub const MODEL_REVISION: &'static str = "main";

/// A request for one file of a Hugging Face model repository.
#[derive(Debug, Clone, PartialEq, Eq)]
pub struct FetchRequest {
    pub repo_id: String,
    pub revision: String,
    pub filename: String,
}

/// The files of one repository, fetched one after another in a fixed order.
/// The files marked as kept together must all land in one directory, the
/// model directory. Whoever performs the fetches asks `next_request` what to
/// fetch and hands back what came of it to `record`.
#[derive(Debug)]
pub struct FileFetch {
    repo_id: String,
    files: Vec<String>,
    in_dir: Vec<bool>,
    paths: Vec<String>,
    dir: DirCollector,
}

impl FileFetch {
    /// The repository the files come from.
    pub closed spec fn repo(&self) -> Seq<char> {
        self.repo_id@
    }

    /// The files to fetch, in order.
    pub closed spec fn files(&self) -> Seq<Seq<char>> {
        texts(self.files@)
    }

    /// Which of them must land in the model directory.
    pub closed spec fn in_dir(&self) -> Seq<bool> {
        self.in_dir@
    }

    /// The local paths of the files fetched so far, in order.
    pub closed spec fn fetched(&self) -> Seq<Seq<char>> {
        texts(self.paths@)
    }

    /// The model directory learnt so far.
    pub closed spec fn dir(&self) -> Option<Seq<char>> {
        self.dir@
    }

    /// Every file has a mark, no more files are fetched than asked for, and
    /// the directory is the one the kept files landed in.
    pub closed spec fn wf(&self) -> bool {
        &&& self.files().len() == self.in_dir().len()
        &&& self.fetched().len() <= self.files().len()
        &&& all_land_in(self.fetched(), self.in_dir(), self.dir())
    }

    /// What a well-formed fetch guarantees of its parts.
    pub proof fn lemma_wf(&self)
        requires
            self.wf(),
        ensures
            self.files().len() == self.in_dir().len(),
            self.fetched().len() <= self.files().len(),
            all_land_in(self.fetched(), self.in_dir(), self.dir()),
    {
    }

    /// Every file has been fetched.
    pub open spec fn complete(&self) -> bool {
        self.fetched().len() == self.files().len()
    }

    /// A fetch of `files` from `repo_id`, nothing fetched yet; `in_dir` marks
    /// the files that must land in the model directory.
    pub fn new(repo_id: &str, files: Vec<String>, in_dir: Vec<bool>) -> (r: Self)
        requires
            files.len() == in_dir.len(),
        ensures
            r.wf(),
            r.repo() == repo_id@,
            r.files() == texts(files@),
            r.in_dir() == in_dir@,
            r.fetched() == Seq::<Seq<char>>::empty(),
            r.dir() is None,
    {
        let r = FileFetch {
            repo_id: repo_id.to_owned(),
            files,
            in_dir,
            paths: Vec::new(),
            dir: DirCollector::new(),
        };
        assert(r.fetched() =~= Seq::<Seq<char>>::empty());
        r
    }

    /// The next file to fetch: the first one not fetched yet, from this
    /// fetch's repository at the `main` branch; nothing once all are fetched.
    pub fn next_request(&self) -> (r: Option<FetchRequest>)
        requires
            self.wf(),
        ensures
            self.complete() ==> r is None,
            !self.complete() ==> (r matches Some(q) && q.repo_id@ == self.repo() && q.revision@
                == MODEL_REVISION@ && q.filename@ == self.files()[self.fetched().len() as int]),
    {
        let k = self.paths.len();
        if k < self.files.len() {
            let filename = self.files[k].clone();
            Some(
                FetchRequest {
                    repo_id: self.repo_id.clone(),
                    revision: MODEL_REVISION.to_owned(),
                    filename,
                },
            )
        } else {
            None
        }
    }

    /// Takes in what came of fetching the next file: its local path, or why
    /// it failed. A failure ends in `FetchFailed`; a kept file whose parent is
    /// missing, or differs from the model directory, ends in `NoParentDir` or
    /// `MixedDirectories`. Otherwise the path is recorded.
    pub fn record(&mut self, outcome: Result<String, String>) -> (r: Result<(), ModelError>)
        requires
            old(self).wf(),
            !old(self).complete(),
        ensures
            final(self).wf(),
            final(self).repo() == old(self).repo(),
            final(self).files() == old(self).files(),
            final(self).in_dir() == old(self).in_dir(),
            r is Err ==> final(self).fetched() == old(self).fetched() && final(self).dir()
                == old(self).dir(),
            r is Ok ==> (outcome matches Ok(path) && final(self).fetched() == old(
                self,
            ).fetched().push(path@)),
            match outcome {
                Err(cause) => r matches Err(ModelError::FetchFailed { filename, repo_id, cause: c })
                    && filename@ == old(self).files()[old(self).fetched().len() as int]
                    && repo_id@ == old(self).repo() && c@ == cause@,
                Ok(path) => if !old(self).in_dir()[old(self).fetched().len() as int] {
                    r is Ok && final(self).dir() == old(self).dir()
                } else {
                    match path_parent(path@) {
                        None => r matches Err(ModelError::NoParentDir { path: p }) && p@ == path@,
                        Some(parent) => match old(self).dir() {
                            None => r is Ok && final(self).dir() == Some(parent),
                            Some(d) => if paths_equal(d, parent) {
                                r is Ok && final(self).dir() == old(self).dir()
                            } else {
                                r matches Err(ModelError::MixedDirectories { repo_id })
                                    && repo_id@ == old(self).repo()
                            },
                        },
                    }
                },
            },
    {
        let k = self.paths.len();
        let kept = self.in_dir[k];
        match outcome {
            Err(cause) => {
                let filename = self.files[k].clone();
                Err(ModelError::FetchFailed { filename, repo_id: self.repo_id.clone(), cause })
            },
            Ok(path) => {
                let ghost before = self.fetched();
                let ghost dir_before = self.dir();
                if kept {
                    match self.dir.observe(path.as_str(), self.repo_id.as_str()) {
                        Ok(()) => {},
                        Err(e) => {
                            return Err(e);
                        },
                    }
                }
                let ghost p = path@;
                self.paths.push(path);
                proof {
                    let after = self.fetched();
                    assert(after =~= before.push(p));
                    let ind = self.in_dir();
                    match self.dir() {
                        None => {
                            assert forall|j: int| 0 <= j < after.len() implies !#[trigger] ind[j] by {
                                if j < before.len() {
                                    assert(!ind[j]);
                                }
                            }
                        },
                        Some(d) => {
                            if kept && dir_before is None {
                                assert(path_parent(after[k as int]) == Some(d));
                                assert forall|j: int| 0 <= j < after.len() && ind[j] implies #[trigger] lands_in(after[j], d) by {
                                    if j < before.len() {
                                        assert(!ind[j]);
                                    }
                                }
                            } else {
                                let w = choose|j: int|
                                    0 <= j < before.len() && ind[j] && #[trigger] path_parent(before[j]) == Some(d);
                                assert(after[w] == before[w]);
                                assert forall|j: int| 0 <= j < after.len() && ind[j] implies #[trigger] lands_in(after[j], d) by {
                                    if j < before.len() {
                                        assert(after[j] == before[j]);
                                        assert(lands_in(before[j], d));
                                    }
                                }
                            }
                        },
                    }
                }
                Ok(())
            },
        }
    }

    /// The model directory of a finished fetch: the parent of a kept file, in
    /// which every kept file landed; `NoModelDir` when no kept file was
    /// fetched.
    pub fn model_dir(&self) -> (r: Result<String, ModelError>)
        requires
            self.wf(),
            self.complete(),
        ensures
            all_land_in(self.fetched(), self.in_dir(), self.dir()),
            match self.dir() {
                Some(d) => (r matches Ok(s) && s@ == d),
                None => (r matches Err(ModelError::NoModelDir { repo_id }) && repo_id@
                    == self.repo()),
            },
    {
        match &self.dir.dir {
            Some(d) => Ok(d.clone()),
            None => Err(ModelError::NoModelDir { repo_id: self.repo_id.clone() }),
        }
    }

    /// The local paths of the fetched files, in the order they were asked for.
    pub fn paths(&self) -> (r: Vec<String>)
        ensures
            texts(r@) == self.fetched(),
    {
        let mut out: Vec<String> = Vec::new();
        let mut i: usize = 0;
        while i < self.paths.len()
            invariant
                i <= self.paths@.len(),
                texts(out@) == texts(self.paths@).take(i as int),
            decreases self.paths.len() - i,
        {
            let c = self.paths[i].clone();
            let ghost before = out@;
            out.push(c);
            assert(texts(out@) =~= texts(before).push(c@));
            assert(texts(self.paths@).take(i + 1) =~= texts(self.paths@).take(i as int).push(c@));
            i = i + 1;
        }
        assert(texts(self.paths@).take(i as int) =~= texts(self.paths@));
        out
    }
}

/// A finished fetch whose files are all kept together has put every one of
/// them in its model directory. So the directory a Parakeet download ends
/// with, from its int8 set or else its fp32 set, holds that whole set.
pub proof fn law_finished_fetch_holds_every_file(f: FileFetch, d: Seq<char>)
    requires
        f.wf(),
        f.complete(),
        f.dir() == Some(d),
        forall|k: int| 0 <= k < f.in_dir().len() ==> #[trigger] f.in_dir()[k],
    ensures
        f.fetched().len() == f.files().len(),
        forall|k: int| 0 <= k < f.fetched().len() ==> #[trigger] lands_in(f.fetched()[k], d),
{
    f.lemma_wf();
    assert forall|k: int| 0 <= k < f.fetched().len() implies #[trigger] lands_in(f.fetched()[k], d) by {
        assert(f.in_dir()[k]);
    }
}

} // verus!
