//! Where a Moonshine model comes from, and which of its two sizes it is.

use vstd::prelude::*;

use crate::models::lands_in;
use crate::models::FileFetch;
use crate::models::ModelError;
use crate::paths::probe_dir;
use crate::paths::DirProbe;
use crate::text::texts;
use crate::text::contains_ignore_ascii_case;
use crate::text::contains_ignore_case;
use crate::text::same_text;

verus! {

/// The Moonshine model used when none is named.
pub const DEFAULT_MOONSHINE_MODEL: &'static str = "moonshine-tiny";

/// The repository that holds the Moonshine ONNX exports.
pub const DEFAULT_MOONSHINE_REPO: &'static str = "UsefulSensors/moonshine";

/// Where the tiny model's ONNX files sit in the repository.
pub const TINY_SUBDIR: &'static str = "onnx/merged/tiny/float";

/// Where the base model's ONNX files sit in the repository.
pub const BASE_SUBDIR: &'static str = "onnx/merged/base/float";

/// The file whose copy lives outside the ONNX directory.
pub const TOKENIZER_FILE: &'static str = "tokenizer.json";

/// The supported Moonshine sizes.
#[derive(Debug, Clone, Copy, PartialEq, Eq, Structural)]
pub enum MoonshineVariant {
    Tiny,
    Base,
}

/// Where a Moonshine model is read from.
#[derive(Debug, Clone, PartialEq, Eq)]
pub enum MoonshineModelSource {
    /// An existing local directory.
    LocalDir(String),
    /// The Moonshine repository on Hugging Face.
    HuggingFaceRepo,
}

/// The size a model id names: "tiny" wins over "base"; case is ignored.
pub open spec fn moonshine_variant_of(model: Seq<char>) -> Option<MoonshineVariant> {
    if contains_ignore_case(model, "tiny"@) {
        Some(MoonshineVariant::Tiny)
    } else if contains_ignore_case(model, "base"@) {
        Some(MoonshineVariant::Base)
    } else {
        None
    }
}

/// Source and size of `model_id_or_path`, given whether it names an existing
/// directory. A model id that names neither size is refused.
pub fn moonshine_source_from_probe(model_id_or_path: &str, is_dir: bool) -> (r: Result<
    (MoonshineModelSource, MoonshineVariant),
    ModelError,
>)
    ensures
        match moonshine_variant_of(model_id_or_path@) {
            None => r matches Err(ModelError::UnsupportedMoonshineVariant { model }) && model@
                == model_id_or_path@,
            Some(v) => r matches Ok((source, variant)) && variant == v && (if is_dir {
                source matches MoonshineModelSource::LocalDir(p) && p@ == model_id_or_path@
            } else {
                source is HuggingFaceRepo
            }),
        },
{
    let variant = if contains_ignore_ascii_case(model_id_or_path, "tiny") {
        MoonshineVariant::Tiny
    } else if contains_ignore_ascii_case(model_id_or_path, "base") {
        MoonshineVariant::Base
    } else {
        return Err(ModelError::UnsupportedMoonshineVariant { model: model_id_or_path.to_owned() });
    };
    if is_dir {
        Ok((MoonshineModelSource::LocalDir(model_id_or_path.to_owned()), variant))
    } else {
        Ok((MoonshineModelSource::HuggingFaceRepo, variant))
    }
}

/// Source and size of `model_id_or_path`: a local directory when the file
/// system has a directory at that very path, the Moonshine repository
/// otherwise. The probe of the file system comes back with it.
pub fn resolve_moonshine_model_source_and_variant(model_id_or_path: &str) -> (r: (
    Result<(MoonshineModelSource, MoonshineVariant), ModelError>,
    DirProbe,
))
    ensures
        r.1.path() == model_id_or_path@,
        match moonshine_variant_of(model_id_or_path@) {
            None => r.0 matches Err(ModelError::UnsupportedMoonshineVariant { model }) && model@
                == model_id_or_path@,
            Some(v) => r.0 matches Ok((source, variant)) && variant == v && (if r.1.found() {
                source matches MoonshineModelSource::LocalDir(p) && p@ == model_id_or_path@
            } else {
                source is HuggingFaceRepo
            }),
        },
{
    let probe = probe_dir(model_id_or_path);
    let resolved = moonshine_source_from_probe(model_id_or_path, probe.is_dir());
    (resolved, probe)
}

/// The repository directory of a size's ONNX files.
pub open spec fn subdir_of(variant: MoonshineVariant) -> Seq<char> {
    match variant {
        MoonshineVariant::Tiny => TINY_SUBDIR@,
        MoonshineVariant::Base => BASE_SUBDIR@,
    }
}

/// The name of a size inside repository paths.
pub open spec fn variant_name(variant: MoonshineVariant) -> Seq<char> {
    match variant {
        MoonshineVariant::Tiny => "tiny"@,
        MoonshineVariant::Base => "base"@,
    }
}

/// Where `filename` of a size sits in the repository: the tokenizer under
/// `ctranslate2/<size>/`, every other file in the size's ONNX directory.
pub open spec fn moonshine_repo_path_of(variant: MoonshineVariant, filename: Seq<char>) -> Seq<
    char,
> {
    if filename == TOKENIZER_FILE@ {
        "ctranslate2/"@ + variant_name(variant) + "/tokenizer.json"@
    } else {
        subdir_of(variant) + "/"@ + filename
    }
}

/// Where `filename` of `variant` sits in the Moonshine repository.
pub fn moonshine_repo_path(variant: MoonshineVariant, filename: &str) -> (r: String)
    ensures
        r@ == moonshine_repo_path_of(variant, filename@),
{
    let mut out = String::new();
    if same_text(filename, TOKENIZER_FILE) {
        out.append("ctranslate2/");
        match variant {
            MoonshineVariant::Tiny => out.append("tiny"),
            MoonshineVariant::Base => out.append("base"),
        }
        out.append("/tokenizer.json");
    } else {
        match variant {
            MoonshineVariant::Tiny => out.append(TINY_SUBDIR),
            MoonshineVariant::Base => out.append(BASE_SUBDIR),
        }
        out.append("/");
        out.append(filename);
    }
    out
}

/// The files fetched for a size, in order: the encoder, the merged decoder
/// and the tokenizer.
pub open spec fn moonshine_files(variant: MoonshineVariant) -> Seq<Seq<char>> {
    seq![
        moonshine_repo_path_of(variant, "encoder_model.onnx"@),
        moonshine_repo_path_of(variant, "decoder_model_merged.onnx"@),
        moonshine_repo_path_of(variant, TOKENIZER_FILE@),
    ]
}

/// The two ONNX files share the model directory; the tokenizer lies apart.
pub open spec fn moonshine_kept() -> Seq<bool> {
    seq![true, true, false]
}

/// The download of a Moonshine model of size `variant`: its encoder, merged
/// decoder and tokenizer, from the Moonshine repository at the `main`
/// branch. The two ONNX files must land in one directory, the model
/// directory.
pub fn download_moonshine_model_dir(variant: MoonshineVariant) -> (r: FileFetch)
    ensures
        r.wf(),
        r.repo() == DEFAULT_MOONSHINE_REPO@,
        r.files() == moonshine_files(variant),
        r.in_dir() == moonshine_kept(),
        r.fetched().len() == 0,
        r.dir() is None,
{
    let files: Vec<String> = vec![
        moonshine_repo_path(variant, "encoder_model.onnx"),
        moonshine_repo_path(variant, "decoder_model_merged.onnx"),
        moonshine_repo_path(variant, TOKENIZER_FILE),
    ];
    let in_dir: Vec<bool> = vec![true, true, false];
    assert(texts(files@) =~= moonshine_files(variant));
    assert(in_dir@ =~= moonshine_kept());
    FileFetch::new(DEFAULT_MOONSHINE_REPO, files, in_dir)
}

/// What a finished Moonshine download leaves on disk: the directory of its
/// ONNX files and, apart from it, the fetched tokenizer, to be copied into it.
#[derive(Debug)]
pub struct MoonshineDownload {
    pub model_dir: String,
    pub tokenizer_path: String,
}

/// The result of a finished Moonshine download: the model directory, in
/// which both ONNX files landed, and the path the tokenizer was fetched to.
pub fn moonshine_download_from(fetch: &FileFetch) -> (r: Result<MoonshineDownload, ModelError>)
    requires
        fetch.wf(),
        fetch.complete(),
        fetch.in_dir() == moonshine_kept(),
    ensures
        match fetch.dir() {
            None => r matches Err(ModelError::NoModelDir { repo_id }) && repo_id@ == fetch.repo(),
            Some(d) => r matches Ok(m) && m.model_dir@ == d && m.tokenizer_path@
                == fetch.fetched()[2],
        },
        r matches Ok(m) ==> lands_in(fetch.fetched()[0], m.model_dir@) && lands_in(
            fetch.fetched()[1],
            m.model_dir@,
        ),
{
    let model_dir = fetch.model_dir();
    match model_dir {
        Err(e) => Err(e),
        Ok(model_dir) => {
            let paths = fetch.paths();
            proof {
                fetch.lemma_wf();
                assert(fetch.fetched().len() == 3);
                assert(texts(paths@)[2] == paths@[2]@);
                let d = fetch.dir()->0;
                assert(lands_in(fetch.fetched()[0], d));
                assert(lands_in(fetch.fetched()[1], d));
            }
            let tokenizer_path = paths[2].clone();
            Ok(MoonshineDownload { model_dir, tokenizer_path })
        },
    }
}

/// Every ONNX file of a size comes from that size's own float directory, and
/// its tokenizer from that size's ctranslate2 directory, whatever the file.
pub proof fn law_each_size_has_its_own_files(filename: Seq<char>)
    ensures
        filename != "tokenizer.json"@ ==> moonshine_repo_path_of(MoonshineVariant::Tiny, filename)
            == "onnx/merged/tiny/float/"@ + filename,
        filename != "tokenizer.json"@ ==> moonshine_repo_path_of(MoonshineVariant::Base, filename)
            == "onnx/merged/base/float/"@ + filename,
        moonshine_repo_path_of(MoonshineVariant::Tiny, "tokenizer.json"@)
            == "ctranslate2/tiny/tokenizer.json"@,
        moonshine_repo_path_of(MoonshineVariant::Base, "tokenizer.json"@)
            == "ctranslate2/base/tokenizer.json"@,
{
    reveal_strlit("onnx/merged/tiny/float");
    reveal_strlit("onnx/merged/base/float");
    reveal_strlit("onnx/merged/tiny/float/");
    reveal_strlit("onnx/merged/base/float/");
    reveal_strlit("/");
    reveal_strlit("ctranslate2/");
    reveal_strlit("tiny");
    reveal_strlit("base");
    reveal_strlit("/tokenizer.json");
    reveal_strlit("ctranslate2/tiny/tokenizer.json");
    reveal_strlit("ctranslate2/base/tokenizer.json");
    reveal_strlit("tokenizer.json");
    assert("onnx/merged/tiny/float/"@ =~= "onnx/merged/tiny/float"@ + "/"@);
    assert("onnx/merged/base/float/"@ =~= "onnx/merged/base/float"@ + "/"@);
    assert("ctranslate2/tiny/tokenizer.json"@ =~= "ctranslate2/"@ + "tiny"@ + "/tokenizer.json"@);
    assert("ctranslate2/base/tokenizer.json"@ =~= "ctranslate2/"@ + "base"@ + "/tokenizer.json"@);
    assert(("onnx/merged/tiny/float"@ + "/"@) + filename =~= "onnx/merged/tiny/float"@ + "/"@ + filename);
}

} // verus!
