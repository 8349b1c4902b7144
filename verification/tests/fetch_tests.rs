use transcriber::config::{DEFAULT_PARAKEET_MODEL, DEFAULT_PARAKEET_ONNX_REPO};
use transcriber::models::{FetchRequest, FileFetch, ModelError};
use transcriber::moonshine::{download_moonshine_model_dir, moonshine_download_from, MoonshineVariant};
use transcriber::parakeet::{
    download_parakeet_model_dir, parakeet_after_fp32, parakeet_after_int8, parakeet_dir_from_probe,
    ParakeetStep,
};
use transcriber::whisper::{whisper_fetch_error, whisper_model_files};

fn request(repo_id: &str, filename: &str) -> FetchRequest {
    FetchRequest {
        repo_id: repo_id.to_string(),
        revision: "main".to_string(),
        filename: filename.to_string(),
    }
}

/// Answers every request with a file in `dir`, and returns the requests.
fn fetch_into(fetch: &mut FileFetch, dir: &str) -> Vec<FetchRequest> {
    let mut asked = Vec::new();
    while let Some(q) = fetch.next_request() {
        let name = q.filename.rsplit('/').next().unwrap().to_string();
        asked.push(q);
        fetch.record(Ok(format!("{}/{}", dir, name))).unwrap();
    }
    asked
}

#[test]
fn default_parakeet_model_fetches_int8_set_of_onnx_repo() {
    let mut fetch = download_parakeet_model_dir(DEFAULT_PARAKEET_MODEL);
    let asked = fetch_into(&mut fetch, "/cache/snap");
    assert_eq!(
        asked,
        vec![
            request(DEFAULT_PARAKEET_ONNX_REPO, "encoder-model.int8.onnx"),
            request(DEFAULT_PARAKEET_ONNX_REPO, "decoder_joint-model.int8.onnx"),
            request(DEFAULT_PARAKEET_ONNX_REPO, "nemo128.onnx"),
            request(DEFAULT_PARAKEET_ONNX_REPO, "vocab.txt"),
        ]
    );
    assert_eq!(fetch.model_dir().unwrap(), "/cache/snap");
    assert_eq!(fetch.paths().len(), 4);
}

#[test]
fn int8_failure_falls_back_to_fp32_set() {
    let mut int8 = download_parakeet_model_dir("someone/parakeet");
    let first = int8.next_request().unwrap();
    assert_eq!(first, request("someone/parakeet", "encoder-model.int8.onnx"));
    let err = int8.record(Err("404".to_string())).unwrap_err();
    assert_eq!(err.message(), "failed to fetch 'encoder-model.int8.onnx' from 'someone/parakeet'");
    let mut fp32 = match parakeet_after_int8("someone/parakeet", Err(err)) {
        ParakeetStep::Fetch(f) => f,
        ParakeetStep::Ready(d) => panic!("unexpected directory {d}"),
    };
    let asked = fetch_into(&mut fp32, "/cache/fp32");
    let names: Vec<String> = asked.into_iter().map(|q| q.filename).collect();
    assert_eq!(
        names,
        vec![
            "encoder-model.onnx",
            "encoder-model.onnx.data",
            "decoder_joint-model.onnx",
            "nemo128.onnx",
            "vocab.txt"
        ]
    );
    let dir = parakeet_after_fp32("someone/parakeet", fp32.model_dir()).unwrap();
    assert_eq!(dir, "/cache/fp32");
}

#[test]
fn int8_success_is_kept() {
    match parakeet_after_int8("someone/parakeet", Ok("/cache/int8".to_string())) {
        ParakeetStep::Ready(d) => assert_eq!(d, "/cache/int8"),
        ParakeetStep::Fetch(_) => panic!("the fp32 set must not be fetched"),
    }
}

#[test]
fn both_sets_failing_names_the_resolved_repo() {
    let cause = ModelError::FetchFailed {
        filename: "vocab.txt".to_string(),
        repo_id: DEFAULT_PARAKEET_ONNX_REPO.to_string(),
        cause: "timeout".to_string(),
    };
    let err = parakeet_after_fp32(DEFAULT_PARAKEET_MODEL, Err(cause)).unwrap_err();
    assert_eq!(
        err.message(),
        "failed to download both int8 and fp32 model files from 'istupakov/parakeet-tdt-0.6b-v3-onnx'"
    );
    match err {
        ModelError::BothFileSetsFailed { last_error, .. } => {
            assert_eq!(last_error.message(), "failed to fetch 'vocab.txt' from 'istupakov/parakeet-tdt-0.6b-v3-onnx'")
        }
        other => panic!("unexpected {other:?}"),
    }
}

#[test]
fn local_directory_probe_skips_fetching() {
    match parakeet_dir_from_probe("/models/parakeet", true) {
        ParakeetStep::Ready(d) => assert_eq!(d, "/models/parakeet"),
        ParakeetStep::Fetch(_) => panic!("a directory is used as it is"),
    }
    match parakeet_dir_from_probe("someone/parakeet", false) {
        ParakeetStep::Fetch(f) => {
            assert_eq!(f.next_request().unwrap(), request("someone/parakeet", "encoder-model.int8.onnx"))
        }
        ParakeetStep::Ready(d) => panic!("unexpected directory {d}"),
    }
}

#[test]
fn files_in_different_directories_are_refused() {
    let mut fetch = download_parakeet_model_dir("someone/parakeet");
    fetch.record(Ok("/cache/a/encoder-model.int8.onnx".to_string())).unwrap();
    let err = fetch.record(Ok("/cache/b/decoder_joint-model.int8.onnx".to_string())).unwrap_err();
    assert_eq!(
        err.message(),
        "downloaded model files from 'someone/parakeet' did not resolve to one directory"
    );
}

#[test]
fn directories_are_compared_by_component() {
    let mut fetch = download_parakeet_model_dir("someone/parakeet");
    fetch.record(Ok("/cache/a//encoder-model.int8.onnx".to_string())).unwrap();
    fetch.record(Ok("/cache/a/decoder_joint-model.int8.onnx".to_string())).unwrap();
    fetch.record(Ok("/cache/./a/nemo128.onnx".to_string())).unwrap();
    fetch.record(Ok("/cache/a/vocab.txt".to_string())).unwrap();
    assert!(fetch.next_request().is_none());
    assert!(fetch.model_dir().is_ok());
}

#[test]
fn moonshine_download_fetches_onnx_pair_and_tokenizer() {
    let mut fetch = download_moonshine_model_dir(MoonshineVariant::Base);
    let mut asked = Vec::new();
    while let Some(q) = fetch.next_request() {
        let path = if q.filename.starts_with("ctranslate2/") {
            "/cache/snap/ctranslate2/base/tokenizer.json".to_string()
        } else {
            format!("/cache/snap/onnx/merged/base/float/{}", q.filename.rsplit('/').next().unwrap())
        };
        asked.push(q);
        fetch.record(Ok(path)).unwrap();
    }
    assert_eq!(
        asked,
        vec![
            request("UsefulSensors/moonshine", "onnx/merged/base/float/encoder_model.onnx"),
            request("UsefulSensors/moonshine", "onnx/merged/base/float/decoder_model_merged.onnx"),
            request("UsefulSensors/moonshine", "ctranslate2/base/tokenizer.json"),
        ]
    );
    let download = moonshine_download_from(&fetch).unwrap();
    assert_eq!(download.model_dir, "/cache/snap/onnx/merged/base/float");
    assert_eq!(download.tokenizer_path, "/cache/snap/ctranslate2/base/tokenizer.json");
}

#[test]
fn moonshine_fetch_failure_names_the_repository_path() {
    let mut fetch = download_moonshine_model_dir(MoonshineVariant::Tiny);
    let err = fetch.record(Err("offline".to_string())).unwrap_err();
    assert_eq!(
        err.message(),
        "failed to fetch 'onnx/merged/tiny/float/encoder_model.onnx' from 'UsefulSensors/moonshine'"
    );
}

#[test]
fn whisper_fetches_config_tokenizer_and_weights() {
    let mut fetch = whisper_model_files("mlx-community/whisper-small-mlx");
    let asked = fetch_into(&mut fetch, "/cache/w");
    assert_eq!(
        asked,
        vec![
            request("mlx-community/whisper-small-mlx", "config.json"),
            request("mlx-community/whisper-small-mlx", "tokenizer.json"),
            request("mlx-community/whisper-small-mlx", "model.safetensors"),
        ]
    );
    assert_eq!(
        fetch.paths(),
        vec!["/cache/w/config.json", "/cache/w/tokenizer.json", "/cache/w/model.safetensors"]
    );
    let err = fetch.model_dir().unwrap_err();
    assert_eq!(err.message(), "failed to resolve model directory for 'mlx-community/whisper-small-mlx'");
}

#[test]
fn error_causes_are_kept_outermost_first() {
    let fetch_err = ModelError::FetchFailed {
        filename: "vocab.txt".to_string(),
        repo_id: "r/m".to_string(),
        cause: "request error: 404".to_string(),
    };
    assert_eq!(
        fetch_err.causes(),
        vec!["failed to fetch 'vocab.txt' from 'r/m'", "request error: 404"]
    );
    let both = ModelError::BothFileSetsFailed { repo_id: "r/m".to_string(), last_error: Box::new(fetch_err) };
    assert_eq!(
        both.causes(),
        vec![
            "failed to download both int8 and fp32 model files from 'r/m'",
            "failed to fetch 'vocab.txt' from 'r/m'",
            "request error: 404"
        ]
    );
    let mixed = ModelError::MixedDirectories { repo_id: "r/m".to_string() };
    assert_eq!(mixed.causes(), vec!["downloaded model files from 'r/m' did not resolve to one directory"]);
}

#[test]
fn whisper_passes_hub_failures_on_as_they_are() {
    let mut fetch = whisper_model_files("openai/whisper-base");
    let err = fetch.record(Err("request error: 401".to_string())).unwrap_err();
    assert_eq!(whisper_fetch_error(&err), vec!["request error: 401"]);
    let hub = ModelError::HubUnavailable { cause: "no home directory".to_string() };
    assert_eq!(whisper_fetch_error(&hub), vec!["no home directory"]);
}
