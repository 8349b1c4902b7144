use transcriber::config::{DEFAULT_PARAKEET_MODEL, DEFAULT_PARAKEET_ONNX_REPO};
use transcriber::parakeet::{
    model_source_from_probe, parakeet_is_available, resolve_parakeet_model_dir,
    resolve_parakeet_model_source, resolve_parakeet_repo_id, ParakeetModelSource, ParakeetStep,
};

#[test]
fn model_resolution_prefers_existing_local_directory() {
    let tmp_dir = tempfile::tempdir().expect("failed to create temp directory");
    let input = tmp_dir.path().display().to_string();
    assert_eq!(
        resolve_parakeet_model_source(&input).0,
        ParakeetModelSource::LocalDir(tmp_dir.path().display().to_string())
    );
}

#[test]
fn model_resolution_falls_back_to_repo_id() {
    let repo_id = "istupakov/parakeet-tdt-0.6b-v3-onnx";
    assert_eq!(
        resolve_parakeet_model_source(repo_id).0,
        ParakeetModelSource::HuggingFaceRepo(repo_id.to_string())
    );
}

#[test]
fn default_repo_resolves_to_onnx_repo() {
    assert_eq!(resolve_parakeet_repo_id(DEFAULT_PARAKEET_MODEL), DEFAULT_PARAKEET_ONNX_REPO);
}

#[test]
fn other_repo_ids_are_fetched_as_given() {
    assert_eq!(resolve_parakeet_repo_id("someone/parakeet"), "someone/parakeet");
    assert_eq!(resolve_parakeet_repo_id(DEFAULT_PARAKEET_ONNX_REPO), DEFAULT_PARAKEET_ONNX_REPO);
}

#[test]
fn source_follows_the_directory_probe() {
    assert_eq!(
        model_source_from_probe("models/p", true),
        ParakeetModelSource::LocalDir("models/p".to_string())
    );
    assert_eq!(
        model_source_from_probe("models/p", false),
        ParakeetModelSource::HuggingFaceRepo("models/p".to_string())
    );
}

#[test]
fn local_model_directory_is_used_as_is() {
    let tmp_dir = tempfile::tempdir().expect("failed to create temp directory");
    let input = tmp_dir.path().display().to_string();
    let (step, probe) = resolve_parakeet_model_dir(&input);
    assert!(probe.is_dir());
    assert_eq!(probe.probed_path(), input);
    match step {
        ParakeetStep::Ready(dir) => assert_eq!(dir, input),
        ParakeetStep::Fetch(_) => panic!("a local directory is used as it is"),
    }
}

#[test]
fn parakeet_engine_is_available() {
    assert!(parakeet_is_available());
}

#[test]
fn repository_id_is_probed_then_fetched() {
    let (step, probe) = resolve_parakeet_model_dir("someone/not-a-local-dir");
    assert_eq!(probe.probed_path(), "someone/not-a-local-dir");
    assert!(!probe.is_dir());
    match step {
        ParakeetStep::Fetch(f) => {
            assert_eq!(f.next_request().unwrap().filename, "encoder-model.int8.onnx")
        }
        ParakeetStep::Ready(d) => panic!("unexpected directory {d}"),
    }
}
