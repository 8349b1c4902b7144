use transcriber::config::{
    RuntimeSelection, TranscriptionConfig, DEFAULT_PARAKEET_MODEL, DEFAULT_WHISPER_MODEL,
};

#[test]
fn auto_runtime_uses_model_hint_for_whisper() {
    let config = TranscriptionConfig {
        runtime: RuntimeSelection::Auto,
        model_id: Some("openai/whisper-base".to_string()),
    };
    assert_eq!(config.resolve_runtime(), RuntimeSelection::Whisper);
}

#[test]
fn auto_runtime_uses_model_hint_for_parakeet() {
    let config = TranscriptionConfig {
        runtime: RuntimeSelection::Auto,
        model_id: Some("mlx-community/parakeet-tdt-0.6b-v3".to_string()),
    };
    assert_eq!(config.resolve_runtime(), RuntimeSelection::Parakeet);
}

#[test]
fn auto_runtime_hint_ignores_ascii_case() {
    let config = TranscriptionConfig {
        runtime: RuntimeSelection::Auto,
        model_id: Some("OpenAI/WHISPER-large".to_string()),
    };
    assert_eq!(config.resolve_runtime(), RuntimeSelection::Whisper);
}

#[test]
fn auto_runtime_whisper_hint_wins_over_parakeet_hint() {
    let config = TranscriptionConfig {
        runtime: RuntimeSelection::Auto,
        model_id: Some("parakeet-vs-whisper".to_string()),
    };
    assert_eq!(config.resolve_runtime(), RuntimeSelection::Whisper);
}

#[test]
fn auto_runtime_without_hint_prefers_parakeet() {
    let config = TranscriptionConfig::default();
    assert_eq!(config.runtime, RuntimeSelection::Auto);
    assert_eq!(config.model_id, None);
    assert_eq!(config.resolve_runtime(), RuntimeSelection::Parakeet);
    let unhinted = TranscriptionConfig {
        runtime: RuntimeSelection::Auto,
        model_id: Some("someone/some-model".to_string()),
    };
    assert_eq!(unhinted.resolve_runtime(), RuntimeSelection::Parakeet);
}

#[test]
fn explicit_runtime_is_kept() {
    let config = TranscriptionConfig {
        runtime: RuntimeSelection::Whisper,
        model_id: Some("mlx-community/parakeet-tdt-0.6b-v3".to_string()),
    };
    assert_eq!(config.resolve_runtime(), RuntimeSelection::Whisper);
    let config = TranscriptionConfig::parakeet(Some("openai/whisper-base".to_string()));
    assert_eq!(config.resolve_runtime(), RuntimeSelection::Parakeet);
}

#[test]
fn constructors_set_runtime_and_model() {
    let w = TranscriptionConfig::whisper("openai/whisper-small".to_string());
    assert_eq!(w.runtime, RuntimeSelection::Whisper);
    assert_eq!(w.model_id.as_deref(), Some("openai/whisper-small"));
    let p = TranscriptionConfig::parakeet(None);
    assert_eq!(p.runtime, RuntimeSelection::Parakeet);
    assert_eq!(p.model_id, None);
}

#[test]
fn model_id_defaults_per_runtime() {
    let config = TranscriptionConfig::default();
    assert_eq!(config.resolve_model_id(RuntimeSelection::Parakeet), DEFAULT_PARAKEET_MODEL);
    assert_eq!(config.resolve_model_id(RuntimeSelection::Whisper), DEFAULT_WHISPER_MODEL);
    assert_eq!(config.resolve_model_id(RuntimeSelection::Auto), "mlx-community/whisper-small-mlx");
    let named = TranscriptionConfig::whisper("my/model".to_string());
    assert_eq!(named.resolve_model_id(RuntimeSelection::Parakeet), "my/model");
}
