use transcriber::config::{RuntimeSelection, TranscriptionConfig};
use transcriber::transcriber::{finish_transcript, RuntimeBackend, TranscribeError, Transcriber};

#[test]
fn new_picks_engine_and_model() {
    let t = Transcriber::new(&TranscriptionConfig::whisper("openai/whisper-base".to_string()));
    assert_eq!(t.backend(), RuntimeBackend::Whisper);
    assert_eq!(t.model_id(), "openai/whisper-base");
    let t = Transcriber::new(&TranscriptionConfig::default());
    assert_eq!(t.backend(), RuntimeBackend::Parakeet);
    assert_eq!(t.model_id(), "mlx-community/parakeet-tdt-0.6b-v3");
    let t = Transcriber::new(&TranscriptionConfig {
        runtime: RuntimeSelection::Auto,
        model_id: None,
    });
    assert_eq!(t.backend(), RuntimeBackend::Parakeet);
}

#[test]
fn whisper_refuses_file_input_without_running() {
    let t = Transcriber::new(&TranscriptionConfig::whisper("openai/whisper-tiny".to_string()));
    let r = t.transcribe_path(|| -> Result<String, String> { panic!("must not run") });
    assert_eq!(r, Err(TranscribeError::PcmInputRequired));
    assert_eq!(
        TranscribeError::PcmInputRequired.message(),
        "Whisper runtime requires decoded PCM input"
    );
}

#[test]
fn parakeet_refuses_samples_without_running() {
    let t = Transcriber::new(&TranscriptionConfig::parakeet(None));
    let r = t.transcribe_pcm(|| -> Result<String, String> { panic!("must not run") });
    assert_eq!(r, Err(TranscribeError::PathInputRequired(RuntimeBackend::Parakeet)));
    assert_eq!(
        TranscribeError::PathInputRequired(RuntimeBackend::Parakeet).message(),
        "Parakeet runtime requires a file path input"
    );
    assert_eq!(
        TranscribeError::PathInputRequired(RuntimeBackend::Moonshine).message(),
        "Moonshine runtime requires a file path input"
    );
}

#[test]
fn file_engine_output_is_trimmed() {
    let t = Transcriber::new(&TranscriptionConfig::parakeet(None));
    let r = t.transcribe_path(|| Ok("  hello world \n".to_string()));
    assert_eq!(r, Ok("hello world".to_string()));
    let r = t.transcribe_path(|| Err("parakeet inference failed".to_string()));
    assert_eq!(r, Err(TranscribeError::Engine("parakeet inference failed".to_string())));
}

#[test]
fn whitespace_only_output_is_refused() {
    let r = finish_transcript(RuntimeBackend::Parakeet, Ok(" \t\n".to_string()));
    assert_eq!(r, Err(TranscribeError::EmptyTranscript(RuntimeBackend::Parakeet)));
    assert_eq!(
        TranscribeError::EmptyTranscript(RuntimeBackend::Moonshine).message(),
        "Moonshine inference returned empty transcript"
    );
}

#[test]
fn whisper_text_is_passed_through() {
    let t = Transcriber::new(&TranscriptionConfig::whisper("openai/whisper-tiny".to_string()));
    let r = t.transcribe_pcm(|| Ok(" raw text".to_string()));
    assert_eq!(r, Ok(" raw text".to_string()));
}
