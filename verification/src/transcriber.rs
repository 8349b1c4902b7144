//! The transcriber: which engine a configuration loads, which input each
//! engine takes, and how an engine's raw text becomes a transcript.

use vstd::prelude::*;

use crate::config::resolved_model_id;
use crate::config::resolved_runtime;
use crate::config::opt_text;
use crate::config::RuntimeSelection;
use crate::config::TranscriptionConfig;
use crate::text::law_trim_leaves_no_surrounding_space;
use crate::text::trim_text;
use crate::text::trimmed;

verus! {

/// The engine a transcriber runs.
#[derive(Debug, Clone, Copy, PartialEq, Eq, Structural)]
pub enum RuntimeBackend {
    Whisper,
    Parakeet,
    Moonshine,
}

/// The engine loaded for a resolved runtime.
pub open spec fn backend_for(runtime: RuntimeSelection) -> RuntimeBackend {
    match runtime {
        RuntimeSelection::Parakeet => RuntimeBackend::Parakeet,
        _ => RuntimeBackend::Whisper,
    }
}

/// Why a transcription did not produce text.
#[derive(Debug, Clone, PartialEq, Eq)]
pub enum TranscribeError {
    /// The engine reads audio files, not decoded samples.
    PathInputRequired(RuntimeBackend),
    /// Whisper reads decoded samples, not audio files.
    PcmInputRequired,
    /// The engine produced only whitespace.
    EmptyTranscript(RuntimeBackend),
    /// The engine failed; the text says why.
    Engine(String),
}

/// The one-line description of a transcription error.
pub open spec fn transcribe_error_text(e: TranscribeError) -> Seq<char> {
    match e {
        TranscribeError::PathInputRequired(RuntimeBackend::Moonshine) =>
            "Moonshine runtime requires a file path input"@,
        TranscribeError::PathInputRequired(_) => "Parakeet runtime requires a file path input"@,
        TranscribeError::PcmInputRequired => "Whisper runtime requires decoded PCM input"@,
        TranscribeError::EmptyTranscript(RuntimeBackend::Moonshine) =>
            "Moonshine inference returned empty transcript"@,
        TranscribeError::EmptyTranscript(_) => "Parakeet inference returned empty transcript"@,
        TranscribeError::Engine(m) => m@,
    }
}

impl TranscribeError {
    /// The one-line description of this error.
    pub fn message(&self) -> (r: String)
        ensures
            r@ == transcribe_error_text(*self),
    {
        match self {
            TranscribeError::PathInputRequired(RuntimeBackend::Moonshine) => {
                "Moonshine runtime requires a file path input".to_owned()
            },
            TranscribeError::PathInputRequired(_) => {
                "Parakeet runtime requires a file path input".to_owned()
            },
            TranscribeError::PcmInputRequired => {
                "Whisper runtime requires decoded PCM input".to_owned()
            },
            TranscribeError::EmptyTranscript(RuntimeBackend::Moonshine) => {
                "Moonshine inference returned empty transcript".to_owned()
            },
            TranscribeError::EmptyTranscript(_) => {
                "Parakeet inference returned empty transcript".to_owned()
            },
            TranscribeError::Engine(m) => m.clone(),
        }
    }
}

/// What a file-reading engine's raw output becomes.
pub open spec fn finished(backend: RuntimeBackend, raw: Result<String, String>, r: Result<
    String,
    TranscribeError,
>) -> bool {
    match raw {
        Err(m) => r matches Err(TranscribeError::Engine(m2)) && m2@ == m@,
        Ok(text) => if trimmed(text@).len() == 0 {
            r matches Err(TranscribeError::EmptyTranscript(b)) && b == backend
        } else {
            r matches Ok(t) && t@ == trimmed(text@)
        },
    }
}

/// The transcript of a file-reading engine's raw output: the output without
/// surrounding white space, refused when nothing is left; an engine failure
/// is passed on.
pub fn finish_transcript(backend: RuntimeBackend, raw: Result<String, String>) -> (r: Result<
    String,
    TranscribeError,
>)
    ensures
        finished(backend, raw, r),
        r matches Ok(t) ==> t@.len() > 0 && trimmed(t@) == t@,
{
    match raw {
        Err(m) => Err(TranscribeError::Engine(m)),
        Ok(text) => {
            let t = trim_text(text.as_str());
            proof {
                law_trim_leaves_no_surrounding_space(text@);
            }
            if t.unicode_len() == 0 {
                Err(TranscribeError::EmptyTranscript(backend))
            } else {
                Ok(t)
            }
        },
    }
}

/// A transcriber: the engine that runs and the model it loads.
pub struct Transcriber {
    backend: RuntimeBackend,
    model_id: String,
}

impl Transcriber {
    /// The engine this transcriber runs.
    pub closed spec fn spec_backend(&self) -> RuntimeBackend {
        self.backend
    }

    /// The model this transcriber loads.
    pub closed spec fn spec_model_id(&self) -> Seq<char> {
        self.model_id@
    }

    /// The transcriber a configuration asks for: the resolved runtime's
    /// engine with the resolved model. Loading the model's weights is left to
    /// the caller, which reads them from `model_id()`.
    pub fn new(config: &TranscriptionConfig) -> (r: Self)
        ensures
            r.spec_backend() == backend_for(resolved_runtime(config.runtime, opt_text(config.model_id))),
            r.spec_model_id() == resolved_model_id(
                opt_text(config.model_id),
                resolved_runtime(config.runtime, opt_text(config.model_id)),
            ),
            r.spec_backend() != RuntimeBackend::Moonshine,
    {
        let runtime = config.resolve_runtime();
        let model_id = config.resolve_model_id(runtime);
        let backend = match runtime {
            RuntimeSelection::Whisper => RuntimeBackend::Whisper,
            RuntimeSelection::Parakeet => RuntimeBackend::Parakeet,
            RuntimeSelection::Auto => {
                proof {
                    assert(false);
                }
                RuntimeBackend::Whisper
            },
        };
        Transcriber { backend, model_id }
    }

    /// The engine this transcriber runs.
    pub fn backend(&self) -> (r: RuntimeBackend)
        ensures
            r == self.spec_backend(),
    {
        self.backend
    }

    /// The model this transcriber loads.
    pub fn model_id(&self) -> (r: &str)
        ensures
            r@ == self.spec_model_id(),
    {
        self.model_id.as_str()
    }

    /// Transcribes an audio file with `run_engine`, the engine's run on that
    /// file. Whisper reads decoded samples only, so it refuses without
    /// running; the other engines' output is finished as `finish_transcript`
    /// does.
    pub fn transcribe_path<F: FnOnce() -> Result<String, String>>(&self, run_engine: F) -> (r:
        Result<String, TranscribeError>)
        requires
            self.spec_backend() != RuntimeBackend::Whisper ==> call_requires(run_engine, ()),
        ensures
            self.spec_backend() == RuntimeBackend::Whisper ==> r == Err::<
                String,
                TranscribeError,
            >(TranscribeError::PcmInputRequired),
            self.spec_backend() != RuntimeBackend::Whisper ==> exists|raw: Result<String, String>|
                call_ensures(run_engine, (), raw) && finished(self.spec_backend(), raw, r),
            r matches Ok(t) ==> t@.len() > 0 && trimmed(t@) == t@,
    {
        match self.backend {
            RuntimeBackend::Whisper => Err(TranscribeError::PcmInputRequired),
            _ => {
                let raw = run_engine();
                finish_transcript(self.backend, raw)
            },
        }
    }

    /// Transcribes decoded samples with `run_whisper`, Whisper's run on them.
    /// The file-reading engines refuse without running; Whisper's text is
    /// returned as it is, and its failure is passed on.
    pub fn transcribe_pcm<F: FnOnce() -> Result<String, String>>(&self, run_whisper: F) -> (r:
        Result<String, TranscribeError>)
        requires
            self.spec_backend() == RuntimeBackend::Whisper ==> call_requires(run_whisper, ()),
        ensures
            self.spec_backend() != RuntimeBackend::Whisper ==> r == Err::<
                String,
                TranscribeError,
            >(TranscribeError::PathInputRequired(self.spec_backend())),
            self.spec_backend() == RuntimeBackend::Whisper ==> exists|raw: Result<String, String>|
                call_ensures(run_whisper, (), raw) && match raw {
                    Ok(text) => r matches Ok(t) && t@ == text@,
                    Err(m) => r matches Err(TranscribeError::Engine(m2)) && m2@ == m@,
                },
    {
        match self.backend {
            RuntimeBackend::Whisper => {
                let raw = run_whisper();
                match raw {
                    Ok(text) => Ok(text),
                    Err(m) => Err(TranscribeError::Engine(m)),
                }
            },
            other => Err(TranscribeError::PathInputRequired(other)),
        }
    }
}

/// A Whisper configuration transcribes with Whisper and the model it names.
pub proof fn law_whisper_config_runs_whisper(model: Seq<char>)
    ensures
        backend_for(resolved_runtime(RuntimeSelection::Whisper, Some(model)))
            == RuntimeBackend::Whisper,
        resolved_model_id(Some(model), resolved_runtime(RuntimeSelection::Whisper, Some(model)))
            == model,
{
}

/// A Parakeet configuration transcribes with Parakeet, and with the default
/// Parakeet model when it names none.
pub proof fn law_parakeet_config_runs_parakeet(model: Option<Seq<char>>)
    ensures
        backend_for(resolved_runtime(RuntimeSelection::Parakeet, model))
            == RuntimeBackend::Parakeet,
        model is None ==> resolved_model_id(
            model,
            resolved_runtime(RuntimeSelection::Parakeet, model),
        ) == crate::config::DEFAULT_PARAKEET_MODEL@,
{
}

} // verus!
