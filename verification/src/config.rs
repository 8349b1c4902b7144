//! Runtime and model selection for a transcription run.

use vstd::prelude::*;

use crate::parakeet::parakeet_is_available;
use crate::parakeet::spec_parakeet_available;
use crate::text::contains_ignore_ascii_case;
use crate::text::contains_ignore_case;
use crate::text::char_agrees;
use crate::text::occurs_at;

verus! {

/// The Whisper model used when none is named.
pub const DEFAULT_WHISPER_MODEL: &'static str = "mlx-community/whisper-small-mlx";

/// The Parakeet model used when none is named.
pub const DEFAULT_PARAKEET_MODEL: &'static str = "mlx-community/parakeet-tdt-0.6b-v3";

/// The repository that holds the ONNX export of the default Parakeet model.
pub const DEFAULT_PARAKEET_ONNX_REPO: &'static str = "istupakov/parakeet-tdt-0.6b-v3-onnx";

/// Which speech-to-text engine a caller asked for.
#[derive(Debug, Clone, Copy, PartialEq, Eq, Structural)]
pub enum RuntimeSelection {
    Whisper,
    Parakeet,
    Auto,
}

/// What a transcription run is configured with: the engine and an optional
/// model id (a Hugging Face repository id or a local path).
#[derive(Debug, Clone, PartialEq, Eq)]
pub struct TranscriptionConfig {
    pub runtime: RuntimeSelection,
    pub model_id: Option<String>,
}

/// The characters of an optional string.
pub open spec fn opt_text(o: Option<String>) -> Option<Seq<char>> {
    match o {
        Some(s) => Some(s@),
        None => None,
    }
}

/// The engine a configuration runs: an explicit choice is kept; `Auto` looks
/// for "whisper", then "parakeet", in the model id (ignoring ASCII case), and
/// otherwise prefers Parakeet when it is available.
pub open spec fn resolved_runtime(
    runtime: RuntimeSelection,
    model_id: Option<Seq<char>>,
) -> RuntimeSelection {
    match runtime {
        RuntimeSelection::Whisper => RuntimeSelection::Whisper,
        RuntimeSelection::Parakeet => RuntimeSelection::Parakeet,
        RuntimeSelection::Auto => {
            if model_id is Some && contains_ignore_case(model_id->0, "whisper"@) {
                RuntimeSelection::Whisper
            } else if model_id is Some && contains_ignore_case(model_id->0, "parakeet"@) {
                RuntimeSelection::Parakeet
            } else if spec_parakeet_available() {
                RuntimeSelection::Parakeet
            } else {
                RuntimeSelection::Whisper
            }
        },
    }
}

/// The model a configuration loads for `runtime`: the named one, else the
/// default of that runtime (Whisper's for anything but Parakeet).
pub open spec fn resolved_model_id(
    model_id: Option<Seq<char>>,
    runtime: RuntimeSelection,
) -> Seq<char> {
    match model_id {
        Some(m) => m,
        None => if runtime == RuntimeSelection::Parakeet {
            DEFAULT_PARAKEET_MODEL@
        } else {
            DEFAULT_WHISPER_MODEL@
        },
    }
}

impl Default for TranscriptionConfig {
    /// `Auto` runtime and no model id.
    fn default() -> (res: Self)
        ensures
            res.runtime == RuntimeSelection::Auto,
            res.model_id is None,
    {
        TranscriptionConfig { runtime: RuntimeSelection::Auto, model_id: None }
    }
}

impl TranscriptionConfig {
    /// A configuration that always runs Whisper with the given model.
    pub fn whisper(model_id: String) -> (res: Self)
        ensures
            res.runtime == RuntimeSelection::Whisper,
            opt_text(res.model_id) == Some(model_id@),
    {
        TranscriptionConfig { runtime: RuntimeSelection::Whisper, model_id: Some(model_id) }
    }

    /// A configuration that always runs Parakeet, with an optional model.
    pub fn parakeet(model_id: Option<String>) -> (res: Self)
        ensures
            res.runtime == RuntimeSelection::Parakeet,
            opt_text(res.model_id) == opt_text(model_id),
    {
        TranscriptionConfig { runtime: RuntimeSelection::Parakeet, model_id }
    }

    /// The engine this configuration runs (never `Auto`).
    pub fn resolve_runtime(&self) -> (res: RuntimeSelection)
        ensures
            res == resolved_runtime(self.runtime, opt_text(self.model_id)),
            res != RuntimeSelection::Auto,
    {
        match self.runtime {
            RuntimeSelection::Whisper => RuntimeSelection::Whisper,
            RuntimeSelection::Parakeet => RuntimeSelection::Parakeet,
            RuntimeSelection::Auto => {
                match &self.model_id {
                    Some(model_id) => {
                        if contains_ignore_ascii_case(model_id.as_str(), "whisper") {
                            return RuntimeSelection::Whisper;
                        }
                        if contains_ignore_ascii_case(model_id.as_str(), "parakeet") {
                            return RuntimeSelection::Parakeet;
                        }
                    },
                    None => {},
                }
                if parakeet_is_available() {
                    RuntimeSelection::Parakeet
                } else {
                    RuntimeSelection::Whisper
                }
            },
        }
    }

    /// The model this configuration loads for `runtime`.
    pub fn resolve_model_id(&self, runtime: RuntimeSelection) -> (res: String)
        ensures
            res@ == resolved_model_id(opt_text(self.model_id), runtime),
    {
        match &self.model_id {
            Some(model_id) => model_id.clone(),
            None => {
                if runtime == RuntimeSelection::Parakeet {
                    DEFAULT_PARAKEET_MODEL.to_owned()
                } else {
                    DEFAULT_WHISPER_MODEL.to_owned()
                }
            },
        }
    }
}

/// An explicit runtime choice is never overridden by the model id.
pub proof fn law_explicit_runtime_kept(runtime: RuntimeSelection, model_id: Option<Seq<char>>)
    requires
        runtime != RuntimeSelection::Auto,
    ensures
        resolved_runtime(runtime, model_id) == runtime,
{
}

/// Resolution always names a concrete engine.
pub proof fn law_resolution_is_concrete(runtime: RuntimeSelection, model_id: Option<Seq<char>>)
    ensures
        resolved_runtime(runtime, model_id) != RuntimeSelection::Auto,
{
}

/// A named model is always the one loaded, whatever the runtime.
pub proof fn law_named_model_kept(model: Seq<char>, runtime: RuntimeSelection)
    ensures
        resolved_model_id(Some(model), runtime) == model,
{
}

/// With `Auto` and no model hint, Parakeet runs with its default model.
pub proof fn law_auto_without_hint_runs_default_parakeet()
    ensures
        resolved_runtime(RuntimeSelection::Auto, None) == RuntimeSelection::Parakeet,
        resolved_model_id(None, resolved_runtime(RuntimeSelection::Auto, None))
            == DEFAULT_PARAKEET_MODEL@,
{
}

/// With `Auto`, a model id that mentions Whisper in any ASCII case runs
/// Whisper, whatever else it names; one that does not mention Whisper runs
/// Parakeet, whether or not it mentions Parakeet.
pub proof fn law_auto_follows_the_whisper_hint(model: Seq<char>)
    ensures
        contains_ignore_case(model, "whisper"@) ==> resolved_runtime(
            RuntimeSelection::Auto,
            Some(model),
        ) == RuntimeSelection::Whisper,
        !contains_ignore_case(model, "whisper"@) ==> resolved_runtime(
            RuntimeSelection::Auto,
            Some(model),
        ) == RuntimeSelection::Parakeet,
{
}

/// With `Auto`, an id with "whisper" or "WHISPER" anywhere in it runs
/// Whisper, whatever stands before and after it.
pub proof fn law_auto_whisper_anywhere_in_the_id(before: Seq<char>, after: Seq<char>)
    ensures
        resolved_runtime(RuntimeSelection::Auto, Some(before + "whisper"@ + after))
            == RuntimeSelection::Whisper,
        resolved_runtime(RuntimeSelection::Auto, Some(before + "WHISPER"@ + after))
            == RuntimeSelection::Whisper,
{
    reveal_strlit("whisper");
    reveal_strlit("WHISPER");
    let p = "whisper"@;
    let i = before.len() as int;
    let lower = before + p + after;
    assert forall|j: int| 0 <= j < p.len() implies char_agrees(#[trigger] lower[i + j], p[j], true) by {
        assert(lower[i + j] == p[j]);
    }
    assert(occurs_at(lower, p, i, true));
    let q = "WHISPER"@;
    let upper = before + q + after;
    assert forall|j: int| 0 <= j < p.len() implies char_agrees(#[trigger] upper[i + j], p[j], true) by {
        assert(upper[i + j] == q[j]);
    }
    assert(occurs_at(upper, p, i, true));
}

} // verus!
