//! The command line of the transcriber, as plain data.

use vstd::prelude::*;

use crate::config::RuntimeSelection;

verus! {

/// The `--runtime` choices of the command line.
#[derive(Debug, Clone, Copy, PartialEq, Eq, Structural)]
pub enum RuntimeArg {
    Whisper,
    Parakeet,
    Auto,
}

/// What the command line asks for.
#[derive(Debug, Clone)]
pub enum Commands {
    /// Transcribe one audio file into one transcript file.
    Transcribe { input: String, output: String, runtime: RuntimeArg, model: Option<String> },
    /// Watch a directory and transcribe the audio files that appear in it.
    Watch { watch_dir: String, output_dir: String, runtime: RuntimeArg, model: Option<String> },
}

/// A parsed command line.
#[derive(Debug, Clone)]
pub struct Cli {
    pub command: Commands,
}

/// The runtime a command-line choice stands for.
pub open spec fn runtime_of(arg: RuntimeArg) -> RuntimeSelection {
    match arg {
        RuntimeArg::Whisper => RuntimeSelection::Whisper,
        RuntimeArg::Parakeet => RuntimeSelection::Parakeet,
        RuntimeArg::Auto => RuntimeSelection::Auto,
    }
}

/// The runtime a command-line choice stands for.
pub fn map_runtime(runtime: RuntimeArg) -> (r: RuntimeSelection)
    ensures
        r == runtime_of(runtime),
{
    match runtime {
        RuntimeArg::Whisper => RuntimeSelection::Whisper,
        RuntimeArg::Parakeet => RuntimeSelection::Parakeet,
        RuntimeArg::Auto => RuntimeSelection::Auto,
    }
}

/// Distinct command-line choices stand for distinct runtimes, and every
/// runtime has a choice.
pub proof fn law_runtime_choices_match(a: RuntimeArg, b: RuntimeArg, s: RuntimeSelection)
    ensures
        runtime_of(a) == runtime_of(b) ==> a == b,
        exists|c: RuntimeArg| runtime_of(c) == s,
{
    match s {
        RuntimeSelection::Whisper => assert(runtime_of(RuntimeArg::Whisper) == s),
        RuntimeSelection::Parakeet => assert(runtime_of(RuntimeArg::Parakeet) == s),
        RuntimeSelection::Auto => assert(runtime_of(RuntimeArg::Auto) == s),
    }
}

} // verus!
