//! The integer side of Whisper: which files of a model repository are
//! fetched, how the mel spectrogram is cut into windows, the prompt each
//! window starts from, when decoding of a window stops, and which mel filter
//! bank a model needs.

use vstd::prelude::*;

use crate::models::model_error_chain;
use crate::models::FileFetch;
use crate::models::ModelError;
use crate::text::decimal;
use crate::text::decimal_text;
use crate::text::texts;

verus! {

/// How a failed fetch of a Whisper model is reported, outermost first:
/// Whisper passes the hub's failure on as it is, without a context of its
/// own; any other error keeps its descriptions.
pub open spec fn whisper_fetch_chain(e: ModelError) -> Seq<Seq<char>> {
    match e {
        ModelError::FetchFailed { cause, .. } => seq![cause@],
        ModelError::HubUnavailable { cause } => seq![cause@],
        _ => model_error_chain(e),
    }
}

/// The report of a failed fetch of a Whisper model's files.
pub fn whisper_fetch_error(e: &ModelError) -> (r: Vec<String>)
    ensures
        texts(r@) == whisper_fetch_chain(*e),
{
    match e {
        ModelError::FetchFailed { cause, .. } => {
            let r = vec![cause.clone()];
            assert(texts(r@) =~= seq![cause@]);
            r
        },
        ModelError::HubUnavailable { cause } => {
            let r = vec![cause.clone()];
            assert(texts(r@) =~= seq![cause@]);
            r
        },
        _ => e.causes(),
    }
}

/// The files a Whisper model is loaded from, in the order they are fetched:
/// its configuration, its tokenizer and its weights.
pub open spec fn whisper_files() -> Seq<Seq<char>> {
    seq!["config.json"@, "tokenizer.json"@, "model.safetensors"@]
}

/// The download of the Whisper model `model_id`: its configuration,
/// tokenizer and weights from the repository of that id at the `main`
/// branch. Each file is used where it lands, so none is tied to a directory.
pub fn whisper_model_files(model_id: &str) -> (r: FileFetch)
    ensures
        r.wf(),
        r.repo() == model_id@,
        r.files() == whisper_files(),
        r.in_dir() == seq![false, false, false],
        r.fetched().len() == 0,
        r.dir() is None,
{
    let files: Vec<String> = vec![
        "config.json".to_owned(),
        "tokenizer.json".to_owned(),
        "model.safetensors".to_owned(),
    ];
    let in_dir: Vec<bool> = vec![false, false, false];
    assert(texts(files@) =~= whisper_files());
    assert(in_dir@ =~= seq![false, false, false]);
    FileFetch::new(model_id, files, in_dir)
}

/// The windows `(start, length)` that frames `start..total` are cut into,
/// each `n` frames long but the last, which takes what is left.
pub open spec fn segments_from(start: nat, total: nat, n: nat) -> Seq<(nat, nat)>
    decreases total - start,
{
    if start >= total || n == 0 {
        Seq::empty()
    } else {
        let size: nat = if total - start < n {
            (total - start) as nat
        } else {
            n
        };
        seq![(start, size)] + segments_from(start + size, total, n)
    }
}

/// A window list as natural numbers.
pub open spec fn spans_view(v: Seq<(usize, usize)>) -> Seq<(nat, nat)> {
    v.map_values(|p: (usize, usize)| (p.0 as nat, p.1 as nat))
}

/// The windows of `content_frames` frames, at most `n_frames` each, in order.
pub fn segment_spans(content_frames: usize, n_frames: usize) -> (r: Vec<(usize, usize)>)
    requires
        n_frames > 0,
    ensures
        spans_view(r@) == segments_from(0, content_frames as nat, n_frames as nat),
{
    let mut out: Vec<(usize, usize)> = Vec::new();
    let mut seek: usize = 0;
    while seek < content_frames
        invariant
            n_frames > 0,
            seek <= content_frames,
            spans_view(out@) + segments_from(seek as nat, content_frames as nat, n_frames as nat)
                == segments_from(0, content_frames as nat, n_frames as nat),
        decreases content_frames - seek,
    {
        let left = content_frames - seek;
        let size = if left < n_frames {
            left
        } else {
            n_frames
        };
        let ghost before = spans_view(out@);
        out.push((seek, size));
        assert(spans_view(out@) =~= before + seq![(seek as nat, size as nat)]);
        assert(segments_from(seek as nat, content_frames as nat, n_frames as nat) == seq![
            (seek as nat, size as nat),
        ] + segments_from((seek + size) as nat, content_frames as nat, n_frames as nat));
        seek = seek + size;
    }
    assert(segments_from(seek as nat, content_frames as nat, n_frames as nat) =~= Seq::empty());
    assert(spans_view(out@) =~= spans_view(out@) + Seq::<(nat, nat)>::empty());
    out
}

/// The windows tile the frames: they start at `start`, follow each other
/// without gap or overlap, end at `total`, and none is empty or longer
/// than `n`.
pub proof fn law_segments_tile(start: nat, total: nat, n: nat)
    requires
        n > 0,
    ensures
        ({
            let s = segments_from(start, total, n);
            &&& start < total ==> s.len() > 0 && s[0].0 == start && s.last().0 + s.last().1
                == total
            &&& start >= total ==> s.len() == 0
            &&& forall|k: int|
                0 <= k < s.len() ==> 0 < (#[trigger] s[k]).1 <= n && s[k].0 + s[k].1 <= total
            &&& forall|k: int|
                0 <= k < s.len() - 1 ==> (#[trigger] s[k + 1]).0 == s[k].0 + s[k].1
        }),
    decreases total - start,
{
    if start < total {
        let size: nat = if total - start < n {
            (total - start) as nat
        } else {
            n
        };
        law_segments_tile(start + size, total, n);
        let rest = segments_from(start + size, total, n);
        let s = segments_from(start, total, n);
        assert(s == seq![(start, size)] + rest);
        assert forall|k: int| 0 <= k < s.len() implies 0 < (#[trigger] s[k]).1 <= n && s[k].0
            + s[k].1 <= total by {
            if k > 0 {
                assert(s[k] == rest[k - 1]);
            }
        }
        assert forall|k: int| 0 <= k < s.len() - 1 implies (#[trigger] s[k + 1]).0 == s[k].0
            + s[k].1 by {
            assert(s[k + 1] == rest[k]);
            if k > 0 {
                let j = k - 1;
                assert(s[k] == rest[j]);
                assert(rest[j + 1].0 == rest[j].0 + rest[j].1);
            } else {
                assert(rest.len() > 0);
                assert(start + size < total);
                assert(s[0] == (start, size));
            }
        }
        if rest.len() > 0 {
            assert(s.last() == rest.last());
        }
    }
}

/// The prompt a window's decoding starts from: start of transcript, the
/// English tag when the tokenizer has one, transcribe, no timestamps.
pub open spec fn prompt_of(sot: u32, en_token: Option<u32>, transcribe: u32, no_timestamps: u32) -> Seq<u32> {
    match en_token {
        Some(en) => seq![sot, en, transcribe, no_timestamps],
        None => seq![sot, transcribe, no_timestamps],
    }
}

/// The prompt a window's decoding starts from.
pub fn initial_prompt(sot: u32, en_token: Option<u32>, transcribe: u32, no_timestamps: u32) -> (r:
    Vec<u32>)
    ensures
        r@ == prompt_of(sot, en_token, transcribe, no_timestamps),
{
    let mut tokens: Vec<u32> = Vec::new();
    tokens.push(sot);
    match en_token {
        Some(en) => tokens.push(en),
        None => {},
    }
    tokens.push(transcribe);
    tokens.push(no_timestamps);
    assert(tokens@ =~= prompt_of(sot, en_token, transcribe, no_timestamps));
    tokens
}

/// How many tokens decoding of a window may choose at most: half the
/// model's context.
pub fn max_decode_steps(max_target_positions: usize) -> (r: usize)
    ensures
        r == max_target_positions / 2,
{
    max_target_positions / 2
}

/// Whether decoding of a window stops after choosing `next_token`, with
/// `token_count` tokens now in the sequence: at end of transcript, or once
/// the sequence outgrows the model's context.
pub fn decoding_finished(
    next_token: u32,
    eot_token: u32,
    token_count: usize,
    max_target_positions: usize,
) -> (r: bool)
    ensures
        r == (next_token == eot_token || token_count > max_target_positions),
{
    next_token == eot_token || token_count > max_target_positions
}

/// The mel filter banks the program carries.
#[derive(Debug, Clone, Copy, PartialEq, Eq, Structural)]
pub enum MelFilterBank {
    /// 80 mel bins.
    Bins80,
    /// 128 mel bins.
    Bins128,
}

/// Why a Whisper model cannot be set up.
#[derive(Debug, Clone, PartialEq, Eq)]
pub enum WhisperSetupError {
    /// The model wants a mel filter bank that is not carried.
    UnexpectedMelBins(usize),
    /// The tokenizer has no id for this special token.
    MissingToken(String),
}

impl WhisperSetupError {
    /// The one-line description of this error.
    pub fn message(&self) -> (r: String)
        ensures
            match *self {
                WhisperSetupError::UnexpectedMelBins(n) => r@ == "unexpected num_mel_bins "@
                    + decimal(n as nat),
                WhisperSetupError::MissingToken(t) => r@ == "no token-id for "@ + t@,
            },
    {
        match self {
            WhisperSetupError::UnexpectedMelBins(n) => {
                let mut out = String::new();
                out.append("unexpected num_mel_bins ");
                let digits = decimal_text(*n as u64);
                out.append(digits.as_str());
                out
            },
            WhisperSetupError::MissingToken(t) => {
                let mut out = String::new();
                out.append("no token-id for ");
                out.append(t.as_str());
                out
            },
        }
    }
}

/// The id of a special token the decoder cannot do without: the one the
/// tokenizer found, else `MissingToken`.
pub fn required_token(token: &str, found: Option<u32>) -> (r: Result<u32, WhisperSetupError>)
    ensures
        match found {
            Some(id) => r == Ok::<u32, WhisperSetupError>(id),
            None => r matches Err(WhisperSetupError::MissingToken(t)) && t@ == token@,
        },
{
    match found {
        Some(id) => Ok(id),
        None => Err(WhisperSetupError::MissingToken(token.to_owned())),
    }
}

/// The first id found, in the order the candidates are tried, or 0 when the
/// tokenizer knows none of them.
pub open spec fn first_found_or_zero(found: Seq<Option<u32>>) -> u32
    decreases found.len(),
{
    if found.len() == 0 {
        0
    } else {
        match found[0] {
            Some(id) => id,
            None => first_found_or_zero(found.drop_first()),
        }
    }
}

/// The no-speech token: the first of the candidate tokens the tokenizer
/// knows, else 0.
pub fn no_speech_token(found: &Vec<Option<u32>>) -> (r: u32)
    ensures
        r == first_found_or_zero(found@),
{
    let mut i: usize = 0;
    assert(found@.skip(0) =~= found@);
    while i < found.len()
        invariant
            i <= found@.len(),
            first_found_or_zero(found@) == first_found_or_zero(found@.skip(i as int)),
        decreases found.len() - i,
    {
        assert(found@.skip(i as int).drop_first() =~= found@.skip(i + 1));
        if let Some(id) = found[i] {
            return id;
        }
        i = i + 1;
    }
    assert(found@.skip(i as int).len() == 0);
    0
}

/// The filter bank for a model with `num_mel_bins` mel bins.
pub fn mel_filter_bank(num_mel_bins: usize) -> (r: Result<MelFilterBank, WhisperSetupError>)
    ensures
        num_mel_bins == 80 ==> r == Ok::<MelFilterBank, WhisperSetupError>(MelFilterBank::Bins80),
        num_mel_bins == 128 ==> r == Ok::<MelFilterBank, WhisperSetupError>(
            MelFilterBank::Bins128,
        ),
        num_mel_bins != 80 && num_mel_bins != 128 ==> r == Err::<MelFilterBank, WhisperSetupError>(
            WhisperSetupError::UnexpectedMelBins(num_mel_bins),
        ),
{
    if num_mel_bins == 80 {
        Ok(MelFilterBank::Bins80)
    } else if num_mel_bins == 128 {
        Ok(MelFilterBank::Bins128)
    } else {
        Err(WhisperSetupError::UnexpectedMelBins(num_mel_bins))
    }
}

/// The windows are cut every `n` frames: window `k` starts `k * n` frames in,
/// and every window but the last is a full `n` frames long.
pub proof fn law_windows_are_full_but_the_last(start: nat, total: nat, n: nat)
    requires
        n > 0,
    ensures
        ({
            let s = segments_from(start, total, n);
            &&& forall|k: int| 0 <= k < s.len() ==> (#[trigger] s[k]).0 == start + k * n
            &&& forall|k: int| 0 <= k < s.len() - 1 ==> (#[trigger] s[k]).1 == n
        }),
    decreases total - start,
{
    let s = segments_from(start, total, n);
    if start < total {
        if total - start < n {
            assert(segments_from(total, total, n) =~= Seq::<(nat, nat)>::empty());
            assert(s.len() == 1);
            assert(s[0].0 == start + 0 * n);
        } else {
            law_windows_are_full_but_the_last(start + n, total, n);
            let rest = segments_from(start + n, total, n);
            assert(s == seq![(start, n)] + rest);
            assert forall|k: int| 0 <= k < s.len() implies (#[trigger] s[k]).0 == start + k * n by {
                if k > 0 {
                    assert(s[k] == rest[k - 1]);
                    assert((k - 1) * n + n == k * n) by (nonlinear_arith);
                } else {
                    assert(0 * n == 0) by (nonlinear_arith);
                }
            }
            assert forall|k: int| 0 <= k < s.len() - 1 implies (#[trigger] s[k]).1 == n by {
                if k > 0 {
                    assert(s[k] == rest[k - 1]);
                }
            }
        }
    }
}

} // verus!
