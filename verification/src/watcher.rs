//! The rules of the directory watcher: which new files are transcribed, what
//! their transcripts are called, how already processed files are remembered
//! and stored, and when the watch loop ends.

use vstd::prelude::*;

use crate::config::opt_text;
use crate::config::RuntimeSelection;
use crate::text::contains_seq;
use crate::text::decimal;
use crate::text::law_decimal_injective;
use crate::text::law_replace_final_occurrence;
use crate::text::occurs_at;
use crate::text::char_agrees;
use crate::text::decimal_text;
use crate::text::replace_all;
use crate::text::replace_text;
use crate::text::same_text;
use crate::text::texts;

verus! {

broadcast use vstd::seq_lib::group_seq_properties;

/// The file in the output directory that lists the processed files.
pub const PROCESSED_FILES_NAME: &'static str = ".processed_files.json";

/// What a directory watch is configured with.
#[derive(Debug, Clone)]
pub struct WatchConfig {
    pub watch_dir: String,
    pub output_dir: String,
    pub runtime: RuntimeSelection,
    pub model_id: Option<String>,
}

/// The configuration of a watch for audio files of `watch_dir`, writing
/// transcripts to `output_dir`.
pub fn m4a_watch_config(
    watch_dir: &str,
    output_dir: &str,
    runtime: RuntimeSelection,
    model_id: Option<String>,
) -> (r: WatchConfig)
    ensures
        r.watch_dir@ == watch_dir@,
        r.output_dir@ == output_dir@,
        r.runtime == runtime,
        opt_text(r.model_id) == opt_text(model_id),
{
    WatchConfig {
        watch_dir: watch_dir.to_owned(),
        output_dir: output_dir.to_owned(),
        runtime,
        model_id,
    }
}

/// What `serde_json::from_str::<Vec<String>>` reads from a text: the list of
/// strings of a JSON array of strings, or nothing when the text is not one.
pub uninterp spec fn json_string_list(data: Seq<char>) -> Option<Seq<Seq<char>>>;

/// What `serde_json::to_string` writes for a list of strings.
pub uninterp spec fn json_of_string_list(items: Seq<Seq<char>>) -> Option<Seq<char>>;

/// Calls `serde_json::from_str::<Vec<String>>`; the result is named
/// `json_string_list`.
#[verifier::external_body]
fn parse_string_list(data: &str) -> (r: Option<Vec<String>>)
    ensures
        match r {
            Some(v) => json_string_list(data@) == Some(texts(v@)),
            None => json_string_list(data@) is None,
        },
{
    serde_json::from_str::<Vec<String>>(data).ok()
}

/// Calls `serde_json::to_string` on a list of strings; the result is named
/// `json_of_string_list`. Serialization fails only where a type's
/// `Serialize` decides to fail or a map has keys that are not strings, so a
/// list of strings is always written. Every string is written as a JSON
/// string whose escapes `serde_json::from_str` reads back to the same
/// characters, so reading the text back gives the same list.
#[verifier::external_body]
fn encode_string_list(items: &Vec<String>) -> (r: Option<String>)
    ensures
        opt_text(r) == json_of_string_list(texts(items@)),
        r is Some,
        r matches Some(s) ==> json_string_list(s@) == Some(texts(items@)),
{
    serde_json::to_string(items).ok()
}

/// The processed files read from `data`, the stored text when it could be
/// read: the strings of a JSON array of strings, nothing otherwise.
pub open spec fn stored_processed(data: Option<Seq<char>>) -> Set<Seq<char>> {
    match data {
        None => Set::<Seq<char>>::empty(),
        Some(d) => match json_string_list(d) {
            Some(items) => items.to_set(),
            None => Set::<Seq<char>>::empty(),
        },
    }
}

/// The keys of the files already transcribed, each once, in the order they
/// were recorded.
pub struct ProcessedFiles {
    keys: Vec<String>,
}

impl View for ProcessedFiles {
    type V = Set<Seq<char>>;

    closed spec fn view(&self) -> Set<Seq<char>> {
        texts(self.keys@).to_set()
    }
}

impl ProcessedFiles {
    /// The recorded keys in the order they were recorded.
    pub closed spec fn listed(&self) -> Seq<Seq<char>> {
        texts(self.keys@)
    }

    /// No key is recorded twice.
    #[verifier::type_invariant]
    spec fn wf(self) -> bool {
        texts(self.keys@).no_duplicates()
    }

    /// The listed keys are the recorded set.
    pub proof fn lemma_listed_is_set(&self)
        ensures
            self.listed().to_set() == self@,
    {
    }

    /// Nothing recorded.
    pub fn new() -> (r: Self)
        ensures
            r@ == Set::<Seq<char>>::empty(),
            r.listed() == Seq::<Seq<char>>::empty(),
    {
        let r = ProcessedFiles { keys: Vec::new() };
        assert(r.listed() =~= Seq::<Seq<char>>::empty());
        assert(r@ =~= Set::<Seq<char>>::empty());
        r
    }

    /// Whether `key` is recorded.
    pub fn contains(&self, key: &str) -> (r: bool)
        ensures
            r == self@.contains(key@),
    {
        let mut i: usize = 0;
        while i < self.keys.len()
            invariant
                i <= self.keys@.len(),
                forall|j: int| 0 <= j < i ==> self.keys@[j]@ != key@,
            decreases self.keys.len() - i,
        {
            if same_text(self.keys[i].as_str(), key) {
                assert(texts(self.keys@)[i as int] == key@);
                return true;
            }
            i = i + 1;
        }
        assert(!texts(self.keys@).contains(key@)) by {
            if texts(self.keys@).contains(key@) {
                let j = choose|j: int| 0 <= j < texts(self.keys@).len() && texts(self.keys@)[j]
                    == key@;
                assert(self.keys@[j]@ == key@);
            }
        }
        false
    }

    /// Records `key`; a key already recorded is kept once.
    pub fn insert(&mut self, key: String)
        ensures
            final(self)@ == old(self)@.insert(key@),
            old(self)@.contains(key@) ==> final(self).listed() == old(self).listed(),
            !old(self)@.contains(key@) ==> final(self).listed() == old(self).listed().push(key@),
    {
        proof {
            use_type_invariant(&*self);
        }
        if !self.contains(key.as_str()) {
            let ghost before = self.listed();
            let ghost k = key@;
            let mut keys: Vec<String> = Vec::new();
            std::mem::swap(&mut keys, &mut self.keys);
            keys.push(key);
            assert(texts(keys@) =~= before.push(k));
            self.keys = keys;
            assert(self.listed() =~= before.push(k));
            assert(self@ =~= old(self)@.insert(k));
        } else {
            assert(old(self)@.insert(key@) =~= old(self)@);
        }
    }

    /// The number of recorded keys.
    pub fn len(&self) -> (r: usize)
        ensures
            r == self.listed().len(),
    {
        self.keys.len()
    }

    /// The recorded keys, in the order they were recorded.
    pub fn keys(&self) -> (r: Vec<String>)
        ensures
            texts(r@) == self.listed(),
    {
        let mut out: Vec<String> = Vec::new();
        let mut i: usize = 0;
        while i < self.keys.len()
            invariant
                i <= self.keys@.len(),
                texts(out@) == texts(self.keys@).take(i as int),
            decreases self.keys.len() - i,
        {
            let c = self.keys[i].clone();
            assert(c@ == self.keys@[i as int]@);
            let ghost before = out@;
            out.push(c);
            assert(out@ == before.push(c));
            assert(texts(out@) =~= texts(before).push(c@));
            assert(texts(self.keys@).take(i + 1) =~= texts(self.keys@).take(i as int).push(c@));
            i = i + 1;
        }
        assert(texts(self.keys@).take(i as int) =~= texts(self.keys@));
        out
    }

    /// The processed files stored in `data`, the text of the processed-files
    /// list when it could be read: its strings when it is a JSON array of
    /// strings, nothing otherwise.
    pub fn from_json(data: Option<String>) -> (r: Self)
        ensures
            r@ == stored_processed(opt_text(data)),
    {
        let mut r = ProcessedFiles::new();
        let d = match data {
            None => {
                return r;
            },
            Some(d) => d,
        };
        let items = match parse_string_list(d.as_str()) {
            None => {
                return r;
            },
            Some(items) => items,
        };
        let ghost all = texts(items@);
        let mut i: usize = 0;
        while i < items.len()
            invariant
                i <= items@.len(),
                all == texts(items@),
                    r@ == all.take(i as int).to_set(),
            decreases items.len() - i,
        {
            r.insert(items[i].clone());
            assert(all.take(i + 1) =~= all.take(i as int).push(all[i as int]));
            assert(all.take(i + 1).to_set() =~= all.take(i as int).to_set().insert(all[i as int]));
            i = i + 1;
        }
        assert(all.take(i as int) =~= all);
        r
    }

    /// The JSON text that stores these processed files, when it can be made.
    pub fn to_json(&self) -> (r: Option<String>)
        ensures
            opt_text(r) == json_of_string_list(self.listed()),
            r is Some,
            r matches Some(s) ==> json_string_list(s@) == Some(self.listed()),
    {
        encode_string_list(&self.keys)
    }
}

/// The name's extension, as `Path::extension` reads it, is `m4a`: the name
/// ends in ".m4a" and something comes before the dot.
pub open spec fn is_m4a_name(name: Seq<char>) -> bool {
    name.len() > 4 && name.subrange(name.len() - 4, name.len() as int) == ".m4a"@
}

/// Whether the file called `name` is an m4a recording.
pub fn is_m4a_file_name(name: &str) -> (r: bool)
    ensures
        r == is_m4a_name(name@),
{
    let n = name.unicode_len();
    if n <= 4 {
        return false;
    }
    let tail = name.substring_char(n - 4, n);
    same_text(tail, ".m4a")
}

/// The key a file is remembered by: its name and size.
pub open spec fn dedup_key_of(name: Seq<char>, size: nat) -> Seq<char> {
    name + "_"@ + decimal(size)
}

/// The key the file called `file_name` with `file_size` bytes is
/// remembered by.
pub fn dedup_key(file_name: &str, file_size: u64) -> (r: String)
    ensures
        r@ == dedup_key_of(file_name@, file_size as nat),
{
    let mut out = file_name.to_owned();
    out.append("_");
    let digits = decimal_text(file_size);
    out.append(digits.as_str());
    out
}

/// The name of a recording's transcript: every ".m4a" in it becomes ".txt".
pub open spec fn transcript_name_of(name: Seq<char>) -> Seq<char> {
    replace_all(name, ".m4a"@, ".txt"@)
}

/// The name of the transcript of the recording called `file_name`.
pub fn transcript_file_name(file_name: &str) -> (r: String)
    ensures
        r@ == transcript_name_of(file_name@),
{
    proof {
        reveal_strlit(".m4a");
    }
    replace_text(file_name, ".m4a", ".txt")
}

/// What to do with a newly created recording.
#[derive(Debug, Clone, PartialEq, Eq)]
pub enum FilePlan {
    /// A file of this name and size was transcribed before.
    AlreadyProcessed,
    /// Transcribe it, write the transcript under `output_file_name`, then
    /// remember it by `dedup_key`.
    Transcribe { dedup_key: String, output_file_name: String },
}

/// A new recording called `name` of `size` bytes is skipped: a file of
/// that name and size is recorded as processed.
pub open spec fn plan_skips(processed: Set<Seq<char>>, name: Seq<char>, size: nat) -> bool {
    processed.contains(dedup_key_of(name, size))
}

/// The plan for a new recording called `file_name` of `file_size` bytes.
pub fn plan_created_file(file_name: &str, file_size: u64, processed: &ProcessedFiles) -> (r:
    FilePlan)
    ensures
        plan_skips(processed@, file_name@, file_size as nat) ==> r == FilePlan::AlreadyProcessed,
        !plan_skips(processed@, file_name@, file_size as nat) ==> (r matches FilePlan::Transcribe {
            dedup_key,
            output_file_name,
        } && dedup_key@ == dedup_key_of(file_name@, file_size as nat) && output_file_name@
            == transcript_name_of(file_name@)),
{
    let key = dedup_key(file_name, file_size);
    if processed.contains(key.as_str()) {
        FilePlan::AlreadyProcessed
    } else {
        let output_file_name = transcript_file_name(file_name);
        FilePlan::Transcribe { dedup_key: key, output_file_name }
    }
}

/// Files of the same name but different sizes are remembered apart.
pub proof fn law_dedup_key_tells_sizes_apart(name: Seq<char>, a: nat, b: nat)
    ensures
        dedup_key_of(name, a) == dedup_key_of(name, b) ==> a == b,
{
    if dedup_key_of(name, a) == dedup_key_of(name, b) {
        reveal_strlit("_");
        let k = name.len() + 1;
        assert(dedup_key_of(name, a).skip(k as int) =~= decimal(a));
        assert(dedup_key_of(name, b).skip(k as int) =~= decimal(b));
        law_decimal_injective(a, b);
    }
}

/// A recording called `<stem>.m4a`, whose stem holds no ".m4a", gets the
/// transcript `<stem>.txt`.
pub proof fn law_transcript_name_of_recording(stem: Seq<char>)
    requires
        !contains_seq(stem, ".m4a"@),
    ensures
        transcript_name_of(stem + ".m4a"@) == stem + ".txt"@,
{
    reveal_strlit(".m4a");
    let p = ".m4a"@;
    let x = stem + p;
    assert forall|i: int| 0 <= i < stem.len() implies !occurs_at(x, p, i, false) by {
        if occurs_at(x, p, i, false) {
            if i + 4 <= stem.len() {
                assert forall|j: int| 0 <= j < p.len() implies char_agrees(#[trigger] stem[i + j], p[j], false) by {
                    assert(x[i + j] == stem[i + j]);
                }
                assert(occurs_at(stem, p, i, false));
            } else {
                let j = stem.len() - i;
                assert(0 < j < 4);
                assert(x[i + j] == p[0]);
                assert(char_agrees(x[i + j], p[j], false));
            }
        }
    }
    law_replace_final_occurrence(stem, p, ".txt"@);
}

/// The processed files survive a restart: reading back the text that
/// `to_json` stored gives the same files.
pub proof fn law_processed_files_round_trip(p: ProcessedFiles, stored: Seq<char>)
    requires
        json_string_list(stored) == Some(p.listed()),
    ensures
        stored_processed(Some(stored)) == p@,
{
    p.lemma_listed_is_set();
}

/// What follows the attempt to write a transcript.
#[derive(Debug, Clone, Copy, PartialEq, Eq, Structural)]
pub enum AfterWrite {
    /// The write failed: report it. The file stays unrecorded, so it is
    /// transcribed again when it shows up again.
    ReportWriteError,
    /// The transcript is written: store the processed files, then announce
    /// the transcript.
    SaveAndAnnounce,
}

/// The processed files after a transcript of the file keyed `key` was, or
/// was not, written: a written one adds the key, a failed write changes
/// nothing.
pub open spec fn recorded_after_write(
    before: Set<Seq<char>>,
    after: Set<Seq<char>>,
    written: bool,
    key: Seq<char>,
) -> bool {
    if written {
        after == before.insert(key)
    } else {
        after == before
    }
}

/// Settles a transcribed file once its transcript was, or was not, written:
/// only a written transcript records the file's key.
pub fn record_written_transcript(written: bool, dedup_key: String, processed: &mut ProcessedFiles) -> (r:
    AfterWrite)
    ensures
        recorded_after_write(old(processed)@, final(processed)@, written, dedup_key@),
        written ==> r == AfterWrite::SaveAndAnnounce,
        !written ==> r == AfterWrite::ReportWriteError && final(processed).listed() == old(
            processed,
        ).listed(),
{
    if written {
        processed.insert(dedup_key);
        AfterWrite::SaveAndAnnounce
    } else {
        AfterWrite::ReportWriteError
    }
}

/// A file whose transcript was written, and which was recorded by its key,
/// is skipped when it shows up again with the same name and size; after a
/// failed write it is transcribed again whenever it was before; and
/// recording it changes nothing for the same name with another size.
pub proof fn law_recorded_file_is_skipped(
    before: Set<Seq<char>>,
    after: Set<Seq<char>>,
    written: bool,
    name: Seq<char>,
    size: nat,
    other_size: nat,
)
    requires
        recorded_after_write(before, after, written, dedup_key_of(name, size)),
    ensures
        written ==> plan_skips(after, name, size),
        !written ==> plan_skips(after, name, size) == plan_skips(before, name, size),
        other_size != size ==> plan_skips(after, name, other_size) == plan_skips(
            before,
            name,
            other_size,
        ),
{
    if other_size != size {
        law_dedup_key_tells_sizes_apart(name, size, other_size);
    }
}

/// What the watch loop observed on one turn.
#[derive(Debug, Clone, Copy, PartialEq, Eq, Structural)]
pub enum WatchInput {
    /// The watcher was switched off.
    NotRunning,
    /// A stop was requested.
    StopSignal,
    /// A file was created in the watched directory.
    FileCreated,
    /// Some other change was reported.
    OtherEvent,
    /// The file watcher reported an error.
    WatchError,
    /// Nothing happened within the wait.
    Timeout,
    /// The file watcher went away.
    Disconnected,
}

/// What the watch loop does about it.
#[derive(Debug, Clone, Copy, PartialEq, Eq, Structural)]
pub enum WatchAction {
    /// Leave the loop quietly.
    Exit,
    /// Leave the loop, reporting the stop request.
    ExitOnStopSignal,
    /// Leave the loop, reporting that the watcher went away.
    ExitOnDisconnect,
    /// Handle the created files.
    HandleCreatedFiles,
    /// Report the watcher's error and go on.
    ReportWatchError,
    /// Go on waiting.
    KeepWaiting,
}

/// The loop's answer to one observation: it ends when switched off, when a
/// stop is requested or when the watcher goes away; created files are
/// handled, errors reported, and everything else waited out.
pub open spec fn watch_action(input: WatchInput) -> WatchAction {
    match input {
        WatchInput::NotRunning => WatchAction::Exit,
        WatchInput::StopSignal => WatchAction::ExitOnStopSignal,
        WatchInput::FileCreated => WatchAction::HandleCreatedFiles,
        WatchInput::OtherEvent => WatchAction::KeepWaiting,
        WatchInput::WatchError => WatchAction::ReportWatchError,
        WatchInput::Timeout => WatchAction::KeepWaiting,
        WatchInput::Disconnected => WatchAction::ExitOnDisconnect,
    }
}

/// The action leaves the loop.
pub open spec fn ends_loop(action: WatchAction) -> bool {
    action is Exit || action is ExitOnStopSignal || action is ExitOnDisconnect
}

/// The observation asks the loop to end: a switch-off, a stop request or a
/// watcher that went away.
pub open spec fn requests_end(input: WatchInput) -> bool {
    input is NotRunning || input is StopSignal || input is Disconnected
}

/// The loop's answer to one observation.
pub fn watch_step(input: WatchInput) -> (r: WatchAction)
    ensures
        r == watch_action(input),
{
    match input {
        WatchInput::NotRunning => WatchAction::Exit,
        WatchInput::StopSignal => WatchAction::ExitOnStopSignal,
        WatchInput::FileCreated => WatchAction::HandleCreatedFiles,
        WatchInput::OtherEvent => WatchAction::KeepWaiting,
        WatchInput::WatchError => WatchAction::ReportWatchError,
        WatchInput::Timeout => WatchAction::KeepWaiting,
        WatchInput::Disconnected => WatchAction::ExitOnDisconnect,
    }
}

/// Over a run of observations, the loop ends on the first turn that asks it
/// to end, and on no other: it goes on through errors and timeouts, and it
/// has no failing way out. So it has ended by the turn that observes a stop
/// request, a switch-off or the loss of the watcher.
pub proof fn law_watch_loop_ends_on_stop(inputs: Seq<WatchInput>, k: int)
    requires
        0 <= k < inputs.len(),
        requests_end(inputs[k]),
    ensures
        forall|x: WatchInput| ends_loop(#[trigger] watch_action(x)) <==> requests_end(x),
        exists|j: int|
            0 <= j <= k && ends_loop(#[trigger] watch_action(inputs[j])) && forall|i: int|
                0 <= i < j ==> !ends_loop(#[trigger] watch_action(inputs[i])),
    decreases k,
{
    if exists|m: int| 0 <= m < k && requests_end(#[trigger] inputs[m]) {
        let m = choose|m: int| 0 <= m < k && requests_end(#[trigger] inputs[m]);
        law_watch_loop_ends_on_stop(inputs, m);
    } else {
        assert forall|i: int| 0 <= i < k implies !ends_loop(#[trigger] watch_action(inputs[i])) by {
            assert(!requests_end(inputs[i]));
        }
        assert(ends_loop(watch_action(inputs[k])));
    }
}

/// A recording is any name that ends in ".m4a" after at least one
/// character: every such name is picked, spaces and all, and every picked
/// name is one.
pub proof fn law_m4a_recordings_are_picked(stem: Seq<char>, name: Seq<char>)
    ensures
        stem.len() > 0 ==> is_m4a_name(stem + ".m4a"@),
        is_m4a_name(name) ==> exists|s: Seq<char>| s.len() > 0 && name == s + ".m4a"@,
{
    reveal_strlit(".m4a");
    let x = stem + ".m4a"@;
    assert(x.subrange(x.len() - 4, x.len() as int) =~= ".m4a"@);
    if is_m4a_name(name) {
        let s = name.subrange(0, name.len() - 4);
        assert(name =~= s + ".m4a"@);
    }
}

} // verus!
