//! The synthesis run: one speech-synthesis request per line, strictly in
//! script order, stopping at the first line that fails.
//!
//! The run decides; its driver acts. The driver asks `next_action` what to do
//! (create the output directory, synthesize one line, or stop), does it, and
//! reports the outcome with `handle`. Each line's status and output path are
//! kept in the run and can be read between steps.

use vstd::prelude::*;
use crate::character::{Character, CharacterView, copy_roster, roster_view};
use crate::script::{LineView, ScriptLine, StatusView, SynthesisStatus, copy_lines, lines_view};
use crate::script_parser::{
    lemma_utterances_resolved, parsed_from, resolve_speaker, script_utterances, text_lines,
    utterance_of,
};
use crate::text::{chars_of, decimal_chars, decimal_padded, joined, string_of};

verus! {

/// Why a run did not complete.
#[derive(Clone, Debug, PartialEq)]
pub enum PipelineError {
    /// Lines whose speaker the roster did not know when the script was parsed,
    /// by name, in script order.
    UnknownSpeakers(Vec<String>),
    /// The script holds no dialogue line.
    EmptyScript,
    /// The output directory could not be created; the cause is given.
    OutputDirUnavailable(String),
    /// The roster no longer holds the speaker of this line.
    SpeakerNotFound { line: usize, speaker: String },
    /// The speaker of this line has no reference voice.
    MissingVoiceReference { line: usize, speaker: String },
    /// The synthesis of this line failed; the cause is given.
    SynthesisFailed { line: usize, detail: String },
}

pub enum ErrorView {
    UnknownSpeakers(Seq<Seq<char>>),
    EmptyScript,
    OutputDirUnavailable(Seq<char>),
    SpeakerNotFound(nat, Seq<char>),
    MissingVoiceReference(nat, Seq<char>),
    SynthesisFailed(nat, Seq<char>),
}

pub open spec fn strings_view(v: Seq<String>) -> Seq<Seq<char>> {
    v.map_values(|s: String| s@)
}

impl View for PipelineError {
    type V = ErrorView;

    open spec fn view(&self) -> ErrorView {
        match self {
            PipelineError::UnknownSpeakers(names) => ErrorView::UnknownSpeakers(strings_view(names@)),
            PipelineError::EmptyScript => ErrorView::EmptyScript,
            PipelineError::OutputDirUnavailable(d) => ErrorView::OutputDirUnavailable(d@),
            PipelineError::SpeakerNotFound { line, speaker } => ErrorView::SpeakerNotFound(
                *line as nat,
                speaker@,
            ),
            PipelineError::MissingVoiceReference { line, speaker } =>
                ErrorView::MissingVoiceReference(*line as nat, speaker@),
            PipelineError::SynthesisFailed { line, detail } => ErrorView::SynthesisFailed(
                *line as nat,
                detail@,
            ),
        }
    }
}

fn copy_strings(v: &Vec<String>) -> (r: Vec<String>)
    ensures
        strings_view(r@) == strings_view(v@),
{
    let mut out: Vec<String> = Vec::new();
    let mut i: usize = 0;
    while i < v.len()
        invariant
            0 <= i <= v.len(),
            out.len() == i,
            forall|k: int| 0 <= k < i ==> (#[trigger] out@[k])@ == v@[k]@,
        decreases v.len() - i,
    {
        out.push(v[i].clone());
        i = i + 1;
    }
    assert(strings_view(out@) =~= strings_view(v@));
    out
}

/// The text shown for an error.
pub open spec fn pipeline_message(e: ErrorView) -> Seq<char> {
    match e {
        ErrorView::UnknownSpeakers(names) => "Unknown character(s): "@ + joined(names, ", "@)
            + ". Please add them in Character Management first."@,
        ErrorView::EmptyScript => "No dialogue lines to synthesize."@,
        ErrorView::OutputDirUnavailable(d) => "Failed to create output directory: "@ + d,
        ErrorView::SpeakerNotFound(_, n) => "Character '"@ + n
            + "' not found in character list"@,
        ErrorView::MissingVoiceReference(_, n) => "Character '"@ + n
            + "' has no voice reference audio."@,
        ErrorView::SynthesisFailed(i, d) => "Failed to synthesize line "@ + decimal_padded(
            i + 1,
            0,
        ) + ": "@ + d,
    }
}

/// The names, separated by commas.
fn join_names(names: &Vec<String>) -> (r: String)
    ensures
        r@ == joined(strings_view(names@), ", "@),
{
    let ghost all = strings_view(names@);
    let mut r = String::new();
    let mut i: usize = 0;
    while i < names.len()
        invariant
            0 <= i <= names.len(),
            all == strings_view(names@),
            r@ == joined(all.subrange(0, i as int), ", "@),
        decreases names.len() - i,
    {
        assert(all.subrange(0, i + 1).drop_last() =~= all.subrange(0, i as int));
        if i > 0 {
            r.append(", ");
        } else {
            assert(r@ + names@[0]@ =~= names@[0]@);
        }
        r.append(names[i].as_str());
        i = i + 1;
    }
    assert(all.subrange(0, names.len() as int) =~= all);
    r
}

impl PipelineError {
    /// A sentence that says what went wrong.
    pub fn message(&self) -> (r: String)
        ensures
            r@ == pipeline_message(self@),
    {
        match self {
            PipelineError::UnknownSpeakers(names) => String::from_str("Unknown character(s): ")
                .concat(join_names(names).as_str()).concat(
                ". Please add them in Character Management first.",
            ),
            PipelineError::EmptyScript => String::from_str("No dialogue lines to synthesize."),
            PipelineError::OutputDirUnavailable(d) => String::from_str(
                "Failed to create output directory: ",
            ).concat(d.as_str()),
            PipelineError::SpeakerNotFound { speaker, .. } => String::from_str(
                "Character '",
            ).concat(speaker.as_str()).concat("' not found in character list"),
            PipelineError::MissingVoiceReference { speaker, .. } => String::from_str(
                "Character '",
            ).concat(speaker.as_str()).concat("' has no voice reference audio."),
            PipelineError::SynthesisFailed { line, detail } => {
                let digits = decimal_chars(*line as u128 + 1, 0);
                assert(digits@.subrange(0, digits.len() as int) =~= digits@);
                let number = string_of(&digits, 0, digits.len());
                String::from_str("Failed to synthesize line ").concat(number.as_str()).concat(
                    ": ",
                ).concat(detail.as_str())
            },
        }
    }

    pub fn copy(&self) -> (r: PipelineError)
        ensures
            r@ == self@,
    {
        match self {
            PipelineError::UnknownSpeakers(names) => PipelineError::UnknownSpeakers(
                copy_strings(names),
            ),
            PipelineError::EmptyScript => PipelineError::EmptyScript,
            PipelineError::OutputDirUnavailable(d) => PipelineError::OutputDirUnavailable(d.clone()),
            PipelineError::SpeakerNotFound { line, speaker } => PipelineError::SpeakerNotFound {
                line: *line,
                speaker: speaker.clone(),
            },
            PipelineError::MissingVoiceReference { line, speaker } =>
                PipelineError::MissingVoiceReference { line: *line, speaker: speaker.clone() },
            PipelineError::SynthesisFailed { line, detail } => PipelineError::SynthesisFailed {
                line: *line,
                detail: detail.clone(),
            },
        }
    }
}

/// One synthesis request: say `text` in the voice recorded at
/// `reference_audio_path`, and store the audio at `output_path`, a file
/// inside the output directory.
#[derive(Clone, Debug, PartialEq)]
pub struct SynthesisJob {
    pub line: usize,
    pub text: String,
    pub reference_audio_path: String,
    pub output_path: String,
}

pub struct JobView {
    pub line: nat,
    pub text: Seq<char>,
    pub reference_audio_path: Seq<char>,
    pub output_path: Seq<char>,
}

impl View for SynthesisJob {
    type V = JobView;

    open spec fn view(&self) -> JobView {
        JobView {
            line: self.line as nat,
            text: self.text@,
            reference_audio_path: self.reference_audio_path@,
            output_path: self.output_path@,
        }
    }
}

/// What the driver must do next.
#[derive(Debug)]
pub enum RunAction {
    /// Make sure this directory exists, then report `OutputDirReady`.
    CreateOutputDir(String),
    /// Run this request, store the audio, then report `LineSynthesized`.
    Synthesize(SynthesisJob),
    /// The run is over, with this outcome.
    Finished(Result<(), PipelineError>),
}

pub enum ActionView {
    CreateOutputDir(Seq<char>),
    Synthesize(JobView),
    Finished(Result<(), ErrorView>),
}

impl View for RunAction {
    type V = ActionView;

    open spec fn view(&self) -> ActionView {
        match self {
            RunAction::CreateOutputDir(d) => ActionView::CreateOutputDir(d@),
            RunAction::Synthesize(job) => ActionView::Synthesize(job@),
            RunAction::Finished(Ok(())) => ActionView::Finished(Ok(())),
            RunAction::Finished(Err(e)) => ActionView::Finished(Err(e@)),
        }
    }
}

/// What the driver reports after acting.
#[derive(Debug)]
pub enum RunEvent {
    /// The output directory exists, or the cause why it could not be created.
    OutputDirReady(Result<(), String>),
    /// The line's audio is stored at the requested path, or the cause of the failure.
    LineSynthesized(Result<(), String>),
}

pub enum EventView {
    OutputDirReady(Result<(), Seq<char>>),
    LineSynthesized(Result<(), Seq<char>>),
}

impl View for RunEvent {
    type V = EventView;

    open spec fn view(&self) -> EventView {
        match self {
            RunEvent::OutputDirReady(Ok(())) => EventView::OutputDirReady(Ok(())),
            RunEvent::OutputDirReady(Err(e)) => EventView::OutputDirReady(Err(e@)),
            RunEvent::LineSynthesized(Ok(())) => EventView::LineSynthesized(Ok(())),
            RunEvent::LineSynthesized(Err(e)) => EventView::LineSynthesized(Err(e@)),
        }
    }
}

/// Where a run stands.
#[derive(Clone, Debug, PartialEq)]
pub enum RunPhase {
    PreparingOutput,
    Synthesizing(usize),
    Succeeded,
    Failed(PipelineError),
}

pub enum PhaseView {
    PreparingOutput,
    Synthesizing(nat),
    Succeeded,
    Failed(ErrorView),
}

/// A synthesis run over a parsed script.
pub struct SynthesisRun {
    lines: Vec<ScriptLine>,
    roster: Vec<Character>,
    output_dir: String,
    phase: RunPhase,
}

pub struct RunView {
    pub lines: Seq<LineView>,
    pub roster: Seq<CharacterView>,
    pub output_dir: Seq<char>,
    pub phase: PhaseView,
}

impl View for SynthesisRun {
    type V = RunView;

    closed spec fn view(&self) -> RunView {
        RunView {
            lines: lines_view(self.lines@),
            roster: roster_view(self.roster@),
            output_dir: self.output_dir@,
            phase: match self.phase {
                RunPhase::PreparingOutput => PhaseView::PreparingOutput,
                RunPhase::Synthesizing(i) => PhaseView::Synthesizing(i as nat),
                RunPhase::Succeeded => PhaseView::Succeeded,
                RunPhase::Failed(e) => PhaseView::Failed(e@),
            },
        }
    }
}

// ---------------------------------------------------------------------------
// The run as a state machine over views.

/// Names of the lines whose speaker did not resolve, in order.
pub open spec fn unknown_speakers(lines: Seq<LineView>) -> Seq<Seq<char>>
    decreases lines.len(),
{
    if lines.len() == 0 {
        Seq::empty()
    } else {
        let before = unknown_speakers(lines.drop_last());
        if lines.last().character_id is None {
            before.push(lines.last().character_name)
        } else {
            before
        }
    }
}

/// The first roster entry with this id.
pub open spec fn speaker_by_id(roster: Seq<CharacterView>, id: Seq<char>) -> Option<CharacterView>
    decreases roster.len(),
{
    if roster.len() == 0 {
        None
    } else if roster[0].id == id {
        Some(roster[0])
    } else {
        speaker_by_id(roster.drop_first(), id)
    }
}

/// The speaker of line `i`, looked up by the id the line resolved to.
pub open spec fn speaker_of(s: RunView, i: int) -> Option<CharacterView> {
    match s.lines[i].character_id {
        Some(id) => speaker_by_id(s.roster, id),
        None => None,
    }
}

/// The file that holds the audio of line `i`: `line_000.wav`, `line_001.wav`, ...
pub open spec fn line_file_name(i: nat) -> Seq<char> {
    seq!['l', 'i', 'n', 'e', '_'] + decimal_padded(i, 3) + seq!['.', 'w', 'a', 'v']
}

/// `name` inside directory `dir`: joined with `/` unless `dir` is empty or
/// already ends with one.
pub open spec fn path_in(dir: Seq<char>, name: Seq<char>) -> Seq<char> {
    if dir.len() == 0 {
        name
    } else if dir.last() == '/' {
        dir + name
    } else {
        dir + "/"@ + name
    }
}

/// Where the audio of line `i` is stored.
pub open spec fn line_output_path(s: RunView, i: nat) -> Seq<char> {
    path_in(s.output_dir, line_file_name(i))
}

pub open spec fn no_voice_detail() -> Seq<char> {
    "no voice reference"@
}

pub open spec fn not_found_detail() -> Seq<char> {
    "Character not found"@
}

/// The line in a new state that is not done: it holds no output path.
pub open spec fn with_status(l: LineView, status: StatusView) -> LineView {
    LineView { status, output_path: None, ..l }
}

pub open spec fn set_status(s: RunView, i: int, status: StatusView) -> Seq<LineView> {
    s.lines.update(i, with_status(s.lines[i], status))
}

/// Line `i` starts: it is marked working and its speaker's voice is looked
/// up. Without a speaker or without a voice the line fails and the run stops.
pub open spec fn begin_line(s: RunView, i: int) -> RunView {
    match speaker_of(s, i) {
        None => RunView {
            lines: set_status(s, i, StatusView::Error(not_found_detail())),
            phase: PhaseView::Failed(
                ErrorView::SpeakerNotFound(i as nat, s.lines[i].character_name),
            ),
            ..s
        },
        Some(c) => match c.voice_path {
            None => RunView {
                lines: set_status(s, i, StatusView::Error(no_voice_detail())),
                phase: PhaseView::Failed(ErrorView::MissingVoiceReference(i as nat, c.name)),
                ..s
            },
            Some(_) => RunView {
                lines: set_status(s, i, StatusView::Working),
                phase: PhaseView::Synthesizing(i as nat),
                ..s
            },
        },
    }
}

/// The state after the driver reports `e`. A report that does not answer the
/// pending action changes nothing.
pub open spec fn after_event(s: RunView, e: EventView) -> RunView {
    match (s.phase, e) {
        (PhaseView::PreparingOutput, EventView::OutputDirReady(Ok(()))) => if s.lines.len() > 0 {
            begin_line(s, 0)
        } else {
            RunView { phase: PhaseView::Succeeded, ..s }
        },
        (PhaseView::PreparingOutput, EventView::OutputDirReady(Err(d))) => RunView {
            phase: PhaseView::Failed(ErrorView::OutputDirUnavailable(d)),
            ..s
        },
        (PhaseView::Synthesizing(i), EventView::LineSynthesized(Ok(()))) => {
            let done = RunView {
                lines: s.lines.update(
                    i as int,
                    LineView {
                        status: StatusView::Done,
                        output_path: Some(line_output_path(s, i)),
                        ..s.lines[i as int]
                    },
                ),
                ..s
            };
            if i + 1 < s.lines.len() {
                begin_line(done, (i + 1) as int)
            } else {
                RunView { phase: PhaseView::Succeeded, ..done }
            }
        },
        (PhaseView::Synthesizing(i), EventView::LineSynthesized(Err(d))) => RunView {
            lines: set_status(s, i as int, StatusView::Error(d)),
            phase: PhaseView::Failed(ErrorView::SynthesisFailed(i, d)),
            ..s
        },
        _ => s,
    }
}

/// The request for line `i`.
pub open spec fn job_for(s: RunView, i: nat) -> JobView {
    JobView {
        line: i,
        text: s.lines[i as int].text,
        reference_audio_path: match speaker_of(s, i as int) {
            Some(c) => match c.voice_path {
                Some(v) => v,
                None => Seq::empty(),
            },
            None => Seq::empty(),
        },
        output_path: line_output_path(s, i),
    }
}

/// What the driver must do in state `s`.
pub open spec fn action_of(s: RunView) -> ActionView {
    match s.phase {
        PhaseView::PreparingOutput => ActionView::CreateOutputDir(s.output_dir),
        PhaseView::Synthesizing(i) => ActionView::Synthesize(job_for(s, i)),
        PhaseView::Succeeded => ActionView::Finished(Ok(())),
        PhaseView::Failed(e) => ActionView::Finished(Err(e)),
    }
}

/// The state a run starts in.
pub open spec fn initial_run(
    lines: Seq<LineView>,
    roster: Seq<CharacterView>,
    output_dir: Seq<char>,
) -> RunView {
    RunView { lines, roster, output_dir, phase: PhaseView::PreparingOutput }
}

/// Whether a run may start on `lines`, and if not, why.
pub open spec fn start_check(lines: Seq<LineView>) -> Result<(), ErrorView> {
    if unknown_speakers(lines).len() > 0 {
        Err(ErrorView::UnknownSpeakers(unknown_speakers(lines)))
    } else if lines.len() == 0 {
        Err(ErrorView::EmptyScript)
    } else {
        Ok(())
    }
}

impl SynthesisRun {
    /// The run is consistent: while a line is in flight it is one of the
    /// run's lines, marked working, and its speaker has a voice. `start`
    /// establishes this and `handle` keeps it.
    pub open spec fn wf(&self) -> bool {
        let s = self@;
        match s.phase {
            PhaseView::Synthesizing(i) => {
                &&& i < s.lines.len()
                &&& s.lines[i as int].status == StatusView::Working
                &&& speaker_of(s, i as int) matches Some(c) && c.voice_path is Some
            },
            _ => true,
        }
    }
}

/// The audio file name of line `i`.
pub fn line_file_name_of(i: usize) -> (r: String)
    ensures
        r@ == line_file_name(i as nat),
{
    let mut v: Vec<char> = Vec::new();
    v.push('l');
    v.push('i');
    v.push('n');
    v.push('e');
    v.push('_');
    let digits = decimal_chars(i as u128, 3);
    let mut k: usize = 0;
    while k < digits.len()
        invariant
            0 <= k <= digits.len(),
            v@ == seq!['l', 'i', 'n', 'e', '_'] + digits@.subrange(0, k as int),
        decreases digits.len() - k,
    {
        assert(digits@.subrange(0, k + 1) =~= digits@.subrange(0, k as int).push(digits@[k as int]));
        v.push(digits[k]);
        k = k + 1;
    }
    assert(digits@.subrange(0, digits.len() as int) =~= digits@);
    v.push('.');
    v.push('w');
    v.push('a');
    v.push('v');
    assert(v@ =~= line_file_name(i as nat));
    string_of(&v, 0, v.len())
}

/// Names of the lines whose speaker did not resolve, in order.
fn unknown_speaker_names(lines: &[ScriptLine]) -> (r: Vec<String>)
    ensures
        strings_view(r@) == unknown_speakers(lines_view(lines@)),
{
    let mut out: Vec<String> = Vec::new();
    let mut i: usize = 0;
    assert(lines_view(lines@.subrange(0, 0)) =~= Seq::<LineView>::empty());
    while i < lines.len()
        invariant
            0 <= i <= lines.len(),
            strings_view(out@) == unknown_speakers(lines_view(lines@.subrange(0, i as int))),
        decreases lines.len() - i,
    {
        let ghost before = lines_view(lines@.subrange(0, i as int));
        assert(lines_view(lines@.subrange(0, i + 1)) =~= before.push(lines@[i as int]@));
        assert(before.push(lines@[i as int]@).drop_last() =~= before);
        if lines[i].character_id.is_none() {
            let ghost old_out = out@;
            out.push(lines[i].character_name.clone());
            assert(strings_view(out@) =~= strings_view(old_out).push(lines@[i as int]@.character_name));
        }
        i = i + 1;
    }
    assert(lines@.subrange(0, lines.len() as int) =~= lines@);
    out
}

/// The position in `roster` of the first entry with id `id`.
fn index_of_id(roster: &Vec<Character>, id: &String) -> (r: Option<usize>)
    ensures
        match speaker_by_id(roster_view(roster@), id@) {
            None => r is None,
            Some(c) => r matches Some(k) && k < roster.len() && roster@[k as int]@ == c,
        },
{
    let ghost all = roster_view(roster@);
    assert(all.subrange(0, all.len() as int) =~= all);
    let mut i: usize = 0;
    while i < roster.len()
        invariant
            0 <= i <= roster.len(),
            all == roster_view(roster@),
            speaker_by_id(all, id@) == speaker_by_id(all.subrange(i as int, all.len() as int), id@),
        decreases roster.len() - i,
    {
        let ghost rest = all.subrange(i as int, all.len() as int);
        assert(rest.drop_first() =~= all.subrange(i + 1, all.len() as int));
        assert(rest[0] == roster@[i as int]@);
        if roster[i].id == *id {
            return Some(i);
        }
        i = i + 1;
    }
    None
}

impl SynthesisRun {
    /// Checks that every line's speaker resolved and that there is a line at
    /// all, then sets up a run over copies of `lines` and `roster`. Nothing is
    /// done to `lines` either way.
    pub fn start(lines: &[ScriptLine], roster: &[Character], output_dir: &str) -> (r: Result<
        SynthesisRun,
        PipelineError,
    >)
        ensures
            match start_check(lines_view(lines@)) {
                Err(e) => r matches Err(err) && err@ == e,
                Ok(()) => r matches Ok(run) && run@ == initial_run(
                    lines_view(lines@),
                    roster_view(roster@),
                    output_dir@,
                ) && run.wf(),
            },
    {
        let unknown = unknown_speaker_names(lines);
        if unknown.len() > 0 {
            return Err(PipelineError::UnknownSpeakers(unknown));
        }
        if lines.len() == 0 {
            return Err(PipelineError::EmptyScript);
        }
        Ok(
            SynthesisRun {
                lines: copy_lines(lines),
                roster: copy_roster(roster),
                output_dir: output_dir.to_owned(),
                phase: RunPhase::PreparingOutput,
            },
        )
    }

    /// The lines, with their statuses and output paths as they stand.
    pub fn lines(&self) -> (r: &Vec<ScriptLine>)
        ensures
            lines_view(r@) == self@.lines,
    {
        &self.lines
    }

    /// Ends the run, handing back its lines.
    pub fn into_lines(self) -> (r: Vec<ScriptLine>)
        ensures
            lines_view(r@) == self@.lines,
    {
        self.lines
    }

    /// Where the audio of line `i` is stored.
    fn line_output_path(&self, i: usize) -> (r: String)
        ensures
            r@ == line_output_path(self@, i as nat),
    {
        let name = line_file_name_of(i);
        let dir = chars_of(self.output_dir.as_str());
        let mut path = self.output_dir.clone();
        if dir.len() > 0 && dir[dir.len() - 1] != '/' {
            path.append("/");
        }
        path.append(name.as_str());
        path
    }

    /// The roster position of the speaker of line `i`.
    fn speaker_index(&self, i: usize) -> (r: Option<usize>)
        requires
            i < self@.lines.len(),
        ensures
            match speaker_of(self@, i as int) {
                None => r is None,
                Some(c) => r matches Some(k) && k < self.roster.len() && self.roster@[k as int]@
                    == c,
            },
    {
        assert(self.lines@[i as int]@ == self@.lines[i as int]);
        match &self.lines[i].character_id {
            Some(id) => index_of_id(&self.roster, id),
            None => None,
        }
    }

    fn set_line_status(&mut self, i: usize, status: SynthesisStatus)
        requires
            i < old(self)@.lines.len(),
        ensures
            final(self)@ == (RunView { lines: set_status(old(self)@, i as int, status@), ..old(self)@ }),
    {
        let mut l = self.lines[i].copy();
        l.status = status;
        l.output_path = None;
        self.lines.set(i, l);
        assert(lines_view(self.lines@) =~= set_status(old(self)@, i as int, status@));
    }

    fn begin_line(&mut self, i: usize)
        requires
            i < old(self)@.lines.len(),
        ensures
            final(self)@ == begin_line(old(self)@, i as int),
            final(self).wf(),
    {
        match self.speaker_index(i) {
            None => {
                let speaker = self.lines[i].character_name.clone();
                self.set_line_status(i, SynthesisStatus::Error(String::from_str("Character not found")));
                self.phase = RunPhase::Failed(PipelineError::SpeakerNotFound { line: i, speaker });
            },
            Some(k) => {
                if self.roster[k].voice_path.is_none() {
                    let speaker = self.roster[k].name.clone();
                    self.set_line_status(
                        i,
                        SynthesisStatus::Error(String::from_str("no voice reference")),
                    );
                    self.phase = RunPhase::Failed(
                        PipelineError::MissingVoiceReference { line: i, speaker },
                    );
                } else {
                    self.set_line_status(i, SynthesisStatus::Working);
                    self.phase = RunPhase::Synthesizing(i);
                }
            },
        }
    }

    /// What the driver must do now.
    pub fn next_action(&self) -> (r: RunAction)
        requires
            self.wf(),
        ensures
            r@ == action_of(self@),
    {
        match &self.phase {
            RunPhase::PreparingOutput => RunAction::CreateOutputDir(self.output_dir.clone()),
            RunPhase::Synthesizing(i) => {
                let i = *i;
                let k = self.speaker_index(i);
                let voice = match k {
                    Some(k) => match &self.roster[k].voice_path {
                        Some(v) => v.clone(),
                        None => String::new(),
                    },
                    None => String::new(),
                };
                assert(self.lines@[i as int]@ == self@.lines[i as int]);
                RunAction::Synthesize(
                    SynthesisJob {
                        line: i,
                        text: self.lines[i].text.clone(),
                        reference_audio_path: voice,
                        output_path: self.line_output_path(i),
                    },
                )
            },
            RunPhase::Succeeded => RunAction::Finished(Ok(())),
            RunPhase::Failed(e) => RunAction::Finished(Err(e.copy())),
        }
    }

    /// Takes in the outcome of the pending action.
    pub fn handle(&mut self, event: RunEvent)
        requires
            old(self).wf(),
        ensures
            final(self)@ == after_event(old(self)@, event@),
            final(self).wf(),
    {
        match event {
            RunEvent::OutputDirReady(res) => {
                if matches!(self.phase, RunPhase::PreparingOutput) {
                    match res {
                        Ok(()) => {
                            if self.lines.len() > 0 {
                                self.begin_line(0);
                            } else {
                                self.phase = RunPhase::Succeeded;
                            }
                        },
                        Err(d) => {
                            self.phase = RunPhase::Failed(PipelineError::OutputDirUnavailable(d));
                        },
                    }
                }
            },
            RunEvent::LineSynthesized(res) => {
                let current = match &self.phase {
                    RunPhase::Synthesizing(i) => Some(*i),
                    _ => None,
                };
                if let Some(i) = current {
                    assert(self@.phase == PhaseView::Synthesizing(i as nat));
                    assert(i < self@.lines.len());
                    match res {
                        Ok(()) => {
                            assert(lines_view(self.lines@).len() == self.lines@.len());
                            let path = self.line_output_path(i);
                            let mut l = self.lines[i].copy();
                            l.status = SynthesisStatus::Done;
                            l.output_path = Some(path);
                            let ghost path_view = l@.output_path;
                            self.lines.set(i, l);
                            assert(lines_view(self.lines@) =~= old(self)@.lines.update(
                                i as int,
                                LineView {
                                    status: StatusView::Done,
                                    output_path: path_view,
                                    ..old(self)@.lines[i as int]
                                },
                            ));
                            assert(i < self.lines.len());
                            if i + 1 < self.lines.len() {
                                self.begin_line(i + 1);
                            } else {
                                self.phase = RunPhase::Succeeded;
                            }
                        },
                        Err(d) => {
                            let detail = d.clone();
                            self.set_line_status(i, SynthesisStatus::Error(d));
                            self.phase = RunPhase::Failed(
                                PipelineError::SynthesisFailed { line: i, detail },
                            );
                        },
                    }
                }
            },
        }
    }
}

/// Every line is done, with its audio stored.
pub open spec fn all_done(lines: Seq<LineView>) -> bool {
    forall|j: int| 0 <= j < lines.len() ==> line_done(#[trigger] lines[j])
}

/// The audio files of a finished script, in line order, ready to be spliced;
/// `None` while some line is not done.
pub fn export_inputs(lines: &[ScriptLine]) -> (r: Option<Vec<String>>)
    ensures
        match r {
            None => !all_done(lines_view(lines@)),
            Some(paths) => all_done(lines_view(lines@)) && paths.len() == lines.len() && forall|
                j: int,
            | 0 <= j < lines.len() ==> Some((#[trigger] paths@[j])@) == lines@[j]@.output_path,
        },
{
    let mut paths: Vec<String> = Vec::new();
    let mut i: usize = 0;
    while i < lines.len()
        invariant
            0 <= i <= lines.len(),
            paths.len() == i,
            forall|j: int| 0 <= j < i ==> line_done(#[trigger] lines_view(lines@)[j]),
            forall|j: int| 0 <= j < i ==> Some((#[trigger] paths@[j])@) == lines@[j]@.output_path,
        decreases lines.len() - i,
    {
        assert(lines_view(lines@)[i as int] == lines@[i as int]@);
        let done = matches!(lines[i].status, SynthesisStatus::Done);
        match &lines[i].output_path {
            Some(p) => {
                if !done {
                    return None;
                }
                paths.push(p.clone());
            },
            None => {
                return None;
            },
        }
        i = i + 1;
    }
    Some(paths)
}

// ---------------------------------------------------------------------------
// Laws of the run.

/// The state after the reports `events`, in order.
pub open spec fn run_events(s: RunView, events: Seq<EventView>) -> RunView
    decreases events.len(),
{
    if events.len() == 0 {
        s
    } else {
        after_event(run_events(s, events.drop_last()), events.last())
    }
}

/// The line synthesized, with its audio stored.
pub open spec fn line_done(l: LineView) -> bool {
    l.status == StatusView::Done && l.output_path is Some
}

/// The line a per-line error is about.
pub open spec fn failed_line(e: ErrorView) -> Option<nat> {
    match e {
        ErrorView::SpeakerNotFound(i, _) => Some(i),
        ErrorView::MissingVoiceReference(i, _) => Some(i),
        ErrorView::SynthesisFailed(i, _) => Some(i),
        _ => None,
    }
}

/// The line the run has reached.
pub open spec fn cursor(s: RunView) -> nat {
    match s.phase {
        PhaseView::PreparingOutput => 0,
        PhaseView::Synthesizing(i) => i,
        PhaseView::Succeeded => s.lines.len(),
        PhaseView::Failed(e) => match failed_line(e) {
            Some(i) => i,
            None => 0,
        },
    }
}

/// Two views of one line that say the same thing.
pub open spec fn same_utterance(a: LineView, b: LineView) -> bool {
    a.id == b.id && utterance_of(a) == utterance_of(b)
}

/// `s` has come from a run started on `init`, in order: every line keeps what
/// it says, the lines before the cursor are done, the lines after it are as
/// they were, and the line at the cursor is in flight or has failed, without
/// an output path.
pub open spec fn progressed(init: Seq<LineView>, s: RunView) -> bool {
    &&& s.lines.len() == init.len()
    &&& forall|j: int| 0 <= j < init.len() ==> same_utterance(#[trigger] s.lines[j], init[j])
    &&& forall|j: int| 0 <= j < cursor(s) && j < init.len() ==> line_done(#[trigger] s.lines[j])
    &&& forall|j: int| cursor(s) < j < init.len() ==> #[trigger] s.lines[j] == init[j]
    &&& cursor(s) <= init.len()
    &&& match s.phase {
        PhaseView::PreparingOutput => s.lines == init,
        PhaseView::Synthesizing(i) => {
            &&& i < init.len()
            &&& s.lines[i as int].status == StatusView::Working
            &&& s.lines[i as int].output_path is None
        },
        PhaseView::Succeeded => true,
        PhaseView::Failed(e) => match failed_line(e) {
            Some(k) => {
                &&& k < init.len()
                &&& s.lines[k as int].status is Error
                &&& s.lines[k as int].output_path is None
            },
            None => s.lines == init,
        },
    }
}

proof fn lemma_step(init: Seq<LineView>, s: RunView, e: EventView)
    requires
        progressed(init, s),
    ensures
        progressed(init, after_event(s, e)),
        cursor(s) <= cursor(after_event(s, e)),
{
    let t = after_event(s, e);
    match (s.phase, e) {
        (PhaseView::Synthesizing(i), EventView::LineSynthesized(Ok(()))) => {
            assert(progressed(init, t));
        },
        _ => {
            assert(progressed(init, t));
        },
    }
}

proof fn lemma_steps(init: Seq<LineView>, s: RunView, events: Seq<EventView>)
    requires
        progressed(init, s),
    ensures
        progressed(init, run_events(s, events)),
    decreases events.len(),
{
    if events.len() > 0 {
        lemma_steps(init, s, events.drop_last());
        lemma_step(init, run_events(s, events.drop_last()), events.last());
    }
}

/// Every state that reports lead to has progressed in order from the
/// script's lines.
pub proof fn lemma_run_in_order(
    lines: Seq<LineView>,
    roster: Seq<CharacterView>,
    output_dir: Seq<char>,
    events: Seq<EventView>,
)
    ensures
        progressed(lines, run_events(initial_run(lines, roster, output_dir), events)),
{
    lemma_steps(lines, initial_run(lines, roster, output_dir), events);
}

proof fn lemma_cursor_grows(init: Seq<LineView>, s: RunView, events: Seq<EventView>, p: int)
    requires
        progressed(init, s),
        0 <= p <= events.len(),
    ensures
        progressed(init, run_events(s, events.take(p))),
        cursor(run_events(s, events.take(p))) <= cursor(run_events(s, events)),
    decreases events.len(),
{
    if p == events.len() {
        assert(events.take(p) =~= events);
        lemma_steps(init, s, events);
    } else {
        lemma_cursor_grows(init, s, events.drop_last(), p);
        assert(events.drop_last().take(p) =~= events.take(p));
        lemma_steps(init, s, events.drop_last());
        lemma_step(init, run_events(s, events.drop_last()), events.last());
    }
}

proof fn lemma_failed_stays(s: RunView, events: Seq<EventView>)
    requires
        s.phase is Failed,
    ensures
        run_events(s, events) == s,
    decreases events.len(),
{
    if events.len() > 0 {
        lemma_failed_stays(s, events.drop_last());
    }
}

/// Fail-fast, in order: whatever the collaborator reports, once line `k` has
/// failed, every line before it is done with its output path, line `k` holds
/// its error, every line after it is as it was before the run, no later
/// report changes anything, and no request was ever issued for a line after
/// `k`.
pub proof fn lemma_halt_on_failure(
    lines: Seq<LineView>,
    roster: Seq<CharacterView>,
    output_dir: Seq<char>,
    events: Seq<EventView>,
    later: Seq<EventView>,
)
    ensures
        ({
            let init = initial_run(lines, roster, output_dir);
            let s = run_events(init, events);
            s.phase matches PhaseView::Failed(e) ==> failed_line(e) matches Some(k) ==> {
                &&& forall|j: int| 0 <= j < k ==> line_done(#[trigger] s.lines[j])
                &&& s.lines[k as int].status is Error
                &&& forall|j: int| k < j < lines.len() ==> #[trigger] s.lines[j] == lines[j]
                &&& run_events(s, later) == s
                &&& forall|p: int|
                    0 <= p <= events.len() ==> (#[trigger] action_of(
                        run_events(init, events.take(p)),
                    ) matches ActionView::Synthesize(job) ==> job.line <= k)
            }
        }),
{
    let init = initial_run(lines, roster, output_dir);
    let s = run_events(init, events);
    lemma_run_in_order(lines, roster, output_dir, events);
    if let PhaseView::Failed(e) = s.phase {
        lemma_failed_stays(s, later);
        if let Some(k) = failed_line(e) {
            assert(cursor(s) == k);
            assert forall|p: int|
                0 <= p <= events.len() implies (#[trigger] action_of(
                run_events(init, events.take(p)),
            ) matches ActionView::Synthesize(job) ==> job.line <= k) by {
                lemma_cursor_grows(lines, init, events, p);
            }
        }
    }
}

/// A line holds an output path exactly when it is done: if this holds of the
/// lines a run starts on, it holds in every state the run reaches.
pub proof fn lemma_output_path_iff_done(
    lines: Seq<LineView>,
    roster: Seq<CharacterView>,
    output_dir: Seq<char>,
    events: Seq<EventView>,
)
    requires
        forall|j: int|
            0 <= j < lines.len() ==> ((#[trigger] lines[j]).output_path is Some
                <==> lines[j].status == StatusView::Done),
    ensures
        ({
            let s = run_events(initial_run(lines, roster, output_dir), events);
            forall|j: int|
                0 <= j < s.lines.len() ==> ((#[trigger] s.lines[j]).output_path is Some
                    <==> s.lines[j].status == StatusView::Done)
        }),
{
    let s = run_events(initial_run(lines, roster, output_dir), events);
    lemma_run_in_order(lines, roster, output_dir, events);
    assert forall|j: int| 0 <= j < s.lines.len() implies ((#[trigger] s.lines[j]).output_path is Some
        <==> s.lines[j].status == StatusView::Done) by {
        if j < cursor(s) {
            assert(line_done(s.lines[j]));
        } else if j > cursor(s) {
            assert(s.lines[j] == lines[j]);
        } else {
            assert(lines[j].output_path is Some <==> lines[j].status == StatusView::Done);
        }
    }
}

/// A script that names a speaker the roster lacks does not start: the run is
/// refused with the unknown names, that one among them, before any request.
pub proof fn lemma_unknown_speaker_refused(
    text: Seq<char>,
    roster: Seq<Character>,
    lines: Seq<ScriptLine>,
    k: int,
)
    requires
        parsed_from(text, roster, lines),
        0 <= k < lines.len(),
        resolve_speaker(roster_view(roster), lines[k]@.character_name) is None,
    ensures
        start_check(lines_view(lines)) matches Err(ErrorView::UnknownSpeakers(names)) && names.contains(
            lines[k]@.character_name,
        ),
{
    let lv = lines_view(lines);
    let u = script_utterances(text, roster_view(roster));
    lemma_utterances_resolved(text_lines(text), roster_view(roster));
    assert(utterance_of(lines[k]@) == u[k]);
    assert(lv[k] == lines[k]@);
    lemma_unknown_listed(lv, k);
}

proof fn lemma_unknown_listed(lines: Seq<LineView>, k: int)
    requires
        0 <= k < lines.len(),
        lines[k].character_id is None,
    ensures
        unknown_speakers(lines).contains(lines[k].character_name),
    decreases lines.len(),
{
    let before = unknown_speakers(lines.drop_last());
    if k == lines.len() - 1 {
        assert(unknown_speakers(lines).last() == lines[k].character_name);
    } else {
        lemma_unknown_listed(lines.drop_last(), k);
        let i = choose|i: int| 0 <= i < before.len() && before[i] == lines[k].character_name;
        if lines.last().character_id is None {
            assert(unknown_speakers(lines)[i] == before[i]);
        }
    }
}

} // verus!
