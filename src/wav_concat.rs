//! Splicing WAV files into one, sample by sample, in the order given.
//!
//! The concatenation decides; its driver does the file work. Every input's
//! format is read and checked against the first before anything is written;
//! only then is the output created, each input's samples copied into it in
//! order, and the output finalized. Any failure ends the concatenation.

use vstd::prelude::*;
use crate::text::{decimal_chars, decimal_padded, string_of};

verus! {

/// How a file stores its samples.
#[derive(Clone, Copy, Debug, PartialEq, Eq, Structural)]
pub enum SampleFormat {
    Float,
    Int,
}

/// The format descriptor of a WAV file.
#[derive(Clone, Copy, Debug, PartialEq, Eq, Structural)]
pub struct WavFormat {
    pub channels: u16,
    pub sample_rate: u32,
    pub bits_per_sample: u16,
    pub sample_format: SampleFormat,
}

/// The sample type that samples are copied as.
#[derive(Clone, Copy, Debug, PartialEq, Eq, Structural)]
pub enum SampleCodec {
    Float32,
    Int16,
    Int32,
}

/// The sample type for `f`, for the formats that can be copied.
pub open spec fn codec_for(f: WavFormat) -> Option<SampleCodec> {
    match f.sample_format {
        SampleFormat::Float => if f.bits_per_sample == 32 {
            Some(SampleCodec::Float32)
        } else {
            None
        },
        SampleFormat::Int => if f.bits_per_sample == 16 {
            Some(SampleCodec::Int16)
        } else if f.bits_per_sample == 32 {
            Some(SampleCodec::Int32)
        } else {
            None
        },
    }
}

pub fn sample_codec(f: WavFormat) -> (r: Option<SampleCodec>)
    ensures
        r == codec_for(f),
{
    match f.sample_format {
        SampleFormat::Float => if f.bits_per_sample == 32 {
            Some(SampleCodec::Float32)
        } else {
            None
        },
        SampleFormat::Int => if f.bits_per_sample == 16 {
            Some(SampleCodec::Int16)
        } else if f.bits_per_sample == 32 {
            Some(SampleCodec::Int32)
        } else {
            None
        },
    }
}

/// Why a concatenation failed.
#[derive(Clone, Debug, PartialEq)]
pub enum ConcatError {
    /// No input was given.
    NoInputs,
    /// This input's format differs from the first input's.
    FormatMismatch(String),
    /// The inputs store samples with this many bits, which cannot be copied.
    UnsupportedBitDepth(u16),
    /// Reading an input or writing the output failed: the file, and the cause.
    Io { path: String, detail: String },
}

pub enum ConcatErrorView {
    NoInputs,
    FormatMismatch(Seq<char>),
    UnsupportedBitDepth(u16),
    Io(Seq<char>, Seq<char>),
}

impl View for ConcatError {
    type V = ConcatErrorView;

    open spec fn view(&self) -> ConcatErrorView {
        match self {
            ConcatError::NoInputs => ConcatErrorView::NoInputs,
            ConcatError::FormatMismatch(p) => ConcatErrorView::FormatMismatch(p@),
            ConcatError::UnsupportedBitDepth(b) => ConcatErrorView::UnsupportedBitDepth(*b),
            ConcatError::Io { path, detail } => ConcatErrorView::Io(path@, detail@),
        }
    }
}

/// The text shown for an error.
pub open spec fn concat_message(e: ConcatErrorView) -> Seq<char> {
    match e {
        ConcatErrorView::NoInputs => "No input files provided"@,
        ConcatErrorView::FormatMismatch(p) => "File "@ + p
            + " has different audio format than the first file"@,
        ConcatErrorView::UnsupportedBitDepth(b) => "Unsupported bits per sample: "@
            + decimal_padded(b as nat, 0),
        ConcatErrorView::Io(p, d) => p + ": "@ + d,
    }
}

impl ConcatError {
    pub fn copy(&self) -> (r: ConcatError)
        ensures
            r@ == self@,
    {
        match self {
            ConcatError::NoInputs => ConcatError::NoInputs,
            ConcatError::FormatMismatch(p) => ConcatError::FormatMismatch(p.clone()),
            ConcatError::UnsupportedBitDepth(b) => ConcatError::UnsupportedBitDepth(*b),
            ConcatError::Io { path, detail } => ConcatError::Io {
                path: path.clone(),
                detail: detail.clone(),
            },
        }
    }

    /// A sentence that says what went wrong.
    pub fn message(&self) -> (r: String)
        ensures
            r@ == concat_message(self@),
    {
        match self {
            ConcatError::NoInputs => String::from_str("No input files provided"),
            ConcatError::FormatMismatch(p) => String::from_str("File ").concat(p.as_str()).concat(
                " has different audio format than the first file",
            ),
            ConcatError::UnsupportedBitDepth(b) => {
                let digits = decimal_chars(*b as u128, 0);
                let n = string_of(&digits, 0, digits.len());
                assert(digits@.subrange(0, digits.len() as int) =~= digits@);
                String::from_str("Unsupported bits per sample: ").concat(n.as_str())
            },
            ConcatError::Io { path, detail } => path.clone().concat(": ").concat(detail.as_str()),
        }
    }
}

/// What the driver must do next.
#[derive(Debug)]
pub enum ConcatAction {
    /// Open this input and report its format with `FormatRead`.
    ReadFormat(String),
    /// Create the output file with this format and report `OutputCreated`.
    CreateOutput { path: String, format: WavFormat },
    /// Append every sample of this input to the output, read and written as
    /// `codec`, and report `SamplesCopied`.
    CopySamples { path: String, codec: SampleCodec },
    /// Finish the output's header and report `Finalized`.
    Finalize,
    /// The concatenation is over, with this outcome.
    Finished(Result<(), ConcatError>),
}

pub enum ConcatActionView {
    ReadFormat(Seq<char>),
    CreateOutput(Seq<char>, WavFormat),
    CopySamples(Seq<char>, SampleCodec),
    Finalize,
    Finished(Result<(), ConcatErrorView>),
}

impl View for ConcatAction {
    type V = ConcatActionView;

    open spec fn view(&self) -> ConcatActionView {
        match self {
            ConcatAction::ReadFormat(p) => ConcatActionView::ReadFormat(p@),
            ConcatAction::CreateOutput { path, format } => ConcatActionView::CreateOutput(
                path@,
                *format,
            ),
            ConcatAction::CopySamples { path, codec } => ConcatActionView::CopySamples(
                path@,
                *codec,
            ),
            ConcatAction::Finalize => ConcatActionView::Finalize,
            ConcatAction::Finished(Ok(())) => ConcatActionView::Finished(Ok(())),
            ConcatAction::Finished(Err(e)) => ConcatActionView::Finished(Err(e@)),
        }
    }
}

/// Why copying samples failed: reading the input or writing the output,
/// with the cause.
#[derive(Clone, Debug, PartialEq)]
pub enum CopyFailure {
    Read(String),
    Write(String),
}

pub enum CopyFailureView {
    Read(Seq<char>),
    Write(Seq<char>),
}

/// What the driver reports after acting; an error carries its cause.
#[derive(Debug)]
pub enum ConcatEvent {
    FormatRead(Result<WavFormat, String>),
    OutputCreated(Result<(), String>),
    SamplesCopied(Result<(), CopyFailure>),
    Finalized(Result<(), String>),
}

pub enum ConcatEventView {
    FormatRead(Result<WavFormat, Seq<char>>),
    OutputCreated(Result<(), Seq<char>>),
    SamplesCopied(Result<(), CopyFailureView>),
    Finalized(Result<(), Seq<char>>),
}

impl View for ConcatEvent {
    type V = ConcatEventView;

    open spec fn view(&self) -> ConcatEventView {
        match self {
            ConcatEvent::FormatRead(Ok(f)) => ConcatEventView::FormatRead(Ok(*f)),
            ConcatEvent::FormatRead(Err(d)) => ConcatEventView::FormatRead(Err(d@)),
            ConcatEvent::OutputCreated(Ok(())) => ConcatEventView::OutputCreated(Ok(())),
            ConcatEvent::OutputCreated(Err(d)) => ConcatEventView::OutputCreated(Err(d@)),
            ConcatEvent::SamplesCopied(Ok(())) => ConcatEventView::SamplesCopied(Ok(())),
            ConcatEvent::SamplesCopied(Err(CopyFailure::Read(d))) => ConcatEventView::SamplesCopied(
                Err(CopyFailureView::Read(d@)),
            ),
            ConcatEvent::SamplesCopied(Err(CopyFailure::Write(d))) => ConcatEventView::SamplesCopied(
                Err(CopyFailureView::Write(d@)),
            ),
            ConcatEvent::Finalized(Ok(())) => ConcatEventView::Finalized(Ok(())),
            ConcatEvent::Finalized(Err(d)) => ConcatEventView::Finalized(Err(d@)),
        }
    }
}

/// Where a concatenation stands.
#[derive(Clone, Debug, PartialEq)]
pub enum ConcatPhase {
    ReadingFormat(usize),
    CreatingOutput,
    Copying(usize),
    Finalizing,
    Succeeded,
    Failed(ConcatError),
}

pub enum ConcatPhaseView {
    ReadingFormat(nat),
    CreatingOutput,
    Copying(nat),
    Finalizing,
    Succeeded,
    Failed(ConcatErrorView),
}

/// The formats read so far: all of them, and the first, which is kept.
struct FormatsRead {
    first: Option<WavFormat>,
    all: Ghost<Seq<WavFormat>>,
}

/// A concatenation of WAV inputs into one output.
pub struct WavConcatenation {
    inputs: Vec<String>,
    output: String,
    formats: FormatsRead,
    output_started: Ghost<bool>,
    phase: ConcatPhase,
}

pub struct ConcatView {
    /// The inputs, in splicing order.
    pub inputs: Seq<Seq<char>>,
    /// The output file.
    pub output: Seq<char>,
    /// The formats read so far, in input order.
    pub formats: Seq<WavFormat>,
    /// Whether the driver has been asked to create the output.
    pub output_started: bool,
    pub phase: ConcatPhaseView,
}

pub open spec fn paths_view(v: Seq<String>) -> Seq<Seq<char>> {
    v.map_values(|s: String| s@)
}

impl View for WavConcatenation {
    type V = ConcatView;

    closed spec fn view(&self) -> ConcatView {
        ConcatView {
            inputs: paths_view(self.inputs@),
            output: self.output@,
            formats: self.formats.all@,
            output_started: self.output_started@,
            phase: match self.phase {
                ConcatPhase::ReadingFormat(i) => ConcatPhaseView::ReadingFormat(i as nat),
                ConcatPhase::CreatingOutput => ConcatPhaseView::CreatingOutput,
                ConcatPhase::Copying(i) => ConcatPhaseView::Copying(i as nat),
                ConcatPhase::Finalizing => ConcatPhaseView::Finalizing,
                ConcatPhase::Succeeded => ConcatPhaseView::Succeeded,
                ConcatPhase::Failed(e) => ConcatPhaseView::Failed(e@),
            },
        }
    }
}

/// The state a concatenation of `inputs` into `output` starts in: with no input it has
/// already failed.
pub open spec fn initial_concat(inputs: Seq<Seq<char>>, output: Seq<char>) -> ConcatView {
    ConcatView {
        inputs,
        output,
        formats: Seq::empty(),
        output_started: false,
        phase: if inputs.len() == 0 {
            ConcatPhaseView::Failed(ConcatErrorView::NoInputs)
        } else {
            ConcatPhaseView::ReadingFormat(0)
        },
    }
}

pub open spec fn failed_with(s: ConcatView, e: ConcatErrorView) -> ConcatView {
    ConcatView { phase: ConcatPhaseView::Failed(e), ..s }
}

/// The state after the driver reports `e`. A report that does not answer the
/// pending action changes nothing.
pub open spec fn concat_after(s: ConcatView, e: ConcatEventView) -> ConcatView {
    match (s.phase, e) {
        (ConcatPhaseView::ReadingFormat(i), ConcatEventView::FormatRead(Ok(f))) => {
            let read = ConcatView { formats: s.formats.push(f), ..s };
            if i > 0 && f != s.formats[0] {
                failed_with(read, ConcatErrorView::FormatMismatch(s.inputs[i as int]))
            } else if i + 1 < s.inputs.len() {
                ConcatView { phase: ConcatPhaseView::ReadingFormat(i + 1), ..read }
            } else if codec_for(read.formats[0]) is None {
                failed_with(read, ConcatErrorView::UnsupportedBitDepth(read.formats[0].bits_per_sample))
            } else {
                ConcatView { output_started: true, phase: ConcatPhaseView::CreatingOutput, ..read }
            }
        },
        (ConcatPhaseView::CreatingOutput, ConcatEventView::OutputCreated(Ok(()))) => ConcatView {
            phase: ConcatPhaseView::Copying(0),
            ..s
        },
        (ConcatPhaseView::Copying(i), ConcatEventView::SamplesCopied(Ok(()))) => ConcatView {
            phase: if i + 1 < s.inputs.len() {
                ConcatPhaseView::Copying(i + 1)
            } else {
                ConcatPhaseView::Finalizing
            },
            ..s
        },
        (ConcatPhaseView::Finalizing, ConcatEventView::Finalized(Ok(()))) => ConcatView {
            phase: ConcatPhaseView::Succeeded,
            ..s
        },
        (ConcatPhaseView::ReadingFormat(i), ConcatEventView::FormatRead(Err(d))) => failed_with(
            s,
            ConcatErrorView::Io(s.inputs[i as int], d),
        ),
        (ConcatPhaseView::CreatingOutput, ConcatEventView::OutputCreated(Err(d))) => failed_with(
            s,
            ConcatErrorView::Io(s.output, d),
        ),
        (
            ConcatPhaseView::Copying(i),
            ConcatEventView::SamplesCopied(Err(CopyFailureView::Read(d))),
        ) => failed_with(s, ConcatErrorView::Io(s.inputs[i as int], d)),
        (
            ConcatPhaseView::Copying(_),
            ConcatEventView::SamplesCopied(Err(CopyFailureView::Write(d))),
        ) => failed_with(s, ConcatErrorView::Io(s.output, d)),
        (ConcatPhaseView::Finalizing, ConcatEventView::Finalized(Err(d))) => failed_with(
            s,
            ConcatErrorView::Io(s.output, d),
        ),
        _ => s,
    }
}

/// The sample type of the first input; every copy uses it.
pub open spec fn shared_codec(s: ConcatView) -> SampleCodec {
    match codec_for(s.formats[0]) {
        Some(c) => c,
        None => SampleCodec::Int16,
    }
}

/// What the driver must do in state `s`.
pub open spec fn concat_action(s: ConcatView) -> ConcatActionView {
    match s.phase {
        ConcatPhaseView::ReadingFormat(i) => ConcatActionView::ReadFormat(s.inputs[i as int]),
        ConcatPhaseView::CreatingOutput => ConcatActionView::CreateOutput(s.output, s.formats[0]),
        ConcatPhaseView::Copying(i) => ConcatActionView::CopySamples(
            s.inputs[i as int],
            shared_codec(s),
        ),
        ConcatPhaseView::Finalizing => ConcatActionView::Finalize,
        ConcatPhaseView::Succeeded => ConcatActionView::Finished(Ok(())),
        ConcatPhaseView::Failed(e) => ConcatActionView::Finished(Err(e)),
    }
}

/// Whether an action writes to the output.
pub open spec fn writes_output(a: ConcatActionView) -> bool {
    a is CreateOutput || a is CopySamples || a is Finalize
}

impl WavConcatenation {
    /// The pending input is one of the inputs, and once past the first
    /// input the first format is known.
    #[verifier::type_invariant]
    spec fn indices_in_range(self) -> bool {
        let all = self.formats.all@;
        &&& self.formats.first == if all.len() > 0 {
            Some(all[0])
        } else {
            None
        }
        &&& match self.phase {
            ConcatPhase::ReadingFormat(i) => i < self.inputs.len() && i <= all.len(),
            ConcatPhase::CreatingOutput => self.inputs.len() > 0 && all.len() > 0,
            ConcatPhase::Copying(i) => i < self.inputs.len() && all.len() > 0,
            _ => true,
        }
    }

    /// A concatenation of `inputs`, in this order, into the file `output`.
    pub fn new(inputs: Vec<String>, output: String) -> (r: WavConcatenation)
        ensures
            r@ == initial_concat(paths_view(inputs@), output@),
    {
        let phase = if inputs.len() == 0 {
            ConcatPhase::Failed(ConcatError::NoInputs)
        } else {
            ConcatPhase::ReadingFormat(0)
        };
        WavConcatenation {
            inputs,
            output,
            formats: FormatsRead { first: None, all: Ghost(Seq::empty()) },
            output_started: Ghost(false),
            phase,
        }
    }

    /// What the driver must do now.
    pub fn next_action(&self) -> (r: ConcatAction)
        ensures
            r@ == concat_action(self@),
    {
        proof {
            use_type_invariant(self);
        }
        match &self.phase {
            ConcatPhase::ReadingFormat(i) => ConcatAction::ReadFormat(self.inputs[*i].clone()),
            ConcatPhase::CreatingOutput => ConcatAction::CreateOutput {
                path: self.output.clone(),
                format: self.formats.first.unwrap(),
            },
            ConcatPhase::Copying(i) => {
                let codec = match sample_codec(self.formats.first.unwrap()) {
                    Some(c) => c,
                    None => SampleCodec::Int16,
                };
                ConcatAction::CopySamples { path: self.inputs[*i].clone(), codec }
            },
            ConcatPhase::Finalizing => ConcatAction::Finalize,
            ConcatPhase::Succeeded => ConcatAction::Finished(Ok(())),
            ConcatPhase::Failed(e) => ConcatAction::Finished(Err(e.copy())),
        }
    }

    /// Takes in the outcome of the pending action.
    pub fn handle(&mut self, event: ConcatEvent)
        ensures
            final(self)@ == concat_after(old(self)@, event@),
    {
        proof {
            use_type_invariant(&*self);
        }
        let n = self.inputs.len();
        match event {
            ConcatEvent::FormatRead(res) => {
                let current = match &self.phase {
                    ConcatPhase::ReadingFormat(i) => Some(*i),
                    _ => None,
                };
                if let Some(i) = current {
                    match res {
                        Ok(f) => {
                            let (mismatch, first) = match self.formats.first {
                                Some(first) => (i > 0 && f != first, first),
                                None => (false, f),
                            };
                            self.formats = FormatsRead {
                                first: Some(first),
                                all: Ghost(self.formats.all@.push(f)),
                            };
                            if mismatch {
                                self.phase = ConcatPhase::Failed(
                                    ConcatError::FormatMismatch(self.inputs[i].clone()),
                                );
                            } else if i + 1 < n {
                                self.phase = ConcatPhase::ReadingFormat(i + 1);
                            } else {
                                let shared = self.formats.first.unwrap();
                                match sample_codec(shared) {
                                    None => {
                                        self.phase = ConcatPhase::Failed(
                                            ConcatError::UnsupportedBitDepth(
                                                shared.bits_per_sample,
                                            ),
                                        );
                                    },
                                    Some(_) => {
                                        self.output_started = Ghost(true);
                                        self.phase = ConcatPhase::CreatingOutput;
                                    },
                                }
                            }
                        },
                        Err(d) => {
                            let path = self.inputs[i].clone();
                            self.phase = ConcatPhase::Failed(ConcatError::Io { path, detail: d });
                        },
                    }
                }
            },
            ConcatEvent::OutputCreated(res) => {
                if matches!(self.phase, ConcatPhase::CreatingOutput) {
                    match res {
                        Ok(()) => {
                            self.phase = ConcatPhase::Copying(0);
                        },
                        Err(d) => {
                            let path = self.output.clone();
                            self.phase = ConcatPhase::Failed(ConcatError::Io { path, detail: d });
                        },
                    }
                }
            },
            ConcatEvent::SamplesCopied(res) => {
                let current = match &self.phase {
                    ConcatPhase::Copying(i) => Some(*i),
                    _ => None,
                };
                if let Some(i) = current {
                    match res {
                        Ok(()) => {
                            if i + 1 < n {
                                self.phase = ConcatPhase::Copying(i + 1);
                            } else {
                                self.phase = ConcatPhase::Finalizing;
                            }
                        },
                        Err(CopyFailure::Read(d)) => {
                            let path = self.inputs[i].clone();
                            self.phase = ConcatPhase::Failed(ConcatError::Io { path, detail: d });
                        },
                        Err(CopyFailure::Write(d)) => {
                            let path = self.output.clone();
                            self.phase = ConcatPhase::Failed(ConcatError::Io { path, detail: d });
                        },
                    }
                }
            },
            ConcatEvent::Finalized(res) => {
                if matches!(self.phase, ConcatPhase::Finalizing) {
                    match res {
                        Ok(()) => {
                            self.phase = ConcatPhase::Succeeded;
                        },
                        Err(d) => {
                            let path = self.output.clone();
                            self.phase = ConcatPhase::Failed(ConcatError::Io { path, detail: d });
                        },
                    }
                }
            },
        }
    }
}

// ---------------------------------------------------------------------------
// Laws of the concatenation.

/// The state after the reports `events`, in order.
pub open spec fn concat_events(s: ConcatView, events: Seq<ConcatEventView>) -> ConcatView
    decreases events.len(),
{
    if events.len() == 0 {
        s
    } else {
        concat_after(concat_events(s, events.drop_last()), events.last())
    }
}

/// The formats `formats[0..k]` all equal the first.
pub open spec fn formats_agree(formats: Seq<WavFormat>, k: int) -> bool {
    forall|i: int| 0 <= i < k ==> #[trigger] formats[i] == formats[0]
}

/// What holds of every state a concatenation reaches.
pub open spec fn concat_consistent(s: ConcatView) -> bool {
    let n = s.inputs.len();
    &&& s.formats.len() <= n
    &&& s.output_started ==> {
        &&& s.formats.len() == n > 0
        &&& formats_agree(s.formats, n as int)
        &&& codec_for(s.formats[0]) is Some
    }
    &&& match s.phase {
        ConcatPhaseView::ReadingFormat(i) => {
            &&& !s.output_started
            &&& s.formats.len() == i < n
            &&& formats_agree(s.formats, i as int)
        },
        ConcatPhaseView::Copying(i) => s.output_started && i < n,
        ConcatPhaseView::Failed(ConcatErrorView::FormatMismatch(p)) => {
            &&& !s.output_started
            &&& exists|i: int|
                0 < i < s.formats.len() && #[trigger] s.formats[i] != s.formats[0] && p
                    == s.inputs[i]
        },
        ConcatPhaseView::Failed(_) => true,
        _ => s.output_started,
    }
}

proof fn lemma_concat_step(s: ConcatView, e: ConcatEventView)
    requires
        concat_consistent(s),
    ensures
        concat_consistent(concat_after(s, e)),
        s.output_started ==> concat_after(s, e).output_started,
{
    let t = concat_after(s, e);
    if let (ConcatPhaseView::ReadingFormat(i), ConcatEventView::FormatRead(Ok(f))) = (s.phase, e) {
        let formats = s.formats.push(f);
        assert(formats[i as int] == f);
        if i > 0 && f != s.formats[0] {
            assert(formats[0] == s.formats[0]);
            assert(formats[i as int] != formats[0]);
        } else {
            assert(forall|j: int| 0 <= j < i ==> #[trigger] formats[j] == s.formats[j]);
            assert(formats_agree(formats, (i + 1) as int));
        }
    }
}

proof fn lemma_concat_steps(s: ConcatView, events: Seq<ConcatEventView>)
    requires
        concat_consistent(s),
    ensures
        concat_consistent(concat_events(s, events)),
        s.output_started ==> concat_events(s, events).output_started,
        concat_events(s, events).inputs == s.inputs,
    decreases events.len(),
{
    if events.len() > 0 {
        lemma_concat_steps(s, events.drop_last());
        lemma_concat_step(concat_events(s, events.drop_last()), events.last());
    }
}

proof fn lemma_started_persists(s: ConcatView, events: Seq<ConcatEventView>, p: int)
    requires
        concat_consistent(s),
        0 <= p <= events.len(),
        concat_events(s, events.take(p)).output_started,
    ensures
        concat_events(s, events).output_started,
    decreases events.len(),
{
    if p == events.len() {
        assert(events.take(p) =~= events);
    } else {
        assert(events.drop_last().take(p) =~= events.take(p));
        lemma_started_persists(s, events.drop_last(), p);
        lemma_concat_steps(s, events.drop_last());
        lemma_concat_step(concat_events(s, events.drop_last()), events.last());
    }
}

/// The output is only ever touched once every input's format has been read,
/// found equal to the first, and found copyable. A format mismatch names an
/// input whose format differs from the first, and then nothing at all was
/// written, at any point of the concatenation.
pub proof fn lemma_writes_follow_validation(
    inputs: Seq<Seq<char>>,
    output: Seq<char>,
    events: Seq<ConcatEventView>,
)
    ensures
        ({
            let init = initial_concat(inputs, output);
            let s = concat_events(init, events);
            &&& writes_output(concat_action(s)) ==> {
                &&& s.formats.len() == inputs.len()
                &&& formats_agree(s.formats, inputs.len() as int)
                &&& codec_for(s.formats[0]) is Some
            }
            &&& s.phase matches ConcatPhaseView::Failed(ConcatErrorView::FormatMismatch(path)) ==> {
                &&& exists|i: int|
                    0 < i < s.formats.len() && #[trigger] s.formats[i] != s.formats[0] && path
                        == inputs[i]
                &&& forall|q: int|
                    0 <= q <= events.len() ==> !writes_output(
                        #[trigger] concat_action(concat_events(init, events.take(q))),
                    )
            }
        }),
{
    let init = initial_concat(inputs, output);
    let s = concat_events(init, events);
    lemma_concat_steps(init, events);
    if s.phase matches ConcatPhaseView::Failed(ConcatErrorView::FormatMismatch(_)) {
        assert forall|q: int| 0 <= q <= events.len() implies !writes_output(
            #[trigger] concat_action(concat_events(init, events.take(q))),
        ) by {
            lemma_concat_steps(init, events.take(q));
            if concat_events(init, events.take(q)).output_started {
                lemma_started_persists(init, events, q);
            }
        }
    }
}

/// With no input, the concatenation has failed from the start with
/// `NoInputs`, no report changes that, and nothing is ever written.
pub proof fn lemma_no_inputs(output: Seq<char>, events: Seq<ConcatEventView>)
    ensures
        concat_events(initial_concat(Seq::empty(), output), events) == initial_concat(
            Seq::empty(),
            output,
        ),
        concat_action(initial_concat(Seq::empty(), output)) == ConcatActionView::Finished(
            Err(ConcatErrorView::NoInputs),
        ),
    decreases events.len(),
{
    if events.len() > 0 {
        lemma_no_inputs(output, events.drop_last());
    }
}

/// A single input comes out as itself: its format is read, the output is
/// created with exactly that format, that input's samples, and no others,
/// are copied once as its own sample type, and the output is finalized.
pub proof fn lemma_single_input_round_trip(path: Seq<char>, output: Seq<char>, format: WavFormat)
    requires
        codec_for(format) is Some,
    ensures
        ({
            let init = initial_concat(seq![path], output);
            let events = seq![
                ConcatEventView::FormatRead(Ok(format)),
                ConcatEventView::OutputCreated(Ok(())),
                ConcatEventView::SamplesCopied(Ok(())),
                ConcatEventView::Finalized(Ok(())),
            ];
            &&& concat_action(concat_events(init, events.take(0))) == ConcatActionView::ReadFormat(
                path,
            )
            &&& concat_action(concat_events(init, events.take(1)))
                == ConcatActionView::CreateOutput(output, format)
            &&& concat_action(concat_events(init, events.take(2)))
                == ConcatActionView::CopySamples(path, codec_for(format)->0)
            &&& concat_action(concat_events(init, events.take(3))) == ConcatActionView::Finalize
            &&& concat_action(concat_events(init, events)) == ConcatActionView::Finished(Ok(()))
        }),
{
    let init = initial_concat(seq![path], output);
    let events = seq![
        ConcatEventView::FormatRead(Ok(format)),
        ConcatEventView::OutputCreated(Ok(())),
        ConcatEventView::SamplesCopied(Ok(())),
        ConcatEventView::Finalized(Ok(())),
    ];
    assert(events.take(0).len() == 0);
    assert(events.take(1).drop_last() =~= events.take(0));
    assert(events.take(2).drop_last() =~= events.take(1));
    assert(events.take(3).drop_last() =~= events.take(2));
    assert(events.drop_last() =~= events.take(3));
    let s1 = concat_events(init, events.take(1));
    assert(s1.formats =~= seq![format]);
}

} // verus!
