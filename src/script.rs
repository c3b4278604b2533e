//! Parsed dialogue lines and their synthesis status.

use vstd::prelude::*;
use crate::character::{copy_opt_str, opt_str};
use crate::ids::fresh_id;

verus! {

/// Where a line stands in a synthesis run.
#[derive(Clone, Debug, PartialEq)]
pub enum SynthesisStatus {
    Idle,
    Queued,
    Working,
    Done,
    Error(String),
}

pub enum StatusView {
    Idle,
    Queued,
    Working,
    Done,
    Error(Seq<char>),
}

impl View for SynthesisStatus {
    type V = StatusView;

    open spec fn view(&self) -> StatusView {
        match self {
            SynthesisStatus::Idle => StatusView::Idle,
            SynthesisStatus::Queued => StatusView::Queued,
            SynthesisStatus::Working => StatusView::Working,
            SynthesisStatus::Done => StatusView::Done,
            SynthesisStatus::Error(e) => StatusView::Error(e@),
        }
    }
}

impl SynthesisStatus {
    pub fn copy(&self) -> (r: SynthesisStatus)
        ensures
            r@ == self@,
    {
        match self {
            SynthesisStatus::Idle => SynthesisStatus::Idle,
            SynthesisStatus::Queued => SynthesisStatus::Queued,
            SynthesisStatus::Working => SynthesisStatus::Working,
            SynthesisStatus::Done => SynthesisStatus::Done,
            SynthesisStatus::Error(e) => SynthesisStatus::Error(e.clone()),
        }
    }
}

/// The colour that shows a status.
pub fn get_status_color(status: &SynthesisStatus) -> (r: &'static str)
    ensures
        r@ == match status@ {
            StatusView::Idle => "#6c757d"@,
            StatusView::Queued => "#ffc107"@,
            StatusView::Working => "#007bff"@,
            StatusView::Done => "#28a745"@,
            StatusView::Error(_) => "#dc3545"@,
        },
{
    match status {
        SynthesisStatus::Idle => "#6c757d",
        SynthesisStatus::Queued => "#ffc107",
        SynthesisStatus::Working => "#007bff",
        SynthesisStatus::Done => "#28a745",
        SynthesisStatus::Error(_) => "#dc3545",
    }
}

/// The symbol that shows a status.
pub fn get_status_icon(status: &SynthesisStatus) -> (r: &'static str)
    ensures
        r@ == match status@ {
            StatusView::Idle => "\u{26aa}"@,
            StatusView::Queued => "\u{1f7e1}"@,
            StatusView::Working => "\u{1f535}"@,
            StatusView::Done => "\u{2705}"@,
            StatusView::Error(_) => "\u{274c}"@,
        },
{
    match status {
        SynthesisStatus::Idle => "\u{26aa}",
        SynthesisStatus::Queued => "\u{1f7e1}",
        SynthesisStatus::Working => "\u{1f535}",
        SynthesisStatus::Done => "\u{2705}",
        SynthesisStatus::Error(_) => "\u{274c}",
    }
}

/// One line of dialogue: who speaks (as written, and the roster id it
/// resolved to, if any), what is said, and how far its synthesis got.
#[derive(Clone, Debug, PartialEq)]
pub struct ScriptLine {
    pub id: String,
    pub character_id: Option<String>,
    pub character_name: String,
    pub text: String,
    pub status: SynthesisStatus,
    pub output_path: Option<String>,
}

pub struct LineView {
    pub id: Seq<char>,
    pub character_id: Option<Seq<char>>,
    pub character_name: Seq<char>,
    pub text: Seq<char>,
    pub status: StatusView,
    pub output_path: Option<Seq<char>>,
}

impl View for ScriptLine {
    type V = LineView;

    open spec fn view(&self) -> LineView {
        LineView {
            id: self.id@,
            character_id: opt_str(self.character_id),
            character_name: self.character_name@,
            text: self.text@,
            status: self.status@,
            output_path: opt_str(self.output_path),
        }
    }
}

impl ScriptLine {
    /// A new idle line with a fresh id and no output.
    pub fn new(character_name: String, text: String, character_id: Option<String>) -> (r:
        ScriptLine)
        ensures
            r.character_name@ == character_name@,
            r.text@ == text@,
            opt_str(r.character_id) == opt_str(character_id),
            r.status@ == StatusView::Idle,
            r.output_path is None,
    {
        ScriptLine {
            id: fresh_id(),
            character_id,
            character_name,
            text,
            status: SynthesisStatus::Idle,
            output_path: None,
        }
    }

    pub fn copy(&self) -> (r: ScriptLine)
        ensures
            r@ == self@,
    {
        ScriptLine {
            id: self.id.clone(),
            character_id: copy_opt_str(&self.character_id),
            character_name: self.character_name.clone(),
            text: self.text.clone(),
            status: self.status.copy(),
            output_path: copy_opt_str(&self.output_path),
        }
    }
}

/// The lines, as views.
pub open spec fn lines_view(lines: Seq<ScriptLine>) -> Seq<LineView> {
    lines.map_values(|l: ScriptLine| l@)
}

pub fn copy_lines(lines: &[ScriptLine]) -> (r: Vec<ScriptLine>)
    ensures
        lines_view(r@) == lines_view(lines@),
{
    let mut out: Vec<ScriptLine> = Vec::new();
    let mut i: usize = 0;
    while i < lines.len()
        invariant
            0 <= i <= lines.len(),
            out.len() == i,
            forall|k: int| 0 <= k < i ==> (#[trigger] out@[k])@ == lines@[k]@,
        decreases lines.len() - i,
    {
        out.push(lines[i].copy());
        i = i + 1;
    }
    assert(lines_view(out@) =~= lines_view(lines@));
    out
}

} // verus!
