//! The script grammar. A script is read line by line; a line is dialogue when,
//! after trimming, it reads `[Name]: text` (whitespace allowed around the
//! name, before and after the colon). Anything else is skipped without error.

use vstd::prelude::*;
use crate::character::{Character, CharacterView, opt_str, roster_view};
use crate::script::{ScriptLine, LineView, StatusView};
use crate::text::{
    chars_of, eq_ignoring_ascii_case, eq_ignoring_ascii_case_at, is_whitespace, is_ws, string_of, trim,
    trim_bounds,
};

verus! {

/// What a parsed line says, leaving aside its id and its synthesis state.
pub struct Utterance {
    pub speaker_name: Seq<char>,
    pub speaker_id: Option<Seq<char>>,
    pub text: Seq<char>,
}

pub open spec fn utterance_of(l: LineView) -> Utterance {
    Utterance { speaker_name: l.character_name, speaker_id: l.character_id, text: l.text }
}

/// Splits `s` at each `'\n'`: the lines that a newline has closed, and the
/// text after the last newline.
pub open spec fn scan_lines(s: Seq<char>) -> (Seq<Seq<char>>, Seq<char>)
    decreases s.len(),
{
    if s.len() == 0 {
        (Seq::empty(), Seq::empty())
    } else {
        let (closed, open) = scan_lines(s.drop_last());
        if s.last() == '\n' {
            (closed.push(open), Seq::empty())
        } else {
            (closed, open.push(s.last()))
        }
    }
}

/// The lines of `s`, as `str::lines` gives them up to a trailing `'\r'`
/// (which trimming removes anyway).
pub open spec fn text_lines(s: Seq<char>) -> Seq<Seq<char>> {
    let (closed, open) = scan_lines(s);
    if open.len() > 0 {
        closed.push(open)
    } else {
        closed
    }
}

/// The first index at or after `from` that holds `c`, or `s.len()`.
pub open spec fn index_of(s: Seq<char>, c: char, from: int) -> int
    decreases s.len() - from,
{
    if from >= s.len() {
        s.len() as int
    } else if s[from] == c {
        from
    } else {
        index_of(s, c, from + 1)
    }
}

/// The first index at or after `from` that holds no whitespace, or `s.len()`.
pub open spec fn skip_ws(s: Seq<char>, from: int) -> int
    decreases s.len() - from,
{
    if from >= s.len() {
        s.len() as int
    } else if !is_ws(s[from]) {
        from
    } else {
        skip_ws(s, from + 1)
    }
}

/// The speaker name and the text of a dialogue line, both trimmed, or `None`
/// when the line is blank or does not follow the grammar.
pub open spec fn match_dialogue(line: Seq<char>) -> Option<(Seq<char>, Seq<char>)> {
    let t = trim(line);
    let close = index_of(t, ']', 1);
    let colon = skip_ws(t, close + 1);
    if t.len() > 0 && t[0] == '[' && 2 <= close < t.len() && colon < t.len() && t[colon] == ':'
        && trim(t.subrange(colon + 1, t.len() as int)).len() > 0 {
        Some((trim(t.subrange(1, close)), trim(t.subrange(colon + 1, t.len() as int))))
    } else {
        None
    }
}

/// The id of the first roster entry whose name equals `name` up to ASCII case.
pub open spec fn resolve_speaker(roster: Seq<CharacterView>, name: Seq<char>) -> Option<Seq<char>>
    decreases roster.len(),
{
    if roster.len() == 0 {
        None
    } else if eq_ignoring_ascii_case(roster[0].name, name) {
        Some(roster[0].id)
    } else {
        resolve_speaker(roster.drop_first(), name)
    }
}

/// The utterances of the dialogue lines among `lines`, in order.
pub open spec fn utterances(lines: Seq<Seq<char>>, roster: Seq<CharacterView>) -> Seq<Utterance>
    decreases lines.len(),
{
    if lines.len() == 0 {
        Seq::empty()
    } else {
        let before = utterances(lines.drop_last(), roster);
        match match_dialogue(lines.last()) {
            Some((name, text)) => before.push(
                Utterance { speaker_name: name, speaker_id: resolve_speaker(roster, name), text },
            ),
            None => before,
        }
    }
}

/// What `text` says under `roster`: one utterance per dialogue line.
pub open spec fn script_utterances(text: Seq<char>, roster: Seq<CharacterView>) -> Seq<Utterance> {
    utterances(text_lines(text), roster)
}

/// `lines` are idle lines without output that say `u`, in order.
pub open spec fn fresh_lines_saying(lines: Seq<ScriptLine>, u: Seq<Utterance>) -> bool {
    &&& lines.len() == u.len()
    &&& forall|k: int| 0 <= k < lines.len() ==> utterance_of(#[trigger] lines[k]@) == u[k]
    &&& forall|k: int| 0 <= k < lines.len() ==> (#[trigger] lines[k]@).status == StatusView::Idle
    &&& forall|k: int| 0 <= k < lines.len() ==> (#[trigger] lines[k]@).output_path is None
}

/// `lines` is a parse of `text` under `roster`: one idle line without output
/// per dialogue line of the text, in order, saying what that line says.
pub open spec fn parsed_from(text: Seq<char>, roster: Seq<Character>, lines: Seq<ScriptLine>) -> bool {
    fresh_lines_saying(lines, script_utterances(text, roster_view(roster)))
}

/// The id of the first speaker of `roster` named `chars[from..to]`, up to ASCII case.
fn find_speaker(roster: &[Character], chars: &Vec<char>, from: usize, to: usize) -> (r: Option<
    String,
>)
    requires
        from <= to <= chars.len(),
    ensures
        opt_str(r) == resolve_speaker(
            roster_view(roster@),
            chars@.subrange(from as int, to as int),
        ),
{
    let ghost name = chars@.subrange(from as int, to as int);
    let ghost all = roster_view(roster@);
    assert(all.subrange(0, all.len() as int) =~= all);
    let mut i: usize = 0;
    while i < roster.len()
        invariant
            0 <= i <= roster.len(),
            from <= to <= chars.len(),
            name == chars@.subrange(from as int, to as int),
            all == roster_view(roster@),
            resolve_speaker(all, name) == resolve_speaker(
                all.subrange(i as int, all.len() as int),
                name,
            ),
        decreases roster.len() - i,
    {
        let ghost rest = all.subrange(i as int, all.len() as int);
        assert(rest.drop_first() =~= all.subrange(i + 1, all.len() as int));
        assert(rest[0] == roster@[i as int]@);
        let speaker = chars_of(roster[i].name.as_str());
        if eq_ignoring_ascii_case_at(&speaker, chars, from, to) {
            return Some(roster[i].id.clone());
        }
        i = i + 1;
    }
    None
}

/// The dialogue line that `chars[start..end]` holds, if it holds one.
fn dialogue_line(chars: &Vec<char>, start: usize, end: usize, roster: &[Character]) -> (r: Option<
    ScriptLine,
>)
    requires
        start <= end <= chars.len(),
    ensures
        match match_dialogue(chars@.subrange(start as int, end as int)) {
            None => r is None,
            Some((name, text)) => r matches Some(l) && utterance_of(l@) == (Utterance {
                speaker_name: name,
                speaker_id: resolve_speaker(roster_view(roster@), name),
                text,
            }) && l@.status == StatusView::Idle && l@.output_path is None,
        },
{
    let (lo, hi) = trim_bounds(chars, start, end);
    let ghost t = chars@.subrange(lo as int, hi as int);
    if lo == hi || chars[lo] != '[' {
        return None;
    }
    assert(t[0] == chars@[lo as int]);
    let mut close = lo + 1;
    while close < hi && chars[close] != ']'
        invariant
            lo < close <= hi <= chars.len(),
            t == chars@.subrange(lo as int, hi as int),
            index_of(t, ']', 1) == index_of(t, ']', close - lo),
        decreases hi - close,
    {
        assert(t[close - lo] == chars@[close as int]);
        close = close + 1;
    }
    if close < hi {
        assert(t[close - lo] == chars@[close as int]);
    }
    if close == hi || close - lo < 2 {
        return None;
    }
    let mut colon = close + 1;
    while colon < hi && is_whitespace(chars[colon])
        invariant
            lo < close < colon <= hi <= chars.len(),
            t == chars@.subrange(lo as int, hi as int),
            skip_ws(t, close - lo + 1) == skip_ws(t, colon - lo),
        decreases hi - colon,
    {
        assert(t[colon - lo] == chars@[colon as int]);
        colon = colon + 1;
    }
    if colon < hi {
        assert(t[colon - lo] == chars@[colon as int]);
    }
    if colon == hi || chars[colon] != ':' {
        return None;
    }
    assert(t.subrange(colon - lo + 1, t.len() as int) =~= chars@.subrange(colon + 1, hi as int));
    assert(t.subrange(1, close - lo) =~= chars@.subrange(lo + 1, close as int));
    let (tlo, thi) = trim_bounds(chars, colon + 1, hi);
    if tlo == thi {
        return None;
    }
    let (nlo, nhi) = trim_bounds(chars, lo + 1, close);
    let name = string_of(chars, nlo, nhi);
    let text = string_of(chars, tlo, thi);
    let id = find_speaker(roster, chars, nlo, nhi);
    Some(ScriptLine::new(name, text, id))
}

/// Parses `text` into its dialogue lines, resolving each speaker against
/// `characters`. Blank lines and lines outside the grammar are skipped.
/// Every line comes out idle, with a fresh id.
pub fn parse_script(text: &str, characters: &[Character]) -> (r: Vec<ScriptLine>)
    ensures
        parsed_from(text@, characters@, r@),
{
    let chars = chars_of(text);
    let n = chars.len();
    let ghost rv = roster_view(characters@);
    let mut out: Vec<ScriptLine> = Vec::new();
    let mut start: usize = 0;
    let mut i: usize = 0;
    let ghost mut closed: Seq<Seq<char>> = Seq::empty();
    assert(chars@.subrange(0, 0) =~= Seq::<char>::empty());
    while i < n
        invariant
            chars@ == text@,
            n == chars.len(),
            rv == roster_view(characters@),
            0 <= start <= i <= n,
            scan_lines(chars@.subrange(0, i as int)) == (closed, chars@.subrange(
                start as int,
                i as int,
            )),
            fresh_lines_saying(out@, utterances(closed, rv)),
        decreases n - i,
    {
        assert(chars@.subrange(0, i + 1).drop_last() =~= chars@.subrange(0, i as int));
        if chars[i] == '\n' {
            let parsed = dialogue_line(&chars, start, i, characters);
            let ghost line = chars@.subrange(start as int, i as int);
            assert(closed.push(line).drop_last() =~= closed);
            proof {
                closed = closed.push(line);
            }
            match parsed {
                Some(l) => {
                    out.push(l);
                },
                None => {},
            }
            start = i + 1;
            assert(chars@.subrange(start as int, i + 1) =~= Seq::<char>::empty());
        } else {
            assert(chars@.subrange(start as int, i + 1) =~= chars@.subrange(
                start as int,
                i as int,
            ).push(chars@[i as int]));
        }
        i = i + 1;
    }
    assert(chars@.subrange(0, n as int) =~= chars@);
    if start < n {
        let ghost line = chars@.subrange(start as int, n as int);
        assert(closed.push(line).drop_last() =~= closed);
        let parsed = dialogue_line(&chars, start, n, characters);
        match parsed {
            Some(l) => {
                out.push(l);
            },
            None => {},
        }
    }
    out
}

/// Each utterance carries the id its speaker name resolves to.
pub proof fn lemma_utterances_resolved(lines: Seq<Seq<char>>, roster: Seq<CharacterView>)
    ensures
        forall|k: int|
            0 <= k < utterances(lines, roster).len() ==> (#[trigger] utterances(lines, roster)[k]).speaker_id
                == resolve_speaker(roster, utterances(lines, roster)[k].speaker_name),
    decreases lines.len(),
{
    if lines.len() > 0 {
        lemma_utterances_resolved(lines.drop_last(), roster);
    }
}

/// The lines that are not blank, in order.
pub open spec fn non_blank(lines: Seq<Seq<char>>) -> Seq<Seq<char>> {
    lines.filter(|l: Seq<char>| trim(l).len() > 0)
}

proof fn lemma_utterances_skip_blank(lines: Seq<Seq<char>>, roster: Seq<CharacterView>)
    ensures
        utterances(lines, roster) == utterances(non_blank(lines), roster),
    decreases lines.len(),
{
    reveal(Seq::filter);
    if lines.len() > 0 {
        lemma_utterances_skip_blank(lines.drop_last(), roster);
        let kept = non_blank(lines.drop_last());
        if trim(lines.last()).len() > 0 {
            assert(non_blank(lines) == kept.push(lines.last()));
            assert(kept.push(lines.last()).drop_last() =~= kept);
        } else {
            assert(non_blank(lines) == kept);
        }
    }
}

/// Blank lines change nothing: two texts whose non-blank lines are the same,
/// in the same order, say the same things under any roster. In particular,
/// adding or removing blank or whitespace-only lines leaves a parse as it was.
pub proof fn lemma_blank_lines_ignored(
    first: Seq<char>,
    second: Seq<char>,
    roster: Seq<CharacterView>,
)
    requires
        non_blank(text_lines(first)) == non_blank(text_lines(second)),
    ensures
        script_utterances(first, roster) == script_utterances(second, roster),
{
    lemma_utterances_skip_blank(text_lines(first), roster);
    lemma_utterances_skip_blank(text_lines(second), roster);
}

/// Parsing is deterministic: two parses of one text under one roster hold the
/// same lines in the same order, alike in speaker name, speaker id, text and
/// state. Only the fresh line ids may differ.
pub proof fn lemma_parse_deterministic(
    text: Seq<char>,
    roster: Seq<Character>,
    first: Seq<ScriptLine>,
    second: Seq<ScriptLine>,
)
    requires
        parsed_from(text, roster, first),
        parsed_from(text, roster, second),
    ensures
        first.len() == second.len(),
        forall|k: int|
            0 <= k < first.len() ==> {
                &&& utterance_of(#[trigger] first[k]@) == utterance_of(second[k]@)
                &&& first[k]@.status == second[k]@.status
                &&& first[k]@.output_path == second[k]@.output_path
            },
{
    let u = script_utterances(text, roster_view(roster));
    assert forall|k: int| 0 <= k < first.len() implies {
        &&& utterance_of(#[trigger] first[k]@) == utterance_of(second[k]@)
        &&& first[k]@.status == second[k]@.status
        &&& first[k]@.output_path == second[k]@.output_path
    } by {
        assert(utterance_of(first[k]@) == u[k]);
        assert(utterance_of(second[k]@) == u[k]);
        assert(first[k]@.status == StatusView::Idle);
        assert(second[k]@.status == StatusView::Idle);
    }
}

} // verus!
