//! Roster entries: the speakers a script may name.

use vstd::prelude::*;
use crate::ids::fresh_id;

verus! {

/// A speaker of the roster. `name` is matched against script names without
/// regard to ASCII case; without `voice_path` the speaker cannot be voiced.
#[derive(Clone, Debug, PartialEq)]
pub struct Character {
    pub id: String,
    pub name: String,
    pub description: String,
    pub voice_path: Option<String>,
}

pub struct CharacterView {
    pub id: Seq<char>,
    pub name: Seq<char>,
    pub description: Seq<char>,
    pub voice_path: Option<Seq<char>>,
}

/// The text of an optional string.
pub open spec fn opt_str(o: Option<String>) -> Option<Seq<char>> {
    match o {
        Some(s) => Some(s@),
        None => None,
    }
}

pub fn copy_opt_str(o: &Option<String>) -> (r: Option<String>)
    ensures
        opt_str(r) == opt_str(*o),
{
    match o {
        Some(s) => Some(s.clone()),
        None => None,
    }
}

impl View for Character {
    type V = CharacterView;

    open spec fn view(&self) -> CharacterView {
        CharacterView {
            id: self.id@,
            name: self.name@,
            description: self.description@,
            voice_path: opt_str(self.voice_path),
        }
    }
}

impl Character {
    /// A new speaker with a fresh id, an empty description and no voice.
    pub fn new(name: String) -> (r: Character)
        ensures
            r.name@ == name@,
            r.description@ == Seq::<char>::empty(),
            r.voice_path is None,
    {
        Character { id: fresh_id(), name, description: String::new(), voice_path: None }
    }

    pub fn copy(&self) -> (r: Character)
        ensures
            r@ == self@,
    {
        Character {
            id: self.id.clone(),
            name: self.name.clone(),
            description: self.description.clone(),
            voice_path: copy_opt_str(&self.voice_path),
        }
    }
}

/// The roster's entries, as views.
pub open spec fn roster_view(roster: Seq<Character>) -> Seq<CharacterView> {
    roster.map_values(|c: Character| c@)
}

pub fn copy_roster(roster: &[Character]) -> (r: Vec<Character>)
    ensures
        roster_view(r@) == roster_view(roster@),
{
    let mut out: Vec<Character> = Vec::new();
    let mut i: usize = 0;
    while i < roster.len()
        invariant
            0 <= i <= roster.len(),
            out.len() == i,
            forall|k: int| 0 <= k < i ==> (#[trigger] out@[k])@ == roster@[k]@,
        decreases roster.len() - i,
    {
        out.push(roster[i].copy());
        i = i + 1;
    }
    assert(roster_view(out@) =~= roster_view(roster@));
    out
}

} // verus!
