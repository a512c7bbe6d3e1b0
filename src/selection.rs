use vstd::prelude::*;

use crate::matching::{
    filter, filtered, find_candidate, indent_candidates, label_of, match_views, IndentCandidate,
    MatchResult, MatchView, TOGGLE_ID,
};
use crate::settings_override::{editorconfig_text, override_for_file, ProjectPath, SettingsOverride};

verus! {

/// Where the picker stands.
#[derive(PartialEq, Eq, Structural, Clone, Copy, Debug)]
pub enum Phase {
    /// No query has been run yet.
    Idle,
    /// A query was issued and its matches have not come back.
    Filtering,
    /// The matches of the latest query are shown.
    Settled,
    /// The picker was closed; nothing changes it any more.
    Dismissed,
}

/// The picker's state as plain values.
pub struct SelectorView {
    pub candidates: Seq<IndentCandidate>,
    pub query: Seq<char>,
    pub matches: Seq<MatchView>,
    pub selected_index: nat,
    pub generation: u64,
    pub phase: Phase,
}

/// The selected index is inside the list, or zero for an empty list.
pub open spec fn selection_valid(len: nat, selected: nat) -> bool {
    selected < len || (len == 0 && selected == 0)
}

/// `selected` moved into a list of `len` matches: `min(selected, len - 1)`,
/// or zero for an empty list.
pub open spec fn clamped(selected: nat, len: nat) -> nat {
    if len == 0 {
        0
    } else if selected < len {
        selected
    } else {
        (len - 1) as nat
    }
}

/// Clamping a selection into a list of any length leaves it valid for that
/// list: inside it, or zero when the list is empty.
pub proof fn clamped_is_valid(selected: nat, len: nat)
    ensures
        selection_valid(len, clamped(selected, len)),
        len == 0 ==> clamped(selected, len) == 0,
        selected < len ==> clamped(selected, len) == selected,
{
}

/// The generation after `g`, wrapping at the top of `u64`.
pub open spec fn next_generation(g: u64) -> u64 {
    if g == u64::MAX {
        0
    } else {
        (g + 1) as u64
    }
}

/// A match as the list shows it: the candidate's label and the positions to
/// highlight.
pub struct RenderedMatch {
    pub label: String,
    pub positions: Vec<usize>,
}

/// The selection logic behind the indentation picker: the candidates, the
/// matches of the latest query, the selected match, and which filter request
/// is the current one.
pub struct IndentSizeSelectorDelegate {
    candidates: Vec<IndentCandidate>,
    query: String,
    matches: Vec<MatchResult>,
    selected_index: usize,
    generation: u64,
    phase: Phase,
}

impl View for IndentSizeSelectorDelegate {
    type V = SelectorView;

    closed spec fn view(&self) -> SelectorView {
        SelectorView {
            candidates: self.candidates@,
            query: self.query@,
            matches: match_views(self.matches@),
            selected_index: self.selected_index as nat,
            generation: self.generation,
            phase: self.phase,
        }
    }
}

impl IndentSizeSelectorDelegate {
    /// The selected index is valid for the matches.
    pub open spec fn wf(&self) -> bool {
        selection_valid(self@.matches.len(), self@.selected_index)
    }

    /// A picker over the indentation candidates, with no query run yet.
    pub fn new() -> (r: Self)
        ensures
            r.wf(),
            r@.candidates.len() == 4,
            r@.candidates[0].id == TOGGLE_ID,
            r@.candidates[0].label@ == "Toggle Spaces/Tabs"@,
            r@.candidates[1].id == 2,
            r@.candidates[1].label@ == "2 spaces"@,
            r@.candidates[2].id == 4,
            r@.candidates[2].label@ == "4 spaces"@,
            r@.candidates[3].id == 8,
            r@.candidates[3].label@ == "8 spaces"@,
            r@.query.len() == 0,
            r@.matches.len() == 0,
            r@.selected_index == 0,
            r@.generation == 0,
            r@.phase == Phase::Idle,
    {
        let r = IndentSizeSelectorDelegate {
            candidates: indent_candidates(),
            query: String::new(),
            matches: Vec::new(),
            selected_index: 0,
            generation: 0,
            phase: Phase::Idle,
        };
        assert(r@.matches.len() == 0);
        r
    }

    /// The candidates that queries are matched against.
    pub fn candidates(&self) -> (r: &Vec<IndentCandidate>)
        ensures
            r@ == self@.candidates,
    {
        &self.candidates
    }

    /// The matches shown.
    pub fn matches(&self) -> (r: &Vec<MatchResult>)
        ensures
            match_views(r@) == self@.matches,
    {
        &self.matches
    }

    /// How many matches are shown.
    pub fn match_count(&self) -> (r: usize)
        ensures
            r == self@.matches.len(),
    {
        self.matches.len()
    }

    /// The index of the selected match.
    pub fn selected_index(&self) -> (r: usize)
        ensures
            r == self@.selected_index,
    {
        self.selected_index
    }

    /// Where the picker stands.
    pub fn phase(&self) -> (r: Phase)
        ensures
            r == self@.phase,
    {
        self.phase
    }

    /// The generation of the latest filter request.
    pub fn generation(&self) -> (r: u64)
        ensures
            r == self@.generation,
    {
        self.generation
    }

    /// Selects the match at `ix`, which the caller has checked.
    pub fn set_selected_index(&mut self, ix: usize)
        requires
            selection_valid(old(self)@.matches.len(), ix as nat),
        ensures
            final(self).wf(),
            final(self)@ == (SelectorView { selected_index: ix as nat, ..old(self)@ }),
    {
        self.selected_index = ix;
    }

    /// The prompt shown in the empty query field.
    pub fn placeholder_text(&self) -> (r: &'static str)
        ensures
            r@ == "Set Indentation"@,
    {
        "Set Indentation"
    }

    /// Issues a filter request for `query` and returns its generation. Only
    /// the matches handed back under the latest generation are applied. A
    /// dismissed picker stays dismissed.
    pub fn update_matches(&mut self, query: String) -> (r: u64)
        ensures
            r == next_generation(old(self)@.generation),
            final(self)@ == (SelectorView {
                query: query@,
                generation: r,
                phase: if old(self)@.phase == Phase::Dismissed {
                    Phase::Dismissed
                } else {
                    Phase::Filtering
                },
                ..old(self)@
            }),
            final(self).wf() == old(self).wf(),
    {
        let g = self.generation.wrapping_add(1);
        self.generation = g;
        self.query = query;
        if self.phase != Phase::Dismissed {
            self.phase = Phase::Filtering;
        }
        g
    }

    /// Hands back the fuzzy matcher's result for the request of `generation`
    /// (ignored for an empty query). It is applied only while that request is
    /// the latest one and still awaited: the matches are replaced by the
    /// filtered list and the selection is clamped into it. Returns whether it
    /// was applied.
    pub fn filter_complete(&mut self, generation: u64, found: &Vec<MatchResult>) -> (applied: bool)
        requires
            old(self).wf(),
        ensures
            final(self).wf(),
            applied == (generation == old(self)@.generation && old(self)@.phase
                == Phase::Filtering),
            applied ==> final(self)@ == (SelectorView {
                matches: filtered(old(self)@.candidates, old(self)@.query, match_views(found@)),
                selected_index: clamped(
                    old(self)@.selected_index,
                    filtered(old(self)@.candidates, old(self)@.query, match_views(found@)).len(),
                ),
                phase: Phase::Settled,
                ..old(self)@
            }),
            !applied ==> final(self)@ == old(self)@,
    {
        if generation != self.generation || self.phase != Phase::Filtering {
            return false;
        }
        let matches = filter(&self.candidates, self.query.as_str(), found);
        let len = matches.len();
        assert(match_views(matches@).len() == len);
        self.matches = matches;
        proof {
            clamped_is_valid(self.selected_index as nat, len as nat);
        }
        if len == 0 {
            self.selected_index = 0;
        } else if self.selected_index >= len {
            self.selected_index = len - 1;
        }
        self.phase = Phase::Settled;
        true
    }

    /// Confirms the selected match for the file `file` of the active editor:
    /// returns the settings override to write, when a match is selected and
    /// the editor has a file, and closes the picker in every case. The width
    /// written is the selected candidate's identifier; for the toggle
    /// candidate that is its identifier too, not a change of style.
    pub fn confirm(&mut self, file: &Option<ProjectPath>) -> (r: Option<SettingsOverride>)
        ensures
            r is Some <==> (old(self)@.selected_index < old(self)@.matches.len() && file is Some),
            old(self)@.matches.len() == 0 ==> r is None,
            r matches Some(o) ==> {
                &&& o.worktree_id == file->0.worktree_id
                &&& o.path@ == file->0.path@
                &&& o.config@ == editorconfig_text(
                    old(self)@.matches[old(self)@.selected_index as int].candidate_id as nat,
                )
            },
            final(self)@ == (SelectorView { phase: Phase::Dismissed, ..old(self)@ }),
    {
        let mut r: Option<SettingsOverride> = None;
        if self.selected_index < self.matches.len() {
            let width = self.matches[self.selected_index].candidate_id;
            match file {
                Some(f) => {
                    r = Some(override_for_file(f, width));
                },
                None => {},
            }
        }
        self.dismissed();
        r
    }

    /// Closes the picker.
    pub fn dismissed(&mut self)
        ensures
            final(self)@ == (SelectorView { phase: Phase::Dismissed, ..old(self)@ }),
    {
        self.phase = Phase::Dismissed;
    }

    /// The label and highlight positions of the match at `ix`, when its
    /// candidate exists.
    pub fn render_match(&self, ix: usize) -> (r: Option<RenderedMatch>)
        requires
            ix < self@.matches.len(),
        ensures
            r is Some <==> label_of(self@.candidates, self@.matches[ix as int].candidate_id) is Some,
            r matches Some(m) ==> {
                &&& m.label@ == label_of(
                    self@.candidates,
                    self@.matches[ix as int].candidate_id,
                )->0
                &&& m.positions@ == self@.matches[ix as int].positions
            },
    {
        let mat = &self.matches[ix];
        assert(mat@ == self@.matches[ix as int]);
        match find_candidate(&self.candidates, mat.candidate_id) {
            Some(c) => Some(
                RenderedMatch {
                    label: self.candidates[c].label.clone(),
                    positions: mat.positions.clone(),
                },
            ),
            None => None,
        }
    }
}

} // verus!
