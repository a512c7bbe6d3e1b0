use vstd::prelude::*;

verus! {

/// Identifier of the candidate that toggles between spaces and tabs.
pub const TOGGLE_ID: usize = 16;

/// The most matches a non-empty query keeps.
pub const MAX_MATCHES: usize = 100;

/// One selectable indentation choice: its identifier (the width for a width
/// choice) and the label shown and matched against.
pub struct IndentCandidate {
    pub id: usize,
    pub label: String,
}

/// One candidate that a query matched, with the label positions to highlight.
pub struct MatchResult {
    pub candidate_id: usize,
    pub text: String,
    pub positions: Vec<usize>,
}

/// What a match is, as plain values.
pub struct MatchView {
    pub candidate_id: usize,
    pub text: Seq<char>,
    pub positions: Seq<usize>,
}

impl View for MatchResult {
    type V = MatchView;

    open spec fn view(&self) -> MatchView {
        MatchView { candidate_id: self.candidate_id, text: self.text@, positions: self.positions@ }
    }
}

/// The plain values of a list of matches.
pub open spec fn match_views(s: Seq<MatchResult>) -> Seq<MatchView> {
    s.map_values(|m: MatchResult| m@)
}

/// A character with ASCII upper case folded to lower case.
pub open spec fn fold(c: char) -> u32 {
    if 65 <= (c as u32) <= 90 {
        (c as u32 + 32) as u32
    } else {
        c as u32
    }
}

/// `label` holds the characters of `query` in order, ignoring ASCII case.
pub open spec fn contains_in_order(query: Seq<char>, label: Seq<char>) -> bool
    decreases label.len(),
{
    if query.len() == 0 {
        true
    } else if label.len() == 0 {
        false
    } else if fold(query[0]) == fold(label[0]) {
        contains_in_order(query.drop_first(), label.drop_first())
    } else {
        contains_in_order(query, label.drop_first())
    }
}

/// `i` is the first index of `cands` whose identifier is `id`.
pub open spec fn first_with_id(cands: Seq<IndentCandidate>, id: usize, i: int) -> bool {
    &&& 0 <= i < cands.len()
    &&& cands[i].id == id
    &&& forall|k: int| 0 <= k < i ==> cands[k].id != id
}

/// The label of the first candidate with identifier `id`, if any.
pub open spec fn label_of(cands: Seq<IndentCandidate>, id: usize) -> Option<Seq<char>> {
    if exists|i: int| first_with_id(cands, id, i) {
        let i = choose|i: int| first_with_id(cands, id, i);
        Some(cands[i].label@)
    } else {
        None
    }
}

/// An outside match is kept when its candidate exists and that candidate's
/// label holds the query's characters in order.
pub open spec fn accepted(cands: Seq<IndentCandidate>, query: Seq<char>, m: MatchView) -> bool {
    &&& label_of(cands, m.candidate_id) is Some
    &&& contains_in_order(query, label_of(cands, m.candidate_id)->0)
}

/// What a kept match becomes: its text is its candidate's label.
pub open spec fn settled(cands: Seq<IndentCandidate>, m: MatchView) -> MatchView {
    MatchView {
        candidate_id: m.candidate_id,
        text: label_of(cands, m.candidate_id)->0,
        positions: m.positions,
    }
}

/// The accepted matches of `found`, in order.
pub open spec fn kept(cands: Seq<IndentCandidate>, query: Seq<char>, found: Seq<MatchView>) -> Seq<
    MatchView,
>
    decreases found.len(),
{
    if found.len() == 0 {
        seq![]
    } else {
        let prev = kept(cands, query, found.drop_last());
        if accepted(cands, query, found.last()) {
            prev.push(settled(cands, found.last()))
        } else {
            prev
        }
    }
}

/// At most the first `n` elements of `s`.
pub open spec fn at_most<A>(s: Seq<A>, n: nat) -> Seq<A> {
    if s.len() <= n {
        s
    } else {
        s.take(n as int)
    }
}

/// Every candidate shown as an unhighlighted match, in order.
pub open spec fn all_shown(cands: Seq<IndentCandidate>) -> Seq<MatchView> {
    Seq::new(
        cands.len(),
        |i: int| MatchView { candidate_id: cands[i].id, text: cands[i].label@, positions: seq![] },
    )
}

/// The result of filtering `cands` by `query`, given what the fuzzy matcher
/// returned for a non-empty query.
pub open spec fn filtered(cands: Seq<IndentCandidate>, query: Seq<char>, found: Seq<MatchView>) -> Seq<
    MatchView,
> {
    if query.len() == 0 {
        all_shown(cands)
    } else {
        at_most(kept(cands, query, found), MAX_MATCHES as nat)
    }
}

/// Every match that `kept` keeps names an existing candidate, carries that
/// candidate's label, and that label holds the query's characters in order.
proof fn kept_are_accepted(cands: Seq<IndentCandidate>, query: Seq<char>, found: Seq<MatchView>)
    ensures
        forall|k: int|
            0 <= k < kept(cands, query, found).len() ==> {
                &&& label_of(cands, #[trigger] kept(cands, query, found)[k].candidate_id) == Some(
                    kept(cands, query, found)[k].text,
                )
                &&& contains_in_order(query, kept(cands, query, found)[k].text)
            },
    decreases found.len(),
{
    if found.len() > 0 {
        kept_are_accepted(cands, query, found.drop_last());
    }
}

/// Filtering a list of at most `MAX_MATCHES` candidates never yields more than
/// `MAX_MATCHES` matches, whatever the query and whatever the fuzzy matcher
/// returned.
pub proof fn filtered_within_cap(cands: Seq<IndentCandidate>, query: Seq<char>, found: Seq<MatchView>)
    requires
        cands.len() <= MAX_MATCHES,
    ensures
        filtered(cands, query, found).len() <= MAX_MATCHES,
{
}

/// For a non-empty query, every match that filtering yields names a candidate
/// whose label holds the query's characters in order, ignoring ASCII case, and
/// shows that label.
pub proof fn filtered_labels_contain_query(
    cands: Seq<IndentCandidate>,
    query: Seq<char>,
    found: Seq<MatchView>,
)
    requires
        query.len() > 0,
    ensures
        forall|k: int|
            0 <= k < filtered(cands, query, found).len() ==> {
                &&& label_of(cands, #[trigger] filtered(cands, query, found)[k].candidate_id)
                    == Some(filtered(cands, query, found)[k].text)
                &&& contains_in_order(query, filtered(cands, query, found)[k].text)
            },
{
    kept_are_accepted(cands, query, found);
    let all = kept(cands, query, found);
    assert forall|k: int| 0 <= k < filtered(cands, query, found).len() implies filtered(
        cands,
        query,
        found,
    )[k] == #[trigger] all[k] by {}
}

/// An empty query shows every candidate, in order, with nothing highlighted.
pub proof fn empty_query_shows_all(cands: Seq<IndentCandidate>, found: Seq<MatchView>)
    ensures
        filtered(cands, seq![], found).len() == cands.len(),
        forall|k: int|
            0 <= k < cands.len() ==> {
                &&& (#[trigger] filtered(cands, seq![], found)[k]).candidate_id == cands[k].id
                &&& filtered(cands, seq![], found)[k].text == cands[k].label@
                &&& filtered(cands, seq![], found)[k].positions.len() == 0
            },
{
}

/// The indentation choices, in display order.
pub fn indent_candidates() -> (r: Vec<IndentCandidate>)
    ensures
        r.len() == 4,
        r[0].id == TOGGLE_ID,
        r[0].label@ == "Toggle Spaces/Tabs"@,
        r[1].id == 2,
        r[1].label@ == "2 spaces"@,
        r[2].id == 4,
        r[2].label@ == "4 spaces"@,
        r[3].id == 8,
        r[3].label@ == "8 spaces"@,
{
    let mut r: Vec<IndentCandidate> = Vec::new();
    r.push(IndentCandidate { id: TOGGLE_ID, label: String::from_str("Toggle Spaces/Tabs") });
    r.push(IndentCandidate { id: 2, label: String::from_str("2 spaces") });
    r.push(IndentCandidate { id: 4, label: String::from_str("4 spaces") });
    r.push(IndentCandidate { id: 8, label: String::from_str("8 spaces") });
    r
}

fn fold_char(c: char) -> (r: u32)
    ensures
        r == fold(c),
{
    let v = c as u32;
    if 65 <= v && v <= 90 {
        v + 32
    } else {
        v
    }
}

/// Whether `label` holds the characters of `query` in order, ignoring ASCII case.
pub fn is_contained_in_order(query: &str, label: &str) -> (r: bool)
    ensures
        r == contains_in_order(query@, label@),
{
    let qn = query.unicode_len();
    let ln = label.unicode_len();
    let mut i: usize = 0;
    let mut j: usize = 0;
    assert(query@.subrange(0, qn as int) =~= query@);
    assert(label@.subrange(0, ln as int) =~= label@);
    while i < qn && j < ln
        invariant
            qn == query@.len(),
            ln == label@.len(),
            i <= qn,
            j <= ln,
            contains_in_order(query@, label@) == contains_in_order(
                query@.subrange(i as int, qn as int),
                label@.subrange(j as int, ln as int),
            ),
        decreases ln - j,
    {
        let qc = query.get_char(i);
        let lc = label.get_char(j);
        let ghost q = query@.subrange(i as int, qn as int);
        let ghost l = label@.subrange(j as int, ln as int);
        assert(q.drop_first() =~= query@.subrange(i + 1, qn as int));
        assert(l.drop_first() =~= label@.subrange(j + 1, ln as int));
        if fold_char(qc) == fold_char(lc) {
            i = i + 1;
        }
        j = j + 1;
    }
    proof {
        if i == qn {
            assert(query@.subrange(i as int, qn as int).len() == 0);
        } else {
            assert(label@.subrange(j as int, ln as int).len() == 0);
        }
    }
    i == qn
}

/// The index of the first candidate with identifier `id`.
pub fn find_candidate(cands: &Vec<IndentCandidate>, id: usize) -> (r: Option<usize>)
    ensures
        r is Some <==> label_of(cands@, id) is Some,
        r matches Some(i) ==> first_with_id(cands@, id, i as int) && label_of(cands@, id) == Some(
            cands@[i as int].label@,
        ),
        r is None ==> forall|k: int| 0 <= k < cands.len() ==> cands@[k].id != id,
{
    let mut i: usize = 0;
    while i < cands.len()
        invariant
            i <= cands.len(),
            forall|k: int| 0 <= k < i ==> cands@[k].id != id,
        decreases cands.len() - i,
    {
        if cands[i].id == id {
            assert(first_with_id(cands@, id, i as int));
            proof {
                let c = choose|c: int| first_with_id(cands@, id, c);
                assert(c == i as int) by {
                    if c < i {
                    } else if c > i {
                        assert(cands@[i as int].id == id);
                    }
                }
            }
            return Some(i);
        }
        i = i + 1;
    }
    assert(!exists|c: int| first_with_id(cands@, id, c));
    None
}

fn copy_positions(p: &Vec<usize>) -> (r: Vec<usize>)
    ensures
        r@ == p@,
{
    let mut r: Vec<usize> = Vec::new();
    let mut i: usize = 0;
    while i < p.len()
        invariant
            i <= p.len(),
            r@ == p@.take(i as int),
        decreases p.len() - i,
    {
        r.push(p[i]);
        i = i + 1;
        assert(r@ =~= p@.take(i as int));
    }
    assert(p@.take(i as int) =~= p@);
    r
}

/// Every candidate as an unhighlighted match, in order: what an empty query shows.
pub fn show_all(cands: &Vec<IndentCandidate>) -> (r: Vec<MatchResult>)
    ensures
        match_views(r@) == all_shown(cands@),
{
    let mut r: Vec<MatchResult> = Vec::new();
    let mut i: usize = 0;
    while i < cands.len()
        invariant
            i <= cands.len(),
            match_views(r@) =~= all_shown(cands@).take(i as int),
        decreases cands.len() - i,
    {
        let m = MatchResult {
            candidate_id: cands[i].id,
            text: cands[i].label.clone(),
            positions: Vec::new(),
        };
        assert(m@ == all_shown(cands@)[i as int]);
        let ghost prev = r@;
        r.push(m);
        assert(match_views(r@) =~= match_views(prev).push(m@));
        i = i + 1;
        assert(match_views(r@) =~= all_shown(cands@).take(i as int));
    }
    assert(all_shown(cands@).take(i as int) =~= all_shown(cands@));
    r
}

/// Filters `cands` by `query`. An empty query shows every candidate in order,
/// unhighlighted, and `found` is not read. For a non-empty query, `found` is
/// what the fuzzy matcher returned, best first: a match is kept when its
/// candidate exists and that candidate's label holds the query's characters
/// in order, ignoring ASCII case; at most `MAX_MATCHES` are kept.
pub fn filter(cands: &Vec<IndentCandidate>, query: &str, found: &Vec<MatchResult>) -> (r: Vec<
    MatchResult,
>)
    ensures
        match_views(r@) == filtered(cands@, query@, match_views(found@)),
        r.len() <= MAX_MATCHES || query@.len() == 0,
        query@.len() == 0 ==> r.len() == cands.len(),
        forall|k: int|
            0 <= k < r.len() && query@.len() > 0 ==> {
                &&& label_of(cands@, #[trigger] r@[k].candidate_id) == Some(r@[k].text@)
                &&& contains_in_order(query@, r@[k].text@)
            },
{
    if query.unicode_len() == 0 {
        let r = show_all(cands);
        assert(match_views(r@).len() == r.len());
        return r;
    }
    let mut r: Vec<MatchResult> = Vec::new();
    let mut i: usize = 0;
    while i < found.len()
        invariant
            i <= found.len(),
            query@.len() > 0,
            match_views(r@) =~= kept(cands@, query@, match_views(found@).take(i as int)),
            forall|k: int|
                0 <= k < r.len() ==> {
                    &&& label_of(cands@, #[trigger] r@[k].candidate_id) == Some(r@[k].text@)
                    &&& contains_in_order(query@, r@[k].text@)
                },
        decreases found.len() - i,
    {
        let ghost fv = match_views(found@);
        assert(fv.take(i + 1).drop_last() =~= fv.take(i as int));
        assert(fv.take(i + 1).last() == found@[i as int]@);
        let id = found[i].candidate_id;
        match find_candidate(cands, id) {
            Some(c) => {
                if is_contained_in_order(query, cands[c].label.as_str()) {
                    r.push(
                        MatchResult {
                            candidate_id: id,
                            text: cands[c].label.clone(),
                            positions: copy_positions(&found[i].positions),
                        },
                    );
                }
            },
            None => {},
        }
        i = i + 1;
        assert(match_views(r@) =~= kept(cands@, query@, fv.take(i as int)));
    }
    assert(match_views(found@).take(i as int) =~= match_views(found@));
    r.truncate(MAX_MATCHES);
    assert(match_views(r@) =~= at_most(
        kept(cands@, query@, match_views(found@)),
        MAX_MATCHES as nat,
    ));
    r
}

} // verus!
