use indent_size_selector::matching::{
    filter, indent_candidates, is_contained_in_order, IndentCandidate, MatchResult, MAX_MATCHES,
    TOGGLE_ID,
};
use indent_size_selector::selection::{IndentSizeSelectorDelegate, Phase};
use indent_size_selector::settings_override::ProjectPath;

fn found(id: usize, text: &str, positions: Vec<usize>) -> MatchResult {
    MatchResult { candidate_id: id, text: text.to_string(), positions }
}

fn ids(matches: &[MatchResult]) -> Vec<usize> {
    matches.iter().map(|m| m.candidate_id).collect()
}

fn settled(query: &str, from_matcher: Vec<MatchResult>) -> IndentSizeSelectorDelegate {
    let mut d = IndentSizeSelectorDelegate::new();
    let g = d.update_matches(query.to_string());
    assert!(d.filter_complete(g, &from_matcher));
    d
}

#[test]
fn candidates_in_display_order() {
    let c = indent_candidates();
    let pairs: Vec<(usize, &str)> = c.iter().map(|c| (c.id, c.label.as_str())).collect();
    assert_eq!(
        pairs,
        vec![(TOGGLE_ID, "Toggle Spaces/Tabs"), (2, "2 spaces"), (4, "4 spaces"), (8, "8 spaces")]
    );
}

#[test]
fn empty_query_shows_every_candidate_unhighlighted() {
    let c = indent_candidates();
    let r = filter(&c, "", &vec![found(8, "8 spaces", vec![0])]);
    assert_eq!(ids(&r), vec![16, 2, 4, 8]);
    assert_eq!(r[1].text, "2 spaces");
    assert!(r.iter().all(|m| m.positions.is_empty()));
}

#[test]
fn query_keeps_only_matches_holding_the_query() {
    let c = indent_candidates();
    let from_matcher = vec![
        found(8, "8 spaces", vec![0]),
        found(2, "2 spaces", vec![]),
        found(99, "nothing", vec![]),
    ];
    let r = filter(&c, "8", &from_matcher);
    assert_eq!(ids(&r), vec![8]);
    assert_eq!(r[0].positions, vec![0]);
    assert_eq!(r[0].text, "8 spaces");
}

#[test]
fn query_matching_ignores_ascii_case() {
    let c = indent_candidates();
    let r = filter(&c, "tOgTaBs", &vec![found(TOGGLE_ID, "", vec![0, 1, 2, 14, 15, 16, 17])]);
    assert_eq!(ids(&r), vec![TOGGLE_ID]);
    assert_eq!(r[0].text, "Toggle Spaces/Tabs");
}

#[test]
fn query_keeps_at_most_the_cap() {
    let c = indent_candidates();
    let many: Vec<MatchResult> = (0..150).map(|_| found(4, "4 spaces", vec![0])).collect();
    let r = filter(&c, "4", &many);
    assert_eq!(r.len(), MAX_MATCHES);
    assert_eq!(MAX_MATCHES, 100);
}

#[test]
fn query_keeps_matcher_order() {
    let c = indent_candidates();
    let r = filter(
        &c,
        "spaces",
        &vec![found(4, "", vec![]), found(2, "", vec![]), found(8, "", vec![])],
    );
    assert_eq!(ids(&r), vec![4, 2, 8]);
}

#[test]
fn characters_in_order() {
    assert!(is_contained_in_order("2s", "2 spaces"));
    assert!(is_contained_in_order("", ""));
    assert!(is_contained_in_order("SPACES", "8 spaces"));
    assert!(!is_contained_in_order("s2", "2 spaces"));
    assert!(!is_contained_in_order("88", "8 spaces"));
    assert!(!is_contained_in_order("a", ""));
}

#[test]
fn unknown_candidate_is_dropped() {
    let c = vec![IndentCandidate { id: 3, label: "three".to_string() }];
    let r = filter(&c, "t", &vec![found(4, "three", vec![0])]);
    assert!(r.is_empty());
}

#[test]
fn picker_starts_idle_and_empty() {
    let d = IndentSizeSelectorDelegate::new();
    assert_eq!(d.phase(), Phase::Idle);
    assert_eq!(d.match_count(), 0);
    assert_eq!(d.selected_index(), 0);
    assert_eq!(d.placeholder_text(), "Set Indentation");
}

#[test]
fn selection_is_clamped_after_filtering() {
    let mut d = settled("", vec![]);
    assert_eq!(d.match_count(), 4);
    d.set_selected_index(3);
    let g = d.update_matches("2".to_string());
    assert_eq!(d.phase(), Phase::Filtering);
    assert!(d.filter_complete(g, &vec![found(2, "2 spaces", vec![0])]));
    assert_eq!(d.match_count(), 1);
    assert_eq!(d.selected_index(), 0);
    assert_eq!(d.phase(), Phase::Settled);
}

#[test]
fn selection_is_zero_when_nothing_matches() {
    let mut d = settled("", vec![]);
    d.set_selected_index(2);
    let g = d.update_matches("zz".to_string());
    assert!(d.filter_complete(g, &vec![]));
    assert_eq!(d.match_count(), 0);
    assert_eq!(d.selected_index(), 0);
}

#[test]
fn selection_kept_when_still_inside() {
    let mut d = settled("", vec![]);
    d.set_selected_index(1);
    let g = d.update_matches(String::new());
    assert!(d.filter_complete(g, &vec![]));
    assert_eq!(d.selected_index(), 1);
}

#[test]
fn stale_results_are_not_applied() {
    let mut d = IndentSizeSelectorDelegate::new();
    let first = d.update_matches("8".to_string());
    let second = d.update_matches(String::new());
    assert_eq!(second, first + 1);
    assert!(!d.filter_complete(first, &vec![found(8, "8 spaces", vec![0])]));
    assert_eq!(d.match_count(), 0);
    assert!(d.filter_complete(second, &vec![]));
    assert_eq!(d.match_count(), 4);
    assert!(!d.filter_complete(second, &vec![]));
}

#[test]
fn confirm_without_matches_writes_nothing_and_dismisses() {
    let mut d = IndentSizeSelectorDelegate::new();
    let file = Some(ProjectPath { worktree_id: 7, path: "src/main.rs".to_string() });
    assert!(d.confirm(&file).is_none());
    assert_eq!(d.phase(), Phase::Dismissed);
}

#[test]
fn confirm_without_file_writes_nothing_and_dismisses() {
    let mut d = settled("", vec![]);
    assert!(d.confirm(&None).is_none());
    assert_eq!(d.phase(), Phase::Dismissed);
}

#[test]
fn confirm_four_spaces_writes_path_scoped_override() {
    let mut d = settled("", vec![]);
    d.set_selected_index(2);
    let file = Some(ProjectPath { worktree_id: 7, path: "src/main.rs".to_string() });
    let o = d.confirm(&file).expect("a write");
    assert_eq!(o.worktree_id, 7);
    assert_eq!(o.path, "src/main.rs");
    assert_eq!(o.config, "[/**]\nindent_size = 4\nindent_style = space\ntab_width=4");
    assert_eq!(d.phase(), Phase::Dismissed);
}

#[test]
fn confirm_toggle_writes_its_identifier() {
    let mut d = settled("", vec![]);
    let file = Some(ProjectPath { worktree_id: 1, path: "a.py".to_string() });
    let o = d.confirm(&file).expect("a write");
    assert_eq!(o.config, "[/**]\nindent_size = 16\nindent_style = space\ntab_width=16");
}

#[test]
fn open_type_eight_and_confirm() {
    let mut d = settled("", vec![]);
    assert_eq!(ids(d.matches()), vec![16, 2, 4, 8]);
    let g = d.update_matches("8".to_string());
    assert!(d.filter_complete(g, &vec![found(8, "8 spaces", vec![0])]));
    assert_eq!(ids(d.matches()), vec![8]);
    assert_eq!(d.matches()[0].positions, vec![0]);
    let rendered = d.render_match(0).expect("a row");
    assert_eq!(rendered.label, "8 spaces");
    assert_eq!(rendered.positions, vec![0]);
    let file = Some(ProjectPath { worktree_id: 3, path: "src/main.rs".to_string() });
    let o = d.confirm(&file).expect("a write");
    assert_eq!(o.config, "[/**]\nindent_size = 8\nindent_style = space\ntab_width=8");
    assert_eq!(d.phase(), Phase::Dismissed);
}

#[test]
fn dismissed_picker_ignores_late_results() {
    let mut d = IndentSizeSelectorDelegate::new();
    let g = d.update_matches(String::new());
    d.dismissed();
    assert!(!d.filter_complete(g, &vec![]));
    assert_eq!(d.phase(), Phase::Dismissed);
    d.update_matches("2".to_string());
    assert_eq!(d.phase(), Phase::Dismissed);
}
