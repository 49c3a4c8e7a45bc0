use wynn_tools::progress::signals_completion;

#[test]
fn sentinel_inside_a_line_counts() {
    assert!(signals_completion("nothing done here"));
    assert!(signals_completion("build done"));
    assert!(signals_completion("done"));
    assert!(signals_completion("abandoned"));
}

#[test]
fn sentinel_is_case_sensitive() {
    assert!(!signals_completion("DONE"));
    assert!(!signals_completion("Done"));
    assert!(!signals_completion("dOne"));
}

#[test]
fn partial_or_broken_sentinel_does_not_count() {
    assert!(!signals_completion(""));
    assert!(!signals_completion("don"));
    assert!(!signals_completion("d o n e"));
    assert!(!signals_completion("step 1"));
}

#[test]
fn sentinel_found_among_non_ascii_text() {
    assert!(signals_completion("étape terminée: done ✓"));
    assert!(!signals_completion("étape terminée ✓"));
}
