use laptop_toio::discovery::Discovery;

#[test]
fn unfiltered_accepts_any_toio() {
    let d = Discovery::new();
    assert_eq!(d.should_attempt("toio-C0E", false).as_deref(), Some("C0E"));
    assert_eq!(d.should_attempt("cube-C0E", false), None);
}

#[test]
fn already_connected_is_never_attempted() {
    let d = Discovery::new();
    assert_eq!(d.should_attempt("toio-C0E", true), None);
}

#[test]
fn plain_filter_is_membership() {
    // Entries 3 and 100 of the catalog carry the labels "r81" and "R3C".
    let d = Discovery::new_with_filter(false, vec![3, 100]);
    assert_eq!(d.should_attempt("toio-R3C", false).as_deref(), Some("R3C"));
    assert_eq!(d.should_attempt("toio-r81", false).as_deref(), Some("r81"));
    assert_eq!(d.should_attempt("toio-h41", false), None);
}

#[test]
fn plain_filter_is_not_consumed() {
    let mut d = Discovery::new_with_filter(false, vec![3]);
    assert_eq!(d.should_attempt("toio-r81", false).as_deref(), Some("r81"));
    d.note_connected();
    // The same label still matches: a plain filter never shrinks.
    assert_eq!(d.should_attempt("toio-r81", false).as_deref(), Some("r81"));
}

#[test]
fn ordered_filter_connects_in_order() {
    // Filter queue ["r81", "R3C"]: a "R3C" device seen first must not
    // connect while the head is still "r81".
    let mut d = Discovery::new_with_filter(true, vec![3, 100]);
    assert_eq!(d.should_attempt("toio-R3C", false), None);
    assert_eq!(d.should_attempt("toio-r81", false).as_deref(), Some("r81"));
    d.note_connected();
    // The head is consumed; now the "R3C" device connects.
    assert_eq!(d.should_attempt("toio-R3C", false).as_deref(), Some("R3C"));
    d.note_connected();
    // The queue is exhausted: nothing further connects.
    assert_eq!(d.should_attempt("toio-r81", false), None);
    assert_eq!(d.should_attempt("toio-R3C", false), None);
}

#[test]
fn ordered_filter_head_survives_failed_attempts() {
    let mut d = Discovery::new_with_filter(true, vec![3]);
    // A rejected candidate does not consume the head...
    assert_eq!(d.should_attempt("toio-R3C", false), None);
    // ...and a failed connection attempt reports no note_connected, so
    // the head is still there for the next candidate.
    assert_eq!(d.should_attempt("toio-r81", false).as_deref(), Some("r81"));
}

#[test]
fn ordered_filter_requires_toio_names() {
    let mut d = Discovery::new_with_filter(true, vec![3]);
    assert_eq!(d.should_attempt("cube-r81", false), None);
    assert_eq!(d.should_attempt("toio-r81", true), None);
    assert_eq!(d.should_attempt("toio-r81", false).as_deref(), Some("r81"));
    d.note_connected();
}
