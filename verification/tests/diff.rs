use agent_browser::diff::snapshot_diff;

#[test]
fn equal_snapshots_show_no_change() {
    assert_eq!(snapshot_diff("", ""), "(no visible change)");
    assert_eq!(snapshot_diff("- button\n- link", "- button\n- link"), "(no visible change)");
}

#[test]
fn order_and_blanks_do_not_count() {
    assert_eq!(snapshot_diff("a\nb\nc", "  c\n\n\tb \r\na\n   \n"), "(no visible change)");
    assert_eq!(snapshot_diff("a\na\na", "a"), "(no visible change)");
}

#[test]
fn what_appeared_comes_before_what_disappeared() {
    assert_eq!(
        snapshot_diff("- heading \"Old\"\n- link\n  - gone", "- link\n- heading \"New\""),
        "+ - heading \"New\"\n- - heading \"Old\"\n-   - gone\n"
    );
}

#[test]
fn lines_keep_their_indentation_and_their_order() {
    assert_eq!(snapshot_diff("", "  b\n\n a\nb\n"), "+   b\n+  a\n+ b\n");
    assert_eq!(snapshot_diff("x\ny", ""), "- x\n- y\n");
}

#[test]
fn the_way_back_has_the_marks_turned_round() {
    let there = snapshot_diff("a\nb", "b\nc");
    let back = snapshot_diff("b\nc", "a\nb");
    assert_eq!(there, "+ c\n- a\n");
    assert_eq!(back, "+ a\n- c\n");
}

#[test]
fn a_bare_carriage_return_stays_in_its_line() {
    assert_eq!(snapshot_diff("", "a\rb\r\nc"), "+ a\rb\n+ c\n");
}

#[test]
fn the_order_of_the_other_side_does_not_matter() {
    assert_eq!(snapshot_diff("a\nb\nc", "c\nd"), "+ d\n- a\n- b\n");
    assert_eq!(snapshot_diff(" c\na\n b", "c\nd"), "+ d\n- a\n-  b\n");
}

#[test]
fn permuted_snapshots_permute_the_report() {
    let one = snapshot_diff("a\nb\n  gone\ngone", "new\nb\n  fresh\nnew\na");
    let other = snapshot_diff("gone\na\n  gone\nb", "a\n  fresh\nnew\nb\nnew");
    assert_eq!(one, "+ new\n+   fresh\n+ new\n-   gone\n- gone\n");
    assert_eq!(other, "+   fresh\n+ new\n+ new\n- gone\n-   gone\n");
    let mut left: Vec<&str> = one.lines().collect();
    let mut right: Vec<&str> = other.lines().collect();
    left.sort();
    right.sort();
    assert_eq!(left, right);
}
