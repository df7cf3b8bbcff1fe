use toolchanger_utils::ui_utils::make_scrollable;

#[test]
fn wheel_changes_count() {
    let mut n: usize = 10;
    make_scrollable(&mut n, 1, true);
    assert_eq!(n, 11);
    make_scrollable(&mut n, 5, false);
    assert_eq!(n, 6);
    make_scrollable(&mut n, 6, false);
    assert_eq!(n, 0);
}

#[test]
fn wheel_down_never_goes_below_zero() {
    let mut n: usize = 2;
    make_scrollable(&mut n, 3, false);
    assert_eq!(n, 2);
    let mut z: usize = 0;
    make_scrollable(&mut z, 1, false);
    assert_eq!(z, 0);
}

#[test]
fn wheel_up_then_down_restores_count() {
    for (start, inc) in [(0usize, 1usize), (3, 2), (7, 7), (100, 25)] {
        let mut n = start;
        make_scrollable(&mut n, inc, true);
        make_scrollable(&mut n, inc, false);
        assert_eq!(n, start);
    }
}
