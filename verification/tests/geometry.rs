use autohide::CursorPos;
use autohide::Layer;

fn layer(x: i32, y: i32, w: u32, h: u32, visible: bool) -> Layer {
    Layer { x, y, w, h, namespace: String::from("bar"), visible }
}

fn pos(x: i32, y: i32) -> CursorPos {
    CursorPos { x, y }
}

#[test]
fn strictly_inside_is_contained_while_visible() {
    // Top bar: y = 0 is not greater than h = 30, so it is anchored near the
    // top; while visible the region only grows, so every strictly interior
    // point is inside.
    let top = layer(0, 0, 1000, 30, true);
    assert!(top.does_contain_cursor(&pos(500, 15)));
    assert!(top.does_contain_cursor(&pos(1, 1)));
    assert!(top.does_contain_cursor(&pos(999, 29)));

    // Bottom bar: y = 1000 exceeds h = 30, anchored away from the top.
    let bottom = layer(0, 1000, 1000, 30, true);
    assert!(bottom.does_contain_cursor(&pos(500, 1015)));
    assert!(bottom.does_contain_cursor(&pos(1, 1029)));
}

#[test]
fn strictly_inside_is_contained_while_hidden_past_buffer() {
    // Hidden top bar with h = 30: buffer = 20, the active region keeps
    // y <= 0 + 30 - 20 = 10.  Interior points that clear the buffer are in.
    let top = layer(0, 0, 1000, 30, false);
    assert!(top.does_contain_cursor(&pos(500, 5)));
    assert!(top.does_contain_cursor(&pos(500, 10)));
}

#[test]
fn hidden_region_shrinks_near_top() {
    // The same interior point that is inside while visible falls outside the
    // shrunk region while hidden: a deeper intrusion is required to reveal.
    let visible = layer(0, 0, 1000, 30, true);
    let hidden = layer(0, 0, 1000, 30, false);
    let p = pos(500, 15);
    assert!(visible.does_contain_cursor(&p));
    assert!(!hidden.does_contain_cursor(&p));
}

#[test]
fn hysteresis_asymmetry_away_from_top() {
    // Bottom bar at y = 1000, h = 30: buffer = 30 * 2 / 3 = 20.  A pointer
    // 10 above the unbuffered lower bound (d = 10, 0 < d < buffer) is inside
    // while visible (sticky reveal) and outside while hidden (sticky hide).
    let visible = layer(0, 1000, 1000, 30, true);
    let hidden = layer(0, 1000, 1000, 30, false);
    let p = pos(500, 990);
    assert!(visible.does_contain_cursor(&p));
    assert!(!hidden.does_contain_cursor(&p));
}

#[test]
fn edges_are_inclusive() {
    // Visible top bar: active bounds are x in [0, 1000], y in [0, 50].
    let top = layer(0, 0, 1000, 30, true);
    assert!(top.does_contain_cursor(&pos(0, 0)));
    assert!(top.does_contain_cursor(&pos(1000, 50)));
    assert!(top.does_contain_cursor(&pos(0, 50)));
    assert!(top.does_contain_cursor(&pos(1000, 0)));
    assert!(!top.does_contain_cursor(&pos(1001, 0)));
    assert!(!top.does_contain_cursor(&pos(-1, 0)));
    assert!(!top.does_contain_cursor(&pos(0, 51)));
}

#[test]
fn buffer_is_two_thirds_of_height() {
    // h = 30 gives buffer 20: the visible top bar reaches exactly y = 50.
    let top = layer(0, 0, 1000, 30, true);
    assert!(top.does_contain_cursor(&pos(500, 50)));
    assert!(!top.does_contain_cursor(&pos(500, 51)));

    // h = 31 gives buffer 31 * 2 / 3 = 20 as well (integer division).
    let odd = layer(0, 0, 1000, 31, true);
    assert!(odd.does_contain_cursor(&pos(500, 51)));
    assert!(!odd.does_contain_cursor(&pos(500, 52)));
}

#[test]
fn hidden_bottom_bar_requires_deep_intrusion() {
    // Hidden bottom bar at y = 1000, h = 30: the active region starts at
    // y = 1020; the pointer must cross the buffer to trigger a reveal.
    let hidden = layer(0, 1000, 1000, 30, false);
    assert!(!hidden.does_contain_cursor(&pos(500, 1010)));
    assert!(hidden.does_contain_cursor(&pos(500, 1020)));
    assert!(hidden.does_contain_cursor(&pos(500, 1030)));
}
