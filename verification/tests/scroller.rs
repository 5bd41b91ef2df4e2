use virtual_scroller::scroller::{Event, VirtualScroller};

#[test]
fn starts_unmeasured_with_correct_spacer() {
    let s = VirtualScroller::new(20000, 32, 0);
    assert!(s.content_window.is_none());
    assert_eq!(s.visible_range(), (0, 0));
    assert_eq!(s.total_height(), 640000);
}

#[test]
fn first_measurement_creates_the_window() {
    let mut s = VirtualScroller::new(20000, 32, 0);
    let rerender = s.step(Event::Resize { viewport_height: 600 });
    assert!(rerender);
    assert_eq!(s.visible_range(), (0, 19));
    let w = s.content_window.unwrap();
    assert_eq!(w.start_y, 0);
    assert_eq!(w.total_height, 640000);
}

#[test]
fn scroll_moves_the_window() {
    let mut s = VirtualScroller::new(20000, 32, 0);
    s.step(Event::Resize { viewport_height: 600 });
    let rerender = s.step(Event::Scroll { scroll_offset: 3200 });
    assert!(rerender);
    assert_eq!(s.visible_range(), (100, 119));
    assert_eq!(s.content_window.unwrap().start_y, 3200);
}

#[test]
fn scroll_within_the_same_row_does_not_rerender() {
    let mut s = VirtualScroller::new(20000, 32, 0);
    s.step(Event::Resize { viewport_height: 600 });
    s.step(Event::Scroll { scroll_offset: 3200 });
    // 3210 is still inside row 100, so the same 19 rows are visible and
    // the window is unchanged.
    let rerender = s.step(Event::Scroll { scroll_offset: 3210 });
    assert!(!rerender);
    assert_eq!(s.visible_range(), (100, 119));
}

#[test]
fn scroll_before_measurement_computes_no_window() {
    let mut s = VirtualScroller::new(20000, 32, 0);
    let rerender = s.step(Event::Scroll { scroll_offset: 3200 });
    assert!(!rerender);
    assert!(s.content_window.is_none());
    assert_eq!(s.visible_range(), (0, 0));
}

#[test]
fn cosmetic_change_rerenders_without_recomputing() {
    let mut s = VirtualScroller::new(20000, 32, 0);
    s.step(Event::Resize { viewport_height: 600 });
    let before = s.content_window;
    let rerender = s.step(Event::PropsChanged {
        item_count: 20000,
        row_height: 32,
        items_changed: false,
        cosmetic_changed: true,
    });
    assert!(rerender);
    assert_eq!(s.content_window, before);
}

#[test]
fn unchanged_props_do_nothing() {
    let mut s = VirtualScroller::new(20000, 32, 0);
    s.step(Event::Resize { viewport_height: 600 });
    let rerender = s.step(Event::PropsChanged {
        item_count: 20000,
        row_height: 32,
        items_changed: false,
        cosmetic_changed: false,
    });
    assert!(!rerender);
    assert_eq!(s.visible_range(), (0, 19));
}

#[test]
fn replacing_with_a_shorter_list_clamps_the_range() {
    // Scrolled 500 rows deep, then the list shrinks to 100 items: the
    // recomputed range must clamp to the new count, not overrun it.
    let mut s = VirtualScroller::new(20000, 32, 0);
    s.step(Event::Resize { viewport_height: 600 });
    s.step(Event::Scroll { scroll_offset: 16000 });
    assert_eq!(s.visible_range(), (500, 519));
    let rerender = s.step(Event::PropsChanged {
        item_count: 100,
        row_height: 32,
        items_changed: true,
        cosmetic_changed: false,
    });
    assert!(rerender);
    let (start, end) = s.visible_range();
    assert!(start <= end && end <= 100);
    assert_eq!((start, end), (100, 100));
    assert_eq!(s.total_height(), 3200);
}

#[test]
fn row_height_change_recomputes() {
    let mut s = VirtualScroller::new(20000, 32, 0);
    s.step(Event::Resize { viewport_height: 600 });
    s.step(Event::Scroll { scroll_offset: 3200 });
    let rerender = s.step(Event::PropsChanged {
        item_count: 20000,
        row_height: 64,
        items_changed: false,
        cosmetic_changed: false,
    });
    assert!(rerender);
    // The same 3200px offset is now 50 rows deep, and ceil(600/64) = 10.
    assert_eq!(s.visible_range(), (50, 60));
    assert_eq!(s.total_height(), 1280000);
}

#[test]
fn resize_recomputes_the_window() {
    let mut s = VirtualScroller::new(20000, 32, 0);
    s.step(Event::Resize { viewport_height: 600 });
    assert_eq!(s.visible_range(), (0, 19));
    let rerender = s.step(Event::Resize { viewport_height: 320 });
    assert!(rerender);
    assert_eq!(s.visible_range(), (0, 10));
}
