use meloled::indicator::LedColor;

#[test]
fn cycle_starts_at_red() {
    assert_eq!(LedColor::first(), LedColor::Red);
    assert_eq!(LedColor::first().index(), 0);
}

#[test]
fn next_goes_red_yellow_blue_red() {
    assert_eq!(LedColor::Red.next(), LedColor::Yellow);
    assert_eq!(LedColor::Yellow.next(), LedColor::Blue);
    assert_eq!(LedColor::Blue.next(), LedColor::Red);
}

#[test]
fn previous_goes_the_other_way() {
    assert_eq!(LedColor::Red.previous(), LedColor::Blue);
    assert_eq!(LedColor::Yellow.previous(), LedColor::Red);
    assert_eq!(LedColor::Blue.previous(), LedColor::Yellow);
}

#[test]
fn previous_undoes_next() {
    for color in [LedColor::Red, LedColor::Yellow, LedColor::Blue] {
        assert_eq!(color.next().previous(), color);
        assert_eq!(color.previous().next(), color);
        assert_ne!(color.next(), color);
    }
}

#[test]
fn three_steps_close_the_cycle() {
    for color in [LedColor::Red, LedColor::Yellow, LedColor::Blue] {
        assert_eq!(color.next().next().next(), color);
    }
}

#[test]
fn index_is_the_place_in_the_cycle() {
    assert_eq!(LedColor::Red.index(), 0);
    assert_eq!(LedColor::Yellow.index(), 1);
    assert_eq!(LedColor::Blue.index(), 2);
}

#[test]
fn after_edges_is_the_count_modulo_three() {
    assert_eq!(LedColor::after_edges(0), LedColor::Red);
    assert_eq!(LedColor::after_edges(1), LedColor::Yellow);
    assert_eq!(LedColor::after_edges(2), LedColor::Blue);
    assert_eq!(LedColor::after_edges(3), LedColor::Red);
    assert_eq!(LedColor::after_edges(4), LedColor::Yellow);
    assert_eq!(LedColor::after_edges(1000), LedColor::Yellow);
    assert_eq!(LedColor::after_edges(u64::MAX), LedColor::Red);
    assert_eq!(LedColor::after_edges(u64::MAX - 1), LedColor::Blue);
}

#[test]
fn after_edges_agrees_with_stepping() {
    let mut color: LedColor = LedColor::first();
    let mut edges: u64 = 0;
    while edges < 50 {
        assert_eq!(LedColor::after_edges(edges), color);
        assert_eq!(u64::from(color.index()), edges % 3);
        color = color.next();
        edges += 1;
    }
}
