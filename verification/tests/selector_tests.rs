use gpm::screen::Screen;
use gpm::switch_screen::ScreenSwitcherStateBuilder;

fn three_options() -> gpm::switch_screen::ScreenSwitcherState {
    ScreenSwitcherStateBuilder::new(" Menu ".to_string())
        .with_option("first".to_string(), Screen::WorktreeCreate)
        .with_option("second".to_string(), Screen::WorktreeDelete)
        .with_option("third".to_string(), Screen::NonWorktreeRepoCreate)
        .build()
}

#[test]
fn builder_starts_on_first_option() {
    let s = three_options();
    assert_eq!(s.get_options_count(), 3);
    assert_eq!(s.target_screen(), Screen::WorktreeCreate);
}

#[test]
fn moving_up_from_first_wraps_to_last() {
    let mut s = three_options();
    s.up();
    assert_eq!(s.target_screen(), Screen::NonWorktreeRepoCreate);
    s.up();
    assert_eq!(s.target_screen(), Screen::WorktreeDelete);
}

#[test]
fn moving_down_from_last_wraps_to_first() {
    let mut s = three_options();
    s.down();
    s.down();
    assert_eq!(s.target_screen(), Screen::NonWorktreeRepoCreate);
    s.down();
    assert_eq!(s.target_screen(), Screen::WorktreeCreate);
}

#[test]
fn wraparound_on_single_option_list() {
    let mut s = ScreenSwitcherStateBuilder::new("one".to_string())
        .with_option("only".to_string(), Screen::Main)
        .build();
    s.up();
    assert_eq!(s.target_screen(), Screen::Main);
    s.down();
    assert_eq!(s.target_screen(), Screen::Main);
}
