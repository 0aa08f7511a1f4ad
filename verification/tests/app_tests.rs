use gpm::app::{App, KeyOutcome};
use gpm::command::OrchStep;
use gpm::config::{Config, DirScan, SubdirScan};
use gpm::keys::InputKey;
use gpm::project_item::ProjectItemType;
use gpm::screen::Screen;

fn scenario_app() -> App {
    let config = Config {
        project_directories: vec!["~/proj".to_string()],
        standalone_projects: vec!["~/.dotfiles".to_string()],
    };
    let scans = vec![DirScan {
        readable: true,
        subdirs: vec![SubdirScan {
            name: "foo".to_string(),
            entries: vec![
                ".bare".to_string(),
                "branch-b".to_string(),
                "branch-a".to_string(),
            ],
        }],
    }];
    App::with_forest(config.to_forest("/home/u", scans))
}

fn selected_path(app: &App) -> String {
    app.get_selected_pt_item().unwrap().path
}

fn press(app: &mut App, k: InputKey) -> KeyOutcome {
    app.initialise_screen();
    app.handle_key(k)
}

#[test]
fn navigation_skips_collapsed_children() {
    let mut app = scenario_app();
    assert_eq!(app.app_screen, Screen::Main);
    assert_eq!(selected_path(&app), "/home/u/.dotfiles");

    press(&mut app, InputKey::Down);
    assert_eq!(selected_path(&app), "/home/u/proj");
    // children are hidden while the group is collapsed
    press(&mut app, InputKey::Down);
    assert_eq!(selected_path(&app), "/home/u/proj");

    press(&mut app, InputKey::Char(' '));
    press(&mut app, InputKey::Down);
    assert_eq!(selected_path(&app), "/home/u/proj/foo");

    press(&mut app, InputKey::Char(' '));
    press(&mut app, InputKey::Down);
    assert_eq!(selected_path(&app), "/home/u/proj/foo/branch-a");
    press(&mut app, InputKey::Down);
    assert_eq!(selected_path(&app), "/home/u/proj/foo/branch-b");
    press(&mut app, InputKey::Down);
    assert_eq!(selected_path(&app), "/home/u/proj/foo/branch-b");

    press(&mut app, InputKey::Up);
    assert_eq!(selected_path(&app), "/home/u/proj/foo/branch-a");
    press(&mut app, InputKey::Char('k'));
    assert_eq!(selected_path(&app), "/home/u/proj/foo");
    press(&mut app, InputKey::Char('k'));
    press(&mut app, InputKey::Char('k'));
    assert_eq!(selected_path(&app), "/home/u/.dotfiles");
}

#[test]
fn delete_request_classifies_the_selection() {
    let mut app = scenario_app();
    // standalone repo highlighted
    press(&mut app, InputKey::Char('x'));
    assert_eq!(app.app_screen, Screen::NonWorktreeRepoDelete);
    press(&mut app, InputKey::Char('n'));
    assert_eq!(app.app_screen, Screen::Main);

    // the group itself cannot be delete-requested
    press(&mut app, InputKey::Down);
    press(&mut app, InputKey::Char('x'));
    assert_eq!(app.app_screen, Screen::Main);

    // expand down to a worktree checkout
    press(&mut app, InputKey::Char(' '));
    press(&mut app, InputKey::Down);
    press(&mut app, InputKey::Char('x'));
    assert_eq!(app.app_screen, Screen::WorktreeRepoDelete);
    press(&mut app, InputKey::Char('n'));
    press(&mut app, InputKey::Char(' '));
    press(&mut app, InputKey::Down);
    press(&mut app, InputKey::Char('x'));
    assert_eq!(app.app_screen, Screen::WorktreeDelete);
}

#[test]
fn confirming_a_delete_yields_the_plan() {
    let mut app = scenario_app();
    press(&mut app, InputKey::Char('x'));
    assert_eq!(app.app_screen, Screen::NonWorktreeRepoDelete);
    let out = press(&mut app, InputKey::Char('y'));
    let plan = match out {
        KeyOutcome::Run(p) => p,
        _ => panic!("expected a plan"),
    };
    match &plan.steps[0] {
        OrchStep::Run { cmd, .. } => {
            assert_eq!(cmd.program, "rm");
            assert_eq!(cmd.cwd, "/home/u");
            assert_eq!(cmd.args, vec!["-rf", ".dotfiles"]);
        },
        OrchStep::WriteFile { .. } => panic!("expected a command step"),
    }
}

#[test]
fn container_menu_leads_to_worktree_creation() {
    let mut app = scenario_app();
    press(&mut app, InputKey::Down);
    press(&mut app, InputKey::Char(' '));
    press(&mut app, InputKey::Down);
    assert_eq!(
        app.get_selected_pt_item().unwrap().project_type,
        ProjectItemType::WorktreeContainerRepo
    );
    press(&mut app, InputKey::Enter);
    assert_eq!(app.app_screen, Screen::ScreenSwitchMenu);
    press(&mut app, InputKey::Enter);
    assert_eq!(app.app_screen, Screen::WorktreeCreate);

    // type the branch name, leave the directory override blank
    for c in "feat/x".chars() {
        press(&mut app, InputKey::Char(c));
    }
    let out = press(&mut app, InputKey::Enter);
    let plan = match out {
        KeyOutcome::Run(p) => p,
        _ => panic!("expected a plan"),
    };
    match &plan.steps[0] {
        OrchStep::Run { cmd, .. } => {
            assert_eq!(cmd.cwd, "/home/u/proj/foo");
            assert_eq!(
                cmd.args,
                vec!["worktree", "add", "-b", "feat/x", "feat_x", "--guess-remote"]
            );
        },
        OrchStep::WriteFile { .. } => panic!("expected a command step"),
    }
}

#[test]
fn bad_link_reports_before_any_step() {
    let mut app = scenario_app();
    press(&mut app, InputKey::Down);
    press(&mut app, InputKey::Enter);
    assert_eq!(app.app_screen, Screen::ScreenSwitchMenu);
    press(&mut app, InputKey::Enter);
    assert_eq!(app.app_screen, Screen::WorktreeRepoCreate);
    for c in "junk".chars() {
        press(&mut app, InputKey::Char(c));
    }
    let out = press(&mut app, InputKey::Enter);
    assert!(matches!(out, KeyOutcome::Continue));
    assert_eq!(app.app_screen, Screen::Summary);
    assert_eq!(
        app.summary_text,
        vec!["Could not interpret 'junk' as git repository link."]
    );
}

#[test]
fn escape_returns_to_main_from_working_screens() {
    let mut app = scenario_app();
    press(&mut app, InputKey::Char('x'));
    assert_eq!(app.app_screen, Screen::NonWorktreeRepoDelete);
    press(&mut app, InputKey::Esc);
    assert_eq!(app.app_screen, Screen::Main);

    press(&mut app, InputKey::Enter);
    assert_eq!(app.app_screen, Screen::ScreenSwitchMenu);
    press(&mut app, InputKey::Esc);
    assert_eq!(app.app_screen, Screen::Main);
}

#[test]
fn escape_leaves_an_active_create_screen() {
    let mut app = scenario_app();
    press(&mut app, InputKey::Down);
    press(&mut app, InputKey::Char(' '));
    press(&mut app, InputKey::Down);
    press(&mut app, InputKey::Enter);
    press(&mut app, InputKey::Enter);
    assert_eq!(app.app_screen, Screen::WorktreeCreate);
    for c in "half-typed".chars() {
        press(&mut app, InputKey::Char(c));
    }
    press(&mut app, InputKey::Esc);
    assert_eq!(app.app_screen, Screen::Main);
}

#[test]
fn empty_forest_is_inert() {
    let config = Config { project_directories: vec![], standalone_projects: vec![] };
    let mut app = App::with_forest(config.to_forest("/home/u", vec![]));
    assert!(app.get_selected_pt_item().is_none());
    press(&mut app, InputKey::Down);
    press(&mut app, InputKey::Up);
    press(&mut app, InputKey::Char(' '));
    press(&mut app, InputKey::Char('x'));
    assert_eq!(app.app_screen, Screen::Main);
    let out = press(&mut app, InputKey::Enter);
    assert!(matches!(out, KeyOutcome::Continue));
    assert_eq!(app.app_screen, Screen::Main);
    let out = press(&mut app, InputKey::Esc);
    assert!(matches!(out, KeyOutcome::Quit));
}

#[test]
fn confirm_without_a_highlighted_node_does_nothing() {
    // reach a delete screen, then empty the forest out from under it
    let config = Config { project_directories: vec![], standalone_projects: vec![] };
    let mut app = App::with_forest(config.to_forest("/home/u", vec![]));
    app.app_screen = Screen::WorktreeDelete;
    let out = app.handle_key(InputKey::Char('y'));
    assert!(matches!(out, KeyOutcome::Continue));
    assert_eq!(app.app_screen, Screen::WorktreeDelete);
    assert!(app.summary_text.is_empty());
}

#[test]
fn declining_a_delete_has_no_side_effects() {
    let mut app = scenario_app();
    press(&mut app, InputKey::Down);
    let before_path = selected_path(&app);
    press(&mut app, InputKey::Char('x'));
    assert_eq!(app.app_screen, Screen::Main); // group: no delete request
    press(&mut app, InputKey::Char(' '));
    press(&mut app, InputKey::Down);
    press(&mut app, InputKey::Char('x'));
    assert_eq!(app.app_screen, Screen::WorktreeRepoDelete);
    let out = press(&mut app, InputKey::Char('n'));
    assert!(matches!(out, KeyOutcome::Continue));
    assert_eq!(app.app_screen, Screen::Main);
    assert!(app.summary_text.is_empty());
    assert_ne!(selected_path(&app), before_path); // the cursor kept its place
    assert_eq!(selected_path(&app), "/home/u/proj/foo");
}

#[test]
fn summary_acknowledgement_and_quit() {
    let mut app = scenario_app();
    app.apply_summary(vec!["SUCCESS: something".to_string()]);
    assert_eq!(app.app_screen, Screen::Summary);
    let out = press(&mut app, InputKey::Char('a'));
    assert!(matches!(out, KeyOutcome::Restart));
    assert_eq!(app.app_screen, Screen::Main);

    app.apply_summary(vec![]);
    let out = press(&mut app, InputKey::Esc);
    assert!(matches!(out, KeyOutcome::Quit));

    // quitting from the main screen
    let mut app2 = scenario_app();
    let out = press(&mut app2, InputKey::Char('q'));
    assert!(matches!(out, KeyOutcome::Quit));
}

#[test]
fn typed_input_survives_reentering_the_screen() {
    let mut app = scenario_app();
    press(&mut app, InputKey::Down);
    press(&mut app, InputKey::Char(' '));
    press(&mut app, InputKey::Down);
    press(&mut app, InputKey::Enter);
    press(&mut app, InputKey::Enter);
    assert_eq!(app.app_screen, Screen::WorktreeCreate);
    for c in "abc".chars() {
        press(&mut app, InputKey::Char(c));
    }
    // another frame passes; initialise_screen must not reset the capture
    app.initialise_screen();
    app.initialise_screen();
    let out = press(&mut app, InputKey::Enter);
    let plan = match out {
        KeyOutcome::Run(p) => p,
        _ => panic!("expected a plan"),
    };
    match &plan.steps[0] {
        OrchStep::Run { cmd, .. } => assert_eq!(cmd.args[3], "abc"),
        OrchStep::WriteFile { .. } => panic!("expected a command step"),
    }
}
