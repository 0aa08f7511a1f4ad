use gpm::config::{Config, DirScan, SubdirScan};
use gpm::project_item::{ProjectItemType, ProjectNode};

fn scenario_config() -> Config {
    Config {
        project_directories: vec!["~/proj".to_string()],
        standalone_projects: vec!["~/.dotfiles".to_string()],
    }
}

fn scenario_scans() -> Vec<DirScan> {
    vec![DirScan {
        readable: true,
        subdirs: vec![SubdirScan {
            name: "foo".to_string(),
            entries: vec![
                ".bare".to_string(),
                "branch-b".to_string(),
                "branch-a".to_string(),
            ],
        }],
    }]
}

fn paths_of(nodes: &[ProjectNode]) -> Vec<String> {
    nodes.iter().map(|n| n.item.path.clone()).collect()
}

#[test]
fn scenario_forest_shape() {
    let forest = scenario_config().to_forest("/home/u", scenario_scans());
    assert_eq!(forest.len(), 2);

    let dotfiles = &forest[0];
    assert_eq!(dotfiles.item.path, "/home/u/.dotfiles");
    assert_eq!(dotfiles.item.project_type, ProjectItemType::StandaloneRepo);
    assert!(dotfiles.children.is_empty());

    let proj = &forest[1];
    assert_eq!(proj.item.path, "/home/u/proj");
    assert_eq!(proj.item.project_type, ProjectItemType::ProjectDirectoryGroup);
    assert_eq!(proj.children.len(), 1);

    let foo = &proj.children[0];
    assert_eq!(foo.item.path, "/home/u/proj/foo");
    assert_eq!(foo.item.project_type, ProjectItemType::WorktreeContainerRepo);
    assert_eq!(
        paths_of(&foo.children),
        vec!["/home/u/proj/foo/branch-a", "/home/u/proj/foo/branch-b"]
    );
    for c in foo.children.iter() {
        assert_eq!(c.item.project_type, ProjectItemType::WorktreeCheckout);
        assert!(c.children.is_empty());
    }
}

#[test]
fn classification_without_bare_marker() {
    let config = Config {
        project_directories: vec!["/proj".to_string()],
        standalone_projects: vec![],
    };
    let scans = vec![DirScan {
        readable: true,
        subdirs: vec![
            SubdirScan {
                name: "plain".to_string(),
                entries: vec!["src".to_string(), "README".to_string()],
            },
            SubdirScan {
                name: "container".to_string(),
                entries: vec!["w1".to_string(), ".bare".to_string(), ".git".to_string()],
            },
        ],
    }];
    let forest = config.to_forest("/home/u", scans);
    assert_eq!(forest.len(), 1);
    let children = &forest[0].children;
    assert_eq!(children.len(), 2);
    // sorted by name: "container" before "plain"
    assert_eq!(children[0].item.path, "/proj/container");
    assert_eq!(
        children[0].item.project_type,
        ProjectItemType::WorktreeContainerRepo
    );
    // .bare and .git never appear as checkout children
    assert_eq!(paths_of(&children[0].children), vec!["/proj/container/w1"]);
    assert_eq!(children[1].item.path, "/proj/plain");
    assert_eq!(children[1].item.project_type, ProjectItemType::StandaloneRepo);
    assert!(children[1].children.is_empty());
}

#[test]
fn forest_is_deterministic() {
    let a = scenario_config().to_forest("/home/u", scenario_scans());
    let b = scenario_config().to_forest("/home/u", scenario_scans());
    assert_eq!(paths_of(&a), paths_of(&b));
    assert_eq!(
        paths_of(&a[1].children[0].children),
        paths_of(&b[1].children[0].children)
    );
}

#[test]
fn unreadable_root_is_skipped_with_warning() {
    let config = Config {
        project_directories: vec!["~/missing".to_string(), "~/proj".to_string()],
        standalone_projects: vec![],
    };
    let scans = vec![
        DirScan { readable: false, subdirs: vec![] },
        DirScan { readable: true, subdirs: vec![] },
    ];
    let warnings = config.scan_warnings("/home/u", &scans);
    let forest = config.to_forest("/home/u", scans);
    assert_eq!(forest.len(), 1);
    assert_eq!(forest[0].item.path, "/home/u/proj");
    assert_eq!(warnings.len(), 1);
    assert_eq!(
        warnings[0],
        "/home/u/missing was set as a project directory but is not a directory. skipping."
    );
}

#[test]
fn default_config_paths() {
    let c = Config::default();
    assert_eq!(c.project_directories, vec!["~/proj".to_string()]);
    assert_eq!(c.standalone_projects, vec!["~/.dotfiles".to_string()]);
}
