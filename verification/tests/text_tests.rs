use gpm::text::{expand_home, file_name_of, get_repo_name_from_git_link, join_path, parent_of,
    sanitise_git_dir_name, str_leq};

#[test]
fn sanitize_replaces_slash_and_dot() {
    assert_eq!(sanitise_git_dir_name("a/b.c"), "a_b_c");
    assert_eq!(sanitise_git_dir_name("feat/x"), "feat_x");
    assert_eq!(sanitise_git_dir_name("plain"), "plain");
    assert_eq!(sanitise_git_dir_name(""), "");
    assert_eq!(sanitise_git_dir_name("..//"), "____");
}

#[test]
fn sanitize_is_idempotent_on_samples() {
    for s in ["a/b.c", "feat/x", "", "...", "already_clean", "x/y/z.w"] {
        let once = sanitise_git_dir_name(s);
        let twice = sanitise_git_dir_name(&once);
        assert_eq!(once, twice);
        assert!(!once.contains('/'));
        assert!(!once.contains('.'));
    }
}

#[test]
fn repo_name_from_link() {
    assert_eq!(
        get_repo_name_from_git_link("https://host/group/repo.git"),
        Ok("repo".to_string())
    );
    assert_eq!(
        get_repo_name_from_git_link("git@host:group/repo.git"),
        Ok("repo".to_string())
    );
    assert_eq!(
        get_repo_name_from_git_link("https://host/group/repo.tar.git"),
        Ok("repo.tar".to_string())
    );
}

#[test]
fn repo_name_error_cases() {
    let e = get_repo_name_from_git_link("no-separators");
    assert_eq!(
        e,
        Err("Could not interpret 'no-separators' as git repository link.".to_string())
    );
    let e = get_repo_name_from_git_link("host/name-without-dot");
    assert_eq!(
        e,
        Err("Could not interpret 'host/name-without-dot' as git repository link.".to_string())
    );
    let e = get_repo_name_from_git_link("dot.before/slash");
    assert!(e.is_err());
}

#[test]
fn path_segments() {
    assert_eq!(file_name_of("/home/u/proj/foo"), "foo");
    assert_eq!(parent_of("/home/u/proj/foo"), "/home/u/proj");
    assert_eq!(file_name_of("bare"), "bare");
    assert_eq!(parent_of("bare"), "");
    assert_eq!(parent_of("/top"), "/");
    assert_eq!(join_path("/a/b", "c"), "/a/b/c");
}

#[test]
fn home_expansion() {
    assert_eq!(expand_home("/home/u", "~/proj"), "/home/u/proj");
    assert_eq!(expand_home("/home/u", "/abs/path"), "/abs/path");
    assert_eq!(expand_home("/home/u", "relative"), "/home/u/relative");
    assert_eq!(expand_home("/home/u", "~/.dotfiles"), "/home/u/.dotfiles");
}

#[test]
fn name_order_is_lexicographic() {
    assert!(str_leq("a", "b"));
    assert!(str_leq("a", "a"));
    assert!(!str_leq("b", "a"));
    assert!(str_leq("", "a"));
    assert!(str_leq("ab", "b"));
    assert!(str_leq("branch-a", "branch-b"));
    assert!(str_leq("B", "a"));
}
