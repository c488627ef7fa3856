use session_signals::engine::Engine;
use session_signals::event::HookEvent;
use session_signals::label::{
    combine_label, commondir_pointer, dir_name, fallback_basename, fallback_from, find_git_root,
    git_info, git_info_from, gitdir_pointer, head_branch, label_for, label_parts, label_parts_worktree, Checkout, GitInfo,
    Origin, Platform,
};
use session_signals::time::Duration;

fn own(head: &str) -> Checkout {
    Checkout::Own {
        head: Some(head.to_string()),
    }
}

#[test]
fn label_parts_are_structured_not_reparsed() {
    // A plain directory named like a label: folder only, no branch.
    let (folder, branch) = label_parts("/tmp/x/foo (bar)", None);
    assert_eq!(folder, "foo (bar)");
    assert_eq!(branch, None);

    // A repository: its root's name, and the branch from its HEAD, though the
    // working directory lies below it.
    let root = find_git_root(&vec![false, true, false]);
    assert_eq!(root, Some(1));
    let repo = git_info(Some((
        "/tmp/x/proj".to_string(),
        own("ref: refs/heads/main\n"),
    )));
    let sub = "/tmp/x/proj/src-tauri";
    let (folder, branch) = label_parts(sub, repo.as_ref());
    assert_eq!(folder, "proj");
    assert_eq!(branch.as_deref(), Some("main"));
    assert_eq!(label_for(sub, repo.as_ref()), "proj (main)");
}

#[test]
fn label_parts_resolves_clone_and_worktree() {
    let repo = git_info(Some((
        "/tmp/x/myrepo".to_string(),
        own("ref: refs/heads/main\n"),
    )));
    let (folder, branch, wt) = label_parts_worktree("/tmp/x/myrepo", repo.as_ref());
    assert_eq!(folder, "myrepo");
    assert_eq!(branch.as_deref(), Some("main"));
    assert!(!wt, "a normal clone is not a worktree");

    assert_eq!(
        gitdir_pointer("gitdir: /tmp/x/myrepo/.git/worktrees/feat\n").as_deref(),
        Some("/tmp/x/myrepo/.git/worktrees/feat")
    );
    assert_eq!(commondir_pointer("../..\n"), "../..");
    let linked = git_info(Some((
        "/tmp/x/scratch-worktree".to_string(),
        Checkout::Linked {
            head: Some("ref: refs/heads/feature-x\n".to_string()),
            shared: Some(Some("/tmp/x/myrepo".to_string())),
        },
    )));
    let (folder, branch, wt) = label_parts_worktree("/tmp/x/scratch-worktree", linked.as_ref());
    assert_eq!(
        folder, "myrepo",
        "worktree shows main repo name, not the worktree folder name"
    );
    assert_eq!(
        branch.as_deref(),
        Some("feature-x"),
        "resolves the worktree's own branch"
    );
    assert!(wt, "flagged as a worktree");
}

#[test]
fn a_submodule_keeps_its_own_name() {
    let g = git_info(Some((
        "/x/sub".to_string(),
        Checkout::Linked {
            head: None,
            shared: None,
        },
    )))
    .unwrap();
    assert_eq!(g.base, "sub");
    assert_eq!(g.branch, None);
    assert!(!g.worktree);
}

#[test]
fn a_worktree_of_a_nameless_repository_keeps_its_own_name() {
    for shared in [None, Some("/".to_string())] {
        let g = git_info(Some((
            "/x/wt".to_string(),
            Checkout::Linked {
                head: None,
                shared: Some(shared),
            },
        )))
        .unwrap();
        assert_eq!(g.base, "wt");
        assert!(g.worktree);
    }
}

#[test]
fn no_repository_without_root_pointer_or_name() {
    assert!(git_info(None).is_none());
    assert!(git_info(Some(("/x".to_string(), Checkout::Unresolved))).is_none());
    assert!(git_info(Some(("/".to_string(), own("ref: refs/heads/main\n")))).is_none());
    assert!(git_info_from(None, None, own("ref: refs/heads/main\n")).is_none());
    assert!(find_git_root(&vec![false, false]).is_none());
    assert!(find_git_root(&vec![]).is_none());
}

#[test]
fn a_detached_head_names_no_branch() {
    assert_eq!(head_branch("3b18e512dba79e4c8300dd08aeb37f8e728b8dad\n"), None);
    assert_eq!(head_branch("ref: refs/tags/v1\n"), None);
    assert_eq!(head_branch(""), None);
    assert_eq!(
        head_branch("  ref: refs/heads/feat/a-b \n").as_deref(),
        Some("feat/a-b")
    );
}

#[test]
fn a_pointer_has_its_form() {
    assert_eq!(gitdir_pointer("gitdir:../.git/modules/x").as_deref(), Some("../.git/modules/x"));
    assert_eq!(gitdir_pointer("something else"), None);
}

#[test]
fn a_directory_goes_by_its_last_component() {
    assert_eq!(fallback_basename(""), "session");
    assert_eq!(fallback_basename("/home/me/proj"), "proj");
    assert_eq!(fallback_basename("/home/me/proj/"), "proj");
    assert_eq!(fallback_basename("/home/me/proj/."), "proj");
    assert_eq!(fallback_basename("proj"), "proj");
    assert_eq!(fallback_basename("/"), "/");
    assert_eq!(fallback_basename("/home/.."), "/home/..");
    assert_eq!(fallback_basename("."), ".");
    assert_eq!(fallback_from("/a/b", Some("b")), "b");
    assert_eq!(fallback_from("/a/..", None), "/a/..");
    assert_eq!(fallback_from("", None), "session");
    assert_eq!(dir_name("/home/me/proj/").as_deref(), Some("proj"));
    assert_eq!(dir_name(""), None);
}

#[test]
fn a_label_puts_the_branch_in_brackets() {
    assert_eq!(combine_label("proj".to_string(), Some("main")), "proj (main)");
    assert_eq!(combine_label("proj".to_string(), None), "proj");
}

#[test]
fn the_engine_labels_sessions_by_their_repositories() {
    let mut e = Engine::new(Duration::from_secs(600), Duration::from_secs(3600));
    e.set_platform(Platform::Windows);
    e.set_repo(
        "/tmp/proj".to_string(),
        Some(GitInfo {
            base: "main-repo".to_string(),
            branch: Some("dev".to_string()),
            worktree: true,
        }),
    );
    let out = e.apply(&HookEvent {
        hook_event_name: "SessionStart".to_string(),
        session_id: "a".to_string(),
        cwd: "/tmp/proj".to_string(),
        ..Default::default()
    });
    let t = out.transition.expect("a new session");
    assert_eq!(t.label, "main-repo (dev)");
    assert_eq!(t.folder, "main-repo");
    assert_eq!(t.branch.as_deref(), Some("dev"));
    let v = &e.snapshot()[0];
    assert_eq!(v.label, "main-repo (dev)");
    assert!(v.worktree);
    assert_eq!(v.origin, Origin::Remote);
    assert_eq!(e.working_dirs(), vec!["/tmp/proj"]);

    e.set_repo("/tmp/proj".to_string(), None);
    e.set_platform(Platform::Other);
    let v = &e.snapshot()[0];
    assert_eq!(v.label, "proj");
    assert_eq!(v.branch, None);
    assert!(!v.worktree);
    assert_eq!(v.origin, Origin::Host);
}

#[test]
fn a_session_goes_by_the_name_that_it_was_given() {
    let mut e = Engine::new(Duration::from_secs(600), Duration::from_secs(3600));
    let ev = HookEvent {
        hook_event_name: "SessionStart".to_string(),
        session_id: "a".to_string(),
        cwd: r"C:\work\proj".to_string(),
        ..Default::default()
    };
    let now = e.now();
    let out = e.apply_named_at(&ev, &Some("proj".to_string()), now);
    assert_eq!(out.transition.unwrap().folder, "proj");
    assert_eq!(e.snapshot()[0].label, "proj");
    // An event without a directory leaves the name alone.
    let beat = HookEvent {
        hook_event_name: "PostToolUse".to_string(),
        session_id: "a".to_string(),
        ..Default::default()
    };
    e.apply(&beat);
    assert_eq!(e.snapshot()[0].label, "proj");
}
