use git_toy::repo::Oid;
use git_toy::session::{begin, step, Action, Event, Session};

fn ok_event_opened(handle: usize) -> Event {
    Event::Opened { status: 0, handle, message: String::new(), class: 0 }
}

fn failed_event(status: i32, message: &str, class: i32) -> Event {
    Event::Opened { status, handle: 0, message: String::from(message), class }
}

fn some_oid() -> Oid {
    Oid { id: [7u8; 20] }
}

struct Tally {
    opens: usize,
    frees_repo: usize,
    frees_commit: usize,
    resolves: usize,
    lookups: usize,
    prints: Vec<String>,
    exit: Option<(u8, Option<String>)>,
}

fn tally(lists: &[Vec<Action>]) -> Tally {
    let mut t = Tally {
        opens: 0,
        frees_repo: 0,
        frees_commit: 0,
        resolves: 0,
        lookups: 0,
        prints: Vec::new(),
        exit: None,
    };
    for acts in lists {
        for a in acts {
            match a {
                Action::OpenRepo { .. } => t.opens += 1,
                Action::ResolveName { .. } => t.resolves += 1,
                Action::LookupCommit { .. } => t.lookups += 1,
                Action::FreeCommit { .. } => t.frees_commit += 1,
                Action::FreeRepo { .. } => t.frees_repo += 1,
                Action::Print { text } => t.prints.push(text.clone()),
                Action::Exit { code, diagnostic } => {
                    t.exit = Some((*code, diagnostic.clone()));
                }
            }
        }
    }
    t
}

#[test]
fn begin_emits_terminated_open() {
    let (s, acts) = begin(b"/tmp/fixture", "HEAD");
    assert!(matches!(s, Session::Opening { .. }));
    assert_eq!(acts.len(), 1);
    match &acts[0] {
        Action::OpenRepo { path } => assert_eq!(path.as_slice(), b"/tmp/fixture\0"),
        _ => panic!("expected an open action"),
    }
}

#[test]
fn begin_rejects_path_with_embedded_nul() {
    let (s, acts) = begin(b"/tmp\0/fixture", "HEAD");
    assert!(matches!(s, Session::Done { code: 1 }));
    let t = tally(&[acts]);
    assert_eq!(t.opens, 0);
    let (code, diag) = t.exit.unwrap();
    assert_ne!(code, 0);
    assert!(diag.unwrap().starts_with("opening repository"));
}

#[test]
fn full_session_prints_author_and_frees_in_pairs() {
    // The fixture: a repository whose head commit has a known author and
    // message, played back by a mock engine that counts every call.
    let mut lists: Vec<Vec<Action>> = Vec::new();
    let (s, acts) = begin(b"/tmp/fixture", "HEAD");
    lists.push(acts);
    let repo_handle: usize = 21;
    let commit_handle: usize = 34;
    let (s, acts) = step(s, ok_event_opened(repo_handle));
    lists.push(acts);
    assert!(matches!(s, Session::Resolving { .. }));
    match &lists[1][0] {
        Action::ResolveName { repo, name } => {
            assert_eq!(*repo, repo_handle);
            assert_eq!(name.as_slice(), b"HEAD\0");
        }
        _ => panic!("expected a resolve action"),
    }
    let (s, acts) = step(
        s,
        Event::Resolved { status: 0, id: some_oid(), message: String::new(), class: 0 },
    );
    lists.push(acts);
    match &lists[2][0] {
        Action::LookupCommit { repo, id } => {
            assert_eq!(*repo, repo_handle);
            assert_eq!(id.id, [7u8; 20]);
        }
        _ => panic!("expected a lookup action"),
    }
    let (s, acts) = step(
        s,
        Event::Found {
            status: 0,
            handle: commit_handle,
            name: Some(b"Ada Lovelace".to_vec()),
            email: Some(b"ada@example.com".to_vec()),
            text: Some(b"Initial commit\n".to_vec()),
            message: String::new(),
            class: 0,
        },
    );
    lists.push(acts);
    assert!(matches!(s, Session::Done { code: 0 }));

    let t = tally(&lists);
    assert_eq!(t.prints, vec![
        String::from("Ada Lovelace <ada@example.com>\n\n"),
        String::from("Initial commit\n"),
    ]);
    assert_eq!(t.exit, Some((0u8, None)));
    // One free per accepted handle: the mock engine handed out one
    // repository and one commit, and sees exactly one free for each.
    assert_eq!(t.frees_repo, 1);
    assert_eq!(t.frees_commit, 1);
    // The commit is freed before its repository.
    let last = &lists[3];
    let pos_commit = last
        .iter()
        .position(|a| matches!(a, Action::FreeCommit { .. }))
        .unwrap();
    let pos_repo = last
        .iter()
        .position(|a| matches!(a, Action::FreeRepo { .. }))
        .unwrap();
    assert!(pos_commit < pos_repo);
    match &last[pos_commit] {
        Action::FreeCommit { commit } => assert_eq!(*commit, commit_handle),
        _ => unreachable!(),
    }
    match &last[pos_repo] {
        Action::FreeRepo { repo } => assert_eq!(*repo, repo_handle),
        _ => unreachable!(),
    }
}

#[test]
fn absent_author_fields_print_placeholder() {
    let (s, _) = begin(b"/tmp/fixture", "HEAD");
    let (s, _) = step(s, ok_event_opened(3));
    let (s, _) = step(
        s,
        Event::Resolved { status: 0, id: some_oid(), message: String::new(), class: 0 },
    );
    let (_, acts) = step(
        s,
        Event::Found {
            status: 0,
            handle: 4,
            name: None,
            email: Some(vec![0xFFu8, 0x00u8]),
            text: None,
            message: String::new(),
            class: 0,
        },
    );
    let t = tally(&[acts]);
    // A null name and an undecodable email both read as absent; a null
    // message prints nothing.
    assert_eq!(t.prints, vec![String::from("(none) <(none)>\n\n")]);
    assert_eq!(t.exit, Some((0u8, None)));
}

#[test]
fn failing_open_leaves_nothing_allocated() {
    let (s, acts) = begin(b"/tmp/not-a-repository", "HEAD");
    let mut lists = vec![acts];
    let (s, acts) = step(s, failed_event(-3, "could not find repository", 6));
    lists.push(acts);
    assert!(matches!(s, Session::Done { code: 1 }));
    let t = tally(&lists);
    // No handle was accepted, so nothing is freed and nothing leaks.
    assert_eq!(t.frees_repo, 0);
    assert_eq!(t.frees_commit, 0);
    let (code, diag) = t.exit.unwrap();
    assert_ne!(code, 0);
    let d = diag.unwrap();
    assert!(d.starts_with("opening repository"));
    assert!(d.contains("could not find repository"));
}

#[test]
fn nul_in_reference_name_fails_before_resolution() {
    let (s, _) = begin(b"/tmp/fixture", "HE\0AD");
    let (s, acts) = step(s, ok_event_opened(5));
    assert!(matches!(s, Session::Done { code: 1 }));
    let t = tally(&[acts]);
    // The resolution is never requested, and the repository that was
    // already open is still released exactly once.
    assert_eq!(t.resolves, 0);
    assert_eq!(t.frees_repo, 1);
    let (code, diag) = t.exit.unwrap();
    assert_ne!(code, 0);
    assert!(diag.unwrap().starts_with("looking up 'HEAD' reference"));
}

#[test]
fn failing_resolution_frees_repository() {
    let (s, _) = begin(b"/tmp/fixture", "HEAD");
    let (s, _) = step(s, ok_event_opened(11));
    let (s, acts) = step(
        s,
        Event::Resolved {
            status: -1,
            id: some_oid(),
            message: String::from("reference 'HEAD' not found"),
            class: 4,
        },
    );
    assert!(matches!(s, Session::Done { code: 1 }));
    let t = tally(&[acts]);
    assert_eq!(t.lookups, 0);
    assert_eq!(t.frees_repo, 1);
    let (code, diag) = t.exit.unwrap();
    assert_ne!(code, 0);
    assert!(diag.unwrap().starts_with("looking up 'HEAD' reference"));
}

#[test]
fn failing_lookup_frees_repository() {
    let (s, _) = begin(b"/tmp/fixture", "HEAD");
    let (s, _) = step(s, ok_event_opened(11));
    let (s, _) = step(
        s,
        Event::Resolved { status: 0, id: some_oid(), message: String::new(), class: 0 },
    );
    let (s, acts) = step(
        s,
        Event::Found {
            status: -3,
            handle: 0,
            name: None,
            email: None,
            text: None,
            message: String::from("object not found"),
            class: 3,
        },
    );
    assert!(matches!(s, Session::Done { code: 1 }));
    let t = tally(&[acts]);
    assert_eq!(t.frees_repo, 1);
    assert_eq!(t.frees_commit, 0);
    let (code, diag) = t.exit.unwrap();
    assert_ne!(code, 0);
    assert!(diag.unwrap().starts_with("looking up commit"));
}
