use rmx::dir;
use rmx::options::RmOptions;
use rmx::status::{is_write_protected, Decision, Error, InteractiveMode, Metadata, RmStatus};
use rmx::walk::{Frame, Step, Walk};

fn meta(len: u64, mode: u32) -> Metadata {
    Metadata { len, mode }
}

fn opts(recursive: bool, dir: bool) -> RmOptions {
    RmOptions { recursive, force: false, dir, file: Vec::new() }
}

fn question(d: &Decision) -> String {
    match d {
        Decision::Ask { message, .. } => message.clone(),
        Decision::Settled(s) => panic!("expected a question, got {:?}", s),
    }
}

fn io(message: &str) -> Error {
    Error::Io(message.to_string())
}

#[test]
fn write_protection_follows_owner_write_bit() {
    assert!(is_write_protected(&meta(0, 0o444)));
    assert!(is_write_protected(&meta(0, 0o077)));
    assert!(!is_write_protected(&meta(0, 0o644)));
    assert!(!is_write_protected(&meta(0, 0o200)));
}

#[test]
fn plain_empty_file_accepted_without_question_in_never_mode() {
    let d = rmx::file::prompt(&meta(0, 0o644), "e", InteractiveMode::Never);
    assert!(!d.asks());
    assert!(matches!(d, Decision::Settled(RmStatus::Accept)));
}

#[test]
fn plain_file_accepted_without_question_in_once_mode() {
    let d = rmx::file::prompt(&meta(12, 0o600), "x", InteractiveMode::Once);
    assert!(matches!(d, Decision::Settled(RmStatus::Accept)));
}

#[test]
fn protected_file_asks_in_never_mode() {
    let d = rmx::file::prompt(&meta(5, 0o444), "f", InteractiveMode::Never);
    assert!(d.asks());
    assert_eq!(question(&d), "rm: remove write-protected regular file 'f'?");
    assert!(matches!(d.resolve(Ok(true)), RmStatus::Accept));
    let d = rmx::file::prompt(&meta(5, 0o444), "f", InteractiveMode::Never);
    assert!(matches!(d.resolve(Ok(false)), RmStatus::Declined));
}

#[test]
fn protected_file_asks_in_once_mode() {
    let d = rmx::file::prompt(&meta(5, 0o400), "g", InteractiveMode::Once);
    assert_eq!(question(&d), "rm: remove write-protected regular file 'g'?");
}

#[test]
fn always_mode_asks_about_plain_file() {
    let d = rmx::file::prompt(&meta(3, 0o644), "a", InteractiveMode::Always);
    assert_eq!(question(&d), "rm: remove regular file 'a'?");
    let d = rmx::file::prompt(&meta(0, 0o644), "a", InteractiveMode::Always);
    assert_eq!(question(&d), "rm: remove regular empty file 'a'?");
}

#[test]
fn unreadable_reply_fails_file() {
    let d = rmx::file::prompt(&meta(3, 0o644), "a", InteractiveMode::Always);
    match d.resolve(Err(io("stdin closed"))) {
        RmStatus::Failed(Error::Io(m)) => assert_eq!(m, "stdin closed"),
        other => panic!("unexpected {:?}", other),
    }
}

#[test]
fn settled_decision_ignores_reply() {
    let d = rmx::file::prompt(&meta(3, 0o644), "a", InteractiveMode::Never);
    assert!(matches!(d.resolve(Ok(false)), RmStatus::Accept));
}

#[test]
fn protected_empty_file_declined_in_always_mode() {
    let d = rmx::file::prompt(&meta(0, 0o444), "f", InteractiveMode::Always);
    assert_eq!(question(&d), "rm: remove write-protected regular empty file 'f'?");
    let status = d.resolve(Ok(false));
    assert!(matches!(status, RmStatus::Declined));
    let mut w = Walk::new(vec!["/tmp/f".to_string()]);
    let frame = w.next().unwrap();
    assert_eq!(frame.path, "/tmp/f");
    assert!(matches!(w.settle(frame, status, false), Step::Skip));
    assert!(w.is_done());
}

#[test]
fn non_recursive_directory_without_dir_option_is_directory() {
    for mode in [InteractiveMode::Always, InteractiveMode::Once, InteractiveMode::Never] {
        let d = dir::prompt(&opts(false, false), "/tmp/d", &meta(4096, 0o555), "d", mode, false, Ok(false));
        assert!(!d.asks());
        match d {
            Decision::Settled(RmStatus::Failed(Error::IsDirectory(n))) => assert_eq!(n, "d"),
            other => panic!("unexpected {:?}", other),
        }
    }
}

#[test]
fn non_recursive_non_empty_directory_with_dir_option_not_empty() {
    for mode in [InteractiveMode::Always, InteractiveMode::Once, InteractiveMode::Never] {
        let d = dir::prompt(&opts(false, true), "/tmp/d", &meta(4096, 0o555), "d", mode, false, Ok(false));
        assert!(!d.asks());
        match d {
            Decision::Settled(RmStatus::Failed(Error::DirectoryNotEmpty(n))) => assert_eq!(n, "d"),
            other => panic!("unexpected {:?}", other),
        }
    }
}

#[test]
fn empty_directory_with_dir_option_accepted() {
    let d = dir::prompt(&opts(false, true), "/tmp/e", &meta(4096, 0o755), "e", InteractiveMode::Never, false, Ok(true));
    assert!(!d.asks());
    assert!(matches!(d, Decision::Settled(RmStatus::Accept)));
}

#[test]
fn empty_directory_with_dir_option_asked_in_always_mode() {
    let d = dir::prompt(&opts(false, true), "/tmp/e", &meta(4096, 0o755), "e", InteractiveMode::Always, false, Ok(true));
    assert_eq!(question(&d), "rm: remove directory 'e'?");
    assert!(matches!(d.resolve(Ok(true)), RmStatus::Accept));
}

#[test]
fn failed_probe_fails_directory() {
    let d = dir::prompt(&opts(true, false), "/tmp/d", &meta(4096, 0o755), "d", InteractiveMode::Always, false, Err(io("denied")));
    match d {
        Decision::Settled(RmStatus::Failed(Error::Io(m))) => assert_eq!(m, "denied"),
        other => panic!("unexpected {:?}", other),
    }
}

#[test]
fn recursive_first_offer_asks_to_descend_in_always_mode() {
    let d = dir::prompt(&opts(true, false), "/tmp/d", &meta(4096, 0o755), "d", InteractiveMode::Always, false, Ok(false));
    assert_eq!(question(&d), "rm: descend into directory 'd'?");
    match d.resolve(Ok(true)) {
        RmStatus::Descend(p) => assert_eq!(p, "/tmp/d"),
        other => panic!("unexpected {:?}", other),
    }
}

#[test]
fn recursive_first_offer_of_protected_directory_asks_in_never_mode() {
    let d = dir::prompt(&opts(true, false), "/tmp/d", &meta(4096, 0o555), "d", InteractiveMode::Never, false, Ok(false));
    assert_eq!(question(&d), "rm: descend into write-protected directory 'd'?");
    match d.resolve(Ok(true)) {
        RmStatus::Descend(p) => assert_eq!(p, "/tmp/d"),
        other => panic!("unexpected {:?}", other),
    }
}

#[test]
fn recursive_first_offer_force_accepted_still_walks_children() {
    for mode in [InteractiveMode::Once, InteractiveMode::Never] {
        let opt = opts(true, false);
        let d = dir::prompt(&opt, "/tmp/d", &meta(4096, 0o755), "d", mode, false, Ok(false));
        let status = d.resolve(Ok(false));
        assert!(matches!(status, RmStatus::Accept));
        let mut w = Walk::new(vec!["/tmp/d".to_string()]);
        let frame = w.next().unwrap();
        let unwalked = dir::must_descend(&opt, false, frame.visited);
        assert!(unwalked);
        match w.settle(frame, status, unwalked) {
            Step::List(p) => assert_eq!(p, "/tmp/d"),
            other => panic!("unexpected {:?}", other),
        }
    }
}

#[test]
fn reoffered_directory_asks_to_remove() {
    let d = dir::prompt(&opts(true, false), "/tmp/d", &meta(4096, 0o755), "d", InteractiveMode::Always, true, Ok(false));
    assert_eq!(question(&d), "rm: remove directory 'd'?");
    assert!(matches!(d.resolve(Ok(true)), RmStatus::Accept));
    assert!(!dir::must_descend(&opts(true, false), false, true));
}

#[test]
fn once_mode_accepts_directory_without_question() {
    let d = dir::prompt(&opts(true, false), "/tmp/d", &meta(4096, 0o555), "d", InteractiveMode::Once, true, Ok(true));
    assert!(matches!(d, Decision::Settled(RmStatus::Accept)));
}

#[test]
fn declined_directory_is_skipped_with_its_children() {
    let opt = opts(true, false);
    let d = dir::prompt(&opt, "/tmp/d", &meta(4096, 0o755), "d", InteractiveMode::Always, false, Ok(false));
    let status = d.resolve(Ok(false));
    let mut w = Walk::new(vec!["/tmp/d".to_string()]);
    let frame = w.next().unwrap();
    assert!(matches!(w.settle(frame, status, true), Step::Skip));
    assert!(w.is_done());
}

#[test]
fn directory_with_one_file_removed_post_order() {
    let opt = opts(true, false);
    let mode = InteractiveMode::Never;
    let mut w = Walk::new(vec!["/tmp/d".to_string()]);

    let frame = w.next().unwrap();
    assert_eq!(frame.path, "/tmp/d");
    assert!(!frame.visited);
    let d = dir::prompt(&opt, &frame.path, &meta(4096, 0o755), "d", mode, frame.visited, Ok(false));
    let unwalked = dir::must_descend(&opt, false, frame.visited);
    match w.settle(frame, d.resolve(Ok(false)), unwalked) {
        Step::List(p) => assert_eq!(p, "/tmp/d"),
        other => panic!("unexpected {:?}", other),
    }
    assert!(w.descend(Ok(vec!["/tmp/d/a".to_string()])).is_none());

    let frame = w.next().unwrap();
    assert_eq!(frame.path, "/tmp/d/a");
    assert!(!frame.visited);
    let d = rmx::file::prompt(&meta(7, 0o644), "a", mode);
    assert!(!d.asks());
    match w.settle(frame, d.resolve(Ok(false)), false) {
        Step::Delete(p) => assert_eq!(p, "/tmp/d/a"),
        other => panic!("unexpected {:?}", other),
    }

    let frame = w.next().unwrap();
    assert_eq!(frame.path, "/tmp/d");
    assert!(frame.visited);
    let d = dir::prompt(&opt, &frame.path, &meta(4096, 0o755), "d", mode, frame.visited, Ok(true));
    assert!(!d.asks());
    let unwalked = dir::must_descend(&opt, true, frame.visited);
    match w.settle(frame, d.resolve(Ok(false)), unwalked) {
        Step::Delete(p) => assert_eq!(p, "/tmp/d"),
        other => panic!("unexpected {:?}", other),
    }
    assert!(w.next().is_none());
}

#[test]
fn children_resolved_before_parent_reoffer() {
    let mut w = Walk::new(vec!["/r".to_string()]);
    let mut order: Vec<(String, bool)> = Vec::new();
    while let Some(frame) = w.next() {
        order.push((frame.path.clone(), frame.visited));
        let path = frame.path.clone();
        let children: Option<Vec<String>> = match (path.as_str(), frame.visited) {
            ("/r", false) => Some(vec!["/r/a".to_string(), "/r/s".to_string(), "/r/z".to_string()]),
            ("/r/s", false) => Some(vec!["/r/s/b".to_string()]),
            _ => None,
        };
        let status = match children {
            Some(_) => RmStatus::Descend(path.clone()),
            None => RmStatus::Accept,
        };
        match w.settle(frame, status, false) {
            Step::List(_) => assert!(w.descend(Ok(children.unwrap())).is_none()),
            Step::Delete(p) => assert_eq!(p, path),
            other => panic!("unexpected {:?}", other),
        }
    }
    let expected = vec![
        ("/r", false),
        ("/r/a", false),
        ("/r/s", false),
        ("/r/s/b", false),
        ("/r/s", true),
        ("/r/z", false),
        ("/r", true),
    ];
    let got: Vec<(&str, bool)> = order.iter().map(|(p, v)| (p.as_str(), *v)).collect();
    assert_eq!(got, expected);
}

#[test]
fn operands_walked_in_order() {
    let mut w = Walk::new(vec!["x".to_string(), "y".to_string(), "z".to_string()]);
    let mut seen: Vec<String> = Vec::new();
    while let Some(Frame { path, visited }) = w.next() {
        assert!(!visited);
        seen.push(path);
    }
    assert_eq!(seen, vec!["x", "y", "z"]);
    assert!(Walk::new(Vec::new()).is_done());
}

#[test]
fn failure_aborts_the_rest_of_the_walk() {
    let mut w = Walk::new(vec!["x".to_string(), "y".to_string()]);
    let frame = w.next().unwrap();
    match w.settle(frame, RmStatus::Failed(Error::NoSuchFile("x".to_string())), false) {
        Step::Abort(Error::NoSuchFile(n)) => assert_eq!(n, "x"),
        other => panic!("unexpected {:?}", other),
    }
    assert!(w.is_done());
    assert!(w.next().is_none());
}

#[test]
fn failed_listing_aborts_the_rest_of_the_walk() {
    let mut w = Walk::new(vec!["/d".to_string(), "y".to_string()]);
    let frame = w.next().unwrap();
    assert!(matches!(w.settle(frame, RmStatus::Descend("/d".to_string()), false), Step::List(_)));
    match w.descend(Err(io("gone"))) {
        Some(Error::Io(m)) => assert_eq!(m, "gone"),
        other => panic!("unexpected {:?}", other),
    }
    assert!(w.is_done());
}

#[test]
fn error_lines() {
    assert_eq!(Error::UnknownEntity("s".to_string()).report(), "rm: cannot remove 's': Unknown file type");
    assert_eq!(Error::NoSuchFile("n".to_string()).report(), "rm: cannot remove 'n': No such file or directory");
    assert_eq!(Error::IsDirectory("d".to_string()).report(), "rm: cannot remove 'd': Is a directory");
    assert_eq!(Error::DirectoryNotEmpty("d".to_string()).report(), "rm: cannot remove 'd': Directory not empty");
    assert_eq!(io("broken pipe").report(), "rm: broken pipe");
}

#[test]
fn missing_operand_unless_forced() {
    assert!(opts(false, false).missing_operand());
    let forced = RmOptions { recursive: false, force: true, dir: false, file: Vec::new() };
    assert!(!forced.missing_operand());
    let given = RmOptions { recursive: true, force: false, dir: false, file: vec!["a".to_string()] };
    assert!(!given.missing_operand());
}
