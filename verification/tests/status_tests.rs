use git_check::status::{Status, StatusKind};
use git_check::text::{chars_of, contains, decimal_string, occurs_in};

const CLEAN: &str = "On branch main\nYour branch is up to date with 'origin/main'.\n\nnothing to commit, working tree clean\n";

fn classify(text: &str) -> Status {
    Status::from_str(text).unwrap()
}

#[test]
fn clean_text_is_clean() {
    assert_eq!(classify(CLEAN), Status::Clean);
    assert_eq!(classify("nothing to commit, working tree clean"), Status::Clean);
}

#[test]
fn detached_head_is_recognized() {
    assert_eq!(
        classify("HEAD detached at 1a2b3c4\nnothing to commit, working tree clean\n"),
        Status::DetachedHead
    );
}

#[test]
fn detached_head_precedes_untracked_files() {
    let text = "HEAD detached at 1a2b3c4\nUntracked files:\n  (use \"git add <file>...\")\n\tnotes.txt\n";
    assert_eq!(classify(text), Status::DetachedHead);
    let swapped = "Untracked files:\n\tnotes.txt\nHEAD detached at 1a2b3c4\n";
    assert_eq!(classify(swapped), Status::DetachedHead);
}

#[test]
fn unstaged_changes_are_uncommitted() {
    let text = "On branch main\nChanges not staged for commit:\n\tmodified:   a.rs\n";
    assert_eq!(classify(text), Status::UncommittedChanges);
}

#[test]
fn staged_changes_are_uncommitted() {
    let text = "On branch main\nChanges to be committed:\n\tnew file:   a.rs\n";
    assert_eq!(classify(text), Status::UncommittedChanges);
}

#[test]
fn diverged_branch_is_recognized() {
    let text = "On branch main\nYour branch and 'origin/main' have diverged,\nand have 1 and 2 different commits each, respectively.\n\nnothing to commit, working tree clean\n";
    assert_eq!(classify(text), Status::DivergedFromRemote);
}

#[test]
fn branch_ahead_is_unpushed() {
    let text = "On branch main\nYour branch is ahead of 'origin/main' by 1 commit.\n\nnothing to commit, working tree clean\n";
    assert_eq!(classify(text), Status::UnpushedChanges);
}

#[test]
fn untracked_files_are_recognized() {
    let text = "On branch main\nUntracked files:\n\tnotes.txt\n\nnothing added to commit but untracked files present\n";
    assert_eq!(classify(text), Status::UntrackedFiles);
}

#[test]
fn uncommitted_precedes_diverged_ahead_and_untracked() {
    let text = "Your branch and 'origin/main' have diverged,\nYour branch is ahead of 'origin/main'\nUntracked files:\nChanges not staged for commit:\n";
    assert_eq!(classify(text), Status::UncommittedChanges);
}

#[test]
fn diverged_precedes_ahead() {
    assert_eq!(classify("is ahead of\nhave diverged\n"), Status::DivergedFromRemote);
}

#[test]
fn ahead_precedes_untracked() {
    assert_eq!(classify("Untracked files\nis ahead of\n"), Status::UnpushedChanges);
}

#[test]
fn untracked_precedes_clean() {
    assert_eq!(
        classify("nothing to commit, working tree clean\nUntracked files"),
        Status::UntrackedFiles
    );
}

#[test]
fn unmatched_text_is_kept_whole() {
    let text = "  something git never printed before\n\twith tabs and \u{e9}\u{4e2d}\n";
    assert_eq!(classify(text), Status::Unrecognized(text.to_string()));
    assert_eq!(classify(""), Status::Unrecognized(String::new()));
}

#[test]
fn markers_are_case_sensitive() {
    let text = "head detached\nuntracked files\nNothing to commit, working tree clean";
    assert_eq!(classify(text), Status::Unrecognized(text.to_string()));
}

#[test]
fn from_str_never_fails() {
    for text in ["", "x", CLEAN, "HEAD detached", "\n\n"] {
        assert!(Status::from_str(text).is_ok());
    }
}

#[test]
fn same_variant_ignores_the_text() {
    let x = Status::QueryError("x".to_string());
    let y = Status::QueryError("y".to_string());
    let u = Status::Unrecognized("x".to_string());
    assert!(x.is_same_variant(&y));
    assert!(y.is_same_variant(&x));
    assert!(!u.is_same_variant(&x));
    assert!(!x.is_same_variant(&u));
    assert!(u.is_same_variant(&Status::Unrecognized(String::new())));
    assert!(Status::Clean.is_same_variant(&Status::Clean));
    assert!(!Status::Clean.is_same_variant(&Status::NoRemote));
    assert!(!Status::NoRepo.is_same_variant(&x));
}

#[test]
fn equality_compares_the_text() {
    assert_eq!(Status::QueryError("x".to_string()), Status::QueryError("x".to_string()));
    assert_ne!(Status::QueryError("x".to_string()), Status::QueryError("y".to_string()));
    assert_ne!(Status::QueryError("x".to_string()), Status::Unrecognized("x".to_string()));
    assert_eq!(Status::Clean, Status::Clean);
    assert_ne!(Status::Clean, Status::NoRepo);
}

#[test]
fn clone_keeps_variant_and_text() {
    let all = vec![
        Status::NoRepo,
        Status::QueryError("boom".to_string()),
        Status::NoRemote,
        Status::DetachedHead,
        Status::UncommittedChanges,
        Status::DivergedFromRemote,
        Status::UnpushedChanges,
        Status::UntrackedFiles,
        Status::Clean,
        Status::Unrecognized("??".to_string()),
    ];
    for status in &all {
        assert_eq!(&status.clone(), status);
    }
}

#[test]
fn kind_of_each_variant() {
    assert_eq!(Status::NoRepo.kind(), StatusKind::NoRepo);
    assert_eq!(Status::QueryError("e".to_string()).kind(), StatusKind::QueryError);
    assert_eq!(Status::NoRemote.kind(), StatusKind::NoRemote);
    assert_eq!(Status::DetachedHead.kind(), StatusKind::DetachedHead);
    assert_eq!(Status::UncommittedChanges.kind(), StatusKind::UncommittedChanges);
    assert_eq!(Status::DivergedFromRemote.kind(), StatusKind::DivergedFromRemote);
    assert_eq!(Status::UnpushedChanges.kind(), StatusKind::UnpushedChanges);
    assert_eq!(Status::UntrackedFiles.kind(), StatusKind::UntrackedFiles);
    assert_eq!(Status::Clean.kind(), StatusKind::Clean);
    assert_eq!(Status::Unrecognized("u".to_string()).kind(), StatusKind::Unrecognized);
}

#[test]
fn display_order_lists_every_kind_once() {
    assert_eq!(
        StatusKind::display_order(),
        vec![
            StatusKind::NoRepo,
            StatusKind::QueryError,
            StatusKind::NoRemote,
            StatusKind::DetachedHead,
            StatusKind::UncommittedChanges,
            StatusKind::DivergedFromRemote,
            StatusKind::UnpushedChanges,
            StatusKind::UntrackedFiles,
            StatusKind::Clean,
            StatusKind::Unrecognized,
        ]
    );
}

#[test]
fn labels_of_the_kinds() {
    assert_eq!(StatusKind::NoRepo.label(), "Not a git repository");
    assert_eq!(StatusKind::QueryError.label(), "Error");
    assert_eq!(StatusKind::NoRemote.label(), "No remote");
    assert_eq!(StatusKind::DetachedHead.label(), "In detached head mode");
    assert_eq!(StatusKind::UncommittedChanges.label(), "Uncommitted changes");
    assert_eq!(StatusKind::DivergedFromRemote.label(), "Diverged from remote");
    assert_eq!(StatusKind::UnpushedChanges.label(), "Unpushed changes");
    assert_eq!(StatusKind::UntrackedFiles.label(), "Untracked files");
    assert_eq!(StatusKind::Clean.label(), "Clean");
    assert_eq!(StatusKind::Unrecognized.label(), "Unknown status");
}

#[test]
fn to_string_is_the_label_without_text() {
    assert_eq!(Status::NoRepo.to_string(), "Not a git repository");
    assert_eq!(Status::Clean.to_string(), "Clean");
    assert_eq!(Status::QueryError(String::new()).to_string(), "Error");
    assert_eq!(Status::Unrecognized(String::new()).to_string(), "Unknown status");
}

#[test]
fn to_string_adds_the_text_in_parentheses() {
    assert_eq!(Status::QueryError("fatal: boom".to_string()).to_string(), "Error (fatal: boom)");
    assert_eq!(Status::Unrecognized("odd".to_string()).to_string(), "Unknown status (odd)");
}

#[test]
fn contains_finds_what_std_finds() {
    let texts = ["", "a", "abc", "aab", "abab", "xxabxx", "\u{e9}t\u{e9}", "a\u{4e2d}b", "nothing to commit"];
    let pats = ["", "a", "b", "ab", "aab", "abc", "bc", "abcd", "\u{e9}", "t\u{e9}", "\u{4e2d}b", "to commit", "x"];
    for text in texts {
        for pat in pats {
            assert_eq!(contains(text, pat), text.contains(pat), "{:?} in {:?}", pat, text);
        }
    }
}

#[test]
fn contains_edge_cases() {
    assert!(contains("", ""));
    assert!(contains("abc", ""));
    assert!(!contains("", "a"));
    assert!(!contains("ab", "abc"));
    assert!(contains("abc", "abc"));
    assert!(contains("xabc", "abc"));
    assert!(contains("abcx", "abc"));
    assert!(!contains("ABC", "abc"));
    assert!(contains("aaab", "aab"));
}

#[test]
fn chars_of_keeps_every_character() {
    assert_eq!(chars_of(""), Vec::<char>::new());
    assert_eq!(chars_of("a\u{e9}\u{4e2d}\n"), vec!['a', '\u{e9}', '\u{4e2d}', '\n']);
}

#[test]
fn occurs_in_on_characters() {
    let text = vec!['a', 'b', 'c'];
    assert!(occurs_in(&text, &vec!['b', 'c']));
    assert!(occurs_in(&text, &vec![]));
    assert!(!occurs_in(&text, &vec!['c', 'b']));
    assert!(!occurs_in(&vec![], &vec!['a']));
}

#[test]
fn decimal_string_of_numbers() {
    assert_eq!(decimal_string(0), "0");
    assert_eq!(decimal_string(7), "7");
    assert_eq!(decimal_string(9), "9");
    assert_eq!(decimal_string(10), "10");
    assert_eq!(decimal_string(1234567890), "1234567890");
    assert_eq!(decimal_string(u64::MAX), "18446744073709551615");
    for n in [11u64, 99, 100, 101, 4096, 52428800] {
        assert_eq!(decimal_string(n), format!("{}", n));
    }
}
