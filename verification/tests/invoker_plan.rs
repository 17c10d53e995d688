use smart_stock_insider::invoker::{
    fallback_step, invocations_for, FallbackStep, Invocation, OsFamily, PlatformAction,
};

fn flat(invs: &[Invocation]) -> Vec<(String, Vec<String>)> {
    invs.iter().map(|i| (i.program.clone(), i.args.clone())).collect()
}

#[test]
fn open_path_has_one_invocation_per_os() {
    let action = PlatformAction::OpenPath("https://example.com".to_string());
    assert_eq!(
        flat(&invocations_for(&action, OsFamily::Windows)),
        vec![(
            "cmd".to_string(),
            vec!["/C".to_string(), "start".to_string(), "https://example.com".to_string()]
        )]
    );
    assert_eq!(
        flat(&invocations_for(&action, OsFamily::MacOs)),
        vec![("open".to_string(), vec!["https://example.com".to_string()])]
    );
    assert_eq!(
        flat(&invocations_for(&action, OsFamily::Linux)),
        vec![("xdg-open".to_string(), vec!["https://example.com".to_string()])]
    );
}

#[test]
fn reveal_in_folder_is_single_except_on_linux() {
    let action = PlatformAction::RevealInFolder("/tmp/report.txt".to_string());
    assert_eq!(
        flat(&invocations_for(&action, OsFamily::Windows)),
        vec![(
            "explorer".to_string(),
            vec!["/select,".to_string(), "/tmp/report.txt".to_string()]
        )]
    );
    assert_eq!(
        flat(&invocations_for(&action, OsFamily::MacOs)),
        vec![("open".to_string(), vec!["-R".to_string(), "/tmp/report.txt".to_string()])]
    );
    assert_eq!(
        flat(&invocations_for(&action, OsFamily::Linux)),
        vec![
            ("nautilus".to_string(), vec!["/tmp/report.txt".to_string()]),
            ("dolphin".to_string(), vec!["/tmp/report.txt".to_string()]),
            ("thunar".to_string(), vec!["/tmp/report.txt".to_string()]),
            ("pcmanfm".to_string(), vec!["/tmp/report.txt".to_string()]),
        ]
    );
}

#[test]
fn fallback_stops_at_first_success() {
    // Candidates [A, B, C]: A fails, B succeeds; the search reports success
    // without a step ever pointing at C.
    let after_a = fallback_step(false, 0, 3);
    match after_a {
        FallbackStep::TryNext(i) => assert_eq!(i, 1),
        FallbackStep::Report(_) => panic!("search gave up after the first candidate"),
    }
    let after_b = fallback_step(true, 1, 3);
    match after_b {
        FallbackStep::Report(r) => assert_eq!(r, Ok(())),
        FallbackStep::TryNext(_) => panic!("search went past a successful candidate"),
    }
}

#[test]
fn fallback_failure_carries_the_fixed_message() {
    let after_last = fallback_step(false, 2, 3);
    match after_last {
        FallbackStep::Report(r) => {
            assert_eq!(r, Err("No suitable file manager found".to_string()))
        }
        FallbackStep::TryNext(_) => panic!("search ran past the last candidate"),
    }
}
