use fyla::watch::{
    has_extension, parse_extensions, start_watching, stop_watching, watch_candidate,
    watch_started, NewFile, Observation, StabilityCheck, Verdict, WatchState, DEBOUNCE_SECS,
    MAX_POLLS, POLL_SECS, STABLE_READINGS,
};

/// Feeds readings until the check no longer waits; the verdict and the
/// number of readings it took.
fn run(readings: impl Iterator<Item = Option<u64>>) -> (Verdict, usize) {
    let mut check = StabilityCheck::new();
    let mut taken = 0;
    for size in readings {
        taken += 1;
        match check.observe(size) {
            Observation::Wait(next) => check = next,
            Observation::Stable => return (Verdict::Stable, taken),
            Observation::GiveUp => return (Verdict::GiveUp, taken),
        }
    }
    (Verdict::Wait, taken)
}

#[test]
fn a_file_written_in_bursts_is_stable_at_the_second_unchanged_reading() {
    // The size changes every half second for three seconds, then stays:
    // the readings, one a second, are those at seconds 1, 2, 3, 4.
    let size_at = |half_seconds: u64| -> u64 { 100 * half_seconds.min(6) };
    let readings = |seconds: u64| (1..=seconds).map(move |s| Some(size_at(2 * s)));
    assert_eq!(run(readings(1)), (Verdict::Wait, 1));
    assert_eq!(run(readings(2)), (Verdict::Wait, 2));
    assert_eq!(run(readings(3)), (Verdict::Wait, 3));
    assert_eq!(run(readings(4)), (Verdict::Stable, 4));
    assert_eq!(run(readings(60)), (Verdict::Stable, 4));
}

#[test]
fn a_file_that_never_stops_growing_is_never_reported() {
    assert_eq!(run((1..1000u64).map(Some)), (Verdict::GiveUp, 30));
    assert_eq!(run((1..1000u64).map(|i| Some(i * i))), (Verdict::GiveUp, 30));
}

#[test]
fn two_equal_readings_in_a_row_are_enough() {
    assert_eq!(run(std::iter::repeat(Some(42))), (Verdict::Stable, 2));
    assert_eq!(run([Some(1), Some(42), Some(42)].into_iter()), (Verdict::Stable, 3));
    assert_eq!(run([Some(42), Some(43), Some(42), Some(43), Some(43)].into_iter()), (Verdict::Stable, 5));
    assert_eq!(run((1..1000u64).map(|i| Some(i / 2))), (Verdict::Stable, 3));
    assert_eq!(run([Some(42)].into_iter()), (Verdict::Wait, 1));
}

#[test]
fn an_empty_or_unreadable_file_is_never_stable() {
    assert_eq!(run(std::iter::repeat(Some(0))), (Verdict::GiveUp, 30));
    assert_eq!(run(std::iter::repeat(None)), (Verdict::GiveUp, 30));
    assert_eq!(run([None, None, Some(0), Some(0), Some(7), None, Some(7), Some(7)].into_iter()), (Verdict::Stable, 8));
}

#[test]
fn a_file_that_settles_at_the_last_reading_is_still_reported() {
    let late = (1..=28u64).map(Some).chain([Some(500), Some(500)]);
    assert_eq!(run(late), (Verdict::Stable, 30));
    let too_late = (1..=29u64).map(Some).chain([Some(500), Some(500)]);
    assert_eq!(run(too_late), (Verdict::GiveUp, 30));
    assert_eq!((MAX_POLLS, POLL_SECS, DEBOUNCE_SECS, STABLE_READINGS), (30, 1, 1, 2));
}

#[test]
fn lists_of_extensions() {
    assert_eq!(parse_extensions("pdf"), vec!["pdf"]);
    assert_eq!(parse_extensions(" PDF, docx ,,Txt ,"), vec!["pdf", "docx", "txt"]);
    assert_eq!(parse_extensions(""), Vec::<String>::new());
    assert_eq!(parse_extensions(" , "), Vec::<String>::new());
    assert_eq!(parse_extensions("ÉXT"), vec!["éxt"]);
    let exts = parse_extensions("pdf,md");
    assert!(has_extension(&exts, &"md".chars().collect()));
    assert!(!has_extension(&exts, &"MD".chars().collect()));
    assert!(!has_extension(&vec![], &"md".chars().collect()));
}

#[test]
fn only_created_files_with_a_watched_extension_are_candidates() {
    let exts = parse_extensions("pdf, docx");
    assert_eq!(
        watch_candidate(true, "/inbox/Scan 1.PDF", &exts),
        Some(NewFile { path: "/inbox/Scan 1.PDF".to_string(), name: "Scan 1.PDF".to_string() })
    );
    assert_eq!(watch_candidate(false, "/inbox/a.pdf", &exts), None);
    assert_eq!(watch_candidate(true, "/inbox/a.txt", &exts), None);
    assert_eq!(watch_candidate(true, "/inbox/pdf", &exts), None);
    assert_eq!(watch_candidate(true, "/inbox/.pdf", &exts), None);
    assert_eq!(watch_candidate(true, "/inbox/a.pdf", &vec![]), None);
}

#[test]
fn starting_replaces_the_watch_and_stopping_ends_it() {
    let mut state = WatchState::Idle;
    assert!(!stop_watching(&mut state));
    let plan = start_watching(&mut state, "/inbox", "pdf, PNG");
    assert_eq!(state, WatchState::Idle);
    assert_eq!((plan.folder.as_str(), plan.debounce_secs), ("/inbox", 1));
    assert_eq!(plan.extensions, vec!["pdf", "png"]);
    watch_started(&mut state, plan);
    assert_eq!(state, WatchState::Watching { folder: "/inbox".to_string(), extensions: vec!["pdf".to_string(), "png".to_string()] });

    let second = start_watching(&mut state, "/other", "md");
    assert_eq!(state, WatchState::Idle);
    watch_started(&mut state, second);
    assert_eq!(state, WatchState::Watching { folder: "/other".to_string(), extensions: vec!["md".to_string()] });
    assert!(stop_watching(&mut state));
    assert_eq!(state, WatchState::Idle);
}
