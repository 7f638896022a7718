use resymo_agent::cache::{ExecCache, ExecOutput, Outcome, Poll};

const SECOND: u64 = 1_000_000_000;

fn ok_output(stdout: &str) -> Outcome {
    Outcome::Exited {
        output: ExecOutput { stdout: stdout.into(), stderr: String::new(), status: Some(0) },
        success: true,
        status_text: "exit status: 0".into(),
    }
}

/// One serialized call that finishes its attempt when it starts; counts runs.
fn collect(cache: &mut ExecCache, now: u64, runs: &mut u32, outcome: Outcome) -> Result<ExecOutput, String> {
    match cache.poll(now) {
        Poll::Run => {
            *runs += 1;
            cache.record(now, outcome)
        }
        Poll::Cached(answer) => answer,
    }
}

#[test]
fn starts_uninitialized() {
    let cache = ExecCache::new(60 * SECOND);
    assert_eq!(cache.cached(), Err("Not yet initialized".to_string()));
    assert!(cache.need_run(0));
    assert_eq!(cache.last_run(), None);
}

#[test]
fn twice_within_period_runs_once() {
    let mut cache = ExecCache::new(60 * SECOND);
    let mut runs = 0;
    let first = collect(&mut cache, 5 * SECOND, &mut runs, ok_output("one"));
    let second = collect(&mut cache, 30 * SECOND, &mut runs, ok_output("two"));
    assert_eq!(runs, 1);
    assert_eq!(first, second);
    assert_eq!(first.unwrap().stdout, "one");
}

#[test]
fn many_calls_after_period_run_once() {
    let mut cache = ExecCache::new(10 * SECOND);
    let mut runs = 0;
    collect(&mut cache, 0, &mut runs, ok_output("old"));
    let answers: Vec<_> = (0..8)
        .map(|i| collect(&mut cache, 11 * SECOND + i, &mut runs, ok_output("new")))
        .collect();
    assert_eq!(runs, 2);
    assert!(answers.iter().all(|a| a.as_ref().unwrap().stdout == "new"));
}

#[test]
fn exactly_one_period_is_still_fresh() {
    let mut cache = ExecCache::new(10 * SECOND);
    let mut runs = 0;
    collect(&mut cache, 0, &mut runs, ok_output("a"));
    collect(&mut cache, 10 * SECOND, &mut runs, ok_output("b"));
    assert_eq!(runs, 1);
    collect(&mut cache, 10 * SECOND + 1, &mut runs, ok_output("c"));
    assert_eq!(runs, 2);
}

#[test]
fn failures_are_cached_and_stamp_the_time() {
    let mut cache = ExecCache::new(10 * SECOND);
    let failed = Outcome::Exited {
        output: ExecOutput { stdout: String::new(), stderr: "boom".into(), status: Some(1) },
        success: false,
        status_text: "exit status: 1".into(),
    };
    let r = cache.record(3 * SECOND, failed);
    assert_eq!(r, Err("Command failed: rc == exit status: 1".to_string()));
    assert_eq!(cache.last_run(), Some(3 * SECOND));
    assert!(!cache.need_run(4 * SECOND));
    assert_eq!(cache.cached(), r);
    let r = cache.record(20 * SECOND, Outcome::SpawnFailed { message: "No such file".into() });
    assert_eq!(r, Err("No such file".to_string()));
    assert_eq!(cache.last_run(), Some(20 * SECOND));
}

#[test]
fn clock_going_back_does_not_run() {
    let mut cache = ExecCache::new(0);
    cache.record(50, ok_output("x"));
    assert!(!cache.need_run(10));
    assert!(!cache.need_run(50));
    assert!(cache.need_run(51));
}

#[test]
fn attempt_time_is_when_it_finished() {
    let mut cache = ExecCache::new(10 * SECOND);
    assert_eq!(cache.poll(0), Poll::Run);
    let r = cache.record(4 * SECOND, ok_output("slow"));
    assert_eq!(r.unwrap().stdout, "slow");
    assert_eq!(cache.last_run(), Some(4 * SECOND));
    assert!(!cache.need_run(14 * SECOND));
    assert!(cache.need_run(14 * SECOND + 1));
    assert_eq!(cache.period(), 10 * SECOND);
}

#[test]
fn poll_answers_from_cache_when_fresh() {
    let mut cache = ExecCache::new(10 * SECOND);
    cache.record(0, ok_output("kept"));
    match cache.poll(5 * SECOND) {
        Poll::Cached(answer) => assert_eq!(answer.unwrap().stdout, "kept"),
        Poll::Run => panic!("ran while fresh"),
    }
}
