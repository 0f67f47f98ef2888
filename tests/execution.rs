use scrape_tasks::{begin, resume, Action, ExecutionError, Progress, Reply, ScrapingTask, Stage, Step, TaskRun, LOGIN_SETTLE_MS};

fn s(text: &str) -> String {
    text.to_string()
}

fn task(name: &str, actions: Vec<Action>) -> ScrapingTask {
    ScrapingTask { name: s(name), actions }
}

/// Answers `step` as a page holding one checkbox in state `on` would.
fn checkbox_reply(step: &Step, on: &mut bool, clicks: &mut usize) -> Reply {
    match step {
        Step::QueryOne { .. } => Reply::Found(true),
        Step::ReadChecked => Reply::Checked(*on),
        Step::ClickFound => {
            *on = !*on;
            *clicks += 1;
            Reply::Done
        }
        _ => Reply::Done,
    }
}

fn run_on_checkbox(action: &Action, on: &mut bool, clicks: &mut usize) -> Progress {
    let (mut stage, mut step) = begin(action);
    loop {
        let reply = checkbox_reply(&step, on, clicks);
        match resume(action, stage, reply) {
            Progress::Next { stage: next_stage, step: next_step } => {
                stage = next_stage;
                step = next_step;
            }
            done => return done,
        }
    }
}

#[test]
fn goto_then_extract_yields_heading() {
    let t = task("T1", vec![
        Action::GoTo { url: s("https://example.test") },
        Action::Extract { selector: s("h1"), attribute: None },
    ]);
    let (mut run, step) = TaskRun::start(t);
    assert_eq!(step, Some(Step::Goto { url: s("https://example.test") }));
    assert_eq!(run.advance(Reply::Done), Some(Step::QueryAll { selector: s("h1") }));
    assert_eq!(run.advance(Reply::Count(1)), Some(Step::ReadFirstText));
    assert_eq!(run.advance(Reply::Value(Some(s("Hello")))), Some(Step::Close));
    assert!(!run.is_finished());
    assert_eq!(run.advance(Reply::Done), None);
    assert!(run.is_finished());
    assert_eq!(run.failed_at(), None);
    assert_eq!(run.into_outcome(), Some(Ok(vec![s("Hello")])));
}

#[test]
fn download_writes_fetched_bytes() {
    let t = task("D", vec![Action::DownloadFile {
        url: s("https://example.test/f.bin"),
        dist_path: s("/tmp/f.bin"),
    }]);
    let (mut run, step) = TaskRun::start(t);
    assert_eq!(step, Some(Step::Fetch { url: s("https://example.test/f.bin") }));
    assert_eq!(
        run.advance(Reply::Body(vec![1, 2, 3])),
        Some(Step::WriteFile { path: s("/tmp/f.bin"), bytes: vec![1, 2, 3] })
    );
    assert_eq!(run.advance(Reply::Done), Some(Step::Close));
    assert_eq!(run.advance(Reply::Done), None);
    assert_eq!(run.into_outcome(), Some(Ok(vec![])));
}

#[test]
fn download_write_failure_is_io_error() {
    let a = Action::DownloadFile { url: s("u"), dist_path: s("p") };
    assert_eq!(resume(&a, Stage::Pending(0), Reply::Failed), Progress::Fail(ExecutionError::Navigation));
    assert_eq!(resume(&a, Stage::Pending(1), Reply::Failed), Progress::Fail(ExecutionError::Io));
}

#[test]
fn failing_action_closes_session_once_and_stops() {
    let t = task("F", vec![
        Action::GoTo { url: s("https://example.test") },
        Action::Click { selector: s("#missing") },
        Action::GoTo { url: s("https://never.test") },
    ]);
    let (mut run, step) = TaskRun::start(t);
    let mut steps = vec![step];
    steps.push(run.advance(Reply::Done));
    steps.push(run.advance(Reply::Failed));
    steps.push(run.advance(Reply::Failed));
    steps.push(run.advance(Reply::Done));
    assert_eq!(run.failed_at(), Some(1));
    let closes = steps.iter().filter(|x| **x == Some(Step::Close)).count();
    assert_eq!(closes, 1);
    assert_eq!(steps[2], Some(Step::Close));
    assert!(!steps.contains(&Some(Step::Goto { url: s("https://never.test") })));
    assert_eq!(run.into_outcome(), Some(Err(ExecutionError::Element)));
}

#[test]
fn empty_task_closes_at_once() {
    let (mut run, step) = TaskRun::start(task("E", vec![]));
    assert_eq!(step, Some(Step::Close));
    assert_eq!(run.advance(Reply::Failed), None);
    assert_eq!(run.into_outcome(), Some(Ok(vec![])));
}

#[test]
fn outcome_is_none_before_the_end() {
    let (run, _) = TaskRun::start(task("W", vec![Action::Wait { milliseconds: 0 }]));
    assert_eq!(run.into_outcome(), None);
}

#[test]
fn wait_never_fails() {
    let a = Action::Wait { milliseconds: 0 };
    assert_eq!(begin(&a), (Stage::Pending(0), Step::Pause { milliseconds: 0 }));
    assert_eq!(resume(&a, Stage::Pending(0), Reply::Failed), Progress::Complete(None));
}

#[test]
fn checkbox_twice_clicks_once() {
    let a = Action::FillCheckbox { selector: s("#agree"), checked: true };
    let mut on = false;
    let mut clicks: usize = 0;
    assert_eq!(run_on_checkbox(&a, &mut on, &mut clicks), Progress::Complete(None));
    assert_eq!(run_on_checkbox(&a, &mut on, &mut clicks), Progress::Complete(None));
    assert_eq!(clicks, 1);
    assert!(on);
}

#[test]
fn checkbox_missing_is_element_error() {
    let a = Action::FillCheckbox { selector: s("#agree"), checked: false };
    assert_eq!(resume(&a, Stage::Pending(0), Reply::Found(false)), Progress::Fail(ExecutionError::Element));
}

#[test]
fn navigate_missing_element_is_noop() {
    let a = Action::Navigate { selector: s("a.next"), attribute: s("href") };
    assert_eq!(begin(&a), (Stage::Pending(0), Step::QueryOne { selector: s("a.next") }));
    assert_eq!(resume(&a, Stage::Pending(0), Reply::Found(false)), Progress::Complete(None));
}

#[test]
fn navigate_missing_attribute_is_noop() {
    let a = Action::Navigate { selector: s("a.next"), attribute: s("href") };
    assert_eq!(resume(&a, Stage::Pending(1), Reply::Value(None)), Progress::Complete(None));
    assert_eq!(resume(&a, Stage::Pending(1), Reply::Failed), Progress::Complete(None));
}

#[test]
fn navigate_failed_navigation_is_fatal() {
    let a = Action::Navigate { selector: s("a.next"), attribute: s("href") };
    assert_eq!(
        resume(&a, Stage::Pending(0), Reply::Found(true)),
        Progress::Next { stage: Stage::Pending(1), step: Step::ReadFoundAttribute { name: s("href") } }
    );
    assert_eq!(
        resume(&a, Stage::Pending(1), Reply::Value(Some(s("https://bad.test")))),
        Progress::Next { stage: Stage::Pending(2), step: Step::Goto { url: s("https://bad.test") } }
    );
    assert_eq!(resume(&a, Stage::Pending(2), Reply::Failed), Progress::Fail(ExecutionError::Navigation));
}

#[test]
fn extract_reads_first_element_attribute() {
    let a = Action::Extract { selector: s("a"), attribute: Some(s("href")) };
    assert_eq!(
        resume(&a, Stage::Pending(0), Reply::Count(3)),
        Progress::Next { stage: Stage::Pending(1), step: Step::ReadFirstAttribute { name: s("href") } }
    );
    assert_eq!(resume(&a, Stage::Pending(1), Reply::Value(Some(s("/x")))), Progress::Complete(Some(s("/x"))));
}

#[test]
fn extract_first_element_without_value_yields_nothing() {
    let a = Action::Extract { selector: s("a"), attribute: Some(s("href")) };
    assert_eq!(resume(&a, Stage::Pending(1), Reply::Value(None)), Progress::Complete(None));
    assert_eq!(resume(&a, Stage::Pending(1), Reply::Value(Some(s("")))), Progress::Complete(None));
    assert_eq!(resume(&a, Stage::Pending(1), Reply::Failed), Progress::Fail(ExecutionError::Element));
}

#[test]
fn extract_with_no_match_yields_nothing() {
    let a = Action::Extract { selector: s("h2"), attribute: None };
    assert_eq!(resume(&a, Stage::Pending(0), Reply::Count(0)), Progress::Complete(None));
    assert_eq!(resume(&a, Stage::Pending(0), Reply::Failed), Progress::Fail(ExecutionError::Element));
}

#[test]
fn extract_in_a_task_reads_one_element_only() {
    let t = task("X", vec![Action::Extract { selector: s("li"), attribute: None }]);
    let (mut run, _) = TaskRun::start(t);
    assert_eq!(run.advance(Reply::Count(3)), Some(Step::ReadFirstText));
    assert_eq!(run.advance(Reply::Value(None)), Some(Step::Close));
    assert_eq!(run.advance(Reply::Done), None);
    assert_eq!(run.into_outcome(), Some(Ok(vec![])));
}

#[test]
fn login_runs_its_steps_in_order() {
    let t = task("L", vec![Action::Login {
        url: s("https://example.test/login"),
        username_selector: s("#user"),
        password_selector: s("#pass"),
        username: s("alice"),
        password: s("pw-alice"),
        submit_selector: s("#go"),
    }]);
    let (mut run, step) = TaskRun::start(t);
    assert_eq!(step, Some(Step::Goto { url: s("https://example.test/login") }));
    assert_eq!(run.advance(Reply::Done), Some(Step::Fill { selector: s("#user"), text: s("alice") }));
    assert_eq!(run.advance(Reply::Done), Some(Step::Fill { selector: s("#pass"), text: s("pw-alice") }));
    assert_eq!(run.advance(Reply::Done), Some(Step::Click { selector: s("#go") }));
    assert_eq!(run.advance(Reply::Done), Some(Step::Pause { milliseconds: LOGIN_SETTLE_MS }));
    assert_eq!(LOGIN_SETTLE_MS, 2000);
    assert_eq!(run.advance(Reply::Done), Some(Step::Close));
    assert_eq!(run.advance(Reply::Done), None);
    assert_eq!(run.into_outcome(), Some(Ok(vec![])));
}

#[test]
fn login_failing_fill_is_element_error() {
    let a = Action::Login {
        url: s("u"),
        username_selector: s("#user"),
        password_selector: s("#pass"),
        username: s("alice"),
        password: s("pw"),
        submit_selector: s("#go"),
    };
    assert_eq!(resume(&a, Stage::Pending(0), Reply::Failed), Progress::Fail(ExecutionError::Navigation));
    assert_eq!(resume(&a, Stage::Pending(1), Reply::Failed), Progress::Fail(ExecutionError::Element));
}

#[test]
fn single_step_actions_map_to_their_steps_and_errors() {
    let cases = vec![
        (Action::GoTo { url: s("u") }, Step::Goto { url: s("u") }, ExecutionError::Navigation),
        (Action::Click { selector: s("b") }, Step::Click { selector: s("b") }, ExecutionError::Element),
        (Action::Input { selector: s("i"), text: s("t") }, Step::Fill { selector: s("i"), text: s("t") }, ExecutionError::Element),
        (Action::SelectDropdown { selector: s("d"), option: s("o") }, Step::Select { selector: s("d"), option: s("o") }, ExecutionError::Element),
        (Action::Hover { selector: s("h") }, Step::Hover { selector: s("h") }, ExecutionError::Element),
        (Action::DoubleClick { selector: s("d") }, Step::DoubleClick { selector: s("d") }, ExecutionError::Element),
        (Action::RightClick { selector: s("r") }, Step::RightClick { selector: s("r") }, ExecutionError::Element),
        (Action::RunScript { script: s("1+1") }, Step::Evaluate { script: s("1+1") }, ExecutionError::Script),
    ];
    for (action, step, kind) in cases {
        assert_eq!(begin(&action), (Stage::Pending(0), step));
        assert_eq!(resume(&action, Stage::Pending(0), Reply::Done), Progress::Complete(None));
        assert_eq!(resume(&action, Stage::Pending(0), Reply::Failed), Progress::Fail(kind));
        assert_eq!(resume(&action, Stage::Pending(0), Reply::Count(1)), Progress::Fail(kind));
    }
}

#[test]
fn all_extracted_values_are_collected_in_order() {
    let t = task("M", vec![
        Action::Extract { selector: s("h1"), attribute: None },
        Action::Extract { selector: s("h2"), attribute: None },
        Action::Extract { selector: s("h3"), attribute: None },
    ]);
    let (mut run, _) = TaskRun::start(t);
    run.advance(Reply::Count(1));
    run.advance(Reply::Value(Some(s("one"))));
    run.advance(Reply::Count(0));
    run.advance(Reply::Count(1));
    assert_eq!(run.advance(Reply::Value(Some(s("three")))), Some(Step::Close));
    run.advance(Reply::Done);
    assert_eq!(run.into_outcome(), Some(Ok(vec![s("one"), s("three")])));
}
