use vstd::prelude::*;
use crate::session::{ExecutionError, Reply, Step};
use crate::task::Action;

verus! {

/// How long a login is given to settle after its form was submitted. This
/// is a heuristic delay: nothing checks that the login actually succeeded.
pub const LOGIN_SETTLE_MS: u64 = 2000;

/// Where an action stands while it waits for the session's reply.
#[derive(Debug, Clone, Copy, PartialEq, Eq)]
pub enum Stage {
    /// Waiting on the reply to the action's sub-step of this number.
    Pending(usize),
}

/// What an action does with a reply.
#[derive(Debug, Clone, PartialEq, Eq)]
pub enum Progress {
    /// The action goes on: the session performs `step`, and the action then
    /// stands at `stage`.
    Next { stage: Stage, step: Step },
    /// The action succeeded, with the value it extracted, if any.
    Complete(Option<String>),
    /// The action failed, and the task stops.
    Fail(ExecutionError),
}

/// The step that reads the first matched element for `Extract`: an
/// attribute when one is named, else the visible text.
pub open spec fn read_step(attribute: Option<String>) -> Step {
    match attribute {
        Some(name) => Step::ReadFirstAttribute { name },
        None => Step::ReadFirstText,
    }
}

/// The stage an action starts at and the first step it asks for.
pub open spec fn first_step(a: Action) -> (Stage, Step) {
    let s = Stage::Pending(0);
    match a {
        Action::GoTo { url } => (s, Step::Goto { url }),
        Action::Click { selector } => (s, Step::Click { selector }),
        Action::Input { selector, text } => (s, Step::Fill { selector, text }),
        Action::Extract { selector, .. } => (s, Step::QueryAll { selector }),
        Action::Wait { milliseconds } => (s, Step::Pause { milliseconds }),
        Action::Login { url, .. } => (s, Step::Goto { url }),
        Action::Navigate { selector, .. } => (s, Step::QueryOne { selector }),
        Action::FillCheckbox { selector, .. } => (s, Step::QueryOne { selector }),
        Action::SelectDropdown { selector, option } => (s, Step::Select { selector, option }),
        Action::Hover { selector } => (s, Step::Hover { selector }),
        Action::DoubleClick { selector } => (s, Step::DoubleClick { selector }),
        Action::RightClick { selector } => (s, Step::RightClick { selector }),
        Action::RunScript { script } => (s, Step::Evaluate { script }),
        Action::DownloadFile { url, .. } => (s, Step::Fetch { url }),
    }
}

/// An action made of one step: `Done` completes it, anything else fails it
/// with `kind`.
pub open spec fn single(reply: Reply, kind: ExecutionError) -> Progress {
    match reply {
        Reply::Done => Progress::Complete(None),
        _ => Progress::Fail(kind),
    }
}

/// A step of a chain: `Done` moves on to `next` at stage `n`, anything else
/// fails the action with `kind`.
pub open spec fn chain(reply: Reply, kind: ExecutionError, n: usize, next: Step) -> Progress {
    match reply {
        Reply::Done => Progress::Next { stage: Stage::Pending(n), step: next },
        _ => Progress::Fail(kind),
    }
}

/// `Extract`: only the first matched element is read. Its value, when
/// present and non-empty, is the result; otherwise the action completes
/// with no value. Later matched elements are never read.
pub open spec fn extract_progress(attribute: Option<String>, stage: Stage, reply: Reply) -> Progress {
    match stage {
        Stage::Pending(0) => match reply {
            Reply::Count(n) => if n == 0 {
                Progress::Complete(None)
            } else {
                Progress::Next { stage: Stage::Pending(1), step: read_step(attribute) }
            },
            _ => Progress::Fail(ExecutionError::Element),
        },
        _ => match reply {
            Reply::Value(v) => if v is Some && v->0@.len() > 0 {
                Progress::Complete(v)
            } else {
                Progress::Complete(None)
            },
            _ => Progress::Fail(ExecutionError::Element),
        },
    }
}

/// `Login`: navigate, fill both fields, submit, then pause for
/// `LOGIN_SETTLE_MS`; the first failing sub-step fails the whole action.
pub open spec fn login_progress(a: Action, stage: Stage, reply: Reply) -> Progress
    recommends a is Login,
{
    match stage {
        Stage::Pending(0) => chain(reply, ExecutionError::Navigation, 1,
            Step::Fill { selector: a->username_selector, text: a->username }),
        Stage::Pending(1) => chain(reply, ExecutionError::Element, 2,
            Step::Fill { selector: a->password_selector, text: a->password }),
        Stage::Pending(2) => chain(reply, ExecutionError::Element, 3,
            Step::Click { selector: a->submit_selector }),
        Stage::Pending(3) => chain(reply, ExecutionError::Element, 4,
            Step::Pause { milliseconds: LOGIN_SETTLE_MS }),
        _ => Progress::Complete(None),
    }
}

/// `Navigate`: a missing element or attribute is a successful no-op; a
/// navigation to a present value that fails is a `Navigation` error.
pub open spec fn navigate_progress(attribute: String, stage: Stage, reply: Reply) -> Progress {
    match stage {
        Stage::Pending(0) => match reply {
            Reply::Found(true) => Progress::Next {
                stage: Stage::Pending(1),
                step: Step::ReadFoundAttribute { name: attribute },
            },
            Reply::Found(false) => Progress::Complete(None),
            _ => Progress::Fail(ExecutionError::Element),
        },
        Stage::Pending(1) => match reply {
            Reply::Value(Some(href)) => Progress::Next {
                stage: Stage::Pending(2),
                step: Step::Goto { url: href },
            },
            _ => Progress::Complete(None),
        },
        _ => single(reply, ExecutionError::Navigation),
    }
}

/// `FillCheckbox`: the checkbox must be there; it is clicked once, and only
/// when its state differs from `checked`.
pub open spec fn checkbox_progress(checked: bool, stage: Stage, reply: Reply) -> Progress {
    match stage {
        Stage::Pending(0) => match reply {
            Reply::Found(true) => Progress::Next { stage: Stage::Pending(1), step: Step::ReadChecked },
            _ => Progress::Fail(ExecutionError::Element),
        },
        Stage::Pending(1) => match reply {
            Reply::Checked(c) => if c == checked {
                Progress::Complete(None)
            } else {
                Progress::Next { stage: Stage::Pending(2), step: Step::ClickFound }
            },
            _ => Progress::Fail(ExecutionError::Element),
        },
        _ => single(reply, ExecutionError::Element),
    }
}

/// `DownloadFile`: the fetched body is written, byte for byte, to `dist_path`.
pub open spec fn download_progress(dist_path: String, stage: Stage, reply: Reply) -> Progress {
    match stage {
        Stage::Pending(0) => match reply {
            Reply::Body(bytes) => Progress::Next {
                stage: Stage::Pending(1),
                step: Step::WriteFile { path: dist_path, bytes },
            },
            _ => Progress::Fail(ExecutionError::Navigation),
        },
        _ => single(reply, ExecutionError::Io),
    }
}

/// What action `a`, standing at `stage`, does with `reply`.
pub open spec fn progress(a: Action, stage: Stage, reply: Reply) -> Progress {
    match a {
        Action::GoTo { .. } => single(reply, ExecutionError::Navigation),
        Action::Click { .. } => single(reply, ExecutionError::Element),
        Action::Input { .. } => single(reply, ExecutionError::Element),
        Action::Extract { attribute, .. } => extract_progress(attribute, stage, reply),
        Action::Wait { .. } => Progress::Complete(None),
        Action::Login { .. } => login_progress(a, stage, reply),
        Action::Navigate { attribute, .. } => navigate_progress(attribute, stage, reply),
        Action::FillCheckbox { checked, .. } => checkbox_progress(checked, stage, reply),
        Action::SelectDropdown { .. } => single(reply, ExecutionError::Element),
        Action::Hover { .. } => single(reply, ExecutionError::Element),
        Action::DoubleClick { .. } => single(reply, ExecutionError::Element),
        Action::RightClick { .. } => single(reply, ExecutionError::Element),
        Action::RunScript { .. } => single(reply, ExecutionError::Script),
        Action::DownloadFile { dist_path, .. } => download_progress(dist_path, stage, reply),
    }
}

/// The stage `action` starts at and the first step it asks of the session.
pub fn begin(action: &Action) -> (r: (Stage, Step))
    ensures
        r == first_step(*action),
{
    let s = Stage::Pending(0);
    match action {
        Action::GoTo { url } => (s, Step::Goto { url: url.clone() }),
        Action::Click { selector } => (s, Step::Click { selector: selector.clone() }),
        Action::Input { selector, text } => (s, Step::Fill { selector: selector.clone(), text: text.clone() }),
        Action::Extract { selector, .. } => (s, Step::QueryAll { selector: selector.clone() }),
        Action::Wait { milliseconds } => (s, Step::Pause { milliseconds: *milliseconds }),
        Action::Login { url, .. } => (s, Step::Goto { url: url.clone() }),
        Action::Navigate { selector, .. } => (s, Step::QueryOne { selector: selector.clone() }),
        Action::FillCheckbox { selector, .. } => (s, Step::QueryOne { selector: selector.clone() }),
        Action::SelectDropdown { selector, option } => {
            (s, Step::Select { selector: selector.clone(), option: option.clone() })
        },
        Action::Hover { selector } => (s, Step::Hover { selector: selector.clone() }),
        Action::DoubleClick { selector } => (s, Step::DoubleClick { selector: selector.clone() }),
        Action::RightClick { selector } => (s, Step::RightClick { selector: selector.clone() }),
        Action::RunScript { script } => (s, Step::Evaluate { script: script.clone() }),
        Action::DownloadFile { url, .. } => (s, Step::Fetch { url: url.clone() }),
    }
}

/// A page holding one checkbox, checked when `on`: its reply to `step`, and
/// whether the box is checked afterwards. Clicking the box toggles it.
pub open spec fn checkbox_page(step: Step, on: bool) -> (Reply, bool) {
    match step {
        Step::QueryOne { .. } => (Reply::Found(true), on),
        Step::ReadChecked => (Reply::Checked(on), on),
        Step::ClickFound => (Reply::Done, !on),
        _ => (Reply::Done, on),
    }
}

/// Action `a`, at `stage` and waiting on `step`, carried on against such a
/// page for at most `fuel` further steps: the clicks made, whether the box
/// ends up checked, and where the action ends.
pub open spec fn on_checkbox_page(a: Action, stage: Stage, step: Step, on: bool, fuel: nat) -> (nat, bool, Progress)
    decreases fuel,
{
    let (reply, now) = checkbox_page(step, on);
    let clicks: nat = if step is ClickFound { 1 } else { 0 };
    match progress(a, stage, reply) {
        Progress::Next { stage: next_stage, step: next_step } => if fuel == 0 {
            (clicks, now, Progress::Next { stage: next_stage, step: next_step })
        } else {
            let (more, last, end) = on_checkbox_page(a, next_stage, next_step, now, (fuel - 1) as nat);
            (clicks + more, last, end)
        },
        p => (clicks, now, p),
    }
}

/// `FillCheckbox` run twice in a row with the same `checked` on a page whose
/// box starts as `on`: both runs succeed, the box ends as `checked`, and it
/// was clicked once in all when it started in the other state, else never.
pub proof fn lemma_fill_checkbox_idempotent(selector: String, checked: bool, on: bool)
    ensures ({
        let a = Action::FillCheckbox { selector, checked };
        let (stage, step) = first_step(a);
        let first = on_checkbox_page(a, stage, step, on, 3);
        let second = on_checkbox_page(a, stage, step, first.1, 3);
        &&& first.2 == Progress::Complete(None)
        &&& second.2 == Progress::Complete(None)
        &&& second.1 == checked
        &&& first.0 + second.0 == if on == checked { 0nat } else { 1nat }
    }),
{
    let a = Action::FillCheckbox { selector, checked };
    let step = Step::QueryOne { selector };
    reveal_with_fuel(on_checkbox_page, 4);
    assert(on_checkbox_page(a, Stage::Pending(0), step, on, 3).1 == checked);
}

/// `Navigate` on a page where `selector` matches nothing: the only step is
/// the lookup, and the action completes with no value and no navigation.
pub proof fn lemma_navigate_missing_element(selector: String, attribute: String)
    ensures ({
        let a = Action::Navigate { selector, attribute };
        let (stage, step) = first_step(a);
        &&& step == Step::QueryOne { selector }
        &&& progress(a, stage, Reply::Found(false)) == Progress::Complete(None)
    }),
{
}

/// `Navigate` on a page where the element is found and its `attribute`
/// holds `href`: the action navigates to `href`, and a failure of that
/// navigation fails the action with a `Navigation` error.
pub proof fn lemma_navigate_failure_is_fatal(selector: String, attribute: String, href: String)
    ensures ({
        let a = Action::Navigate { selector, attribute };
        let (stage, _) = first_step(a);
        let read = progress(a, stage, Reply::Found(true));
        &&& read == Progress::Next { stage: Stage::Pending(1), step: Step::ReadFoundAttribute { name: attribute } }
        &&& progress(a, Stage::Pending(1), Reply::Value(Some(href)))
            == Progress::Next { stage: Stage::Pending(2), step: Step::Goto { url: href } }
        &&& progress(a, Stage::Pending(2), Reply::Failed) == Progress::Fail(ExecutionError::Navigation)
    }),
{
}

fn single_exec(reply: Reply, kind: ExecutionError) -> (r: Progress)
    ensures
        r == single(reply, kind),
{
    match reply {
        Reply::Done => Progress::Complete(None),
        _ => Progress::Fail(kind),
    }
}

fn chain_exec(reply: Reply, kind: ExecutionError, n: usize, next: Step) -> (r: Progress)
    ensures
        r == chain(reply, kind, n, next),
{
    match reply {
        Reply::Done => Progress::Next { stage: Stage::Pending(n), step: next },
        _ => Progress::Fail(kind),
    }
}

fn read_step_exec(attribute: &Option<String>) -> (r: Step)
    ensures
        r == read_step(*attribute),
{
    match attribute {
        Some(name) => Step::ReadFirstAttribute { name: name.clone() },
        None => Step::ReadFirstText,
    }
}

fn extract_resume(attribute: &Option<String>, stage: Stage, reply: Reply) -> (r: Progress)
    ensures
        r == extract_progress(*attribute, stage, reply),
{
    match stage {
        Stage::Pending(0) => match reply {
            Reply::Count(n) => if n == 0 {
                Progress::Complete(None)
            } else {
                Progress::Next { stage: Stage::Pending(1), step: read_step_exec(attribute) }
            },
            _ => Progress::Fail(ExecutionError::Element),
        },
        _ => match reply {
            Reply::Value(v) => {
                let present = match &v {
                    Some(text) => !text.as_str().is_empty(),
                    None => false,
                };
                if present {
                    Progress::Complete(v)
                } else {
                    Progress::Complete(None)
                }
            },
            _ => Progress::Fail(ExecutionError::Element),
        },
    }
}

fn login_resume(action: &Action, stage: Stage, reply: Reply) -> (r: Progress)
    requires
        action is Login,
    ensures
        r == login_progress(*action, stage, reply),
{
    match action {
        Action::Login {
            username_selector,
            password_selector,
            username,
            password,
            submit_selector,
            ..
        } => match stage {
            Stage::Pending(0) => chain_exec(reply, ExecutionError::Navigation, 1,
                Step::Fill { selector: username_selector.clone(), text: username.clone() }),
            Stage::Pending(1) => chain_exec(reply, ExecutionError::Element, 2,
                Step::Fill { selector: password_selector.clone(), text: password.clone() }),
            Stage::Pending(2) => chain_exec(reply, ExecutionError::Element, 3,
                Step::Click { selector: submit_selector.clone() }),
            Stage::Pending(3) => chain_exec(reply, ExecutionError::Element, 4,
                Step::Pause { milliseconds: LOGIN_SETTLE_MS }),
            _ => Progress::Complete(None),
        },
        _ => Progress::Complete(None),
    }
}

fn navigate_resume(attribute: &String, stage: Stage, reply: Reply) -> (r: Progress)
    ensures
        r == navigate_progress(*attribute, stage, reply),
{
    match stage {
        Stage::Pending(0) => match reply {
            Reply::Found(true) => Progress::Next {
                stage: Stage::Pending(1),
                step: Step::ReadFoundAttribute { name: attribute.clone() },
            },
            Reply::Found(false) => Progress::Complete(None),
            _ => Progress::Fail(ExecutionError::Element),
        },
        Stage::Pending(1) => match reply {
            Reply::Value(Some(href)) => Progress::Next {
                stage: Stage::Pending(2),
                step: Step::Goto { url: href },
            },
            _ => Progress::Complete(None),
        },
        _ => single_exec(reply, ExecutionError::Navigation),
    }
}

fn checkbox_resume(checked: bool, stage: Stage, reply: Reply) -> (r: Progress)
    ensures
        r == checkbox_progress(checked, stage, reply),
{
    match stage {
        Stage::Pending(0) => match reply {
            Reply::Found(true) => Progress::Next { stage: Stage::Pending(1), step: Step::ReadChecked },
            _ => Progress::Fail(ExecutionError::Element),
        },
        Stage::Pending(1) => match reply {
            Reply::Checked(c) => if c == checked {
                Progress::Complete(None)
            } else {
                Progress::Next { stage: Stage::Pending(2), step: Step::ClickFound }
            },
            _ => Progress::Fail(ExecutionError::Element),
        },
        _ => single_exec(reply, ExecutionError::Element),
    }
}

fn download_resume(dist_path: &String, stage: Stage, reply: Reply) -> (r: Progress)
    ensures
        r == download_progress(*dist_path, stage, reply),
{
    match stage {
        Stage::Pending(0) => match reply {
            Reply::Body(bytes) => Progress::Next {
                stage: Stage::Pending(1),
                step: Step::WriteFile { path: dist_path.clone(), bytes },
            },
            _ => Progress::Fail(ExecutionError::Navigation),
        },
        _ => single_exec(reply, ExecutionError::Io),
    }
}

/// What `action`, standing at `stage`, does with the session's `reply`:
/// ask for another step, complete (with the value it extracted, if any), or
/// fail with the kind of error that its pending step maps to.
pub fn resume(action: &Action, stage: Stage, reply: Reply) -> (r: Progress)
    ensures
        r == progress(*action, stage, reply),
{
    match action {
        Action::GoTo { .. } => single_exec(reply, ExecutionError::Navigation),
        Action::Click { .. } => single_exec(reply, ExecutionError::Element),
        Action::Input { .. } => single_exec(reply, ExecutionError::Element),
        Action::Extract { attribute, .. } => extract_resume(attribute, stage, reply),
        Action::Wait { .. } => Progress::Complete(None),
        Action::Login { .. } => login_resume(action, stage, reply),
        Action::Navigate { attribute, .. } => navigate_resume(attribute, stage, reply),
        Action::FillCheckbox { checked, .. } => checkbox_resume(*checked, stage, reply),
        Action::SelectDropdown { .. } => single_exec(reply, ExecutionError::Element),
        Action::Hover { .. } => single_exec(reply, ExecutionError::Element),
        Action::DoubleClick { .. } => single_exec(reply, ExecutionError::Element),
        Action::RightClick { .. } => single_exec(reply, ExecutionError::Element),
        Action::RunScript { .. } => single_exec(reply, ExecutionError::Script),
        Action::DownloadFile { dist_path, .. } => download_resume(dist_path, stage, reply),
    }
}

} // verus!
