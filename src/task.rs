use vstd::prelude::*;

verus! {

/// One declarative browser operation and its parameters.
#[derive(Debug, Clone, PartialEq, Eq)]
pub enum Action {
    /// Navigate the page to `url`.
    GoTo { url: String },
    /// Click the element at `selector`.
    Click { selector: String },
    /// Set the value of the element at `selector` to `text`.
    Input { selector: String, text: String },
    /// Read the first element at `selector`: the named attribute, or the
    /// visible text. A present, non-empty value is the result; no other
    /// matched element is read.
    Extract { selector: String, attribute: Option<String> },
    /// Suspend for the given number of milliseconds.
    Wait { milliseconds: u64 },
    /// Open `url`, fill both credentials, submit, and let the login settle.
    Login {
        url: String,
        username_selector: String,
        password_selector: String,
        username: String,
        password: String,
        submit_selector: String,
    },
    /// Follow the URL held in `attribute` of the element at `selector`,
    /// when both are there.
    Navigate { selector: String, attribute: String },
    /// Bring the checkbox at `selector` to the state `checked`.
    FillCheckbox { selector: String, checked: bool },
    /// Select `option` in the dropdown at `selector`.
    SelectDropdown { selector: String, option: String },
    /// Move the pointer over the element at `selector`.
    Hover { selector: String },
    /// Double-click the element at `selector`.
    DoubleClick { selector: String },
    /// Click the element at `selector` with the secondary mouse button.
    RightClick { selector: String },
    /// Evaluate `script` in the page; its result is discarded.
    RunScript { script: String },
    /// Fetch `url` and store the response body at the local path `dist_path`.
    DownloadFile { url: String, dist_path: String },
}

/// A named, ordered sequence of actions, run as one unit against one session.
#[derive(Debug, Clone, PartialEq, Eq)]
pub struct ScrapingTask {
    pub name: String,
    pub actions: Vec<Action>,
}

} // verus!
