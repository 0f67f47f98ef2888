use vstd::prelude::*;

verus! {

/// A primitive operation that the browser session is asked to perform.
#[derive(Debug, Clone, PartialEq, Eq)]
pub enum Step {
    /// Navigate the page to `url`.
    Goto { url: String },
    /// Click the element at `selector`.
    Click { selector: String },
    /// Set the value of the element at `selector`.
    Fill { selector: String, text: String },
    /// Look up every element at `selector`; answered by `Reply::Count`.
    QueryAll { selector: String },
    /// Read attribute `name` of the first element of the last `QueryAll`;
    /// answered by `Reply::Value`.
    ReadFirstAttribute { name: String },
    /// Read the visible text of the first element of the last `QueryAll`;
    /// answered by `Reply::Value`.
    ReadFirstText,
    /// Look up the first element at `selector`; answered by `Reply::Found`.
    QueryOne { selector: String },
    /// Read attribute `name` of the element found by the last `QueryOne`;
    /// answered by `Reply::Value`.
    ReadFoundAttribute { name: String },
    /// Read whether the element found by the last `QueryOne` is checked;
    /// answered by `Reply::Checked`.
    ReadChecked,
    /// Click the element found by the last `QueryOne`.
    ClickFound,
    /// Select `option` in the dropdown at `selector` and commit the choice.
    Select { selector: String, option: String },
    /// Move the pointer over the element at `selector`.
    Hover { selector: String },
    /// Double-click the element at `selector`.
    DoubleClick { selector: String },
    /// Click the element at `selector` with the secondary mouse button.
    RightClick { selector: String },
    /// Evaluate `script` in the page.
    Evaluate { script: String },
    /// Suspend for the given number of milliseconds.
    Pause { milliseconds: u64 },
    /// Navigate to `url` and hand back the response body; answered by
    /// `Reply::Body`.
    Fetch { url: String },
    /// Write `bytes` to the local file `path`.
    WriteFile { path: String, bytes: Vec<u8> },
    /// Release the page, its context and the browser.
    Close,
}

/// What the browser session reports after performing a `Step`.
///
/// A reply of another shape than the one a step asks for counts as a
/// failure of that step.
#[derive(Debug, Clone, PartialEq, Eq)]
pub enum Reply {
    /// The step could not be performed.
    Failed,
    /// The step was performed and yields nothing.
    Done,
    /// The number of elements that matched.
    Count(usize),
    /// Whether an element matched.
    Found(bool),
    /// Whether the element is checked.
    Checked(bool),
    /// The value read, when there was one.
    Value(Option<String>),
    /// The response body.
    Body(Vec<u8>),
}

/// Why a task stopped.
#[derive(Debug, Clone, Copy, PartialEq, Eq)]
pub enum ExecutionError {
    /// An element that was required could not be found or handled.
    Element,
    /// A navigation, or the fetch of a download, failed.
    Navigation,
    /// A script could not be evaluated.
    Script,
    /// A downloaded file could not be written.
    Io,
}

} // verus!
