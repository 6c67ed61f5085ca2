//! Entries of the message manager, and the tabs of the bottom panel and of
//! the centre dock area.
use vstd::prelude::*;
use vstd::string::*;

verus! {

/// How serious a message is.
#[derive(Debug, Clone, Copy, PartialEq, Eq, Structural)]
pub enum Severity {
    Info,
    Warning,
    Error,
}

/// A message shown to the user.
#[derive(Debug, Clone)]
pub struct MessageEntry {
    pub severity: Severity,
    pub text: String,
}

impl MessageEntry {
    /// An informational message.
    pub fn info(text: &str) -> (r: Self)
        ensures
            r.severity == Severity::Info,
            r.text@ == text@,
    {
        MessageEntry { severity: Severity::Info, text: String::from_str(text) }
    }

    /// A warning.
    pub fn warning(text: &str) -> (r: Self)
        ensures
            r.severity == Severity::Warning,
            r.text@ == text@,
    {
        MessageEntry { severity: Severity::Warning, text: String::from_str(text) }
    }

    /// An error message.
    pub fn error(text: &str) -> (r: Self)
        ensures
            r.severity == Severity::Error,
            r.text@ == text@,
    {
        MessageEntry { severity: Severity::Error, text: String::from_str(text) }
    }
}

/// Tabs of the bottom panel.
#[derive(Debug, Clone, Copy, PartialEq, Eq, Structural)]
pub enum BottomTab {
    Messages,
    Log,
}

/// Tabs of the left dock panel.
#[derive(Debug, Clone, Copy, PartialEq, Eq, Structural)]
pub enum LeftPanelTab {
    ProjectManager,
    Properties,
}

/// Tabs of the centre dock area.
#[derive(Debug, Clone)]
pub enum CenterTab {
    Modeling,
    Result,
    /// A report tab, named after its report.
    Report(String),
}

/// The title of a centre tab.
pub open spec fn spec_center_tab_title(t: CenterTab) -> Seq<char> {
    match t {
        CenterTab::Modeling => "Modeling"@,
        CenterTab::Result => "Result"@,
        CenterTab::Report(name) => name@,
    }
}

impl CenterTab {
    /// The tab's title: `Modeling`, `Result`, or the report's name.
    pub fn title(&self) -> (r: String)
        ensures
            r@ == spec_center_tab_title(*self),
    {
        match self {
            CenterTab::Modeling => String::from_str("Modeling"),
            CenterTab::Result => String::from_str("Result"),
            CenterTab::Report(name) => name.clone(),
        }
    }
}

} // verus!
