//! Turns an unhandled panic into a readable crash report and, where a
//! reporter is configured, into a pre-filled bug-report URL.
//!
//! The library builds everything that the crash dialog shows and does; the
//! program that embeds it installs the panic hook and draws the dialog.
use vstd::prelude::*;

pub mod error_reporting;
pub mod percent;
pub mod presentation;
pub mod report;

pub use error_reporting::{FnBugReporter, GitHubBugReporter, NoBugReporter, ReportBugUrlMaker};
pub use presentation::{link_row, payload_log_line, report_url, LinkRowItem};
pub use report::{details, extract, PanicPayload, PACKAGE_NAME, PACKAGE_VERSION};

verus! {

/// Information about the application, shown in the crash dialog.
#[derive(Clone, Debug)]
pub struct AppInfo<F: ReportBugUrlMaker> {
    /// Name of the application.
    pub name: &'static str,
    /// Text shown above the report.
    pub additional_text: &'static str,
    /// Links shown in the dialog, in this order.
    pub links: Vec<Link>,
    /// Makes the URL of the "report crash" action; with `None` the action is
    /// not offered.
    pub report_bug_url: Option<F>,
}

/// `AppInfo` of an application that offers no bug reporting: set
/// `report_bug_url` to `None`.
pub type AppInfoNoBugReport = AppInfo<NoBugReporter>;

/// A link shown in the crash dialog.
#[derive(Clone, Copy, Debug)]
pub struct Link {
    pub label: &'static str,
    pub url: &'static str,
}

} // verus!
