//! The crash report: the payload's text and the report built from it.
use vstd::prelude::*;
use crate::error_reporting::ReportBugUrlMaker;
use crate::AppInfo;

verus! {

/// Name of this package, as the report gives it.
pub const PACKAGE_NAME: &'static str = "gui_panic_handler";

/// Version of this package, as the report gives it.
pub const PACKAGE_VERSION: &'static str = "0.1.0";

/// A panic payload, by the shapes that can be shown as text.
pub enum PanicPayload<'a> {
    /// The payload is a string slice.
    Str(&'a str),
    /// The payload is an owned string.
    Owned(&'a String),
    /// The payload is of any other type.
    Other,
}

/// The text of a payload, where it has one.
pub open spec fn payload_display(payload: PanicPayload) -> Option<Seq<char>> {
    match payload {
        PanicPayload::Str(s) => Some(s@),
        PanicPayload::Owned(s) => Some(s@),
        PanicPayload::Other => None,
    }
}

/// The text of a payload: its content where it is a string of either kind,
/// `None` otherwise.
pub fn extract(payload: PanicPayload) -> (r: Option<String>)
    ensures
        r.deep_view() == payload_display(payload),
{
    match payload {
        PanicPayload::Str(s) => Some(String::from_str(s)),
        PanicPayload::Owned(s) => Some(s.clone()),
        PanicPayload::Other => None,
    }
}

/// What the report's heading names: the payload text, or a placeholder.
pub open spec fn heading_subject(payload: Option<Seq<char>>) -> Seq<char> {
    match payload {
        Some(p) => p,
        None => "[PAYLOAD IS NOT A STRING]"@,
    }
}

/// The first line of a report.
pub open spec fn report_heading(payload: Option<Seq<char>>) -> Seq<char> {
    "**Panic report from "@ + heading_subject(payload) + "**"@
}

/// The full report text.
pub open spec fn report_text(
    payload: Option<Seq<char>>,
    panic_formatted: Seq<char>,
    app_name: Seq<char>,
) -> Seq<char> {
    report_heading(payload) + "\n\n"@ + app_name + "\n\nPackage name: `"@ + PACKAGE_NAME@
        + "`\nVersion: `"@ + PACKAGE_VERSION@ + "`\n\nPanic info:\n```\n"@ + panic_formatted
        + "\n```"@
}

/// Puts all details about the crash into a single string, used for the
/// "copy details" action and as the body of a bug report.
pub fn details<F: ReportBugUrlMaker>(
    panic_payload_display: &Option<String>,
    panic_formatted: &String,
    app_info: &AppInfo<F>,
) -> (r: String)
    ensures
        r@ == report_text(panic_payload_display.deep_view(), panic_formatted@, app_info.name@),
{
    let mut r = String::from_str("**Panic report from ");
    match panic_payload_display {
        Some(p) => r.append(p.as_str()),
        None => r.append("[PAYLOAD IS NOT A STRING]"),
    }
    r.append("**");
    r.append("\n\n");
    r.append(app_info.name);
    r.append("\n\nPackage name: `");
    r.append(PACKAGE_NAME);
    r.append("`\nVersion: `");
    r.append(PACKAGE_VERSION);
    r.append("`\n\nPanic info:\n```\n");
    r.append(panic_formatted.as_str());
    r.append("\n```");
    r
}

/// The report is a function of the payload text, the panic information and
/// the application's name: equal inputs give equal reports, and the report
/// opens with its heading.
pub proof fn lemma_report_deterministic(
    payload_a: Option<Seq<char>>,
    formatted_a: Seq<char>,
    name_a: Seq<char>,
    payload_b: Option<Seq<char>>,
    formatted_b: Seq<char>,
    name_b: Seq<char>,
)
    requires
        payload_a == payload_b,
        formatted_a == formatted_b,
        name_a == name_b,
    ensures
        report_text(payload_a, formatted_a, name_a) == report_text(payload_b, formatted_b, name_b),
        report_text(payload_a, formatted_a, name_a).subrange(0, report_heading(payload_a).len() as int)
            == report_heading(payload_a),
{
    let r = report_text(payload_a, formatted_a, name_a);
    let h = report_heading(payload_a);
    assert(r =~= h + r.subrange(h.len() as int, r.len() as int));
    assert(r.subrange(0, h.len() as int) =~= h);
}

} // verus!
