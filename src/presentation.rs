//! What the crash dialog shows and does, apart from drawing it.
use vstd::prelude::*;
use crate::error_reporting::ReportBugUrlMaker;
use crate::report::{details, report_text};
use crate::{AppInfo, Link};

verus! {

/// One item of the row of links: a link, or the separator between two.
#[derive(Clone, Copy, Debug)]
pub enum LinkRowItem {
    Link(Link),
    Separator,
}

/// The row of links, in the order given, with a separator between each two
/// neighbours.
pub fn link_row(links: &Vec<Link>) -> (r: Vec<LinkRowItem>)
    ensures
        links@.len() == 0 ==> r@.len() == 0,
        links@.len() > 0 ==> r@.len() == 2 * links@.len() - 1,
        forall|j: int|
            0 <= j < r@.len() ==> #[trigger] r@[j] == if j % 2 == 0 {
                LinkRowItem::Link(links@[j / 2])
            } else {
                LinkRowItem::Separator
            },
{
    let mut r: Vec<LinkRowItem> = Vec::new();
    let mut i: usize = 0;
    while i < links.len()
        invariant
            i <= links@.len(),
            i == 0 ==> r@.len() == 0,
            i > 0 ==> r@.len() == 2 * i - 1,
            forall|j: int|
                0 <= j < r@.len() ==> #[trigger] r@[j] == if j % 2 == 0 {
                    LinkRowItem::Link(links@[j / 2])
                } else {
                    LinkRowItem::Separator
                },
        decreases links@.len() - i,
    {
        if i > 0 {
            r.push(LinkRowItem::Separator);
        }
        r.push(LinkRowItem::Link(links[i]));
        i = i + 1;
    }
    r
}

/// The line that logs the payload.
pub fn payload_log_line(panic_payload_display: &Option<String>) -> (r: String)
    ensures
        r@ == match panic_payload_display.deep_view() {
            Some(p) => "Panic payload: "@ + p,
            None => "Panic payload doesn't implement `Display`"@,
        },
{
    match panic_payload_display {
        Some(p) => {
            let mut r = String::from_str("Panic payload: ");
            r.append(p.as_str());
            r
        },
        None => String::from_str("Panic payload doesn't implement `Display`"),
    }
}

/// The URL that the "report crash" action opens: `None` where the
/// application has no reporter, else what the reporter makes of the payload
/// and the report.
pub fn report_url<F: ReportBugUrlMaker>(
    panic_payload_display: &Option<String>,
    panic_formatted: &String,
    app_info: &AppInfo<F>,
) -> (r: Option<String>)
    ensures
        r is Some <==> app_info.report_bug_url is Some,
        r is Some ==> exists|bug_report: String, url: String|
            r == Some(url) && bug_report@ == report_text(
                panic_payload_display.deep_view(),
                panic_formatted@,
                app_info.name@,
            ) && #[trigger] app_info.report_bug_url->0.makes_url(
                *panic_payload_display,
                bug_report,
                url,
            ),
{
    match &app_info.report_bug_url {
        Some(maker) => {
            let payload = match panic_payload_display {
                Some(p) => Some(p.clone()),
                None => None,
            };
            assert(payload == *panic_payload_display);
            let bug_report = details(panic_payload_display, panic_formatted, app_info);
            let ghost sent = bug_report;
            let url = maker.get_report_url(payload, bug_report);
            assert(app_info.report_bug_url->0.makes_url(*panic_payload_display, sent, url));
            Some(url)
        },
        None => None,
    }
}

} // verus!
