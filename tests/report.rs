use gui_panic_handler::{
    details, extract, link_row, payload_log_line, report_url, AppInfo, AppInfoNoBugReport,
    FnBugReporter, GitHubBugReporter, Link, LinkRowItem, NoBugReporter, PanicPayload,
    ReportBugUrlMaker, PACKAGE_NAME, PACKAGE_VERSION,
};

fn sample_app() -> AppInfo<GitHubBugReporter> {
    AppInfo {
        name: "Sample app",
        additional_text: "We are sorry, the application has crashed.",
        links: vec![Link {
            label: "Docs",
            url: "https://x",
        }],
        report_bug_url: Some(GitHubBugReporter::new(
            String::from("Org"),
            String::from("Repo"),
        )),
    }
}

fn quiet_app() -> AppInfoNoBugReport {
    AppInfo {
        name: "Quiet app",
        additional_text: "",
        links: Vec::new(),
        report_bug_url: None,
    }
}

fn query_component<'a>(url: &'a str, key: &str) -> &'a str {
    let query = &url[url.find('?').unwrap() + 1..];
    for part in query.split('&') {
        if let Some(value) = part.strip_prefix(key).and_then(|p| p.strip_prefix('=')) {
            return value;
        }
    }
    panic!("no {key} component in {url}");
}

#[test]
fn extract_str_payload() {
    assert_eq!(extract(PanicPayload::Str("boom")), Some(String::from("boom")));
}

#[test]
fn extract_owned_payload() {
    let s = String::from("owned failure: é & more");
    assert_eq!(extract(PanicPayload::Owned(&s)), Some(s.clone()));
}

#[test]
fn extract_empty_text_payload() {
    assert_eq!(extract(PanicPayload::Str("")), Some(String::new()));
}

#[test]
fn extract_other_payload() {
    assert_eq!(extract(PanicPayload::Other), None);
}

#[test]
fn details_exact_text() {
    let app = sample_app();
    let r = details(&Some(String::from("boom")), &String::from("trace line"), &app);
    let expected = format!(
        "**Panic report from boom**\n\nSample app\n\nPackage name: `{}`\nVersion: `{}`\n\nPanic info:\n```\ntrace line\n```",
        PACKAGE_NAME, PACKAGE_VERSION
    );
    assert_eq!(r, expected);
    assert_eq!(PACKAGE_NAME, "gui_panic_handler");
    assert_eq!(PACKAGE_VERSION, "0.1.0");
}

#[test]
fn details_placeholder_without_payload() {
    let app = quiet_app();
    let r = details(&None, &String::from("t"), &app);
    assert!(r.starts_with("**Panic report from [PAYLOAD IS NOT A STRING]**\n\nQuiet app\n\n"));
    assert!(r.ends_with("Panic info:\n```\nt\n```"));
}

#[test]
fn details_is_deterministic() {
    let app = sample_app();
    let payload = Some(String::from("x"));
    let trace = String::from("panicked at src/main.rs:1:1");
    let a = details(&payload, &trace, &app);
    let b = details(&payload.clone(), &trace.clone(), &app.clone());
    assert_eq!(a, b);
}

#[test]
fn github_url_exact() {
    let reporter = GitHubBugReporter::new(String::from("Org"), String::from("Repo"));
    let url = reporter.get_report_url(Some(String::from("boom")), String::from("a b&c"));
    assert_eq!(
        url,
        "https://github.com/Org/Repo/issues/new?title=Unhandled panic: boom&body=%23%23%23%20Panic%20report%0Aa%20b%26c"
    );
}

#[test]
fn github_url_without_payload() {
    let reporter = GitHubBugReporter::new(String::from("o"), String::from("r"));
    let url = reporter.get_report_url(None, String::new());
    assert_eq!(
        url,
        "https://github.com/o/r/issues/new?title=Unhandled panic: &body=%23%23%23%20Panic%20report%0A"
    );
}

#[test]
fn github_url_round_trips() {
    let reporter = GitHubBugReporter::new(String::from("Org"), String::from("Repo"));
    let payload = String::from("50% of #1 & ü=ß?");
    let report = String::from("line one\nline two: a+b & c#d ✓");
    let url = reporter.get_report_url(Some(payload.clone()), report.clone());
    let title = urlencoding::decode(query_component(&url, "title")).unwrap();
    let body = urlencoding::decode(query_component(&url, "body")).unwrap();
    assert_eq!(title, format!("Unhandled panic: {payload}"));
    assert_eq!(body, format!("### Panic report\n{report}"));
}

#[test]
fn link_row_empty() {
    assert!(link_row(&Vec::new()).is_empty());
}

#[test]
fn link_row_single() {
    let links = vec![Link {
        label: "Docs",
        url: "https://x",
    }];
    let row = link_row(&links);
    assert_eq!(row.len(), 1);
    assert!(matches!(row[0], LinkRowItem::Link(l) if l.label == "Docs" && l.url == "https://x"));
}

#[test]
fn link_row_keeps_order() {
    let links = vec![
        Link { label: "a", url: "https://a" },
        Link { label: "b", url: "https://b" },
        Link { label: "c", url: "https://c" },
    ];
    let row = link_row(&links);
    assert_eq!(row.len(), 5);
    let labels: Vec<&str> = row
        .iter()
        .map(|item| match item {
            LinkRowItem::Link(l) => l.label,
            LinkRowItem::Separator => "|",
        })
        .collect();
    assert_eq!(labels, vec!["a", "|", "b", "|", "c"]);
}

#[test]
fn absent_reporter_gives_empty_url() {
    let url = NoBugReporter.get_report_url(Some(String::from("boom")), String::from("report"));
    assert_eq!(url, "");
}

#[test]
fn function_reporter_is_called() {
    let reporter = FnBugReporter::new(|payload: Option<String>, report: String| {
        format!("https://bugs.example/new?p={}&n={}", payload.unwrap_or_default(), report.len())
    });
    let copy = reporter.clone();
    assert_eq!(
        copy.get_report_url(Some(String::from("boom")), String::from("abc")),
        "https://bugs.example/new?p=boom&n=3"
    );
}

#[test]
fn payload_log_lines() {
    assert_eq!(payload_log_line(&Some(String::from("boom"))), "Panic payload: boom");
    assert_eq!(payload_log_line(&None), "Panic payload doesn't implement `Display`");
}

#[test]
fn report_url_absent_without_reporter() {
    let app = quiet_app();
    assert_eq!(report_url(&Some(String::from("boom")), &String::from("t"), &app), None);
}

#[test]
fn end_to_end_text_payload() {
    let app = sample_app();
    let payload = extract(PanicPayload::Str("boom"));
    let trace = String::from("panicked at src/main.rs:3:5:\nboom");
    let report = details(&payload, &trace, &app);
    assert!(report.starts_with("**Panic report from boom**"));
    let url = report_url(&payload, &trace, &app).unwrap();
    let title = urlencoding::decode(query_component(&url, "title")).unwrap();
    assert_eq!(title, "Unhandled panic: boom");
    let body = urlencoding::decode(query_component(&url, "body")).unwrap();
    assert_eq!(body, format!("### Panic report\n{report}"));
}

#[test]
fn end_to_end_non_text_payload() {
    let app = sample_app();
    let payload = extract(PanicPayload::Other);
    let report = details(&payload, &String::from("panicked with code 42"), &app);
    assert!(report.starts_with("**Panic report from [PAYLOAD IS NOT A STRING]**"));
}
