//! Reporters: turning a crash report into a URL where a bug can be filed.
use vstd::prelude::*;
use crate::percent::{decoded_text, encoded_text, holds_char, lemma_decode_plain_prefix, lemma_encode_utf8_append, lemma_encoded_lacks, lemma_text_round_trip};
use vstd::utf8::{encode_utf8, encode_utf8_decode_utf8};

verus! {

/// The payload text, or the empty text where there is none.
pub open spec fn payload_text(payload: Option<Seq<char>>) -> Seq<char> {
    match payload {
        Some(p) => p,
        None => seq![],
    }
}

/// Generates a URL for bug reports, to be used as
/// `AppInfo::report_bug_url`.
///
/// `makes_url` says which URLs a reporter may give for a payload and a
/// report. For GitHub, use `GitHubBugReporter`; for a function of your own,
/// `FnBugReporter`.
pub trait ReportBugUrlMaker: Clone + Sized {
    spec fn makes_url(&self, payload: Option<String>, bug_report: String, url: String) -> bool;

    fn get_report_url(&self, payload: Option<String>, bug_report: String) -> (url: String)
        ensures
            self.makes_url(payload, bug_report, url),
    ;
}

/// Files bugs as new issues of a GitHub repository.
#[non_exhaustive]
#[derive(Clone, Debug)]
pub struct GitHubBugReporter {
    pub repo_owner: String,
    pub repo_name: String,
}

impl GitHubBugReporter {
    pub fn new(repo_owner: String, repo_name: String) -> (r: Self)
        ensures
            r.repo_owner == repo_owner,
            r.repo_name == repo_name,
    {
        Self { repo_owner, repo_name }
    }
}

/// The `title` query component of an issue URL.
pub open spec fn issue_title(payload: Option<Seq<char>>) -> Seq<char> {
    "Unhandled panic: "@ + encoded_text(payload_text(payload))
}

/// The `body` query component of an issue URL.
pub open spec fn issue_body(bug_report: Seq<char>) -> Seq<char> {
    encoded_text("### Panic report\n"@ + bug_report)
}

/// Everything of an issue URL up to the title component.
pub open spec fn issue_url_start(owner: Seq<char>, repo: Seq<char>) -> Seq<char> {
    "https://github.com/"@ + owner + "/"@ + repo + "/issues/new?title="@
}

/// The URL of a new GitHub issue about a panic.
pub open spec fn issue_url(
    owner: Seq<char>,
    repo: Seq<char>,
    payload: Option<Seq<char>>,
    bug_report: Seq<char>,
) -> Seq<char> {
    issue_url_start(owner, repo) + issue_title(payload) + "&body="@ + issue_body(bug_report)
}

/// Relies on urlencoding::encode: each byte of the UTF-8 form is kept where it
/// is an ASCII letter or digit or one of `-`, `.`, `_`, `~`, and written as `%`
/// with two upper-case hex digits otherwise.
#[verifier::external_body]
fn url_encode(data: &str) -> (r: String)
    ensures
        r@ == encoded_text(data@),
{
    urlencoding::encode(data).into_owned()
}

impl ReportBugUrlMaker for GitHubBugReporter {
    open spec fn makes_url(&self, payload: Option<String>, bug_report: String, url: String) -> bool {
        url@ == issue_url(self.repo_owner@, self.repo_name@, payload.deep_view(), bug_report@)
    }

    fn get_report_url(&self, payload: Option<String>, bug_report: String) -> (url: String) {
        let ghost start = issue_url_start(self.repo_owner@, self.repo_name@);
        let mut url = String::from_str("https://github.com/");
        url.append(self.repo_owner.as_str());
        url.append("/");
        url.append(self.repo_name.as_str());
        url.append("/issues/new?title=");
        assert(url@ == start);
        url.append("Unhandled panic: ");
        let text = match payload {
            Some(p) => p,
            None => String::new(),
        };
        assert(text@ == payload_text(payload.deep_view()));
        let encoded_payload = url_encode(text.as_str());
        url.append(encoded_payload.as_str());
        assert(url@ =~= start + issue_title(payload.deep_view()));
        url.append("&body=");
        let mut body = String::from_str("### Panic report\n");
        body.append(bug_report.as_str());
        let encoded_body = url_encode(body.as_str());
        url.append(encoded_body.as_str());
        url
    }
}

/// The title and body components of an issue URL stand apart (neither holds
/// `&` or `#`), and percent-decoding them gives back `Unhandled panic: `
/// followed by the payload, and `### Panic report` with a line break followed
/// by the report.
pub proof fn lemma_issue_url_round_trip(
    reporter: GitHubBugReporter,
    payload: Option<Seq<char>>,
    bug_report: Seq<char>,
)
    ensures
        issue_url(reporter.repo_owner@, reporter.repo_name@, payload, bug_report) == issue_url_start(
            reporter.repo_owner@,
            reporter.repo_name@,
        ) + issue_title(payload) + "&body="@ + issue_body(bug_report),
        !holds_char(issue_title(payload), '&'),
        !holds_char(issue_title(payload), '#'),
        !holds_char(issue_body(bug_report), '&'),
        !holds_char(issue_body(bug_report), '#'),
        decoded_text(issue_title(payload)) == "Unhandled panic: "@ + payload_text(payload),
        decoded_text(issue_body(bug_report)) == "### Panic report\n"@ + bug_report,
{
    let prefix = "Unhandled panic: "@;
    let text = payload_text(payload);
    let enc = encoded_text(text);
    reveal_strlit("Unhandled panic: ");
    assert(!holds_char(prefix, '%'));
    assert(!holds_char(prefix, '&'));
    assert(!holds_char(prefix, '#'));
    lemma_decode_plain_prefix(prefix, enc);
    crate::percent::lemma_percent_round_trip(encode_utf8(text));
    lemma_encode_utf8_append(prefix, text);
    encode_utf8_decode_utf8(prefix + text);
    lemma_text_round_trip("### Panic report\n"@ + bug_report);
    lemma_encoded_lacks(encode_utf8(text), '&');
    lemma_encoded_lacks(encode_utf8(text), '#');
    lemma_encoded_lacks(encode_utf8("### Panic report\n"@ + bug_report), '&');
    lemma_encoded_lacks(encode_utf8("### Panic report\n"@ + bug_report), '#');
    assert forall|c: char| (c == '&' || c == '#') implies !holds_char(prefix + enc, c) by {
        if holds_char(prefix + enc, c) {
            let i = choose|i: int| 0 <= i < (prefix + enc).len() && (prefix + enc)[i] == c;
            if i < prefix.len() {
                assert(prefix[i] == c);
            } else {
                assert(enc[i - prefix.len()] == c);
            }
        }
    }
}

/// The reporter of an application that files no bugs. The report action is
/// never offered for it; if it is called all the same, it gives the empty URL.
#[derive(Clone, Copy, Debug)]
pub struct NoBugReporter;

impl ReportBugUrlMaker for NoBugReporter {
    open spec fn makes_url(&self, payload: Option<String>, bug_report: String, url: String) -> bool {
        url@ == Seq::<char>::empty()
    }

    fn get_report_url(&self, payload: Option<String>, bug_report: String) -> (url: String) {
        String::new()
    }
}

/// A reporter made of a function of the application's own, which may be
/// called on any payload and report. The function is `Copy`, so that each
/// clone of the reporter calls the very same function.
pub struct FnBugReporter<F: Fn(Option<String>, String) -> String + Copy> {
    f: F,
}

impl<F: Fn(Option<String>, String) -> String + Copy> FnBugReporter<F> {
    #[verifier::type_invariant]
    spec fn callable_on_all(self) -> bool {
        forall|p: Option<String>, b: String| #[trigger] self.f.requires((p, b))
    }

    /// The function that makes the URLs.
    pub closed spec fn function(self) -> F {
        self.f
    }

    pub fn new(f: F) -> (r: Self)
        requires
            forall|p: Option<String>, b: String| #[trigger] f.requires((p, b)),
        ensures
            r.function() == f,
    {
        Self { f }
    }
}

impl<F: Fn(Option<String>, String) -> String + Copy> Clone for FnBugReporter<F> {
    fn clone(&self) -> (r: Self)
        ensures
            r.function() == self.function(),
    {
        proof {
            use_type_invariant(self);
        }
        Self { f: self.f }
    }
}

impl<F: Fn(Option<String>, String) -> String + Copy> ReportBugUrlMaker for FnBugReporter<F> {
    open spec fn makes_url(&self, payload: Option<String>, bug_report: String, url: String) -> bool {
        self.function().ensures((payload, bug_report), url)
    }

    fn get_report_url(&self, payload: Option<String>, bug_report: String) -> (url: String) {
        proof {
            use_type_invariant(self);
        }
        (self.f)(payload, bug_report)
    }
}

} // verus!
