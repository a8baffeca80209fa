//! The textual report on one validation: the verdict, the number of
//! findings and the findings themselves, in the order of detection.

use vstd::prelude::*;
use crate::codes::LcSeverity;
use crate::model::{Issue, IssueView, ValidationResult, ValidationView};
use crate::report::{
    Line, Span, SpanView, Style, blank, heading, line_views, plain, push_heading, push_line,
    span_views, text_span,
};
use crate::text::{append_digits, decimal};

verus! {

/// The badge of a severity.
pub open spec fn badge(severity: LcSeverity) -> SpanView {
    match severity {
        LcSeverity::Error => SpanView::Text { text: "ERROR"@, style: Style::RedBold },
        LcSeverity::Warning => SpanView::Text { text: "WARN"@, style: Style::YellowBold },
        LcSeverity::Info => SpanView::Text { text: "INFO"@, style: Style::Blue },
    }
}

/// The line that states the verdict.
pub open spec fn status_line(is_valid: bool) -> Seq<SpanView> {
    seq![
        text_span("  Status: "@),
        if is_valid {
            SpanView::Text { text: "VALID"@, style: Style::GreenBold }
        } else {
            SpanView::Text { text: "INVALID"@, style: Style::RedBold }
        },
    ]
}

/// The line that states a finding.
pub open spec fn issue_line(issue: IssueView) -> Seq<SpanView> {
    seq![
        text_span("  ["@),
        badge(issue.severity),
        text_span("] "@),
        SpanView::Text { text: issue.code, style: Style::Dimmed },
        text_span(": "@),
        text_span(issue.message),
    ]
}

/// The line that states where a finding was made.
pub open spec fn location_line(location: Seq<char>) -> Seq<SpanView> {
    seq![text_span("         at "@), SpanView::Text { text: location, style: Style::Dimmed }]
}

/// The lines of one finding: what it is and, when it has a location,
/// where it was made.
pub open spec fn issue_lines(issue: IssueView) -> Seq<Seq<SpanView>> {
    if issue.location.len() > 0 {
        seq![issue_line(issue), location_line(issue.location)]
    } else {
        seq![issue_line(issue)]
    }
}

/// The lines of the first `k` findings, in the order of the findings.
pub open spec fn listed_issues(issues: Seq<IssueView>, k: nat) -> Seq<Seq<SpanView>>
    decreases k,
{
    if k == 0 {
        Seq::empty()
    } else {
        listed_issues(issues, (k - 1) as nat) + issue_lines(issues[k - 1])
    }
}

/// The summary: file, verdict and number of findings.
pub open spec fn verdict_section(result: ValidationView, filename: Seq<char>) -> Seq<
    Seq<SpanView>,
> {
    heading("Validation Result"@, "================="@) + seq![
        plain("  File: "@ + filename),
        status_line(result.is_valid),
        plain("  Issues: "@ + decimal(result.issues.len() as int)),
        blank(),
    ]
}

/// The findings; no lines at all when there is none.
pub open spec fn issues_section(result: ValidationView) -> Seq<Seq<SpanView>> {
    if result.issues.len() > 0 {
        heading("Issues"@, "------"@) + listed_issues(result.issues, result.issues.len())
    } else {
        Seq::empty()
    }
}

/// The whole report on a validation of the file called `filename`.
pub open spec fn validation_report(result: ValidationView, filename: Seq<char>) -> Seq<
    Seq<SpanView>,
> {
    verdict_section(result, filename) + issues_section(result)
}

fn badge_of(severity: LcSeverity) -> (r: Span)
    ensures
        r@ == badge(severity),
{
    match severity {
        LcSeverity::Error => Span::styled("ERROR", Style::RedBold),
        LcSeverity::Warning => Span::styled("WARN", Style::YellowBold),
        LcSeverity::Info => Span::styled("INFO", Style::Blue),
    }
}

fn status_of(is_valid: bool) -> (r: Line)
    ensures
        r@ == status_line(is_valid),
{
    let mut spans: Vec<Span> = Vec::new();
    spans.push(Span::plain("  Status: "));
    if is_valid {
        spans.push(Span::styled("VALID", Style::GreenBold));
    } else {
        spans.push(Span::styled("INVALID", Style::RedBold));
    }
    Line::of(spans)
}

fn issue_of(issue: &Issue) -> (r: Line)
    ensures
        r@ == issue_line(issue@),
{
    let mut spans: Vec<Span> = Vec::new();
    spans.push(Span::plain("  ["));
    spans.push(badge_of(issue.severity));
    spans.push(Span::plain("] "));
    spans.push(Span::styled(issue.code.as_str(), Style::Dimmed));
    spans.push(Span::plain(": "));
    spans.push(Span::plain(issue.message.as_str()));
    Line::of(spans)
}

fn location_of(location: &str) -> (r: Line)
    ensures
        r@ == location_line(location@),
{
    let mut spans: Vec<Span> = Vec::new();
    spans.push(Span::plain("         at "));
    spans.push(Span::styled(location, Style::Dimmed));
    Line::of(spans)
}

/// Lays out the report on a validation of the file called `filename`.
pub fn validation_lines(result: &ValidationResult, filename: &str) -> (r: Vec<Line>)
    ensures
        line_views(r@) == validation_report(result@, filename@),
{
    let mut out: Vec<Line> = Vec::new();
    push_heading(&mut out, "Validation Result", "=================");
    let mut file = String::from_str("  File: ");
    file.append(filename);
    push_line(&mut out, Line::plain(file));
    push_line(&mut out, status_of(result.is_valid));
    let n: usize = result.issues.len();
    let mut count = String::from_str("  Issues: ");
    append_digits(&mut count, n as u64);
    push_line(&mut out, Line::plain(count));
    push_line(&mut out, Line::blank());
    if n > 0 {
        push_heading(&mut out, "Issues", "------");
        let ghost head = line_views(out@);
        let mut i: usize = 0;
        while i < n
            invariant
                i <= n,
                n == result.issues.len(),
                line_views(out@) == head + listed_issues(result@.issues, i as nat),
            decreases n - i,
        {
            let issue = &result.issues[i];
            push_line(&mut out, issue_of(issue));
            if !issue.location.as_str().is_empty() {
                push_line(&mut out, location_of(issue.location.as_str()));
            }
            i = i + 1;
        }
    }
    out
}

/// The position, among the lines of the findings, of the line that
/// states finding `i`: one line for each finding before it, and one
/// more for each of those that has a location.
pub open spec fn line_of_finding(issues: Seq<IssueView>, i: int) -> int
    decreases i,
{
    if i <= 0 {
        0
    } else {
        line_of_finding(issues, i - 1) + issue_lines(issues[i - 1]).len()
    }
}

proof fn lines_before(issues: Seq<IssueView>, k: nat)
    ensures
        listed_issues(issues, k).len() == line_of_finding(issues, k as int),
    decreases k,
{
    if k > 0 {
        lines_before(issues, (k - 1) as nat);
    }
}

/// Findings keep the order of detection. In the listing of the first
/// `k` findings each finding has its line, and the line of a finding
/// comes before the line of the finding detected after it, whatever
/// their severities.
pub proof fn findings_keep_their_order(issues: Seq<IssueView>, k: nat, i: int)
    requires
        0 <= i < k <= issues.len(),
    ensures
        0 <= line_of_finding(issues, i) < listed_issues(issues, k).len(),
        listed_issues(issues, k)[line_of_finding(issues, i)] == issue_line(issues[i]),
        line_of_finding(issues, i) < line_of_finding(issues, i + 1),
    decreases k,
{
    lines_before(issues, (k - 1) as nat);
    if i + 1 < k {
        findings_keep_their_order(issues, (k - 1) as nat, i);
    }
}

} // verus!
