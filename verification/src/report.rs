//! The summary of a run: for each check one line with its symbol, its name
//! and its counts.
//!
//! A line is returned in parts, each with the colour it is meant to have;
//! printing and colouring are the caller's.

use vstd::prelude::*;
use vstd::string::StringExecFns;
use crate::text::{
    add_counts, chars_of, clamp, count_occurrences, count_text, decimal_digits, lemma_clamp_add,
    push_decimal, same_text,
};
use crate::tools::status_check::{error_total, marker_total, StatusCheck};
use crate::tools::test_results::{count_tests, test_counts};

verus! {

/// The outcome of one command, with what was counted in its output.
#[derive(Debug)]
pub struct CheckResult {
    pub name: String,
    pub success: bool,
    pub output: String,
    pub warnings: usize,
    pub errors: usize,
    pub test_failed: usize,
    pub test_passed: usize,
}

/// The colour that a part of the summary is meant to have.
#[derive(Debug, Clone, Copy, PartialEq, Eq)]
pub enum Tone {
    Green,
    Yellow,
    Red,
}

/// One count of a summary line.
#[derive(Debug)]
pub struct Metric {
    pub text: String,
    pub tone: Tone,
}

/// A count with its text as characters.
pub struct MetricView {
    pub text: Seq<char>,
    pub tone: Tone,
}

impl View for Metric {
    type V = MetricView;

    open spec fn view(&self) -> MetricView {
        MetricView { text: self.text@, tone: self.tone }
    }
}

/// The counts, each with its text as characters.
pub open spec fn metric_views(metrics: Seq<Metric>) -> Seq<MetricView> {
    metrics.map_values(|m: Metric| m@)
}

/// The tests that the check `name` passed and failed, by its output: those
/// that the output reports if the check is the test tool, none otherwise.
pub open spec fn counted_tests(name: Seq<char>, text: Seq<char>) -> (usize, usize) {
    if name == "Test"@ {
        test_counts(text)
    } else {
        (0, 0)
    }
}

/// A number and what it counts, in the plural unless it is one.
pub open spec fn counted(n: usize, noun: Seq<char>) -> Seq<char> {
    decimal_digits(n as nat) + " "@ + noun + if n == 1 {
        Seq::<char>::empty()
    } else {
        "s"@
    }
}

/// The colour of a result's line: red if the command failed, yellow if it
/// succeeded with warnings, green if it succeeded without.
pub open spec fn tone_of(result: CheckResult) -> Tone {
    if !result.success {
        Tone::Red
    } else if result.warnings > 0 {
        Tone::Yellow
    } else {
        Tone::Green
    }
}

/// What a result's line says of tests: for the test tool, if any test
/// passed or failed, the passed tests in green, or the passed and the
/// failed tests in red if one failed.
pub open spec fn test_metric(result: CheckResult) -> Seq<MetricView> {
    if result.name@ == "Test"@ && (result.test_passed > 0 || result.test_failed > 0) {
        if result.test_failed > 0 {
            seq![
                MetricView {
                    text: decimal_digits(result.test_passed as nat) + " passed, "@
                        + decimal_digits(result.test_failed as nat) + " failed"@,
                    tone: Tone::Red,
                },
            ]
        } else {
            seq![
                MetricView {
                    text: decimal_digits(result.test_passed as nat) + " passed"@,
                    tone: Tone::Green,
                },
            ]
        }
    } else {
        Seq::empty()
    }
}

/// What a result's line says of errors: their number in red, for every
/// tool but the test tool.
pub open spec fn error_metric(result: CheckResult) -> Seq<MetricView> {
    if result.errors > 0 && result.name@ != "Test"@ {
        seq![MetricView { text: counted(result.errors, "error"@), tone: Tone::Red }]
    } else {
        Seq::empty()
    }
}

/// What a result's line says of warnings: their number in yellow.
pub open spec fn warning_metric(result: CheckResult) -> Seq<MetricView> {
    if result.warnings > 0 {
        seq![MetricView { text: counted(result.warnings, "warning"@), tone: Tone::Yellow }]
    } else {
        Seq::empty()
    }
}

/// The counts of a result's line: tests, errors, warnings.
pub open spec fn metrics_of(result: CheckResult) -> Seq<MetricView> {
    test_metric(result) + error_metric(result) + warning_metric(result)
}

/// Every command succeeded: the formatter, if it ran, and all the others.
pub open spec fn every_success(first: Option<CheckResult>, rest: Seq<CheckResult>) -> bool {
    &&& first matches Some(r) ==> r.success
    &&& forall|i: int| 0 <= i < rest.len() ==> (#[trigger] rest[i]).success
}

/// A number and what it counts, in the plural unless it is one.
pub fn count_phrase(n: usize, noun: &str) -> (text: String)
    ensures
        text@ == counted(n, noun@),
{
    let mut text = String::new();
    push_decimal(&mut text, n);
    text.append(" ");
    text.append(noun);
    if n != 1 {
        text.append("s");
    }
    text
}

impl StatusCheck {
    /// The outcome of the check's command, with what is counted in its
    /// output: the warning markers, the two error markers, and, for the
    /// test tool, the tests.
    pub fn parse_output(&self, combined_output: String, success: bool) -> (result: CheckResult)
        ensures
            result.name@ == self.name@,
            result.success == success,
            result.output == combined_output,
            result.warnings == clamp(
                marker_total(self.warning_patterns.deep_view(), combined_output@),
            ),
            result.errors == clamp(error_total(combined_output@)),
            (result.test_passed, result.test_failed) == counted_tests(
                self.name@,
                combined_output@,
            ),
    {
        let chars = chars_of(combined_output.as_str());
        let text = chars.as_slice();
        let warnings = self.count_warnings(text);
        let colon = chars_of("error:");
        let bracket = chars_of("error[");
        let errors = add_counts(
            count_occurrences(text, colon.as_slice()),
            count_occurrences(text, bracket.as_slice()),
        );
        proof {
            lemma_clamp_add(count_text(text@, "error:"@), count_text(text@, "error["@));
        }
        let tests: (usize, usize) = if same_text(self.name.as_str(), "Test") {
            count_tests(text)
        } else {
            (0, 0)
        };
        CheckResult {
            name: self.name.clone(),
            success,
            output: combined_output,
            warnings,
            errors,
            test_failed: tests.1,
            test_passed: tests.0,
        }
    }
}

impl CheckResult {
    /// The colour of the result's line.
    pub fn tone(&self) -> (tone: Tone)
        ensures
            tone == tone_of(*self),
    {
        if !self.success {
            Tone::Red
        } else if self.warnings > 0 {
            Tone::Yellow
        } else {
            Tone::Green
        }
    }

    /// The symbol that opens the result's line: a cross for a failure, a
    /// warning sign for a success with warnings, a tick for a clean one.
    pub fn symbol(&self) -> (symbol: &'static str)
        ensures
            symbol@ == match tone_of(*self) {
                Tone::Red => "✗"@,
                Tone::Yellow => "⚠"@,
                Tone::Green => "✓"@,
            },
    {
        if !self.success {
            "✗"
        } else if self.warnings > 0 {
            "⚠"
        } else {
            "✓"
        }
    }

    /// The counts of the result's line, in order.
    pub fn metrics(&self) -> (metrics: Vec<Metric>)
        ensures
            metric_views(metrics@) == metrics_of(*self),
    {
        let mut metrics: Vec<Metric> = Vec::new();
        let is_test = same_text(self.name.as_str(), "Test");
        if is_test && (self.test_passed > 0 || self.test_failed > 0) {
            let mut text = String::new();
            push_decimal(&mut text, self.test_passed);
            if self.test_failed > 0 {
                text.append(" passed, ");
                push_decimal(&mut text, self.test_failed);
                text.append(" failed");
                metrics.push(Metric { text, tone: Tone::Red });
            } else {
                text.append(" passed");
                metrics.push(Metric { text, tone: Tone::Green });
            }
        }
        if self.errors > 0 && !is_test {
            metrics.push(Metric { text: count_phrase(self.errors, "error"), tone: Tone::Red });
        }
        if self.warnings > 0 {
            metrics.push(
                Metric { text: count_phrase(self.warnings, "warning"), tone: Tone::Yellow },
            );
        }
        metrics
    }
}

/// Whether every command succeeded: the formatter, if it ran, and all the
/// others.
pub fn all_successful(fmt_result: Option<&CheckResult>, results: &Vec<CheckResult>) -> (r: bool)
    ensures
        r == every_success(
            match fmt_result {
                Some(f) => Some(*f),
                None => None,
            },
            results@,
        ),
{
    match fmt_result {
        Some(f) => {
            if !f.success {
                return false;
            }
        },
        None => {},
    }
    let mut i: usize = 0;
    while i < results.len()
        invariant
            i <= results.len(),
            forall|j: int| 0 <= j < i ==> (#[trigger] results[j]).success,
        decreases results.len() - i,
    {
        if !results[i].success {
            return false;
        }
        i += 1;
    }
    true
}

} // verus!
