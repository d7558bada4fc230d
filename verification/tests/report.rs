use cargo_status::report::{all_successful, count_phrase, CheckResult, Tone};
use cargo_status::tools::StatusCheck;

fn result(name: &str, success: bool, warnings: usize, errors: usize) -> CheckResult {
    CheckResult {
        name: name.to_string(),
        success,
        output: String::new(),
        warnings,
        errors,
        test_failed: 0,
        test_passed: 0,
    }
}

fn texts(result: &CheckResult) -> Vec<(String, Tone)> {
    result.metrics().into_iter().map(|m| (m.text, m.tone)).collect()
}

#[test]
fn output_is_counted() {
    let check = StatusCheck::new("Test", vec!["cargo".to_string(), "test".to_string()]);
    let output = "warning: a\nerror: b\nerror[E1]: c\ntest result: FAILED. 8 passed; 3 failed;";
    let result = check.parse_output(output.to_string(), false);
    assert_eq!(result.name, "Test");
    assert!(!result.success);
    assert_eq!(result.output, output);
    assert_eq!(result.warnings, 1);
    assert_eq!(result.errors, 2);
    assert_eq!(result.test_passed, 8);
    assert_eq!(result.test_failed, 3);

    let other = StatusCheck::new("Build", vec!["cargo".to_string(), "build".to_string()]);
    let result = other.parse_output(output.to_string(), true);
    assert_eq!((result.test_passed, result.test_failed), (0, 0));
    assert_eq!(result.errors, 2);
}

#[test]
fn tone_and_symbol() {
    let clean = result("Check", true, 0, 0);
    assert_eq!((clean.tone(), clean.symbol()), (Tone::Green, "✓"));
    let warned = result("Check", true, 2, 0);
    assert_eq!((warned.tone(), warned.symbol()), (Tone::Yellow, "⚠"));
    let broken = result("Check", false, 2, 1);
    assert_eq!((broken.tone(), broken.symbol()), (Tone::Red, "✗"));
}

#[test]
fn counts_are_in_the_plural_unless_one() {
    assert_eq!(count_phrase(1, "error"), "1 error");
    assert_eq!(count_phrase(2, "error"), "2 errors");
    assert_eq!(count_phrase(0, "warning"), "0 warnings");
    assert_eq!(count_phrase(1200, "warning"), "1200 warnings");
}

#[test]
fn metrics_of_a_build() {
    assert!(texts(&result("Build", true, 0, 0)).is_empty());
    assert_eq!(
        texts(&result("Build", false, 1, 3)),
        vec![("3 errors".to_string(), Tone::Red), ("1 warning".to_string(), Tone::Yellow)]
    );
}

#[test]
fn metrics_of_the_tests() {
    let mut passed = result("Test", true, 0, 0);
    passed.test_passed = 12;
    assert_eq!(texts(&passed), vec![("12 passed".to_string(), Tone::Green)]);

    let mut failed = result("Test", false, 2, 4);
    failed.test_passed = 8;
    failed.test_failed = 3;
    // Errors are not listed for the tests.
    assert_eq!(
        texts(&failed),
        vec![
            ("8 passed, 3 failed".to_string(), Tone::Red),
            ("2 warnings".to_string(), Tone::Yellow)
        ]
    );

    let mut only_failed = result("Test", false, 0, 0);
    only_failed.test_failed = 1;
    assert_eq!(texts(&only_failed), vec![("0 passed, 1 failed".to_string(), Tone::Red)]);

    // Counts of tests are shown for the test tool only.
    let mut build = result("Build", true, 0, 0);
    build.test_passed = 5;
    assert!(texts(&build).is_empty());
}

#[test]
fn overall_success() {
    let ok = result("Format", true, 0, 0);
    let bad = result("Check", false, 0, 1);
    assert!(all_successful(None, &vec![]));
    assert!(all_successful(Some(&ok), &vec![result("Check", true, 3, 0)]));
    assert!(!all_successful(Some(&bad), &vec![]));
    assert!(!all_successful(Some(&ok), &vec![result("Build", true, 0, 0), bad]));
}
