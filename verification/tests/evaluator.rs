use exercise_checks::{Checks, RunError, RunRequest, RunResult, TestResult};
use exercise_checks::{contains_snippet, evaluate, handle_run, is_blank, validate};

fn request(user_code: &str, checks: Option<Checks>) -> RunRequest {
    RunRequest {
        user_code: user_code.to_string(),
        tests: "assert!(true);".to_string(),
        exercise_id: "ex-1".to_string(),
        lesson_id: None,
        lesson_title: None,
        checks,
    }
}

fn entry(r: &TestResult) -> (String, bool, Option<String>) {
    (r.name.clone(), r.pass, r.message.clone())
}

fn missing_field(r: Result<RunResult, RunError>) -> &'static str {
    match r {
        Err(RunError::MissingField(f)) => f,
        Ok(_) => panic!("expected a rejection"),
    }
}

#[test]
fn rejects_empty_user_code() {
    let mut req = request("fn main() {}", None);
    req.user_code = String::new();
    assert_eq!(missing_field(handle_run(&req)), "userCode");
}

#[test]
fn rejects_whitespace_only_user_code() {
    let mut req = request("fn main() {}", None);
    req.user_code = " \t\n ".to_string();
    assert_eq!(missing_field(handle_run(&req)), "userCode");
}

#[test]
fn rejects_blank_tests_field() {
    let mut req = request("fn main() {}", None);
    req.tests = "   ".to_string();
    assert_eq!(missing_field(handle_run(&req)), "tests");
}

#[test]
fn rejects_blank_exercise_id() {
    let mut req = request("fn main() {}", None);
    req.exercise_id = "\n".to_string();
    assert_eq!(missing_field(handle_run(&req)), "exerciseId");
}

#[test]
fn first_blank_field_wins() {
    let mut req = request("fn main() {}", None);
    req.user_code = "  ".to_string();
    req.tests = String::new();
    req.exercise_id = String::new();
    assert_eq!(missing_field(handle_run(&req)), "userCode");

    let mut req2 = request("fn main() {}", None);
    req2.tests = String::new();
    req2.exercise_id = " ".to_string();
    assert_eq!(missing_field(handle_run(&req2)), "tests");
}

#[test]
fn validate_accepts_filled_request() {
    let req = request("fn main() {}", None);
    assert!(validate(&req).is_ok());
}

#[test]
fn error_description_names_the_field() {
    let err = RunError::MissingField("userCode");
    assert_eq!(err.describe(), "missing field: userCode");
}

#[test]
fn clean_code_without_checks_gets_fallback() {
    let report = evaluate(&request("fn main() {}", None));
    assert!(report.success);
    assert_eq!(report.results.len(), 1);
    assert_eq!(
        entry(&report.results[0]),
        (
            "static_checks".to_string(),
            true,
            Some("Static checks passed.".to_string())
        )
    );
    assert!(report.raw_output.is_none());
    assert!(report.notes.is_none());
}

#[test]
fn empty_check_lists_also_get_fallback() {
    let checks = Checks { must_include: vec![], must_not_include: vec![] };
    let report = evaluate(&request("fn main() {}", Some(checks)));
    assert!(report.success);
    assert_eq!(report.results.len(), 1);
    assert_eq!(report.results[0].name, "static_checks");
}

#[test]
fn placeholder_alone_fails_the_run() {
    let report = evaluate(&request("todo!()", None));
    assert!(!report.success);
    assert_eq!(report.results.len(), 1);
    assert_eq!(
        entry(&report.results[0]),
        (
            "no_todo".to_string(),
            false,
            Some("Replace todo! with working Rust code.".to_string())
        )
    );
}

#[test]
fn placeholder_does_not_suppress_other_checks() {
    let checks = Checks {
        must_include: vec!["fn main".to_string()],
        must_not_include: vec!["unsafe".to_string()],
    };
    let report = evaluate(&request("fn main() { todo!() }", Some(checks)));
    assert!(!report.success);
    assert_eq!(report.results.len(), 3);
    assert_eq!(report.results[0].name, "no_todo");
    assert!(!report.results[0].pass);
    assert_eq!(
        entry(&report.results[1]),
        ("must include: fn main".to_string(), true, Some("ok".to_string()))
    );
    assert_eq!(
        entry(&report.results[2]),
        ("must not include: unsafe".to_string(), true, Some("ok".to_string()))
    );
}

#[test]
fn must_include_entries_follow_input_order() {
    let checks = Checks {
        must_include: vec![
            "let".to_string(),
            "missing-bit".to_string(),
            "x".to_string(),
        ],
        must_not_include: vec![],
    };
    let report = evaluate(&request("let x = 1;", Some(checks)));
    assert!(!report.success);
    assert_eq!(report.results.len(), 3);
    assert_eq!(
        entry(&report.results[0]),
        ("must include: let".to_string(), true, Some("ok".to_string()))
    );
    assert_eq!(
        entry(&report.results[1]),
        (
            "must include: missing-bit".to_string(),
            false,
            Some("Missing required snippet: missing-bit".to_string())
        )
    );
    assert_eq!(
        entry(&report.results[2]),
        ("must include: x".to_string(), true, Some("ok".to_string()))
    );
}

#[test]
fn must_not_include_entries_follow_input_order() {
    let checks = Checks {
        must_include: vec![],
        must_not_include: vec!["unwrap".to_string(), "panic!".to_string()],
    };
    let report = evaluate(&request("let v = s.unwrap();", Some(checks)));
    assert!(!report.success);
    assert_eq!(report.results.len(), 2);
    assert_eq!(
        entry(&report.results[0]),
        (
            "must not include: unwrap".to_string(),
            false,
            Some("Remove forbidden snippet: unwrap".to_string())
        )
    );
    assert_eq!(
        entry(&report.results[1]),
        ("must not include: panic!".to_string(), true, Some("ok".to_string()))
    );
}

#[test]
fn success_is_the_conjunction_of_all_passes() {
    let checks = Checks {
        must_include: vec!["fn".to_string()],
        must_not_include: vec!["fn".to_string()],
    };
    let report = evaluate(&request("fn main() {}", Some(checks)));
    assert!(report.results.iter().any(|r| !r.pass));
    assert!(!report.success);

    let checks_ok = Checks {
        must_include: vec!["fn".to_string()],
        must_not_include: vec!["goto".to_string()],
    };
    let report_ok = evaluate(&request("fn main() {}", Some(checks_ok)));
    assert!(report_ok.results.iter().all(|r| r.pass));
    assert!(report_ok.success);
}

#[test]
fn report_is_never_empty() {
    let cases: Vec<Option<Checks>> = vec![
        None,
        Some(Checks { must_include: vec![], must_not_include: vec![] }),
        Some(Checks { must_include: vec!["a".to_string()], must_not_include: vec![] }),
    ];
    for checks in cases {
        let report = evaluate(&request("fn main() {}", checks));
        assert!(!report.results.is_empty());
    }
}

#[test]
fn evaluation_is_idempotent() {
    let make = || {
        let checks = Checks {
            must_include: vec!["fn add".to_string(), "return".to_string()],
            must_not_include: vec!["todo!".to_string()],
        };
        request("fn add(a: i32, b: i32) -> i32 { a + b }", Some(checks))
    };
    let first = evaluate(&make());
    let second = evaluate(&make());
    assert_eq!(first.success, second.success);
    assert_eq!(first.results.len(), second.results.len());
    for (a, b) in first.results.iter().zip(second.results.iter()) {
        assert_eq!(entry(a), entry(b));
    }
    assert_eq!(first.raw_output, second.raw_output);
    assert_eq!(first.notes, second.notes);
}

#[test]
fn example_passing_submission() {
    let checks = Checks {
        must_include: vec!["fn add".to_string()],
        must_not_include: vec!["todo!".to_string()],
    };
    let report = evaluate(&request("fn add(a,b){a+b}", Some(checks)));
    assert!(report.success);
    assert_eq!(report.results.len(), 2);
    assert_eq!(
        entry(&report.results[0]),
        ("must include: fn add".to_string(), true, Some("ok".to_string()))
    );
    assert_eq!(
        entry(&report.results[1]),
        ("must not include: todo!".to_string(), true, Some("ok".to_string()))
    );
}

#[test]
fn example_placeholder_submission() {
    let report = evaluate(&request("todo!()", None));
    assert!(!report.success);
    assert_eq!(report.results.len(), 1);
    assert_eq!(
        entry(&report.results[0]),
        (
            "no_todo".to_string(),
            false,
            Some("Replace todo! with working Rust code.".to_string())
        )
    );
}

#[test]
fn containment_is_literal_and_case_sensitive() {
    assert!(contains_snippet("hello world", "o w"));
    assert!(contains_snippet("hello world", "hello world"));
    assert!(!contains_snippet("hello world", "World"));
    assert!(!contains_snippet("hello", "hello world"));
    assert!(contains_snippet("anything", ""));
    assert!(contains_snippet("", ""));
    assert!(!contains_snippet("", "a"));
}

#[test]
fn containment_handles_multibyte_text() {
    assert!(contains_snippet("héllo wörld", "wörld"));
    assert!(!contains_snippet("héllo", "hello"));
}

#[test]
fn no_trimming_in_containment() {
    let checks = Checks {
        must_include: vec![" fn add ".to_string()],
        must_not_include: vec![],
    };
    let report = evaluate(&request("fn add(a,b){a+b}", Some(checks)));
    assert!(!report.success);
    assert!(!report.results[0].pass);
}

#[test]
fn blank_detection_matches_trimming() {
    assert!(is_blank(""));
    assert!(is_blank("   "));
    assert!(is_blank(" \t\r\n"));
    assert!(!is_blank(" a "));
    assert!(!is_blank("x"));
}
