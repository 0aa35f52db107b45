//! The data model: submission requests, declarative checks, per-check
//! results, and the evaluation report, each with a mathematical view.

use vstd::prelude::*;

verus! {

/// The declarative rule set attached to a submission: snippets that must
/// occur in the code and snippets that must not.
pub struct Checks {
    pub must_include: Vec<String>,
    pub must_not_include: Vec<String>,
}

/// Mathematical view of `Checks`: two ordered sequences of snippets.
#[verifier::ext_equal]
pub struct ChecksModel {
    pub must_include: Seq<Seq<char>>,
    pub must_not_include: Seq<Seq<char>>,
}

impl View for Checks {
    type V = ChecksModel;

    open spec fn view(&self) -> ChecksModel {
        ChecksModel {
            must_include: self.must_include.deep_view(),
            must_not_include: self.must_not_include.deep_view(),
        }
    }
}

/// Absent checks are treated as empty rule lists.
pub open spec fn checks_model(c: Option<Checks>) -> ChecksModel {
    match c {
        Some(cs) => cs@,
        None => ChecksModel { must_include: Seq::empty(), must_not_include: Seq::empty() },
    }
}

/// One submitted exercise run: the learner's code, the exercise's tests
/// (accepted but not inspected), identifiers, and the optional rule set.
pub struct RunRequest {
    pub user_code: String,
    pub tests: String,
    pub exercise_id: String,
    pub lesson_id: Option<String>,
    pub lesson_title: Option<String>,
    pub checks: Option<Checks>,
}

/// One named pass/fail result with an optional human-readable message.
pub struct TestResult {
    pub name: String,
    pub pass: bool,
    pub message: Option<String>,
}

/// Mathematical view of `TestResult`.
#[verifier::ext_equal]
pub struct CheckOutcome {
    pub name: Seq<char>,
    pub pass: bool,
    pub message: Option<Seq<char>>,
}

impl View for TestResult {
    type V = CheckOutcome;

    open spec fn view(&self) -> CheckOutcome {
        CheckOutcome {
            name: self.name@,
            pass: self.pass,
            message: match self.message {
                Some(m) => Some(m@),
                None => None,
            },
        }
    }
}

impl DeepView for TestResult {
    type V = CheckOutcome;

    open spec fn deep_view(&self) -> CheckOutcome {
        self.view()
    }
}

/// The evaluation report: the ordered results and the aggregate flag.
/// `raw_output` and `notes` are reserved and always absent.
pub struct RunResult {
    pub success: bool,
    pub results: Vec<TestResult>,
    pub raw_output: Option<String>,
    pub notes: Option<String>,
}

/// Mathematical view of `RunResult`.
#[verifier::ext_equal]
pub struct ReportModel {
    pub success: bool,
    pub results: Seq<CheckOutcome>,
    pub raw_output: Option<Seq<char>>,
    pub notes: Option<Seq<char>>,
}

impl View for RunResult {
    type V = ReportModel;

    open spec fn view(&self) -> ReportModel {
        ReportModel {
            success: self.success,
            results: self.results.deep_view(),
            raw_output: match self.raw_output {
                Some(s) => Some(s@),
                None => None,
            },
            notes: match self.notes {
                Some(s) => Some(s@),
                None => None,
            },
        }
    }
}

/// The one way a request is rejected: a mandatory field is empty after
/// trimming. The field is named as the wire format's caller knows it.
pub enum RunError {
    MissingField(&'static str),
}

impl RunError {
    /// The rejected field's name.
    pub open spec fn field_name(self) -> Seq<char> {
        match self {
            RunError::MissingField(f) => f@,
        }
    }

    /// The descriptive message surfaced to the caller.
    pub fn describe(&self) -> (s: String)
        ensures
            s@ == "missing field: "@ + self.field_name(),
    {
        let mut s = "missing field: ".to_owned();
        match self {
            RunError::MissingField(f) => {
                s.append(f);
            }
        }
        s
    }
}

} // verus!
