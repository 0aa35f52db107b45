//! The check-evaluation engine: request validation and the pure evaluator
//! that turns a submission and its rule set into an ordered report.

use vstd::prelude::*;

use crate::model::{
    Checks, ChecksModel, CheckOutcome, ReportModel, RunError, RunRequest, RunResult, TestResult,
    checks_model,
};
use crate::text::{blank, contains_sub, contains_snippet, is_blank};

verus! {

/// The literal placeholder marker that flags unfinished code.
pub open spec fn todo_marker() -> Seq<char> {
    "todo!"@
}

/// The result reported when the placeholder marker is present.
pub open spec fn no_todo_outcome() -> CheckOutcome {
    CheckOutcome {
        name: "no_todo"@,
        pass: false,
        message: Some("Replace todo! with working Rust code."@),
    }
}

/// The result reported for one required snippet.
pub open spec fn include_outcome(code: Seq<char>, s: Seq<char>) -> CheckOutcome {
    CheckOutcome {
        name: "must include: "@ + s,
        pass: contains_sub(code, s),
        message: Some(
            if contains_sub(code, s) {
                "ok"@
            } else {
                "Missing required snippet: "@ + s
            },
        ),
    }
}

/// The result reported for one forbidden snippet.
pub open spec fn exclude_outcome(code: Seq<char>, s: Seq<char>) -> CheckOutcome {
    CheckOutcome {
        name: "must not include: "@ + s,
        pass: !contains_sub(code, s),
        message: Some(
            if !contains_sub(code, s) {
                "ok"@
            } else {
                "Remove forbidden snippet: "@ + s
            },
        ),
    }
}

/// The single passing result reported when no rule produced any.
pub open spec fn fallback_outcome() -> CheckOutcome {
    CheckOutcome {
        name: "static_checks"@,
        pass: true,
        message: Some("Static checks passed."@),
    }
}

/// The placeholder rule's contribution: one failing result when the marker
/// occurs in the code, nothing when it does not.
pub open spec fn marker_outcomes(code: Seq<char>) -> Seq<CheckOutcome> {
    if contains_sub(code, todo_marker()) {
        seq![no_todo_outcome()]
    } else {
        Seq::empty()
    }
}

/// The required-snippet results, one per rule, in rule order.
pub open spec fn include_outcomes(code: Seq<char>, reqs: Seq<Seq<char>>) -> Seq<CheckOutcome> {
    Seq::new(reqs.len(), |i: int| include_outcome(code, reqs[i]))
}

/// The forbidden-snippet results, one per rule, in rule order.
pub open spec fn exclude_outcomes(code: Seq<char>, bans: Seq<Seq<char>>) -> Seq<CheckOutcome> {
    Seq::new(bans.len(), |i: int| exclude_outcome(code, bans[i]))
}

/// All rule-produced results in their fixed order: placeholder detection,
/// then required snippets, then forbidden snippets.
pub open spec fn check_outcomes(code: Seq<char>, cs: ChecksModel) -> Seq<CheckOutcome> {
    marker_outcomes(code) + include_outcomes(code, cs.must_include) + exclude_outcomes(
        code,
        cs.must_not_include,
    )
}

/// The report's results: the rule-produced results, or the single fallback
/// result when no rule produced any.
pub open spec fn expected_outcomes(code: Seq<char>, cs: ChecksModel) -> Seq<CheckOutcome> {
    let base = check_outcomes(code, cs);
    if base.len() == 0 {
        seq![fallback_outcome()]
    } else {
        base
    }
}

/// Every result in the sequence passed.
pub open spec fn all_pass(rs: Seq<CheckOutcome>) -> bool {
    forall|i: int| 0 <= i < rs.len() ==> rs[i].pass
}

/// What the report of an evaluation says: its results are exactly the
/// expected ones, its success flag is their conjunction, and the reserved
/// fields are absent.
pub open spec fn report_for(rep: ReportModel, code: Seq<char>, cs: ChecksModel) -> bool {
    &&& rep.results == expected_outcomes(code, cs)
    &&& rep.success == all_pass(rep.results)
    &&& rep.raw_output is None
    &&& rep.notes is None
}

/// The first mandatory field that is empty after trimming, in the fixed
/// order userCode, tests, exerciseId; `None` when all three are filled.
pub open spec fn missing_field_of(
    code: Seq<char>,
    tests: Seq<char>,
    exercise: Seq<char>,
) -> Option<Seq<char>> {
    if blank(code) {
        Some("userCode"@)
    } else if blank(tests) {
        Some("tests"@)
    } else if blank(exercise) {
        Some("exerciseId"@)
    } else {
        None
    }
}

/// Rejects a request whose mandatory fields are not all filled, naming the
/// first empty-after-trim field; passes a filled request through unchanged.
pub fn validate(req: &RunRequest) -> (r: Result<(), RunError>)
    ensures
        match r {
            Ok(()) => missing_field_of(req.user_code@, req.tests@, req.exercise_id@) is None,
            Err(e) => missing_field_of(req.user_code@, req.tests@, req.exercise_id@)
                == Some(e.field_name()),
        },
{
    if is_blank(req.user_code.as_str()) {
        return Err(RunError::MissingField("userCode"));
    }
    if is_blank(req.tests.as_str()) {
        return Err(RunError::MissingField("tests"));
    }
    if is_blank(req.exercise_id.as_str()) {
        return Err(RunError::MissingField("exerciseId"));
    }
    Ok(())
}

/// Evaluates a submission against its rule set and produces the report:
/// the expected results in their fixed order and the aggregate flag.
pub fn evaluate(req: &RunRequest) -> (r: RunResult)
    ensures
        report_for(r@, req.user_code@, checks_model(req.checks)),
{
    let ghost code = req.user_code@;
    let ghost cs = checks_model(req.checks);
    let mut results: Vec<TestResult> = Vec::new();

    if contains_snippet(req.user_code.as_str(), "todo!") {
        results.push(
            TestResult {
                name: "no_todo".to_owned(),
                pass: false,
                message: Some("Replace todo! with working Rust code.".to_owned()),
            },
        );
    }
    proof {
        assert(results.deep_view() =~= marker_outcomes(code));
    }
    let ghost base = marker_outcomes(code);
    let ghost incs = include_outcomes(code, cs.must_include);
    let ghost excs = exclude_outcomes(code, cs.must_not_include);

    match &req.checks {
        Some(checks) => {
            let n_inc = checks.must_include.len();
            let mut idx: usize = 0;
            while idx < n_inc
                invariant
                    cs == checks@,
                    code == req.user_code@,
                    base == marker_outcomes(code),
                    incs == include_outcomes(code, cs.must_include),
                    n_inc == checks.must_include.len(),
                    n_inc as int == cs.must_include.len(),
                    idx <= n_inc,
                    results.deep_view() == base + incs.subrange(0, idx as int),
                decreases n_inc - idx,
            {
                let snippet = &checks.must_include[idx];
                let pass = contains_snippet(req.user_code.as_str(), snippet.as_str());
                let mut name = "must include: ".to_owned();
                name.append(snippet.as_str());
                let message = if pass {
                    "ok".to_owned()
                } else {
                    let mut m = "Missing required snippet: ".to_owned();
                    m.append(snippet.as_str());
                    m
                };
                let ghost old_dv = results.deep_view();
                let entry = TestResult { name, pass, message: Some(message) };
                proof {
                    assert(snippet@ == cs.must_include[idx as int]);
                    assert(entry.deep_view() == include_outcome(code, cs.must_include[idx as int]));
                }
                results.push(entry);
                proof {
                    assert(results.deep_view() =~= old_dv.push(incs[idx as int]));
                    assert(base + incs.subrange(0, idx + 1) =~= (base + incs.subrange(
                        0,
                        idx as int,
                    )).push(incs[idx as int]));
                }
                idx += 1;
            }
            proof {
                assert(incs.subrange(0, incs.len() as int) =~= incs);
            }

            let n_exc = checks.must_not_include.len();
            let mut idx2: usize = 0;
            while idx2 < n_exc
                invariant
                    cs == checks@,
                    code == req.user_code@,
                    base == marker_outcomes(code),
                    incs == include_outcomes(code, cs.must_include),
                    excs == exclude_outcomes(code, cs.must_not_include),
                    n_exc == checks.must_not_include.len(),
                    n_exc as int == cs.must_not_include.len(),
                    idx2 <= n_exc,
                    results.deep_view() == base + incs + excs.subrange(0, idx2 as int),
                decreases n_exc - idx2,
            {
                let snippet = &checks.must_not_include[idx2];
                let pass = !contains_snippet(req.user_code.as_str(), snippet.as_str());
                let mut name = "must not include: ".to_owned();
                name.append(snippet.as_str());
                let message = if pass {
                    "ok".to_owned()
                } else {
                    let mut m = "Remove forbidden snippet: ".to_owned();
                    m.append(snippet.as_str());
                    m
                };
                let ghost old_dv = results.deep_view();
                let entry = TestResult { name, pass, message: Some(message) };
                proof {
                    assert(snippet@ == cs.must_not_include[idx2 as int]);
                    assert(entry.deep_view() == exclude_outcome(
                        code,
                        cs.must_not_include[idx2 as int],
                    ));
                }
                results.push(entry);
                proof {
                    assert(results.deep_view() =~= old_dv.push(excs[idx2 as int]));
                    assert(base + incs + excs.subrange(0, idx2 + 1) =~= (base + incs
                        + excs.subrange(0, idx2 as int)).push(excs[idx2 as int]));
                }
                idx2 += 1;
            }
            proof {
                assert(excs.subrange(0, excs.len() as int) =~= excs);
            }
        },
        None => {
            proof {
                assert(incs =~= Seq::<CheckOutcome>::empty());
                assert(excs =~= Seq::<CheckOutcome>::empty());
                assert(results.deep_view() =~= base + incs + excs);
            }
        },
    }
    proof {
        assert(results.deep_view() == check_outcomes(code, cs));
    }

    if results.len() == 0 {
        results.push(
            TestResult {
                name: "static_checks".to_owned(),
                pass: true,
                message: Some("Static checks passed.".to_owned()),
            },
        );
        proof {
            assert(results.deep_view() =~= seq![fallback_outcome()]);
        }
    }
    proof {
        assert(results.deep_view() == expected_outcomes(code, cs));
    }

    let n_res = results.len();
    let mut success = true;
    let mut idx3: usize = 0;
    while idx3 < n_res
        invariant
            n_res == results@.len(),
            idx3 <= n_res,
            success == (forall|k: int| 0 <= k < idx3 ==> results.deep_view()[k].pass),
        decreases n_res - idx3,
    {
        let pass_here = results[idx3].pass;
        proof {
            assert(results.deep_view()[idx3 as int].pass == pass_here);
        }
        success = success && pass_here;
        idx3 += 1;
    }
    proof {
        assert(success == all_pass(results.deep_view()));
    }

    RunResult { success, results, raw_output: None, notes: None }
}

/// Validates the request and, when it is accepted, evaluates it. The error
/// names the first empty-after-trim mandatory field; the report is exactly
/// the evaluation of the submission against its rule set.
pub fn handle_run(req: &RunRequest) -> (r: Result<RunResult, RunError>)
    ensures
        match r {
            Ok(rep) => missing_field_of(req.user_code@, req.tests@, req.exercise_id@) is None
                && report_for(rep@, req.user_code@, checks_model(req.checks)),
            Err(e) => missing_field_of(req.user_code@, req.tests@, req.exercise_id@)
                == Some(e.field_name()),
        },
{
    match validate(req) {
        Ok(()) => Ok(evaluate(req)),
        Err(e) => Err(e),
    }
}

/// The aggregate flag is the conjunction of all per-check flags, and the
/// report's results sequence is never empty.
pub proof fn lemma_success_is_conjunction(rep: ReportModel, code: Seq<char>, cs: ChecksModel)
    requires
        report_for(rep, code, cs),
    ensures
        rep.success == all_pass(rep.results),
        rep.results.len() > 0,
{
}

/// A submission without the placeholder marker and without any configured
/// rule gets exactly the single passing fallback result, and succeeds.
pub proof fn lemma_default_report(rep: ReportModel, code: Seq<char>, cs: ChecksModel)
    requires
        report_for(rep, code, cs),
        !contains_sub(code, todo_marker()),
        cs.must_include.len() == 0,
        cs.must_not_include.len() == 0,
    ensures
        rep.results == seq![fallback_outcome()],
        rep.success,
{
    assert(check_outcomes(code, cs).len() == 0);
    assert(rep.results[0].pass);
}

/// When the placeholder marker occurs in the code, the report opens with
/// the failing placeholder result and the report cannot succeed; the
/// configured rules are still evaluated after it, each at its position.
pub proof fn lemma_marker_reported(rep: ReportModel, code: Seq<char>, cs: ChecksModel)
    requires
        report_for(rep, code, cs),
        contains_sub(code, todo_marker()),
    ensures
        rep.results.len() == 1 + cs.must_include.len() + cs.must_not_include.len(),
        rep.results[0] == no_todo_outcome(),
        !rep.results[0].pass,
        !rep.success,
        forall|i: int|
            0 <= i < cs.must_include.len() ==> rep.results[1 + i] == include_outcome(
                code,
                cs.must_include[i],
            ),
        forall|i: int|
            0 <= i < cs.must_not_include.len() ==> rep.results[1 + cs.must_include.len() + i]
                == exclude_outcome(code, cs.must_not_include[i]),
{
    assert(check_outcomes(code, cs).len() > 0);
    assert(rep.results[0] == no_todo_outcome());
    assert(!all_pass(rep.results)) by {
        assert(!rep.results[0].pass);
    }
}

/// Each configured rule yields exactly one result, at its position in rule
/// order after the placeholder rule's contribution: required snippets
/// first, then forbidden ones, each passing exactly by containment.
pub proof fn lemma_rule_positions(rep: ReportModel, code: Seq<char>, cs: ChecksModel)
    requires
        report_for(rep, code, cs),
    ensures
        cs.must_include.len() + cs.must_not_include.len() > 0 ==> rep.results.len()
            == marker_outcomes(code).len() + cs.must_include.len() + cs.must_not_include.len(),
        forall|i: int|
            0 <= i < cs.must_include.len() ==> rep.results[marker_outcomes(code).len() + i]
                == include_outcome(code, cs.must_include[i]),
        forall|i: int|
            0 <= i < cs.must_not_include.len() ==> rep.results[marker_outcomes(code).len()
                + cs.must_include.len() + i] == exclude_outcome(code, cs.must_not_include[i]),
{
    if cs.must_include.len() + cs.must_not_include.len() > 0 {
        assert(check_outcomes(code, cs).len() > 0);
    }
}

/// Evaluation is deterministic: two reports of the same submission under
/// the same rule set are equal.
pub proof fn lemma_evaluation_deterministic(
    rep1: ReportModel,
    rep2: ReportModel,
    code: Seq<char>,
    cs: ChecksModel,
)
    requires
        report_for(rep1, code, cs),
        report_for(rep2, code, cs),
    ensures
        rep1 == rep2,
{
    assert(rep1 =~= rep2);
}

} // verus!
