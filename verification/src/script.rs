//! The end of a page script's run: success, or the report the host writes
//! to standard error and the error it returns.

use vstd::prelude::*;
use vstd::string::*;

verus! {

/// A run that failed.
pub struct ScriptFailure {
    /// The report for standard error.
    pub report: String,
    /// The error returned to the caller of the run.
    pub error: String,
}

/// The report for a script error: the error between two rules of dashes.
pub open spec fn failure_report(error: Seq<char>) -> Seq<char> {
    "--------------------------\nerror: "@ + error + "\n--------------------------------"@
}

/// How a run ends, given the error the script raised, if any.
pub fn script_result(eval_error: Option<String>) -> (r: Result<(), ScriptFailure>)
    ensures
        match eval_error {
            None => r is Ok,
            Some(e) => r matches Err(f) && f.report@ == failure_report(e@) && f.error@
                == "Failed to run script!"@,
        },
{
    match eval_error {
        None => Ok(()),
        Some(e) => {
            let mut report = "--------------------------\nerror: ".to_owned();
            report.append(e.as_str());
            report.append("\n--------------------------------");
            Err(ScriptFailure { report, error: "Failed to run script!".to_owned() })
        },
    }
}

/// The report of a failed run: a rule of 26 dashes, the line `error: ` and
/// the error, and a rule of 32 dashes.
pub proof fn law_failure_report(error: Seq<char>)
    ensures
        failure_report(error) == "--------------------------"@ + "\nerror: "@ + error + "\n"@
            + "--------------------------------"@,
        "--------------------------"@.len() == 26,
        "--------------------------------"@.len() == 32,
{
    reveal_strlit("--------------------------\nerror: ");
    reveal_strlit("\n--------------------------------");
    reveal_strlit("--------------------------");
    reveal_strlit("\nerror: ");
    reveal_strlit("\n");
    reveal_strlit("--------------------------------");
    assert(failure_report(error) =~= "--------------------------"@ + "\nerror: "@ + error + "\n"@
        + "--------------------------------"@);
}

} // verus!
