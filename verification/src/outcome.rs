//! What one run of the tool left behind, and what it means.
use crate::failure::{Failure, FailureView, IptablesError};
use crate::text::{decimal, decode_lossy, render, utf8_lossy};
use vstd::prelude::*;
use vstd::string::StringExecFns;

verus! {

/// The result of one run of the tool.
#[derive(Debug, Clone, PartialEq, Eq)]
pub struct Outcome {
    /// The exit code; `None` where the system supplied none, as when a signal
    /// ended the process.
    pub code: Option<i32>,
    /// What the tool wrote to standard output.
    pub stdout: Vec<u8>,
    /// What the tool wrote to standard error.
    pub stderr: Vec<u8>,
}

/// An outcome as a mathematical value.
pub struct OutcomeView {
    pub code: Option<int>,
    pub stdout: Seq<u8>,
    pub stderr: Seq<u8>,
}

impl View for Outcome {
    type V = OutcomeView;

    open spec fn view(&self) -> OutcomeView {
        OutcomeView {
            code: match self.code {
                Some(c) => Some(c as int),
                None => None,
            },
            stdout: self.stdout@,
            stderr: self.stderr@,
        }
    }
}

impl OutcomeView {
    /// The run succeeded: the tool exited with code 0.
    pub open spec fn succeeded(self) -> bool {
        self.code == Some(0int)
    }

    /// The code reported for a run: the exit code, or -1 without one.
    pub open spec fn reported_code(self) -> int {
        match self.code {
            Some(c) => c,
            None => -1,
        }
    }

    /// The failure that a run which did not succeed stands for.
    pub open spec fn failure(self) -> FailureView {
        FailureView::NonZeroExit { code: self.reported_code(), msg: utf8_lossy(self.stderr) }
    }

    /// Success, or the failure that the run stands for.
    pub open spec fn verdict(self) -> Result<(), FailureView> {
        if self.succeeded() {
            Ok(())
        } else {
            Err(self.failure())
        }
    }
}

impl Outcome {
    /// Whether the tool exited with code 0.
    pub fn success(&self) -> (r: bool)
        ensures
            r == self@.succeeded(),
    {
        match self.code {
            Some(c) => c == 0,
            None => false,
        }
    }
}

impl IptablesError {
    /// The error for exit code `code`, if there was one, and the decoded
    /// standard error `msg`.
    pub fn new(code: Option<i32>, msg: String) -> (e: IptablesError)
        ensures
            e.code == (match code {
                Some(c) => c,
                None => -1i32,
            }),
            e.msg == msg,
    {
        let code: i32 = match code {
            Some(c) => c,
            None => -1,
        };
        IptablesError { code, msg }
    }

    /// The error that `outcome` stands for: its exit code, or -1 without
    /// one, and its standard error as text.
    pub fn from(outcome: &Outcome) -> (e: IptablesError)
        ensures
            e.code == outcome@.reported_code(),
            e.msg@ == utf8_lossy(outcome.stderr@),
    {
        IptablesError::new(outcome.code, decode_lossy(&outcome.stderr))
    }

    /// The error in words: `code: <code>, msg: <msg>`.
    pub fn describe(&self) -> (s: String)
        ensures
            s@ == "code: "@ + decimal(self.code as int) + ", msg: "@ + self.msg@,
    {
        let mut s = String::from_str("code: ");
        s.append(render(self.code).as_str());
        s.append(", msg: ");
        s.append(self.msg.as_str());
        s
    }
}

/// Classifies a run: success if the tool exited with code 0, else the
/// failure carrying its code and standard error.
pub fn output_to_result(outcome: &Outcome) -> (r: Result<(), Failure>)
    ensures
        match r {
            Ok(_) => outcome@.verdict() is Ok,
            Err(e) => outcome@.verdict() == Err::<(), FailureView>(e@),
        },
{
    if outcome.success() {
        Ok(())
    } else {
        Err(Failure::NonZeroExit(IptablesError::from(outcome)))
    }
}

} // verus!
