use crate::text::{decimal, push_decimal};
use vstd::prelude::*;
use vstd::string::StringExecFns;

verus! {

/// The part of rendering that failed.
#[derive(Debug, Clone, Copy, PartialEq, Eq, Structural)]
pub enum RenderStage {
    /// The template text was not accepted.
    Template,
    /// The variables could not be made into a context.
    Context,
    /// The accepted template could not be filled in.
    Output,
}

/// Why a string could not be rendered.
#[derive(Debug)]
pub struct RenderError {
    pub stage: RenderStage,
    /// What the template engine said.
    pub detail: String,
}

/// Why a step failed.
#[derive(Debug)]
pub enum Cause {
    /// The step does not hold exactly one operation.
    Unrunnable,
    /// A string of the step could not be rendered.
    Render(RenderError),
    /// The shell invocation holds no program.
    NoProgram,
    /// The child process could not be started.
    Spawn { detail: String },
    /// The child process ended without success; `code` is its exit code where
    /// it has one, `status` its status in words.
    Exit { code: Option<i32>, status: String },
    /// Reading from or writing to the system failed.
    Io { detail: String },
}

/// A failure, with the index of the step that it came from.
#[derive(Debug)]
pub struct StepError {
    pub step: usize,
    pub cause: Cause,
}

/// The words that name a stage in a message.
pub open spec fn stage_label(stage: RenderStage) -> Seq<char> {
    match stage {
        RenderStage::Template => "add template"@,
        RenderStage::Context => "template context"@,
        RenderStage::Output => "render"@,
    }
}

/// The message for a cause at step `step`.
pub open spec fn cause_text(step: nat, cause: Cause) -> Seq<char> {
    match cause {
        Cause::Unrunnable => "Step "@ + decimal(step) + " hat keinen ausführbaren Block"@,
        Cause::Render(e) => stage_label(e.stage) + ": "@ + e.detail@,
        Cause::NoProgram => "Shell-Aufruf ohne Programm"@,
        Cause::Spawn { detail } => detail@,
        Cause::Exit { code, status } => "Prozess endete mit Status "@ + status@,
        Cause::Io { detail } => detail@,
    }
}

/// The line that reports a failure: the step counted from one, then the
/// cause.
pub open spec fn failure_text(e: StepError) -> Seq<char> {
    "Fehler in Schritt "@ + decimal((e.step + 1) as nat) + ": "@ + cause_text(e.step as nat, e.cause)
}

/// The outcome of rendering as an outcome of step `idx`: what was rendered
/// as it is, and a failure of rendering as the failure of that step.
pub fn at_step<T>(idx: usize, rendered: Result<T, RenderError>) -> (out: Result<T, StepError>)
    ensures
        match rendered {
            Ok(value) => out == Ok::<T, StepError>(value),
            Err(e) => out == Err::<T, StepError>(StepError { step: idx, cause: Cause::Render(e) }),
        },
{
    match rendered {
        Ok(value) => Ok(value),
        Err(e) => Err(StepError { step: idx, cause: Cause::Render(e) }),
    }
}

impl RenderError {
    /// The stage in words, then what the engine said.
    pub fn describe(&self) -> (out: String)
        ensures
            out@ == stage_label(self.stage) + ": "@ + self.detail@,
    {
        let mut out = match self.stage {
            RenderStage::Template => String::from_str("add template"),
            RenderStage::Context => String::from_str("template context"),
            RenderStage::Output => String::from_str("render"),
        };
        out.append(": ");
        out.append(self.detail.as_str());
        out
    }
}

impl StepError {
    /// The line that reports this failure.
    pub fn describe(&self) -> (out: String)
        ensures
            out@ == failure_text(*self),
    {
        let mut out = String::from_str("Fehler in Schritt ");
        push_decimal(&mut out, self.step as u128 + 1);
        out.append(": ");
        match &self.cause {
            Cause::Unrunnable => {
                let ghost head = out@;
                out.append("Step ");
                push_decimal(&mut out, self.step as u128);
                out.append(" hat keinen ausführbaren Block");
                assert(out@ =~= head + cause_text(self.step as nat, self.cause));
            },
            Cause::Render(e) => {
                let ghost head = out@;
                let text = e.describe();
                out.append(text.as_str());
                assert(out@ =~= head + cause_text(self.step as nat, self.cause));
            },
            Cause::NoProgram => {
                out.append("Shell-Aufruf ohne Programm");
            },
            Cause::Spawn { detail } => {
                out.append(detail.as_str());
            },
            Cause::Exit { code, status } => {
                let ghost head = out@;
                out.append("Prozess endete mit Status ");
                out.append(status.as_str());
                assert(out@ =~= head + cause_text(self.step as nat, self.cause));
            },
            Cause::Io { detail } => {
                out.append(detail.as_str());
            },
        }
        out
    }
}

} // verus!
