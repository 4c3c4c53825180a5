use crate::env::{Bindings, EnvMap};
use crate::text::{decimal, opt_text, push_decimal, texts};
use vstd::prelude::*;
use vstd::string::StringExecFns;

verus! {

/// A child process to start.
#[derive(Debug)]
pub struct ProcessPlan {
    pub program: String,
    pub args: Vec<String>,
    /// The variables of the child; where absent, the child has those of its
    /// parent.
    pub env: Option<EnvMap>,
    /// The directory to run in; where absent, that of its parent.
    pub cwd: Option<String>,
    /// What the lines that the child writes are marked with.
    pub source: String,
}

/// What a `ProcessPlan` holds, as plain values.
pub struct ProcessModel {
    pub program: Seq<char>,
    pub args: Seq<Seq<char>>,
    pub env: Option<Bindings>,
    pub cwd: Option<Seq<char>>,
    pub source: Seq<char>,
}

impl View for ProcessPlan {
    type V = ProcessModel;

    open spec fn view(&self) -> ProcessModel {
        ProcessModel {
            program: self.program@,
            args: texts(self.args@),
            env: match self.env {
                Some(env) => Some(env.pairs()),
                None => None,
            },
            cwd: opt_text(self.cwd),
            source: self.source@,
        }
    }
}

/// A file to write.
#[derive(Debug)]
pub struct FilePlan {
    pub dest: String,
    pub content: String,
    /// Where to copy a file that stands at `dest` before it is replaced.
    pub backup: Option<String>,
    /// The permission bits to give the file.
    pub mode: Option<u32>,
}

/// What a `FilePlan` holds, as plain values.
pub struct FileModel {
    pub dest: Seq<char>,
    pub content: Seq<char>,
    pub backup: Option<Seq<char>>,
    pub mode: Option<u32>,
}

impl View for FilePlan {
    type V = FileModel;

    open spec fn view(&self) -> FileModel {
        FileModel {
            dest: self.dest@,
            content: self.content@,
            backup: opt_text(self.backup),
            mode: self.mode,
        }
    }
}

/// What is left to do for a step once its strings are rendered.
#[derive(Debug)]
pub enum Action {
    /// The guard is false: the step does nothing.
    Skip,
    /// Preview mode: what would be done has been shown, and no more follows.
    Preview,
    /// Start a process, pass its output on and wait for it.
    Spawn(ProcessPlan),
    /// Write a file.
    Write(FilePlan),
}

/// What an `Action` holds, as plain values.
pub enum ActionModel {
    Skip,
    Preview,
    Spawn(ProcessModel),
    Write(FileModel),
}

impl View for Action {
    type V = ActionModel;

    open spec fn view(&self) -> ActionModel {
        match self {
            Action::Skip => ActionModel::Skip,
            Action::Preview => ActionModel::Preview,
            Action::Spawn(p) => ActionModel::Spawn(p@),
            Action::Write(f) => ActionModel::Write(f@),
        }
    }
}

/// A step with every string rendered: the lines to show, then the action.
#[derive(Debug)]
pub struct StepPlan {
    /// Lines for standard output, each to be followed by a line break.
    pub notices: Vec<String>,
    pub action: Action,
}

/// What a `StepPlan` holds, as plain values.
pub struct PlanModel {
    pub notices: Seq<Seq<char>>,
    pub action: ActionModel,
}

impl View for StepPlan {
    type V = PlanModel;

    open spec fn view(&self) -> PlanModel {
        PlanModel { notices: texts(self.notices@), action: self.action@ }
    }
}

/// Whether the action touches nothing: no process, no file.
pub open spec fn is_inert(action: ActionModel) -> bool {
    action is Skip || action is Preview
}

/// The action that is taken for `action` in or out of preview mode.
pub open spec fn unless_preview(dry_run: bool, action: ActionModel) -> ActionModel {
    if dry_run {
        ActionModel::Preview
    } else {
        action
    }
}

/// The name under which a step is shown: its own, or that of its kind.
pub open spec fn label_of(name: Option<Seq<char>>, kind: Seq<char>) -> Seq<char> {
    match name {
        Some(n) => n,
        None => kind,
    }
}

/// The two lines that announce a step: its number counted from one with
/// its label, then what it does.
pub open spec fn header(idx: nat, label: Seq<char>, rendered: Seq<char>) -> Seq<Seq<char>> {
    seq!["\n==["@ + decimal(idx + 1) + "] "@ + label + " =="@, "-> "@ + rendered]
}

/// The directory that a local process runs in: the given one, or `.`.
pub open spec fn cwd_or_here(cwd: Option<Seq<char>>) -> Seq<char> {
    match cwd {
        Some(dir) => dir,
        None => "."@,
    }
}

/// The label of a step of kind `kind`.
pub fn step_label(name: &Option<String>, kind: &str) -> (label: String)
    ensures
        label@ == label_of(opt_text(*name), kind@),
{
    match name {
        Some(n) => n.clone(),
        None => String::from_str(kind),
    }
}

/// The lines that announce step `idx`.
pub fn header_lines(idx: usize, label: &str, rendered: &str) -> (lines: Vec<String>)
    ensures
        texts(lines@) == header(idx as nat, label@, rendered@),
{
    let mut first = String::from_str("\n==[");
    push_decimal(&mut first, idx as u128 + 1);
    first.append("] ");
    first.append(label);
    first.append(" ==");
    let mut second = String::from_str("-> ");
    second.append(rendered);
    let mut lines: Vec<String> = Vec::new();
    lines.push(first);
    lines.push(second);
    proof {
        assert(texts(lines@) =~= header(idx as nat, label@, rendered@));
    }
    lines
}

/// `action`, or `Preview` in its place in preview mode.
pub fn in_mode(dry_run: bool, action: Action) -> (out: Action)
    ensures
        out@ == unless_preview(dry_run, action@),
{
    if dry_run {
        Action::Preview
    } else {
        action
    }
}

/// The directory for a local process.
pub fn working_dir(cwd: &Option<String>) -> (dir: String)
    ensures
        dir@ == cwd_or_here(opt_text(*cwd)),
{
    match cwd {
        Some(dir) => dir.clone(),
        None => String::from_str("."),
    }
}

} // verus!
