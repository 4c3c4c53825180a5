use crate::env::{Bindings, EnvMap};
use crate::error::{Cause, StepError};
use crate::escape::{shell_quote, shell_quoted};
use crate::plan::{
    cwd_or_here, header, header_lines, in_mode, label_of, step_label, unless_preview, working_dir,
    Action, ActionModel, PlanModel, ProcessModel, ProcessPlan, StepPlan,
};
use crate::text::{join, joined, opt_text, split_whitespace, texts, words};
use vstd::prelude::*;
use vstd::string::StringExecFns;

verus! {

/// The shell invocation that stands where a step names none.
pub open spec fn default_shell() -> Seq<char> {
    "bash -c"@
}

/// The words of the shell invocation of a step.
pub open spec fn shell_words(shell: Option<Seq<char>>) -> Seq<Seq<char>> {
    words(
        match shell {
            Some(s) => s,
            None => default_shell(),
        },
    )
}

/// The default invocation is the program `bash` with the argument `-c`.
pub proof fn lemma_default_shell()
    ensures
        shell_words(None) == seq!["bash"@, "-c"@],
{
    reveal_strlit("bash -c");
    reveal_strlit("bash");
    reveal_strlit("-c");
    let s = "bash -c"@;
    assert(s =~= seq!['b', 'a', 's', 'h', ' ', '-', 'c']);
    let p0 = s.take(0);
    let p1 = s.take(1);
    let p2 = s.take(2);
    let p3 = s.take(3);
    let p4 = s.take(4);
    let p5 = s.take(5);
    let p6 = s.take(6);
    assert(p1.drop_last() =~= p0 && p2.drop_last() =~= p1 && p3.drop_last() =~= p2);
    assert(p4.drop_last() =~= p3 && p5.drop_last() =~= p4 && p6.drop_last() =~= p5);
    assert(s.drop_last() =~= p6);
    assert(words(p0) =~~= Seq::<Seq<char>>::empty());
    assert(words(p1) =~~= seq![seq!['b']]);
    assert(words(p2) =~~= seq![seq!['b', 'a']]);
    assert(words(p3) =~~= seq![seq!['b', 'a', 's']]);
    assert(words(p4) =~~= seq![seq!['b', 'a', 's', 'h']]);
    assert(words(p5) =~~= seq![seq!['b', 'a', 's', 'h']]);
    assert(words(p6) =~~= seq![seq!['b', 'a', 's', 'h'], seq!['-']]);
    assert(words(s) =~~= seq![seq!['b', 'a', 's', 'h'], seq!['-', 'c']]);
    assert("bash"@ =~= seq!['b', 'a', 's', 'h']);
    assert("-c"@ =~= seq!['-', 'c']);
}

/// The plan of a shell step whose command rendered to `command`: the first
/// word of the invocation is the program, the others are its leading
/// arguments, and the command is its last argument, whole. Without a word
/// there is no plan.
pub open spec fn shell_plan(
    idx: nat,
    name: Option<Seq<char>>,
    shell: Option<Seq<char>>,
    cwd: Option<Seq<char>>,
    command: Seq<char>,
    env: Bindings,
    dry_run: bool,
) -> Option<PlanModel> {
    let invocation = shell_words(shell);
    if invocation.len() == 0 {
        None
    } else {
        Some(
            PlanModel {
                notices: header(idx, label_of(name, "shell"@), command),
                action: unless_preview(
                    dry_run,
                    ActionModel::Spawn(
                        ProcessModel {
                            program: invocation[0],
                            args: invocation.drop_first().push(command),
                            env: Some(env),
                            cwd: Some(cwd_or_here(cwd)),
                            source: "shell"@,
                        },
                    ),
                ),
            },
        )
    }
}

/// Plans a shell step from its rendered command and its merged environment.
pub fn plan_shell(
    idx: usize,
    name: &Option<String>,
    shell: &Option<String>,
    cwd: &Option<String>,
    command: String,
    env: EnvMap,
    dry_run: bool,
) -> (planned: Result<StepPlan, StepError>)
    ensures
        match shell_plan(
            idx as nat,
            opt_text(*name),
            opt_text(*shell),
            opt_text(*cwd),
            command@,
            env.pairs(),
            dry_run,
        ) {
            Some(model) => planned matches Ok(plan) && plan@ == model,
            None => planned matches Err(e) && e.step == idx && e.cause is NoProgram,
        },
        *shell is None ==> planned is Ok,
{
    proof {
        lemma_default_shell();
    }
    let mut parts = match shell {
        Some(s) => split_whitespace(s.as_str()),
        None => split_whitespace("bash -c"),
    };
    if parts.len() == 0 {
        return Err(StepError { step: idx, cause: Cause::NoProgram });
    }
    let ghost invocation = texts(parts@);
    let program = parts.remove(0);
    let mut args = parts;
    let label = step_label(name, "shell");
    let notices = header_lines(idx, label.as_str(), command.as_str());
    args.push(command);
    proof {
        assert(texts(args@) =~= invocation.drop_first().push(command@));
    }
    let process = ProcessPlan {
        program,
        args,
        env: Some(env),
        cwd: Some(working_dir(cwd)),
        source: String::from_str("shell"),
    };
    Ok(StepPlan { notices, action: in_mode(dry_run, Action::Spawn(process)) })
}

/// The line that shows an exec step: the program, a space, and the
/// arguments joined by spaces and quoted as one shell word.
pub open spec fn exec_line(cmd: Seq<char>, args: Seq<Seq<char>>) -> Seq<char> {
    cmd + " "@ + shell_quoted(joined(args, " "@))
}

/// The plan of an exec step whose program rendered to `cmd` and whose
/// arguments rendered to `args`: the process gets them as they are; quotes
/// stand in the line that is shown only.
pub open spec fn exec_plan(
    idx: nat,
    name: Option<Seq<char>>,
    cwd: Option<Seq<char>>,
    cmd: Seq<char>,
    args: Seq<Seq<char>>,
    env: Bindings,
    dry_run: bool,
) -> PlanModel {
    PlanModel {
        notices: header(idx, label_of(name, "exec"@), exec_line(cmd, args)),
        action: unless_preview(
            dry_run,
            ActionModel::Spawn(
                ProcessModel {
                    program: cmd,
                    args: args,
                    env: Some(env),
                    cwd: Some(cwd_or_here(cwd)),
                    source: "exec"@,
                },
            ),
        ),
    }
}

/// Plans an exec step from its rendered program and arguments and its
/// merged environment.
pub fn plan_exec(
    idx: usize,
    name: &Option<String>,
    cwd: &Option<String>,
    cmd: String,
    args: Vec<String>,
    env: EnvMap,
    dry_run: bool,
) -> (plan: StepPlan)
    ensures
        plan@ == exec_plan(
            idx as nat,
            opt_text(*name),
            opt_text(*cwd),
            cmd@,
            texts(args@),
            env.pairs(),
            dry_run,
        ),
{
    let all = join(&args, " ");
    let mut line = cmd.clone();
    line.append(" ");
    line.append(shell_quote(all.as_str()).as_str());
    let label = step_label(name, "exec");
    let notices = header_lines(idx, label.as_str(), line.as_str());
    let process = ProcessPlan {
        program: cmd,
        args,
        env: Some(env),
        cwd: Some(working_dir(cwd)),
        source: String::from_str("exec"),
    };
    StepPlan { notices, action: in_mode(dry_run, Action::Spawn(process)) }
}

} // verus!
