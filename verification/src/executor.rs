use crate::conf::{conf_plan, plan_conf};
use crate::env::{
    as_map, distinct_keys, has_key, lemma_three_layers, lemma_with_values, put_all, values,
    with_values, Bindings, EnvMap,
};
use crate::error::{at_step, Cause, StepError};
use crate::local::{exec_plan, plan_exec, plan_shell, shell_plan};
use crate::plan::{is_inert, Action, ActionModel, PlanModel, StepPlan};
use crate::remote::{
    host_key_policy, identity_template, key_template, plan_ssh, policy_of, ssh_plan,
};
use crate::schema::{ConfSpec, ExecSpec, ShellSpec, SshSpec, Step};
use crate::template::{refused, Renderer, Rendering};
use crate::text::{opt_text, texts};
use vstd::prelude::*;
use vstd::string::StringExecFns;

verus! {

/// What is to be done next for a step.
#[derive(Debug)]
pub enum Progress {
    /// A string of the step is to be rendered; the step goes on once its
    /// text is added to the texts that were rendered before.
    Render(Rendering),
    /// Every string is rendered: this is the plan of the step.
    Done(StepPlan),
}

/// The user on the remote host where a step names none.
pub open spec fn default_user() -> Seq<char> {
    "root"@
}

/// The number of operations that a step holds.
pub open spec fn populated(step: Step) -> nat {
    let shell: nat = if step.shell is Some { 1 } else { 0 };
    let exec: nat = if step.exec_ is Some { 1 } else { 0 };
    let conf: nat = if step.conf is Some { 1 } else { 0 };
    let ssh: nat = if step.ssh is Some { 1 } else { 0 };
    shell + exec + conf + ssh
}

/// Whether the guard of a step keeps it from running.
pub open spec fn guarded_off(step: Step) -> bool {
    step.when == Some(false)
}

/// The plan of a step that does not run: nothing to show, nothing to do.
pub open spec fn skipped() -> PlanModel {
    PlanModel { notices: Seq::empty(), action: ActionModel::Skip }
}

/// A string that may be absent, as a sequence of one string or none.
pub open spec fn one_or_none(o: Option<Seq<char>>) -> Seq<Seq<char>> {
    match o {
        Some(t) => seq![t],
        None => Seq::empty(),
    }
}

/// The environment of a local child: `ambient`, over it the overrides of
/// the step and over both those of the operation. The values of the
/// overrides are the texts of `r` from position `from` on: first those of
/// the step, then those of the operation, each in the order of its map.
pub open spec fn layered_env(
    ambient: Bindings,
    step_env: Bindings,
    op_env: Bindings,
    r: Seq<Seq<char>>,
    from: int,
) -> Bindings {
    let a = step_env.len();
    let b = op_env.len();
    put_all(
        put_all(ambient, with_values(step_env, r.subrange(from, from + a))),
        with_values(op_env, r.subrange(from + a, from + a + b)),
    )
}

/// In the environment of a local child the names are those of the three
/// layers. A name that the operation overrides has the text that this
/// override rendered to; any other name that the step overrides has the
/// text that the step's override rendered to; any other name has its
/// ambient value.
pub proof fn lemma_layered_env(
    ambient: Bindings,
    step_env: Bindings,
    op_env: Bindings,
    r: Seq<Seq<char>>,
    from: int,
    k: Seq<char>,
)
    requires
        distinct_keys(ambient),
        distinct_keys(step_env),
        distinct_keys(op_env),
        0 <= from,
        from + step_env.len() + op_env.len() <= r.len(),
    ensures
        ({
            let env = layered_env(ambient, step_env, op_env, r, from);
            &&& distinct_keys(env)
            &&& has_key(env, k) <==> has_key(op_env, k) || has_key(step_env, k) || has_key(
                ambient,
                k,
            )
            &&& forall|j: int|
                0 <= j < op_env.len() && (#[trigger] op_env[j]).0 == k ==> as_map(env)[k] == r[from
                    + step_env.len() + j]
            &&& !has_key(op_env, k) ==> forall|i: int|
                0 <= i < step_env.len() && (#[trigger] step_env[i]).0 == k ==> as_map(env)[k]
                    == r[from + i]
            &&& !has_key(op_env, k) && !has_key(step_env, k) && has_key(ambient, k) ==> as_map(
                env,
            )[k] == as_map(ambient)[k]
        }),
{
    let a = step_env.len() as int;
    let b = op_env.len() as int;
    let sv = r.subrange(from, from + a);
    let ov = r.subrange(from + a, from + a + b);
    lemma_with_values(step_env, sv, k);
    lemma_with_values(op_env, ov, k);
    lemma_three_layers(ambient, with_values(step_env, sv), with_values(op_env, ov), k);
}

/// The strings of a shell step in the order in which they are rendered:
/// the command, the overrides of the step, the overrides of the operation.
pub open spec fn shell_templates(step: Step, spec: ShellSpec) -> Seq<Seq<char>> {
    seq![spec.command@] + values(step.env.pairs()) + values(spec.env.pairs())
}

/// The plan of a shell step whose strings rendered to the texts `r`, in
/// the order of `shell_templates`.
pub open spec fn shell_result(
    idx: usize,
    step: Step,
    spec: ShellSpec,
    ambient: Bindings,
    dry_run: bool,
    r: Seq<Seq<char>>,
) -> Option<PlanModel> {
    shell_plan(
        idx as nat,
        opt_text(step.name),
        opt_text(spec.shell),
        opt_text(spec.cwd),
        r[0],
        layered_env(ambient, step.env.pairs(), spec.env.pairs(), r, 1),
        dry_run,
    )
}

/// The strings of an exec step in the order in which they are rendered:
/// the program, the arguments, the overrides of the step, the overrides of
/// the operation.
pub open spec fn exec_templates(step: Step, spec: ExecSpec) -> Seq<Seq<char>> {
    seq![spec.cmd@] + texts(spec.args@) + values(step.env.pairs()) + values(spec.env.pairs())
}

/// The plan of an exec step whose strings rendered to the texts `r`, in
/// the order of `exec_templates`.
pub open spec fn exec_result(
    idx: usize,
    step: Step,
    spec: ExecSpec,
    ambient: Bindings,
    dry_run: bool,
    r: Seq<Seq<char>>,
) -> Option<PlanModel> {
    let n: int = spec.args@.len() as int;
    Some(
        exec_plan(
            idx as nat,
            opt_text(step.name),
            opt_text(spec.cwd),
            r[0],
            r.subrange(1, 1 + n),
            layered_env(ambient, step.env.pairs(), spec.env.pairs(), r, 1 + n),
            dry_run,
        ),
    )
}

/// The strings of a conf step in the order in which they are rendered: the
/// destination, then the content.
pub open spec fn conf_templates(spec: ConfSpec) -> Seq<Seq<char>> {
    seq![spec.dest@, spec.template@]
}

/// The plan of a conf step whose strings rendered to the texts `r`.
pub open spec fn conf_result(
    idx: usize,
    step: Step,
    spec: ConfSpec,
    dry_run: bool,
    r: Seq<Seq<char>>,
) -> Option<PlanModel> {
    Some(
        conf_plan(
            idx as nat,
            opt_text(step.name),
            spec.backup,
            opt_text(spec.mode),
            r[0],
            r[1],
            dry_run,
        ),
    )
}

/// The strings of an ssh step in the order in which they are rendered: the
/// host, the user where one is named, the command, the variables of the
/// operation, and the path of the identity file where the step signs in by
/// key and names one.
pub open spec fn ssh_templates(spec: SshSpec) -> Seq<Seq<char>> {
    seq![spec.host@] + one_or_none(opt_text(spec.user)) + seq![spec.command@] + values(
        spec.env.pairs(),
    ) + one_or_none(key_template(spec.auth))
}

/// The plan of an ssh step whose strings rendered to the texts `r`, in the
/// order of `ssh_templates`. The user is `root` where the step names none.
/// The variables are those of the operation alone.
pub open spec fn ssh_result(
    idx: usize,
    step: Step,
    spec: SshSpec,
    dry_run: bool,
    r: Seq<Seq<char>>,
) -> Option<PlanModel> {
    let u: int = if spec.user is Some { 1 } else { 0 };
    let n: int = spec.env.pairs().len() as int;
    Some(
        ssh_plan(
            idx as nat,
            opt_text(step.name),
            policy_of(opt_text(spec.check_host)),
            if key_template(spec.auth) is Some {
                Some(r[2 + u + n])
            } else {
                None
            },
            if spec.user is Some {
                r[1]
            } else {
                default_user()
            },
            r[0],
            with_values(spec.env.pairs(), r.subrange(2 + u, 2 + u + n)),
            r[1 + u],
            dry_run,
        ),
    )
}

/// The strings of the operation of a step, in the order in which they are
/// rendered.
pub open spec fn step_templates(step: Step) -> Seq<Seq<char>> {
    match step.shell {
        Some(spec) => shell_templates(step, spec),
        None => match step.exec_ {
            Some(spec) => exec_templates(step, spec),
            None => match step.conf {
                Some(spec) => conf_templates(spec),
                None => match step.ssh {
                    Some(spec) => ssh_templates(spec),
                    None => Seq::empty(),
                },
            },
        },
    }
}

/// The plan of a step whose strings rendered to the texts `r`.
pub open spec fn step_result(
    idx: usize,
    step: Step,
    ambient: Bindings,
    dry_run: bool,
    r: Seq<Seq<char>>,
) -> Option<PlanModel> {
    match step.shell {
        Some(spec) => shell_result(idx, step, spec, ambient, dry_run, r),
        None => match step.exec_ {
            Some(spec) => exec_result(idx, step, spec, ambient, dry_run, r),
            None => match step.conf {
                Some(spec) => conf_result(idx, step, spec, dry_run, r),
                None => match step.ssh {
                    Some(spec) => ssh_result(idx, step, spec, dry_run, r),
                    None => None,
                },
            },
        },
    }
}

/// Whether `out` asks for the rendering of the string `t` of step `idx`
/// against the variables `globals` and `ambient`, or says why `t` cannot be
/// made ready: the engine did not take it, or the variables make no
/// context.
pub open spec fn asks_for(
    idx: usize,
    t: Seq<char>,
    globals: serde_yaml::Value,
    ambient: Bindings,
    out: Result<Progress, StepError>,
) -> bool {
    match out {
        Ok(Progress::Render(job)) => job.renders(t, globals, as_map(ambient)),
        Ok(Progress::Done(_)) => false,
        Err(e) => e.step == idx && (e.cause matches Cause::Render(r) && refused(r, globals)),
    }
}

/// Whether `out` ends step `idx` with the plan `plan` or, where there is
/// none, with the failure of an invocation without a program.
pub open spec fn ends_with(idx: usize, plan: Option<PlanModel>, out: Result<Progress, StepError>) -> bool {
    match plan {
        Some(model) => out matches Ok(Progress::Done(p)) && p@ == model,
        None => out matches Err(e) && e.step == idx && e.cause is NoProgram,
    }
}

/// Whether `out` is the next move for a step with the strings `templates`
/// of which the first `done` are rendered: the rendering of the next
/// string against `globals` and `ambient` while one is left, then the
/// plan.
pub open spec fn follows(
    idx: usize,
    templates: Seq<Seq<char>>,
    plan: Option<PlanModel>,
    globals: serde_yaml::Value,
    ambient: Bindings,
    done: nat,
    out: Result<Progress, StepError>,
) -> bool {
    if done < templates.len() {
        asks_for(idx, templates[done as int], globals, ambient, out)
    } else {
        ends_with(idx, plan, out)
    }
}

/// Copies the strings of `v` from position `from` up to `to`.
fn part(v: &Vec<String>, from: usize, to: usize) -> (out: Vec<String>)
    requires
        from <= to <= v.len(),
    ensures
        texts(out@) == texts(v@).subrange(from as int, to as int),
{
    let mut out: Vec<String> = Vec::new();
    let mut i: usize = from;
    while i < to
        invariant
            from <= i <= to <= v.len(),
            texts(out@) == texts(v@).subrange(from as int, i as int),
        decreases to - i,
    {
        let ghost before = texts(out@);
        out.push(v[i].clone());
        proof {
            assert(texts(out@) =~= before.push(v@[i as int]@));
            assert(texts(out@) =~= texts(v@).subrange(from as int, i + 1));
        }
        i += 1;
    }
    out
}

/// Runs the steps of a document as far as that takes no access to the
/// system and no rendering: for a step and the texts that its strings
/// rendered to so far, it says which string is to be rendered next or,
/// once none is left, what is to be done.
pub struct Executor {
    renderer: Renderer,
    ctx: serde_yaml::Value,
    ambient: EnvMap,
    verbose: bool,
    dry_run: bool,
}

impl Executor {
    /// Whether steps are only shown.
    pub closed spec fn preview(&self) -> bool {
        self.dry_run
    }

    /// Whether more is to be logged.
    pub closed spec fn verbose(&self) -> bool {
        self.verbose
    }

    /// The variables of the process, as they were when the run began.
    pub closed spec fn ambient(&self) -> Bindings {
        self.ambient.pairs()
    }

    /// The global variables, which every template sees.
    pub closed spec fn globals(&self) -> serde_yaml::Value {
        self.ctx
    }

    /// An executor over the variables `globals`, which templates see, and
    /// the variables `ambient` of the process, which templates see under
    /// `ENV` and local children inherit.
    pub fn new(globals: serde_yaml::Value, ambient: EnvMap, verbose: bool, dry_run: bool) -> (executor:
        Self)
        ensures
            executor.preview() == dry_run,
            executor.verbose() == verbose,
            executor.globals() == globals,
            executor.ambient() == ambient.pairs(),
            distinct_keys(executor.ambient()),
    {
        proof {
            use_type_invariant(&ambient);
        }
        Executor { renderer: Renderer::new(), ctx: globals, ambient, verbose, dry_run }
    }

    /// Whether steps are only shown.
    pub fn is_preview(&self) -> (b: bool)
        ensures
            b == self.preview(),
    {
        self.dry_run
    }

    /// Whether more is to be logged. Nothing reads it yet.
    pub fn is_verbose(&self) -> (b: bool)
        ensures
            b == self.verbose(),
    {
        self.verbose
    }

    /// The next move for a step with the strings `templates`, of which
    /// `done` are rendered, while a string is left: its rendering.
    fn pending(&self, idx: usize, templates: &Vec<String>, done: usize) -> (out: Result<
        Option<Rendering>,
        StepError,
    >)
        ensures
            done >= templates.len() ==> out matches Ok(None),
            done < templates.len() ==> match out {
                Ok(Some(job)) => asks_for(
                    idx,
                    templates@[done as int]@,
                    self.globals(),
                    self.ambient(),
                    Ok(Progress::Render(job)),
                ),
                Ok(None) => false,
                Err(e) => asks_for(
                    idx,
                    templates@[done as int]@,
                    self.globals(),
                    self.ambient(),
                    Err(e),
                ),
            },
    {
        if done >= templates.len() {
            return Ok(None);
        }
        let job = at_step(
            idx,
            self.renderer.render_str(templates[done].as_str(), &self.ctx, &self.ambient),
        )?;
        Ok(Some(job))
    }

    /// The environment of a local child: the ambient variables, over them
    /// the overrides of the step, over both those of the operation. The
    /// values of the overrides are the texts of `rendered` from position
    /// `from` on, those of the step first. Nothing where `rendered` holds
    /// too few texts from there on.
    pub fn merge_env(
        &self,
        step_env: &EnvMap,
        local_env: &EnvMap,
        rendered: &Vec<String>,
        from: usize,
    ) -> (merged: Option<EnvMap>)
        ensures
            match merged {
                Some(env) => from + step_env.pairs().len() + local_env.pairs().len()
                    <= rendered.len() && env.pairs() == layered_env(
                    self.ambient(),
                    step_env.pairs(),
                    local_env.pairs(),
                    texts(rendered@),
                    from as int,
                ),
                None => from + step_env.pairs().len() + local_env.pairs().len() > rendered.len(),
            },
            distinct_keys(self.ambient()),
            distinct_keys(step_env.pairs()),
            distinct_keys(local_env.pairs()),
    {
        proof {
            use_type_invariant(&self.ambient);
            use_type_invariant(step_env);
            use_type_invariant(local_env);
        }
        let s = match step_env.with_values(rendered, from) {
            Some(s) => s,
            None => {
                return None;
            },
        };
        let o = match local_env.with_values(rendered, from + step_env.len()) {
            Some(o) => o,
            None => {
                return None;
            },
        };
        Some(self.ambient.layered(&s).layered(&o))
    }

    /// The next move for a shell step: the rendering of its next string
    /// or, once `rendered` holds a text for each, its plan.
    pub fn run_shell(&self, step: &Step, spec: &ShellSpec, idx: usize, rendered: &Vec<String>) -> (out:
        Result<Progress, StepError>)
        ensures
            follows(
                idx,
                shell_templates(*step, *spec),
                shell_result(idx, *step, *spec, self.ambient(), self.preview(), texts(rendered@)),
                self.globals(),
                self.ambient(),
                rendered.len() as nat,
                out,
            ),
            self.preview() ==> (out matches Ok(Progress::Done(plan)) ==> plan@.action is Preview),
    {
        let mut templates: Vec<String> = Vec::new();
        templates.push(spec.command.clone());
        let mut of_step = step.env.values();
        let mut of_op = spec.env.values();
        templates.append(&mut of_step);
        templates.append(&mut of_op);
        proof {
            assert(texts(templates@) =~= shell_templates(*step, *spec));
        }
        match self.pending(idx, &templates, rendered.len())? {
            Some(job) => {
                return Ok(Progress::Render(job));
            },
            None => {},
        }
        let env = self.merge_env(&step.env, &spec.env, rendered, 1).unwrap();
        let command = rendered[0].clone();
        match plan_shell(idx, &step.name, &spec.shell, &spec.cwd, command, env, self.dry_run) {
            Ok(plan) => Ok(Progress::Done(plan)),
            Err(e) => Err(e),
        }
    }

    /// The next move for an exec step: the rendering of its next string
    /// or, once `rendered` holds a text for each, its plan.
    pub fn run_exec(&self, step: &Step, spec: &ExecSpec, idx: usize, rendered: &Vec<String>) -> (out:
        Result<Progress, StepError>)
        ensures
            follows(
                idx,
                exec_templates(*step, *spec),
                exec_result(idx, *step, *spec, self.ambient(), self.preview(), texts(rendered@)),
                self.globals(),
                self.ambient(),
                rendered.len() as nat,
                out,
            ),
            self.preview() ==> (out matches Ok(Progress::Done(plan)) ==> plan@.action is Preview),
    {
        let n = spec.args.len();
        let mut templates: Vec<String> = Vec::new();
        templates.push(spec.cmd.clone());
        let mut args = part(&spec.args, 0, n);
        let mut of_step = step.env.values();
        let mut of_op = spec.env.values();
        templates.append(&mut args);
        templates.append(&mut of_step);
        templates.append(&mut of_op);
        proof {
            assert(texts(spec.args@).subrange(0, n as int) =~= texts(spec.args@));
            assert(texts(templates@) =~= exec_templates(*step, *spec));
        }
        match self.pending(idx, &templates, rendered.len())? {
            Some(job) => {
                return Ok(Progress::Render(job));
            },
            None => {},
        }
        let env = self.merge_env(&step.env, &spec.env, rendered, 1 + n).unwrap();
        let cmd = rendered[0].clone();
        let args = part(rendered, 1, 1 + n);
        Ok(
            Progress::Done(
                plan_exec(idx, &step.name, &spec.cwd, cmd, args, env, self.dry_run),
            ),
        )
    }

    /// The next move for a conf step: the rendering of its next string or,
    /// once `rendered` holds a text for each, its plan.
    pub fn run_conf(&self, step: &Step, spec: &ConfSpec, idx: usize, rendered: &Vec<String>) -> (out:
        Result<Progress, StepError>)
        ensures
            follows(
                idx,
                conf_templates(*spec),
                conf_result(idx, *step, *spec, self.preview(), texts(rendered@)),
                self.globals(),
                self.ambient(),
                rendered.len() as nat,
                out,
            ),
            self.preview() ==> (out matches Ok(Progress::Done(plan)) ==> plan@.action is Preview),
    {
        let mut templates: Vec<String> = Vec::new();
        templates.push(spec.dest.clone());
        templates.push(spec.template.clone());
        proof {
            assert(texts(templates@) =~= conf_templates(*spec));
        }
        match self.pending(idx, &templates, rendered.len())? {
            Some(job) => {
                return Ok(Progress::Render(job));
            },
            None => {},
        }
        let dest = rendered[0].clone();
        let content = rendered[1].clone();
        Ok(
            Progress::Done(
                plan_conf(idx, &step.name, spec.backup, &spec.mode, dest, content, self.dry_run),
            ),
        )
    }

    /// The next move for an ssh step: the rendering of its next string or,
    /// once `rendered` holds a text for each, its plan.
    pub fn run_ssh(&self, step: &Step, spec: &SshSpec, idx: usize, rendered: &Vec<String>) -> (out:
        Result<Progress, StepError>)
        ensures
            follows(
                idx,
                ssh_templates(*spec),
                ssh_result(idx, *step, *spec, self.preview(), texts(rendered@)),
                self.globals(),
                self.ambient(),
                rendered.len() as nat,
                out,
            ),
            self.preview() ==> (out matches Ok(Progress::Done(plan)) ==> plan@.action is Preview),
    {
        let n = spec.env.len();
        let mut templates: Vec<String> = Vec::new();
        templates.push(spec.host.clone());
        let u: usize = match &spec.user {
            Some(user) => {
                templates.push(user.clone());
                1
            },
            None => 0,
        };
        templates.push(spec.command.clone());
        let mut of_op = spec.env.values();
        templates.append(&mut of_op);
        let key_at = templates.len();
        let signs_by_key = match identity_template(&spec.auth) {
            Some(template) => {
                templates.push(template.clone());
                true
            },
            None => false,
        };
        proof {
            assert(texts(templates@) =~= ssh_templates(*spec));
        }
        match self.pending(idx, &templates, rendered.len())? {
            Some(job) => {
                return Ok(Progress::Render(job));
            },
            None => {},
        }
        let host = rendered[0].clone();
        let user = if u == 1 {
            rendered[1].clone()
        } else {
            String::from_str("root")
        };
        let command = rendered[1 + u].clone();
        let env = spec.env.with_values(rendered, 2 + u).unwrap();
        let key = if signs_by_key {
            Some(rendered[key_at].clone())
        } else {
            None
        };
        let policy = host_key_policy(&spec.check_host);
        Ok(
            Progress::Done(
                plan_ssh(
                    idx,
                    &step.name,
                    policy,
                    &key,
                    user.as_str(),
                    host.as_str(),
                    &env,
                    command.as_str(),
                    self.dry_run,
                ),
            ),
        )
    }

    /// The next move for step `idx`, whose strings rendered so far to the
    /// texts `rendered`, in their order. A step whose guard is false is
    /// skipped before anything of it is looked at, and nothing of it is
    /// rendered. A step that does not hold exactly one operation cannot
    /// run. For any other step the strings of its operation are asked for
    /// one by one, each as it stands in the step; once `rendered` holds a
    /// text for each, the plan is built from those texts. In preview mode
    /// no plan starts a process or writes a file.
    pub fn run_step(&self, step: &Step, idx: usize, rendered: &Vec<String>) -> (out: Result<
        Progress,
        StepError,
    >)
        ensures
            guarded_off(*step) ==> (out matches Ok(Progress::Done(plan)) && plan@ == skipped()),
            !guarded_off(*step) && populated(*step) != 1 ==> (out matches Err(e) && e.step == idx
                && e.cause is Unrunnable),
            !guarded_off(*step) && populated(*step) == 1 ==> follows(
                idx,
                step_templates(*step),
                step_result(idx, *step, self.ambient(), self.preview(), texts(rendered@)),
                self.globals(),
                self.ambient(),
                rendered.len() as nat,
                out,
            ),
            self.preview() ==> (out matches Ok(Progress::Done(plan)) ==> is_inert(plan@.action)),
            out matches Ok(Progress::Done(plan)) && plan@.action is Skip ==> guarded_off(*step),
            distinct_keys(self.ambient()),
    {
        proof {
            use_type_invariant(&self.ambient);
        }
        if let Some(false) = step.when {
            let plan = StepPlan { notices: Vec::new(), action: Action::Skip };
            proof {
                assert(plan@.notices =~= Seq::<Seq<char>>::empty());
            }
            return Ok(Progress::Done(plan));
        }
        let mut count: u8 = 0;
        if step.shell.is_some() {
            count += 1;
        }
        if step.exec_.is_some() {
            count += 1;
        }
        if step.conf.is_some() {
            count += 1;
        }
        if step.ssh.is_some() {
            count += 1;
        }
        if count != 1 {
            return Err(StepError { step: idx, cause: Cause::Unrunnable });
        }
        if let Some(shell) = &step.shell {
            self.run_shell(step, shell, idx, rendered)
        } else if let Some(exec) = &step.exec_ {
            self.run_exec(step, exec, idx, rendered)
        } else if let Some(conf) = &step.conf {
            self.run_conf(step, conf, idx, rendered)
        } else if let Some(ssh) = &step.ssh {
            self.run_ssh(step, ssh, idx, rendered)
        } else {
            Err(StepError { step: idx, cause: Cause::Unrunnable })
        }
    }
}

} // verus!
