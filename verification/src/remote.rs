use crate::env::{Bindings, EnvMap};
use crate::escape::{shell_quote, shell_quoted};
use crate::plan::{
    header, header_lines, in_mode, label_of, step_label, unless_preview, Action, ActionModel,
    PlanModel, ProcessModel, ProcessPlan, StepPlan,
};
use crate::schema::SshAuth;
use crate::text::{join, joined, opt_text, texts};
use vstd::prelude::*;
use vstd::string::StringExecFns;

verus! {

/// Whether the identity of the remote host is checked before connecting.
#[derive(Debug, Clone, Copy, PartialEq, Eq, Structural)]
pub enum HostKeyPolicy {
    /// `no`, or nothing said: any host key is accepted and none is kept.
    Accept,
    /// `yes`: the client checks the key against the hosts it knows.
    Strict,
    /// `fingerprint`: reserved; the client is given no option.
    Fingerprint,
    /// Any other word; the client is given no option.
    Unknown,
}

/// The policy that a step asks for.
pub open spec fn policy_of(check_host: Option<Seq<char>>) -> HostKeyPolicy {
    match check_host {
        None => HostKeyPolicy::Accept,
        Some(word) => if word == "no"@ {
            HostKeyPolicy::Accept
        } else if word == "yes"@ {
            HostKeyPolicy::Strict
        } else if word == "fingerprint"@ {
            HostKeyPolicy::Fingerprint
        } else {
            HostKeyPolicy::Unknown
        },
    }
}

/// The options that switch the check of the host key off.
pub open spec fn host_key_options(policy: HostKeyPolicy) -> Seq<Seq<char>> {
    if policy == HostKeyPolicy::Accept {
        seq!["-o"@, "StrictHostKeyChecking=no"@, "-o"@, "UserKnownHostsFile=/dev/null"@]
    } else {
        Seq::empty()
    }
}

/// The template of the identity file, where the step signs in by key and
/// names one.
pub open spec fn key_template(auth: Option<SshAuth>) -> Option<Seq<char>> {
    match auth {
        Some(a) => if a.kind@ == "key"@ {
            opt_text(a.key_path)
        } else {
            None
        },
        None => None,
    }
}

/// The option that names the identity file.
pub open spec fn identity_options(key: Option<Seq<char>>) -> Seq<Seq<char>> {
    match key {
        Some(path) => seq!["-i"@, path],
        None => Seq::empty(),
    }
}

/// One variable as the remote shell reads it: the name, `=`, and the value
/// quoted as one word.
pub open spec fn assignment(pair: (Seq<char>, Seq<char>)) -> Seq<char> {
    pair.0 + "="@ + shell_quoted(pair.1)
}

/// What stands before the remote command: the assignments in the order of
/// `env`, each followed by a space; nothing for no variable.
pub open spec fn export_prefix(env: Bindings) -> Seq<char> {
    if env.len() == 0 {
        Seq::empty()
    } else {
        joined(env.map_values(|pair: (Seq<char>, Seq<char>)| assignment(pair)), " "@) + " "@
    }
}

/// Where to connect.
pub open spec fn target(user: Seq<char>, host: Seq<char>) -> Seq<char> {
    user + "@"@ + host
}

/// The command line of the client: its name, the host-key options, the
/// identity option, the target, and as one last argument the assignments
/// with the remote command.
pub open spec fn ssh_argv(
    policy: HostKeyPolicy,
    key: Option<Seq<char>>,
    user: Seq<char>,
    host: Seq<char>,
    env: Bindings,
    command: Seq<char>,
) -> Seq<Seq<char>> {
    seq!["ssh"@] + host_key_options(policy) + identity_options(key) + seq![
        target(user, host),
        export_prefix(env) + command,
    ]
}

/// The plan of an ssh step from its rendered strings. The client has the
/// variables and the directory of its parent.
pub open spec fn ssh_plan(
    idx: nat,
    name: Option<Seq<char>>,
    policy: HostKeyPolicy,
    key: Option<Seq<char>>,
    user: Seq<char>,
    host: Seq<char>,
    env: Bindings,
    command: Seq<char>,
    dry_run: bool,
) -> PlanModel {
    let argv = ssh_argv(policy, key, user, host, env, command);
    PlanModel {
        notices: header(idx, label_of(name, "ssh"@), joined(argv, " "@)),
        action: unless_preview(
            dry_run,
            ActionModel::Spawn(
                ProcessModel {
                    program: argv[0],
                    args: argv.drop_first(),
                    env: None,
                    cwd: None,
                    source: "ssh"@,
                },
            ),
        ),
    }
}

/// The words of the policy: `no`, or no word at all, accepts any host key,
/// and `yes` checks it.
pub proof fn lemma_policy_words()
    ensures
        policy_of(None) == HostKeyPolicy::Accept,
        policy_of(Some("no"@)) == HostKeyPolicy::Accept,
        policy_of(Some("yes"@)) == HostKeyPolicy::Strict,
        policy_of(Some("fingerprint"@)) == HostKeyPolicy::Fingerprint,
{
    reveal_strlit("no");
    reveal_strlit("yes");
    reveal_strlit("fingerprint");
    assert("yes"@.len() != "no"@.len());
    assert("fingerprint"@.len() != "no"@.len());
    assert("fingerprint"@.len() != "yes"@.len());
}

/// Where a step says `no` or nothing of the check of the host key, the
/// command line holds, directly behind the client's name, the two options
/// that switch the check off. Where it says `yes`, nothing stands between
/// the client's name and the identity option or, without one, the target.
pub proof fn lemma_host_key_options(
    check_host: Option<Seq<char>>,
    key: Option<Seq<char>>,
    user: Seq<char>,
    host: Seq<char>,
    env: Bindings,
    command: Seq<char>,
)
    ensures
        ({
            let argv = ssh_argv(policy_of(check_host), key, user, host, env, command);
            let rest = identity_options(key) + seq![
                target(user, host),
                export_prefix(env) + command,
            ];
            &&& argv[0] == "ssh"@
            &&& check_host is None || check_host == Some("no"@) ==> argv.subrange(1, 5) == seq![
                "-o"@,
                "StrictHostKeyChecking=no"@,
                "-o"@,
                "UserKnownHostsFile=/dev/null"@,
            ] && argv.skip(5) == rest
            &&& check_host == Some("yes"@) ==> argv.skip(1) == rest
        }),
{
    lemma_policy_words();
    let policy = policy_of(check_host);
    let argv = ssh_argv(policy, key, user, host, env, command);
    let rest = identity_options(key) + seq![target(user, host), export_prefix(env) + command];
    if policy == HostKeyPolicy::Accept {
        assert(argv.subrange(1, 5) =~= host_key_options(policy));
        assert(argv.skip(5) =~= rest);
    } else {
        assert(argv.skip(1) =~= rest);
    }
}

/// Reads the policy that a step asks for.
pub fn host_key_policy(check_host: &Option<String>) -> (policy: HostKeyPolicy)
    ensures
        policy == policy_of(opt_text(*check_host)),
{
    match check_host {
        None => HostKeyPolicy::Accept,
        Some(word) => {
            if *word == String::from_str("no") {
                HostKeyPolicy::Accept
            } else if *word == String::from_str("yes") {
                HostKeyPolicy::Strict
            } else if *word == String::from_str("fingerprint") {
                HostKeyPolicy::Fingerprint
            } else {
                HostKeyPolicy::Unknown
            }
        },
    }
}

/// The template of the identity file that a step names, if it signs in by
/// key.
pub fn identity_template(auth: &Option<SshAuth>) -> (template: Option<&String>)
    ensures
        match template {
            Some(t) => key_template(*auth) == Some(t@),
            None => key_template(*auth) is None,
        },
{
    match auth {
        Some(a) => {
            if a.kind == String::from_str("key") {
                match &a.key_path {
                    Some(path) => Some(path),
                    None => None,
                }
            } else {
                None
            }
        },
        None => None,
    }
}

/// Writes the variables of `env` as assignments before a remote command.
pub fn env_prefix(env: &EnvMap) -> (out: String)
    ensures
        out@ == export_prefix(env.pairs()),
{
    let mut assigns: Vec<String> = Vec::new();
    let mut i: usize = 0;
    while i < env.len()
        invariant
            i <= env.pairs().len(),
            texts(assigns@) == env.pairs().take(i as int).map_values(
                |pair: (Seq<char>, Seq<char>)| assignment(pair),
            ),
        decreases env.pairs().len() - i,
    {
        match env.entry(i) {
            Some((name, value)) => {
                let ghost before = texts(assigns@);
                let mut one = name.clone();
                one.append("=");
                one.append(shell_quote(value.as_str()).as_str());
                assigns.push(one);
                proof {
                    assert(texts(assigns@) =~= before.push(assignment(env.pairs()[i as int])));
                    assert(texts(assigns@) =~= env.pairs().take(i + 1).map_values(
                        |pair: (Seq<char>, Seq<char>)| assignment(pair),
                    ));
                }
            },
            None => {},
        }
        i += 1;
    }
    proof {
        assert(env.pairs().take(env.pairs().len() as int) =~= env.pairs());
    }
    if assigns.len() == 0 {
        String::new()
    } else {
        let mut out = join(&assigns, " ");
        out.append(" ");
        out
    }
}

/// Builds the command line of the client.
pub fn build_argv(
    policy: HostKeyPolicy,
    key: &Option<String>,
    user: &str,
    host: &str,
    env: &EnvMap,
    command: &str,
) -> (argv: Vec<String>)
    ensures
        texts(argv@) == ssh_argv(policy, opt_text(*key), user@, host@, env.pairs(), command@),
{
    let mut argv: Vec<String> = Vec::new();
    argv.push(String::from_str("ssh"));
    match policy {
        HostKeyPolicy::Accept => {
            argv.push(String::from_str("-o"));
            argv.push(String::from_str("StrictHostKeyChecking=no"));
            argv.push(String::from_str("-o"));
            argv.push(String::from_str("UserKnownHostsFile=/dev/null"));
        },
        _ => {},
    }
    match key {
        Some(path) => {
            argv.push(String::from_str("-i"));
            argv.push(path.clone());
        },
        None => {},
    }
    let mut to = String::from_str(user);
    to.append("@");
    to.append(host);
    argv.push(to);
    let mut remote = env_prefix(env);
    remote.append(command);
    argv.push(remote);
    proof {
        assert(texts(argv@) =~= ssh_argv(
            policy,
            opt_text(*key),
            user@,
            host@,
            env.pairs(),
            command@,
        ));
    }
    argv
}

/// Plans an ssh step from its rendered strings.
pub fn plan_ssh(
    idx: usize,
    name: &Option<String>,
    policy: HostKeyPolicy,
    key: &Option<String>,
    user: &str,
    host: &str,
    env: &EnvMap,
    command: &str,
    dry_run: bool,
) -> (plan: StepPlan)
    ensures
        plan@ == ssh_plan(
            idx as nat,
            opt_text(*name),
            policy,
            opt_text(*key),
            user@,
            host@,
            env.pairs(),
            command@,
            dry_run,
        ),
{
    let mut argv = build_argv(policy, key, user, host, env, command);
    let line = join(&argv, " ");
    let label = step_label(name, "ssh");
    let notices = header_lines(idx, label.as_str(), line.as_str());
    let ghost all = texts(argv@);
    let program = argv.remove(0);
    proof {
        assert(texts(argv@) =~= all.drop_first());
    }
    let process = ProcessPlan {
        program,
        args: argv,
        env: None,
        cwd: None,
        source: String::from_str("ssh"),
    };
    StepPlan { notices, action: in_mode(dry_run, Action::Spawn(process)) }
}

} // verus!
