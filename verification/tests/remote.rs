use rust_runner::env::EnvMap;
use rust_runner::plan::Action;
use rust_runner::remote::{
    build_argv, env_prefix, host_key_policy, identity_template, plan_ssh, HostKeyPolicy,
};
use rust_runner::schema::SshAuth;

fn env_of(pairs: &[(&str, &str)]) -> EnvMap {
    let mut m = EnvMap::new();
    for (k, v) in pairs {
        m.insert(k.to_string(), v.to_string());
    }
    m
}

fn auth(kind: &str, key_path: Option<&str>) -> SshAuth {
    SshAuth {
        kind: kind.to_string(),
        password: None,
        key_path: key_path.map(|s| s.to_string()),
        passphrase: None,
    }
}

const STRICT_OFF: &str = "StrictHostKeyChecking=no";
const KNOWN_HOSTS_OFF: &str = "UserKnownHostsFile=/dev/null";

#[test]
fn policy_words() {
    assert_eq!(host_key_policy(&None), HostKeyPolicy::Accept);
    assert_eq!(host_key_policy(&Some("no".to_string())), HostKeyPolicy::Accept);
    assert_eq!(host_key_policy(&Some("yes".to_string())), HostKeyPolicy::Strict);
    assert_eq!(host_key_policy(&Some("fingerprint".to_string())), HostKeyPolicy::Fingerprint);
    assert_eq!(host_key_policy(&Some("No".to_string())), HostKeyPolicy::Unknown);
    assert_eq!(host_key_policy(&Some("".to_string())), HostKeyPolicy::Unknown);
    assert_eq!(host_key_policy(&Some("yes ".to_string())), HostKeyPolicy::Unknown);
}

#[test]
fn identity_only_for_key_auth_with_a_path() {
    assert_eq!(identity_template(&None), None);
    assert_eq!(identity_template(&Some(auth("key", None))), None);
    assert_eq!(identity_template(&Some(auth("password", Some("/k")))), None);
    assert_eq!(identity_template(&Some(auth("Key", Some("/k")))), None);
    assert_eq!(identity_template(&Some(auth("key", Some("/k")))), Some(&"/k".to_string()));
}

#[test]
fn argv_with_checking_off_holds_the_two_options() {
    let argv = build_argv(HostKeyPolicy::Accept, &None, "root", "example.org", &EnvMap::new(), "uptime");
    assert_eq!(
        argv,
        vec!["ssh", "-o", STRICT_OFF, "-o", KNOWN_HOSTS_OFF, "root@example.org", "uptime"]
    );
}

#[test]
fn argv_with_strict_checking_holds_no_option() {
    let argv = build_argv(HostKeyPolicy::Strict, &None, "root", "example.org", &EnvMap::new(), "uptime");
    assert_eq!(argv, vec!["ssh", "root@example.org", "uptime"]);
    assert!(!argv.iter().any(|a| a == STRICT_OFF || a == KNOWN_HOSTS_OFF || a == "-o"));
}

#[test]
fn argv_with_fingerprint_or_unknown_policy_holds_no_option() {
    for policy in [HostKeyPolicy::Fingerprint, HostKeyPolicy::Unknown] {
        let argv = build_argv(policy, &None, "u", "h", &EnvMap::new(), "true");
        assert_eq!(argv, vec!["ssh", "u@h", "true"]);
    }
}

#[test]
fn argv_names_the_identity_file_before_the_target() {
    let key = Some("/home/me/.ssh/id_ed25519".to_string());
    let argv = build_argv(HostKeyPolicy::Strict, &key, "deploy", "10.0.0.1", &EnvMap::new(), "ls -l");
    assert_eq!(argv, vec!["ssh", "-i", "/home/me/.ssh/id_ed25519", "deploy@10.0.0.1", "ls -l"]);
    let argv = build_argv(HostKeyPolicy::Accept, &key, "deploy", "10.0.0.1", &EnvMap::new(), "ls -l");
    assert_eq!(
        argv,
        vec![
            "ssh",
            "-o",
            STRICT_OFF,
            "-o",
            KNOWN_HOSTS_OFF,
            "-i",
            "/home/me/.ssh/id_ed25519",
            "deploy@10.0.0.1",
            "ls -l"
        ]
    );
}

#[test]
fn argv_puts_assignments_and_command_into_one_argument() {
    let env = env_of(&[("GREETING", "hello world"), ("N", "1")]);
    let argv = build_argv(HostKeyPolicy::Strict, &None, "root", "h", &env, "echo $GREETING");
    assert_eq!(argv, vec!["ssh", "root@h", "GREETING='hello world' N=1 echo $GREETING"]);
}

#[test]
fn env_prefix_of_no_variable_is_empty() {
    assert_eq!(env_prefix(&EnvMap::new()), "");
}

#[test]
fn env_prefix_quotes_values_and_ends_with_a_space() {
    assert_eq!(env_prefix(&env_of(&[("A", "plain-1.0")])), "A=plain-1.0 ");
    assert_eq!(env_prefix(&env_of(&[("A", "")])), "A='' ");
    assert_eq!(env_prefix(&env_of(&[("A", "two words")])), "A='two words' ");
    assert_eq!(env_prefix(&env_of(&[("A", "it's")])), "A='it'\\''s' ");
    assert_eq!(env_prefix(&env_of(&[("A", "wow!")])), "A='wow'\\!'' ");
    assert_eq!(env_prefix(&env_of(&[("A", "$HOME;rm -rf /")])), "A='$HOME;rm -rf /' ");
    assert_eq!(env_prefix(&env_of(&[("A", "ä")])), "A='ä' ");
}

#[test]
fn env_prefix_keeps_the_order_of_the_map() {
    assert_eq!(env_prefix(&env_of(&[("Z", "1"), ("A", "2"), ("M", "3")])), "Z=1 A=2 M=3 ");
    assert_eq!(env_prefix(&env_of(&[("A", "2"), ("M", "3"), ("Z", "1")])), "A=2 M=3 Z=1 ");
}

#[test]
fn ssh_plan_runs_the_client_with_the_parents_environment() {
    let plan = plan_ssh(1, &None, HostKeyPolicy::Accept, &None, "root", "web1", &EnvMap::new(), "uptime", false);
    assert_eq!(
        plan.notices,
        vec![
            "\n==[2] ssh ==".to_string(),
            format!("-> ssh -o {} -o {} root@web1 uptime", STRICT_OFF, KNOWN_HOSTS_OFF),
        ]
    );
    match plan.action {
        Action::Spawn(p) => {
            assert_eq!(p.program, "ssh");
            assert_eq!(p.args, vec!["-o", STRICT_OFF, "-o", KNOWN_HOSTS_OFF, "root@web1", "uptime"]);
            assert!(p.env.is_none());
            assert!(p.cwd.is_none());
            assert_eq!(p.source, "ssh");
        }
        other => panic!("{:?}", other),
    }
}

#[test]
fn ssh_plan_in_preview_starts_nothing() {
    let name = Some("remote uptime".to_string());
    let plan = plan_ssh(0, &name, HostKeyPolicy::Strict, &None, "root", "web1", &EnvMap::new(), "uptime", true);
    assert_eq!(plan.notices, vec!["\n==[1] remote uptime ==".to_string(), "-> ssh root@web1 uptime".to_string()]);
    assert!(matches!(plan.action, Action::Preview));
}
