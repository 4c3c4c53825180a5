use crate::env::EnvMap;
use vstd::prelude::*;

verus! {

/// `serde_yaml::Value`, the global variables as they were read. Nothing of
/// its contents is known here: it is handed to the template engine.
#[verifier::external_type_specification]
#[verifier::external_body]
pub struct ExYamlValue(serde_yaml::Value);

/// A list of steps with the variables that all of them see.
#[derive(Debug)]
pub struct Document {
    pub version: u32,
    pub globals: serde_yaml::Value,
    pub steps: Vec<Step>,
}

/// How to sign in on the remote host.
#[derive(Debug)]
pub struct SshAuth {
    /// `"password"` or `"key"`.
    pub kind: String,
    pub password: Option<String>,
    /// Template of the path of the identity file.
    pub key_path: Option<String>,
    pub passphrase: Option<String>,
}

/// A command to run on a remote host.
#[derive(Debug)]
pub struct SshSpec {
    pub host: String,
    pub user: Option<String>,
    pub auth: Option<SshAuth>,
    pub command: String,
    pub env: EnvMap,
    /// `"yes"`, `"no"` or `"fingerprint"`.
    pub check_host: Option<String>,
}

/// A program to run directly, with its arguments.
#[derive(Debug)]
pub struct ExecSpec {
    pub cmd: String,
    pub args: Vec<String>,
    pub env: EnvMap,
    pub cwd: Option<String>,
}

/// A command line to hand to a shell.
#[derive(Debug)]
pub struct ShellSpec {
    pub command: String,
    pub env: EnvMap,
    pub cwd: Option<String>,
    /// The shell and its leading arguments; `bash -c` where absent.
    pub shell: Option<String>,
}

/// A file to write from a template.
#[derive(Debug)]
pub struct ConfSpec {
    pub dest: String,
    pub template: String,
    pub backup: bool,
    /// The permission bits in octal notation.
    pub mode: Option<String>,
}

/// One step: a guard, overrides of the environment, and one operation.
#[derive(Debug)]
pub struct Step {
    pub name: Option<String>,
    pub when: Option<bool>,
    pub timeout: Option<u64>,
    pub retry: Option<u32>,
    pub env: EnvMap,
    /// The operation that runs a program directly.
    pub exec_: Option<ExecSpec>,
    pub shell: Option<ShellSpec>,
    pub ssh: Option<SshSpec>,
    pub conf: Option<ConfSpec>,
}

} // verus!
