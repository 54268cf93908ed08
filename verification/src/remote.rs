//! Planned invocations against one host: the exact program, argument list
//! and environment for synchronizing to a host and for running commands in
//! its build directory over a secure remote shell. The library decides every
//! byte of these invocations; executing them is the caller's work.

use crate::host::{Host, HostSpec};
use vstd::prelude::*;

verus! {

/// What kind of work a step performs; failures of remote-shell steps are
/// echoed to the log, exactly as the original session did.
#[derive(Copy, Clone, PartialEq, Eq, Structural, Debug)]
pub enum StepKind {
    /// A local `git push` that synchronizes the tracked tree to the host.
    LocalPush,
    /// A command run on the host through the remote shell.
    RemoteShell,
}

/// Mathematical image of a [`Step`].
pub struct StepSpec {
    pub kind: StepKind,
    pub header: Seq<char>,
    pub title: Seq<char>,
    pub program: Seq<char>,
    pub args: Seq<Seq<char>>,
    pub env: Option<(Seq<char>, Seq<char>)>,
}

/// One planned invocation: a program with its arguments and optional
/// environment override, the log header its output is attributed to, and the
/// command text echoed before it runs.
#[derive(Debug)]
pub struct Step {
    /// What kind of work this step performs.
    pub kind: StepKind,
    /// The log header (host name, or `local`) for this step's echo and
    /// streamed output.
    pub header: String,
    /// The command text echoed through the sink before execution.
    pub title: String,
    /// The program to execute.
    pub program: String,
    /// Its argument list.
    pub args: Vec<String>,
    /// An environment variable set for this invocation alone.
    pub env: Option<(String, String)>,
}

impl View for Step {
    type V = StepSpec;

    open spec fn view(&self) -> StepSpec {
        StepSpec {
            kind: self.kind,
            header: self.header@,
            title: self.title@,
            program: self.program@,
            args: self.args.deep_view(),
            env: match self.env {
                Some(pair) => Some((pair.0@, pair.1@)),
                None => None,
            },
        }
    }
}

impl DeepView for Step {
    type V = StepSpec;

    open spec fn deep_view(&self) -> StepSpec {
        self.view()
    }
}

/// The shell text that runs `cmd` inside the host's build directory.
pub open spec fn spec_in_build_dir(h: HostSpec, cmd: Seq<char>) -> Seq<char> {
    "cd \""@ + h.build_dir + "\"; "@ + cmd
}

/// The step that runs `cmd` on the host: `ssh` with the host's connection
/// arguments, the command wrapped to run in the build directory, echoed and
/// attributed under the host's name.
pub open spec fn spec_remote_step(h: HostSpec, cmd: Seq<char>) -> StepSpec {
    StepSpec {
        kind: StepKind::RemoteShell,
        header: h.name,
        title: cmd,
        program: "ssh"@,
        args: h.ssh_command(spec_in_build_dir(h, cmd)),
        env: None,
    }
}

/// The shell text that creates the host's build directory.
pub open spec fn spec_mkdir_cmd(h: HostSpec) -> Seq<char> {
    "mkdir -p \""@ + h.build_dir + "\""@
}

/// The step that creates the build directory: run outside it (it may not
/// exist yet), echoed under the host's name.
pub open spec fn spec_mkdir_step(h: HostSpec) -> StepSpec {
    StepSpec {
        kind: StepKind::RemoteShell,
        header: h.name,
        title: spec_mkdir_cmd(h),
        program: "ssh"@,
        args: h.ssh_command(spec_mkdir_cmd(h)),
        env: None,
    }
}

/// The argument list of the local `git push` that synchronizes the tracked
/// tree to the host.
pub open spec fn spec_push_args(h: HostSpec) -> Seq<Seq<char>> {
    seq![
        "--git-dir=.bran"@,
        "--work-tree=."@,
        "push"@,
        "-f"@,
        h.git_ssh_url(),
        "master:bran"@,
    ]
}

/// The echoed text of the local `git push` invocation.
pub open spec fn spec_push_title(h: HostSpec) -> Seq<char> {
    "git --git-dir=.bran --work-tree=. push -f "@ + h.git_ssh_url() + " master:bran"@
}

/// The synchronization step: a local `git push` to the host's URL, with
/// `GIT_SSH_COMMAND` set when the host has an identity file, attributed to
/// the `local` header.
pub open spec fn spec_push_step(h: HostSpec) -> StepSpec {
    StepSpec {
        kind: StepKind::LocalPush,
        header: "local"@,
        title: spec_push_title(h),
        program: "git"@,
        args: spec_push_args(h),
        env: match h.git_ssh_command() {
            Some(v) => Some(("GIT_SSH_COMMAND"@, v)),
            None => None,
        },
    }
}

/// The two steps that initialize a host: create the build directory, then
/// run `git init` inside it.
pub open spec fn spec_init_steps(h: HostSpec) -> Seq<StepSpec> {
    seq![spec_mkdir_step(h), spec_remote_step(h, "git init"@)]
}

/// The planning side of a session with one host: it derives every remote
/// invocation from the host's parameters.
pub struct Remote {
    /// The host this session addresses.
    pub host: Host,
}

impl Remote {
    /// A session planner for `host`.
    pub fn new(host: &Host) -> (r: Remote)
        ensures
            r.host@ == host@,
    {
        Remote { host: host.clone() }
    }

    /// The step that runs `cmd` in the host's build directory over the
    /// remote shell.
    pub fn run(&self, cmd: &str) -> (s: Step)
        ensures
            s@ == spec_remote_step(self.host@, cmd@),
    {
        let mut wrapped = String::from_str("cd \"");
        wrapped.append(self.host.build_dir.as_str());
        wrapped.append("\"; ");
        wrapped.append(cmd);

        let args = self.host.ssh_command(wrapped.as_str());
        Step {
            kind: StepKind::RemoteShell,
            header: self.host.name.clone(),
            title: String::from_str(cmd),
            program: String::from_str("ssh"),
            args,
            env: None,
        }
    }

    /// The steps that initialize the host: ensure the build directory
    /// exists, then initialize a synchronization target inside it.
    pub fn init(&self) -> (v: Vec<Step>)
        ensures
            v.deep_view() == spec_init_steps(self.host@),
    {
        let mut mkdir = String::from_str("mkdir -p \"");
        mkdir.append(self.host.build_dir.as_str());
        mkdir.append("\"");

        let args = self.host.ssh_command(mkdir.as_str());
        let mkdir_step = Step {
            kind: StepKind::RemoteShell,
            header: self.host.name.clone(),
            title: mkdir,
            program: String::from_str("ssh"),
            args,
            env: None,
        };

        let mut v: Vec<Step> = Vec::new();
        v.push(mkdir_step);
        v.push(self.run("git init"));
        proof {
            assert(v.deep_view() =~= spec_init_steps(self.host@));
        }
        v
    }
}

/// The synchronization step for `host`: the local `git push` invocation
/// that transfers the tracked tree, echoed under the `local` header.
pub fn push_step(host: &Host) -> (s: Step)
    ensures
        s@ == spec_push_step(host@),
{
    let url = host.git_ssh_url();

    let mut title = String::from_str("git --git-dir=.bran --work-tree=. push -f ");
    title.append(url.as_str());
    title.append(" master:bran");

    let mut args: Vec<String> = Vec::new();
    args.push(String::from_str("--git-dir=.bran"));
    args.push(String::from_str("--work-tree=."));
    args.push(String::from_str("push"));
    args.push(String::from_str("-f"));
    args.push(url);
    args.push(String::from_str("master:bran"));

    let env = match host.git_ssh_command() {
        Some(v) => Some((String::from_str("GIT_SSH_COMMAND"), v)),
        None => None,
    };

    let s = Step {
        kind: StepKind::LocalPush,
        header: String::from_str("local"),
        title,
        program: String::from_str("git"),
        args,
        env,
    };
    proof {
        assert(s@.args =~= spec_push_args(host@));
    }
    s
}

} // verus!
