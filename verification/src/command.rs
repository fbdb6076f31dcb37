//! How the supervised program is invoked.
//!
//! The program is started in one of two ways. Where the host application
//! ships it as a sidecar that can be run directly, it is run by its sidecar
//! name with its arguments as separate words. Elsewhere it is run through
//! the user's login shell, so that it sees the user's environment; then the
//! whole invocation is one command line handed to the shell.
//!
//! Either way the environment selects the client identity and the feature
//! flags and points the program's state directory at the application's own
//! data location. A server is started with the `serve` subcommand, and its
//! credentials go through the environment, never through the arguments.

use crate::text::{
    decimal,
    ends_with,
    has_suffix,
    push_decimal,
    split_whitespace,
    texts,
    words,
};
use vstd::prelude::*;
use vstd::string::StringExecFns;

verus! {

/// The sidecar name of the supervised program.
pub const SIDECAR_NAME: &'static str = "opencode-cli";

/// The shell that is used where the user has chosen none.
pub const DEFAULT_SHELL: &'static str = "/bin/sh";

/// The way in which the supervised program is started on this platform.
#[derive(Debug)]
pub enum Launcher {
    /// Directly, by its sidecar name.
    Sidecar,
    /// Through the login shell at `shell`; `sidecar` is the path of the
    /// program's binary.
    Shell { shell: String, sidecar: String },
}

/// The mathematical value of a [`Launcher`].
pub enum LauncherView {
    Sidecar,
    Shell { shell: Seq<char>, sidecar: Seq<char> },
}

impl View for Launcher {
    type V = LauncherView;

    open spec fn view(&self) -> LauncherView {
        match self {
            Launcher::Sidecar => LauncherView::Sidecar,
            Launcher::Shell { shell, sidecar } => LauncherView::Shell {
                shell: shell@,
                sidecar: sidecar@,
            },
        }
    }
}

/// What is run.
#[derive(Debug, PartialEq, Eq)]
pub enum Program {
    /// The sidecar of this name.
    Sidecar(String),
    /// The program at this path.
    Path(String),
}

/// The mathematical value of a [`Program`].
pub enum ProgramView {
    Sidecar(Seq<char>),
    Path(Seq<char>),
}

impl View for Program {
    type V = ProgramView;

    open spec fn view(&self) -> ProgramView {
        match self {
            Program::Sidecar(name) => ProgramView::Sidecar(name@),
            Program::Path(path) => ProgramView::Path(path@),
        }
    }
}

/// One variable of a command's environment.
#[derive(Debug, PartialEq, Eq)]
pub struct EnvVar {
    pub name: String,
    pub value: String,
}

/// The mathematical value of an [`EnvVar`].
pub struct EnvVarView {
    pub name: Seq<char>,
    pub value: Seq<char>,
}

impl View for EnvVar {
    type V = EnvVarView;

    open spec fn view(&self) -> EnvVarView {
        EnvVarView { name: self.name@, value: self.value@ }
    }
}

/// A command, ready to be spawned.
#[derive(Debug, PartialEq, Eq)]
pub struct CommandSpec {
    pub program: Program,
    pub args: Vec<String>,
    pub env: Vec<EnvVar>,
}

/// The mathematical value of a [`CommandSpec`].
pub struct CommandView {
    pub program: ProgramView,
    pub args: Seq<Seq<char>>,
    pub env: Seq<EnvVarView>,
}

impl View for CommandSpec {
    type V = CommandView;

    open spec fn view(&self) -> CommandView {
        CommandView {
            program: self.program@,
            args: texts(self.args@),
            env: self.env@.map_values(|v: EnvVar| v@),
        }
    }
}

/// The shell to use, given the user's choice if there is one.
pub open spec fn chosen_shell(choice: Option<Seq<char>>) -> Seq<char> {
    match choice {
        Some(shell) => shell,
        None => DEFAULT_SHELL@,
    }
}

/// The environment of every invocation of the supervised program.
pub open spec fn base_env(state_dir: Seq<char>) -> Seq<EnvVarView> {
    seq![
        EnvVarView { name: "OPENCODE_EXPERIMENTAL_ICON_DISCOVERY"@, value: "true"@ },
        EnvVarView { name: "OPENCODE_EXPERIMENTAL_FILEWATCHER"@, value: "true"@ },
        EnvVarView { name: "OPENCODE_CLIENT"@, value: "desktop"@ },
        EnvVarView { name: "XDG_STATE_HOME"@, value: state_dir },
    ]
}

/// The command line that the shell is handed: the quoted path of the
/// binary, then the arguments. For a shell whose path ends in `/nu` the
/// line begins with a caret, which makes that shell run an external
/// program.
pub open spec fn shell_line(shell: Seq<char>, sidecar: Seq<char>, args: Seq<char>) -> Seq<char> {
    if has_suffix(shell, "/nu"@) {
        "^\""@ + sidecar + "\" "@ + args
    } else {
        "\""@ + sidecar + "\" "@ + args
    }
}

/// The command that runs the supervised program with the given arguments.
pub open spec fn command_for(
    launcher: LauncherView,
    state_dir: Seq<char>,
    args: Seq<char>,
) -> CommandView {
    match launcher {
        LauncherView::Sidecar => CommandView {
            program: ProgramView::Sidecar(SIDECAR_NAME@),
            args: words(args),
            env: base_env(state_dir),
        },
        LauncherView::Shell { shell, sidecar } => CommandView {
            program: ProgramView::Path(shell),
            args: seq!["-il"@, "-c"@, shell_line(shell, sidecar, args)],
            env: base_env(state_dir),
        },
    }
}

/// The arguments that start a server at the given host and port.
pub open spec fn serve_args(hostname: Seq<char>, port: u32) -> Seq<char> {
    "serve --hostname "@ + hostname + " --port "@ + decimal(port as nat)
}

/// The command that starts a server: the `serve` invocation, with the
/// user name and the password in the environment.
pub open spec fn serve_command_for(
    launcher: LauncherView,
    state_dir: Seq<char>,
    hostname: Seq<char>,
    port: u32,
    password: Seq<char>,
) -> CommandView {
    let base = command_for(launcher, state_dir, serve_args(hostname, port));
    CommandView {
        env: base.env.push(
            EnvVarView { name: "OPENCODE_SERVER_USERNAME"@, value: "opencode"@ },
        ).push(EnvVarView { name: "OPENCODE_SERVER_PASSWORD"@, value: password }),
        ..base
    }
}

/// The shell to use, given the user's choice if there is one.
pub fn get_user_shell(choice: Option<String>) -> (shell: String)
    ensures
        shell@ == chosen_shell(
            match choice {
                Some(c) => Some(c@),
                None => None,
            },
        ),
{
    match choice {
        Some(shell) => shell,
        None => String::from_str(DEFAULT_SHELL),
    }
}

fn env_var(name: &str, value: &str) -> (var: EnvVar)
    ensures
        var@ == (EnvVarView { name: name@, value: value@ }),
{
    EnvVar { name: String::from_str(name), value: String::from_str(value) }
}

fn make_base_env(state_dir: &str) -> (env: Vec<EnvVar>)
    ensures
        env@.map_values(|v: EnvVar| v@) == base_env(state_dir@),
{
    let mut env: Vec<EnvVar> = Vec::new();
    env.push(env_var("OPENCODE_EXPERIMENTAL_ICON_DISCOVERY", "true"));
    env.push(env_var("OPENCODE_EXPERIMENTAL_FILEWATCHER", "true"));
    env.push(env_var("OPENCODE_CLIENT", "desktop"));
    env.push(env_var("XDG_STATE_HOME", state_dir));
    assert(env@.map_values(|v: EnvVar| v@) =~= base_env(state_dir@));
    env
}

fn make_shell_line(shell: &str, sidecar: &str, args: &str) -> (line: String)
    ensures
        line@ == shell_line(shell@, sidecar@, args@),
{
    let mut line = if ends_with(shell, "/nu") {
        String::from_str("^\"")
    } else {
        String::from_str("\"")
    };
    line.append(sidecar);
    line.append("\" ");
    line.append(args);
    line
}

/// Builds the command that runs the supervised program with the given
/// arguments, the way the launcher asks for.
pub fn create_command(launcher: &Launcher, state_dir: &str, args: &str) -> (command: CommandSpec)
    ensures
        command@ == command_for(launcher@, state_dir@, args@),
{
    let env = make_base_env(state_dir);
    match launcher {
        Launcher::Sidecar => {
            let command = CommandSpec {
                program: Program::Sidecar(String::from_str(SIDECAR_NAME)),
                args: split_whitespace(args),
                env,
            };
            command
        },
        Launcher::Shell { shell, sidecar } => {
            let mut words: Vec<String> = Vec::new();
            words.push(String::from_str("-il"));
            words.push(String::from_str("-c"));
            words.push(make_shell_line(shell.as_str(), sidecar.as_str(), args));
            assert(texts(words@) =~= seq![
                "-il"@,
                "-c"@,
                shell_line(shell@, sidecar@, args@),
            ]);
            CommandSpec { program: Program::Path(shell.clone()), args: words, env }
        },
    }
}

/// Builds the arguments that start a server at the given host and port.
pub fn make_serve_args(hostname: &str, port: u32) -> (args: String)
    ensures
        args@ == serve_args(hostname@, port),
{
    let mut args = String::from_str("serve --hostname ");
    args.append(hostname);
    args.append(" --port ");
    push_decimal(&mut args, port as u64);
    args
}

/// Builds the command that starts a server at the given host and port,
/// protected by the given password.
pub fn serve_command(
    launcher: &Launcher,
    state_dir: &str,
    hostname: &str,
    port: u32,
    password: &str,
) -> (command: CommandSpec)
    ensures
        command@ == serve_command_for(launcher@, state_dir@, hostname@, port, password@),
{
    let args = make_serve_args(hostname, port);
    let mut command = create_command(launcher, state_dir, args.as_str());
    let ghost base = command@;
    command.env.push(env_var("OPENCODE_SERVER_USERNAME", "opencode"));
    command.env.push(env_var("OPENCODE_SERVER_PASSWORD", password));
    assert(command@.env =~= base.env.push(
        EnvVarView { name: "OPENCODE_SERVER_USERNAME"@, value: "opencode"@ },
    ).push(EnvVarView { name: "OPENCODE_SERVER_PASSWORD"@, value: password@ }));
    command
}

} // verus!
