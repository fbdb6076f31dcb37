use sidecar_supervisor::command::{
    create_command, get_user_shell, make_serve_args, serve_command, CommandSpec, EnvVar, Launcher,
    Program, DEFAULT_SHELL, SIDECAR_NAME,
};

fn var(name: &str, value: &str) -> EnvVar {
    EnvVar { name: name.to_string(), value: value.to_string() }
}

fn base_env(state_dir: &str) -> Vec<EnvVar> {
    vec![
        var("OPENCODE_EXPERIMENTAL_ICON_DISCOVERY", "true"),
        var("OPENCODE_EXPERIMENTAL_FILEWATCHER", "true"),
        var("OPENCODE_CLIENT", "desktop"),
        var("XDG_STATE_HOME", state_dir),
    ]
}

fn shell(shell: &str, sidecar: &str) -> Launcher {
    Launcher::Shell { shell: shell.to_string(), sidecar: sidecar.to_string() }
}

#[test]
fn shell_defaults_to_sh() {
    assert_eq!(DEFAULT_SHELL, "/bin/sh");
    assert_eq!(get_user_shell(None), "/bin/sh");
    assert_eq!(get_user_shell(Some("/usr/bin/zsh".to_string())), "/usr/bin/zsh");
}

#[test]
fn sidecar_gets_its_arguments_as_words() {
    let command = create_command(&Launcher::Sidecar, "/data", "  debug \t config\n");
    assert_eq!(SIDECAR_NAME, "opencode-cli");
    assert_eq!(
        command,
        CommandSpec {
            program: Program::Sidecar("opencode-cli".to_string()),
            args: vec!["debug".to_string(), "config".to_string()],
            env: base_env("/data"),
        }
    );
}

#[test]
fn shell_gets_one_quoted_command_line() {
    let command = create_command(&shell("/bin/zsh", "/opt/app/opencode-cli"), "/d", "debug config");
    assert_eq!(
        command,
        CommandSpec {
            program: Program::Path("/bin/zsh".to_string()),
            args: vec![
                "-il".to_string(),
                "-c".to_string(),
                "\"/opt/app/opencode-cli\" debug config".to_string(),
            ],
            env: base_env("/d"),
        }
    );
}

#[test]
fn nu_shell_gets_a_caret() {
    let command = create_command(&shell("/usr/local/bin/nu", "/a b/cli"), "/d", "--version");
    assert_eq!(command.args[2], "^\"/a b/cli\" --version");
    let command = create_command(&shell("/usr/bin/nushell", "/cli"), "/d", "x");
    assert_eq!(command.args[2], "\"/cli\" x");
    let command = create_command(&shell("nu", "/cli"), "/d", "x");
    assert_eq!(command.args[2], "\"/cli\" x");
    let command = create_command(&shell("/nu", "/cli"), "/d", "x");
    assert_eq!(command.args[2], "^\"/cli\" x");
}

#[test]
fn serve_arguments() {
    assert_eq!(make_serve_args("127.0.0.1", 4096), "serve --hostname 127.0.0.1 --port 4096");
    assert_eq!(make_serve_args("h", 0), "serve --hostname h --port 0");
}

#[test]
fn serve_command_passes_credentials_through_the_environment() {
    let command = serve_command(&Launcher::Sidecar, "/state", "127.0.0.1", 4096, "s3cret");
    assert_eq!(
        command.args,
        vec!["serve", "--hostname", "127.0.0.1", "--port", "4096"]
    );
    let mut env = base_env("/state");
    env.push(var("OPENCODE_SERVER_USERNAME", "opencode"));
    env.push(var("OPENCODE_SERVER_PASSWORD", "s3cret"));
    assert_eq!(command.env, env);
    assert!(command.args.iter().all(|a| !a.contains("s3cret")));
}

#[test]
fn serve_command_through_a_shell() {
    let command = serve_command(&shell("/bin/bash", "/x/cli"), "/state", "127.0.0.1", 81, "pw");
    assert_eq!(command.program, Program::Path("/bin/bash".to_string()));
    assert_eq!(
        command.args,
        vec!["-il", "-c", "\"/x/cli\" serve --hostname 127.0.0.1 --port 81"]
    );
    assert_eq!(command.env.len(), 6);
    assert_eq!(command.env[5], var("OPENCODE_SERVER_PASSWORD", "pw"));
}
