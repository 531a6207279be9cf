use vstd::prelude::*;

verus! {

/// The settings key under which the user configures this language server.
pub const SETTINGS_KEY: &'static str = "emmylua";

/// What the host runs to start the language server.
pub struct LaunchCommand {
    pub command: String,
    pub args: Vec<String>,
    pub env: Vec<(String, String)>,
}

/// The arguments to pass: the configured ones, or none.
pub open spec fn launch_args(configured: Option<Vec<String>>) -> Seq<String> {
    match configured {
        Some(args) => args@,
        None => Seq::empty(),
    }
}

/// The environment: the shell's, followed by the configured overrides.
pub open spec fn launch_env(
    shell: Seq<(String, String)>,
    overrides: Option<Vec<(String, String)>>,
) -> Seq<(String, String)> {
    match overrides {
        Some(o) => shell + o@,
        None => shell,
    }
}

/// Builds the launch command for the resolved binary `path`.
///
/// Configured overrides come after the shell's variables, so that a host
/// reading the list in order lets them win.
pub fn launch_command(
    path: String,
    configured_args: Option<Vec<String>>,
    shell_env: Vec<(String, String)>,
    env_overrides: Option<Vec<(String, String)>>,
) -> (r: LaunchCommand)
    ensures
        r.command == path,
        r.args@ == launch_args(configured_args),
        r.env@ == launch_env(shell_env@, env_overrides),
{
    let args = match configured_args {
        Some(a) => a,
        None => Vec::new(),
    };
    let mut env = shell_env;
    match env_overrides {
        Some(o) => {
            let mut o = o;
            env.append(&mut o);
        },
        None => {},
    }
    LaunchCommand { command: path, args, env }
}

} // verus!
