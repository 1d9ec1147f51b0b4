//! How the backend is launched: its command line and the library search path
//! it is given.
//!
//! The backend is the runtime running the `uvicorn` module on the loopback
//! interface, with the allocated port as its last argument. Its library search
//! path is the installation root, followed by whatever the launcher's own
//! search path held.

use crate::precheck::CommandLine;
use vstd::prelude::*;
use vstd::string::*;

verus! {

/// The base port of a start that names none.
pub const DEFAULT_BASE_PORT: u16 = 37999;

/// The runtime command of a start that names none.
pub open spec fn default_runtime_text() -> Seq<char> {
    "python"@
}

/// The variable that holds the runtime's library search path.
pub open spec fn search_path_variable_text() -> Seq<char> {
    "PYTHONPATH"@
}

/// The character for the digit `d`.
pub open spec fn digit(d: nat) -> char {
    if d == 0 {
        '0'
    } else if d == 1 {
        '1'
    } else if d == 2 {
        '2'
    } else if d == 3 {
        '3'
    } else if d == 4 {
        '4'
    } else if d == 5 {
        '5'
    } else if d == 6 {
        '6'
    } else if d == 7 {
        '7'
    } else if d == 8 {
        '8'
    } else {
        '9'
    }
}

/// `n` in decimal, without leading zeros.
pub open spec fn decimal_text(n: nat) -> Seq<char>
    decreases n,
{
    if n < 10 {
        seq![digit(n)]
    } else {
        decimal_text(n / 10).push(digit(n % 10))
    }
}

/// The arguments that make the runtime serve the backend on `port`.
pub open spec fn server_args_text(port: u16) -> Seq<Seq<char>> {
    seq![
        "-m"@,
        "uvicorn"@,
        "webapp.api:app"@,
        "--host"@,
        "127.0.0.1"@,
        "--port"@,
        decimal_text(port as nat),
    ]
}

/// The search path for the backend: `root` alone where the launcher has no
/// search path of its own, else `root`, a colon, and the launcher's.
pub open spec fn search_path_text(root: Seq<char>, inherited: Option<Seq<char>>) -> Seq<char> {
    match inherited {
        Some(rest) => root + ":"@ + rest,
        None => root,
    }
}

/// The views of a list of strings.
pub open spec fn texts(list: Seq<String>) -> Seq<Seq<char>> {
    list.map_values(|s: String| s@)
}

/// What the launcher knows of its surroundings when it starts the backend.
#[derive(Debug, PartialEq, Eq)]
pub struct LaunchEnv {
    /// The installation root, where it could be found.
    pub root: Option<String>,
    /// The launcher's own library search path, where it has one.
    pub search_path: Option<String>,
    /// Whether children can be put into process groups of their own and
    /// signalled as a group.
    pub process_groups: bool,
}

/// Everything needed to spawn the backend.
#[derive(Debug, PartialEq, Eq)]
pub struct LaunchPlan {
    /// The runtime and its arguments.
    pub line: CommandLine,
    /// The value of the library search path variable for the child.
    pub search_path: String,
    /// Whether the child is to lead a process group of its own.
    pub own_process_group: bool,
}

/// `plan` launches `runtime` on `port` from the installation root `root`,
/// within `env`.
pub open spec fn is_plan(
    plan: LaunchPlan,
    runtime: Seq<char>,
    port: u16,
    root: Seq<char>,
    env: LaunchEnv,
) -> bool {
    &&& plan.line.program@ == runtime
    &&& texts(plan.line.args@) == server_args_text(port)
    &&& plan.search_path@ == search_path_text(
        root,
        match env.search_path {
            Some(s) => Some(s@),
            None => None,
        },
    )
    &&& plan.own_process_group == env.process_groups
}

/// The runtime command of a start that names none: `python`.
pub fn default_runtime() -> (runtime: String)
    ensures
        runtime@ == default_runtime_text(),
{
    String::from_str("python")
}

/// The name of the variable that holds the library search path.
pub fn search_path_variable() -> (name: &'static str)
    ensures
        name@ == search_path_variable_text(),
{
    "PYTHONPATH"
}

/// The one-character string for a digit.
fn digit_str(d: u16) -> (s: &'static str)
    requires
        d < 10,
    ensures
        s@ == seq![digit(d as nat)],
{
    proof {
        reveal_strlit("0");
        reveal_strlit("1");
        reveal_strlit("2");
        reveal_strlit("3");
        reveal_strlit("4");
        reveal_strlit("5");
        reveal_strlit("6");
        reveal_strlit("7");
        reveal_strlit("8");
        reveal_strlit("9");
    }
    let s = if d == 0 {
        "0"
    } else if d == 1 {
        "1"
    } else if d == 2 {
        "2"
    } else if d == 3 {
        "3"
    } else if d == 4 {
        "4"
    } else if d == 5 {
        "5"
    } else if d == 6 {
        "6"
    } else if d == 7 {
        "7"
    } else if d == 8 {
        "8"
    } else {
        "9"
    };
    assert(s@ =~= seq![digit(d as nat)]);
    s
}

/// Writes a port number in decimal.
pub fn decimal(n: u16) -> (text: String)
    ensures
        text@ == decimal_text(n as nat),
    decreases n,
{
    if n < 10 {
        String::from_str(digit_str(n))
    } else {
        let mut text = decimal(n / 10);
        text.append(digit_str(n % 10));
        assert(text@ =~= decimal_text(n as nat));
        text
    }
}

/// The arguments after the runtime's name on the backend's command line.
pub fn server_args(port: u16) -> (args: Vec<String>)
    ensures
        texts(args@) == server_args_text(port),
{
    let mut args: Vec<String> = Vec::new();
    args.push(String::from_str("-m"));
    args.push(String::from_str("uvicorn"));
    args.push(String::from_str("webapp.api:app"));
    args.push(String::from_str("--host"));
    args.push(String::from_str("127.0.0.1"));
    args.push(String::from_str("--port"));
    args.push(decimal(port));
    assert(texts(args@) =~= server_args_text(port));
    args
}

/// The library search path for the backend: the installation root goes in
/// front of the launcher's own search path, which is kept as it is.
pub fn search_path(root: &str, inherited: &Option<String>) -> (path: String)
    ensures
        path@ == search_path_text(
            root@,
            match *inherited {
                Some(s) => Some(s@),
                None => None,
            },
        ),
{
    let mut path = String::from_str(root);
    match inherited {
        Some(rest) => {
            path.append(":");
            path.append(rest.as_str());
        },
        None => {},
    }
    path
}

/// Plans the launch of `runtime` on `port` from the installation root `root`.
pub fn plan(runtime: &str, port: u16, root: &str, env: &LaunchEnv) -> (plan: LaunchPlan)
    ensures
        is_plan(plan, runtime@, port, root@, *env),
{
    LaunchPlan {
        line: CommandLine { program: String::from_str(runtime), args: server_args(port) },
        search_path: search_path(root, &env.search_path),
        own_process_group: env.process_groups,
    }
}

} // verus!
