//! The fixed catalogue of callable operations: each maps a structured
//! request to a concrete executable — or an ordered candidate list — and an
//! argument vector. The catalogue is static; nothing here is learned or
//! cached across calls.

use vstd::prelude::*;
use vstd::string::*;
use crate::args::{
    script_args, script_args_spec, sync_args, sync_args_spec, terminal_args, terminal_args_spec,
};
use crate::order::names_of;
use crate::text::str_eq;

verus! {

/// A ready-to-spawn invocation: one concrete executable and its argument
/// vector.
pub struct Invocation {
    pub program: String,
    pub args: Vec<String>,
}

/// An invocation whose executable is resolved by trying an ordered list of
/// candidate names until one spawns.
pub struct CandidateInvocation {
    pub candidates: Vec<String>,
    pub args: Vec<String>,
}

/// The interpreter's conventional executable names, in the fixed priority
/// order in which they are tried.
pub fn interpreter_candidates() -> (r: Vec<String>)
    ensures
        names_of(r@) == seq!["python3"@, "python"@],
{
    let mut out: Vec<String> = Vec::new();
    out.push(String::from_str("python3"));
    out.push(String::from_str("python"));
    proof {
        assert(names_of(out@) =~= seq!["python3"@, "python"@]);
    }
    out
}

/// The minimal argument vector of a presence or version probe.
pub fn version_probe_args() -> (r: Vec<String>)
    ensures
        names_of(r@) == seq!["--version"@],
{
    let mut out: Vec<String> = Vec::new();
    out.push(String::from_str("--version"));
    proof {
        assert(names_of(out@) =~= seq!["--version"@]);
    }
    out
}

/// The interpreter-script operation: the interpreter (resolved through its
/// candidate names) runs the script path first, then the caller's arguments.
pub fn interpreter_script_invocation(script_path: String, args: &Vec<String>) -> (r:
    CandidateInvocation)
    ensures
        names_of(r.candidates@) == seq!["python3"@, "python"@],
        names_of(r.args@) == script_args_spec(script_path@, names_of(args@)),
{
    CandidateInvocation { candidates: interpreter_candidates(), args: script_args(script_path, args) }
}

/// The inline interpreter operation: the primary interpreter name alone runs
/// the given script or module identifier, then the caller's arguments.
pub fn interpreter_command_invocation(script: String, args: &Vec<String>) -> (r: Invocation)
    ensures
        r.program@ == "python3"@,
        names_of(r.args@) == script_args_spec(script@, names_of(args@)),
{
    Invocation { program: String::from_str("python3"), args: script_args(script, args) }
}

/// The sync operation: the dedicated sync tool with the action verb first,
/// the fixed flag/value pairs, then the caller's option tokens.
pub fn sync_invocation(
    action: String,
    local_path: String,
    machine: String,
    repo: String,
    options: &Vec<String>,
) -> (r: Invocation)
    ensures
        r.program@ == "rediacc-cli-sync"@,
        names_of(r.args@) == sync_args_spec(
            action@,
            local_path@,
            machine@,
            repo@,
            names_of(options@),
        ),
{
    Invocation {
        program: String::from_str("rediacc-cli-sync"),
        args: sync_args(action, local_path, machine, repo, options),
    }
}

/// The terminal operation: the dedicated terminal tool with `--machine` and
/// the optional `--repo` and `--command` pairs.
pub fn terminal_invocation(machine: String, repo: Option<String>, command: Option<String>) -> (r:
    Invocation)
    ensures
        r.program@ == "rediacc-cli-term"@,
        names_of(r.args@) == terminal_args_spec(
            machine@,
            match repo {
                Option::Some(s) => Option::Some(s@),
                Option::None => Option::None,
            },
            match command {
                Option::Some(s) => Option::Some(s@),
                Option::None => Option::None,
            },
        ),
{
    Invocation {
        program: String::from_str("rediacc-cli-term"),
        args: terminal_args(machine, repo, command),
    }
}

/// The concrete tool run for a CLI mode token: `sync`, `term` and `plugin`
/// each select their dedicated tool; any other token falls back to the base
/// tool rather than failing.
pub open spec fn cli_program_spec(mode: Seq<char>) -> Seq<char> {
    if mode == "sync"@ {
        "rediacc-cli-sync"@
    } else if mode == "term"@ {
        "rediacc-cli-term"@
    } else if mode == "plugin"@ {
        "rediacc-cli-plugin"@
    } else {
        "rediacc-cli"@
    }
}

/// Maps a CLI mode token to the concrete executable name.
pub fn cli_program(mode: &str) -> (r: String)
    ensures
        r@ == cli_program_spec(mode@),
{
    if str_eq(mode, "sync") {
        String::from_str("rediacc-cli-sync")
    } else if str_eq(mode, "term") {
        String::from_str("rediacc-cli-term")
    } else if str_eq(mode, "plugin") {
        String::from_str("rediacc-cli-plugin")
    } else {
        String::from_str("rediacc-cli")
    }
}

/// The named-CLI operation: the mode token selects the tool, and the
/// caller's arguments pass through verbatim.
pub fn cli_invocation(mode: &str, args: Vec<String>) -> (r: Invocation)
    ensures
        r.program@ == cli_program_spec(mode@),
        r.args == args,
{
    Invocation { program: cli_program(mode), args }
}

/// The base CLI tool probed by the CLI presence check.
pub fn base_cli_tool() -> (r: String)
    ensures
        r@ == "rediacc-cli"@,
{
    String::from_str("rediacc-cli")
}

/// The shell-command operation: the caller's command text is relayed
/// verbatim, by design, to `cmd /C` on the Windows platform family and to
/// `sh -c` elsewhere. All further parsing belongs to that interpreter.
pub fn shell_invocation(windows: bool, command: String) -> (r: Invocation)
    ensures
        windows ==> r.program@ == "cmd"@ && names_of(r.args@) == seq!["/C"@, command@],
        !windows ==> r.program@ == "sh"@ && names_of(r.args@) == seq!["-c"@, command@],
{
    let mut args: Vec<String> = Vec::new();
    if windows {
        args.push(String::from_str("/C"));
        args.push(command);
        proof {
            assert(names_of(args@) =~= seq!["/C"@, args@[1]@]);
        }
        Invocation { program: String::from_str("cmd"), args }
    } else {
        args.push(String::from_str("-c"));
        args.push(command);
        proof {
            assert(names_of(args@) =~= seq!["-c"@, args@[1]@]);
        }
        Invocation { program: String::from_str("sh"), args }
    }
}

/// The primary distribution-descriptor probe: the descriptor tool with its
/// single-line description flag.
pub fn distro_probe_invocation() -> (r: Invocation)
    ensures
        r.program@ == "lsb_release"@,
        names_of(r.args@) == seq!["-d"@],
{
    let mut args: Vec<String> = Vec::new();
    args.push(String::from_str("-d"));
    proof {
        assert(names_of(args@) =~= seq!["-d"@]);
    }
    Invocation { program: String::from_str("lsb_release"), args }
}

/// The well-known static descriptor file read when the descriptor tool
/// answers nothing.
pub fn distro_descriptor_file() -> (r: String)
    ensures
        r@ == "/etc/os-release"@,
{
    String::from_str("/etc/os-release")
}

} // verus!
