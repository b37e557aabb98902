//! Construction of the argument vectors handed to the external tools: a
//! positional action token first where the operation has one, then the fixed
//! flag/value pairs, then the caller's free-form trailing options verbatim.

use vstd::prelude::*;
use vstd::string::*;
use crate::order::names_of;

verus! {

/// The argument vector of the sync operation: the action verb first, then
/// `--local`, `--machine` and `--repo` with their values in that fixed
/// order, then the caller's option tokens verbatim.
pub open spec fn sync_args_spec(
    action: Seq<char>,
    local_path: Seq<char>,
    machine: Seq<char>,
    repo: Seq<char>,
    options: Seq<Seq<char>>,
) -> Seq<Seq<char>> {
    seq![action, "--local"@, local_path, "--machine"@, machine, "--repo"@, repo] + options
}

/// The argument vector of the terminal operation: `--machine` with its value
/// first, then `--repo` and `--command` pairs only when those fields are
/// present; an absent field contributes no token at all.
pub open spec fn terminal_args_spec(
    machine: Seq<char>,
    repo: Option<Seq<char>>,
    command: Option<Seq<char>>,
) -> Seq<Seq<char>> {
    seq!["--machine"@, machine] + (match repo {
        Option::Some(r) => seq!["--repo"@, r],
        Option::None => Seq::empty(),
    }) + (match command {
        Option::Some(c) => seq!["--command"@, c],
        Option::None => Seq::empty(),
    })
}

/// The argument vector of an interpreter invocation: the script path or
/// module identifier first, then the caller's arguments verbatim.
pub open spec fn script_args_spec(script: Seq<char>, args: Seq<Seq<char>>) -> Seq<Seq<char>> {
    seq![script] + args
}

/// Appends clones of all of `extra` to `out`.
fn push_all(out: &mut Vec<String>, extra: &Vec<String>)
    ensures
        final(out)@ == old(out)@ + extra@,
{
    let mut i: usize = 0;
    proof {
        assert(out@ =~= out@ + extra@.take(0));
    }
    while i < extra.len()
        invariant
            0 <= i <= extra@.len(),
            out@ == old(out)@ + extra@.take(i as int),
        decreases extra@.len() - i,
    {
        out.push(extra[i].clone());
        proof {
            assert(old(out)@ + extra@.take(i as int + 1) =~= (old(out)@ + extra@.take(
                i as int,
            )).push(extra@[i as int]));
        }
        i += 1;
    }
    proof {
        assert(extra@.take(extra@.len() as int) =~= extra@);
    }
}

/// Builds the sync operation's argument vector.
pub fn sync_args(
    action: String,
    local_path: String,
    machine: String,
    repo: String,
    options: &Vec<String>,
) -> (r: Vec<String>)
    ensures
        names_of(r@) == sync_args_spec(
            action@,
            local_path@,
            machine@,
            repo@,
            names_of(options@),
        ),
{
    let mut out: Vec<String> = Vec::new();
    out.push(action);
    out.push(String::from_str("--local"));
    out.push(local_path);
    out.push(String::from_str("--machine"));
    out.push(machine);
    out.push(String::from_str("--repo"));
    out.push(repo);
    push_all(&mut out, options);
    proof {
        assert(names_of(out@) =~= sync_args_spec(
            action@,
            local_path@,
            machine@,
            repo@,
            names_of(options@),
        ));
    }
    out
}

/// Builds the terminal operation's argument vector.
pub fn terminal_args(machine: String, repo: Option<String>, command: Option<String>) -> (r: Vec<
    String,
>)
    ensures
        names_of(r@) == terminal_args_spec(
            machine@,
            match repo {
                Option::Some(s) => Option::Some(s@),
                Option::None => Option::None,
            },
            match command {
                Option::Some(s) => Option::Some(s@),
                Option::None => Option::None,
            },
        ),
{
    let ghost repo_view: Option<Seq<char>> = match repo {
        Option::Some(ref s) => Option::Some(s@),
        Option::None => Option::None,
    };
    let ghost command_view: Option<Seq<char>> = match command {
        Option::Some(ref s) => Option::Some(s@),
        Option::None => Option::None,
    };
    let mut out: Vec<String> = Vec::new();
    out.push(String::from_str("--machine"));
    out.push(machine);
    if let Option::Some(r) = repo {
        out.push(String::from_str("--repo"));
        out.push(r);
    }
    if let Option::Some(c) = command {
        out.push(String::from_str("--command"));
        out.push(c);
    }
    proof {
        assert(names_of(out@) =~= terminal_args_spec(machine@, repo_view, command_view));
    }
    out
}

/// Builds an interpreter invocation's argument vector.
pub fn script_args(script: String, args: &Vec<String>) -> (r: Vec<String>)
    ensures
        names_of(r@) == script_args_spec(script@, names_of(args@)),
{
    let mut out: Vec<String> = Vec::new();
    out.push(script);
    push_all(&mut out, args);
    proof {
        assert(names_of(out@) =~= script_args_spec(script@, names_of(args@)));
    }
    out
}

/// For every well-formed sync request, the argument vector places the
/// positional action token first, then the documented flag/value pairs in
/// their fixed order, then the caller's free-form tokens verbatim and in the
/// caller's order.
pub proof fn lemma_sync_args_shape(
    action: Seq<char>,
    local_path: Seq<char>,
    machine: Seq<char>,
    repo: Seq<char>,
    options: Seq<Seq<char>>,
)
    ensures
        sync_args_spec(action, local_path, machine, repo, options).len() == 7 + options.len(),
        sync_args_spec(action, local_path, machine, repo, options)[0] == action,
        sync_args_spec(action, local_path, machine, repo, options)[1] == "--local"@,
        sync_args_spec(action, local_path, machine, repo, options)[2] == local_path,
        sync_args_spec(action, local_path, machine, repo, options)[3] == "--machine"@,
        sync_args_spec(action, local_path, machine, repo, options)[4] == machine,
        sync_args_spec(action, local_path, machine, repo, options)[5] == "--repo"@,
        sync_args_spec(action, local_path, machine, repo, options)[6] == repo,
        forall|i: int|
            0 <= i < options.len() ==> sync_args_spec(action, local_path, machine, repo, options)[7
                + i] == options[i],
{
}

/// For every well-formed terminal request, `--machine` and its value come
/// first and each optional field contributes its flag/value pair exactly
/// when present — an absent field contributes zero tokens.
pub proof fn lemma_terminal_args_shape(
    machine: Seq<char>,
    repo: Option<Seq<char>>,
    command: Option<Seq<char>>,
)
    ensures
        terminal_args_spec(machine, repo, command).len() == 2 + (if repo is Some {
            2int
        } else {
            0
        }) + (if command is Some {
            2int
        } else {
            0
        }),
        terminal_args_spec(machine, repo, command)[0] == "--machine"@,
        terminal_args_spec(machine, repo, command)[1] == machine,
        repo matches Some(r) ==> (terminal_args_spec(machine, repo, command)[2] == "--repo"@
            && terminal_args_spec(machine, repo, command)[3] == r),
        repo is None ==> (command matches Some(c) ==> (terminal_args_spec(machine, repo, command)[2]
            == "--command"@ && terminal_args_spec(machine, repo, command)[3] == c)),
        repo is Some ==> (command matches Some(c) ==> (terminal_args_spec(machine, repo, command)[4]
            == "--command"@ && terminal_args_spec(machine, repo, command)[5] == c)),
{
}

/// For every interpreter request, the script path or module identifier is
/// the single positional token, and the caller's arguments follow verbatim
/// and in the caller's order.
pub proof fn lemma_script_args_shape(script: Seq<char>, args: Seq<Seq<char>>)
    ensures
        script_args_spec(script, args).len() == 1 + args.len(),
        script_args_spec(script, args)[0] == script,
        forall|i: int| 0 <= i < args.len() ==> script_args_spec(script, args)[1 + i] == args[i],
{
}

} // verus!
