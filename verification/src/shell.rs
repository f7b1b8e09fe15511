//! Invoking PowerShell: the argument list of a call and the reading of
//! what it printed.
use vstd::prelude::*;
use vstd::string::StringExecFns;

use crate::text::{trim_str, trimmed, views};

verus! {

/// The arguments that run `command` in a non-interactive PowerShell that
/// loads no profile and ignores the execution policy.
pub open spec fn powershell_arguments_spec(command: Seq<char>) -> Seq<Seq<char>> {
    seq![
        "-NoProfile"@,
        "-NonInteractive"@,
        "-ExecutionPolicy"@,
        "Bypass"@,
        "-Command"@,
        command,
    ]
}

/// The arguments that run the script file at `path` the same way.
pub open spec fn powershell_file_arguments_spec(path: Seq<char>) -> Seq<Seq<char>> {
    seq!["-NoProfile"@, "-NonInteractive"@, "-ExecutionPolicy"@, "Bypass"@, "-File"@, path]
}

fn fixed_arguments() -> (args: Vec<String>)
    ensures
        views(args@) == seq![
            "-NoProfile"@,
            "-NonInteractive"@,
            "-ExecutionPolicy"@,
            "Bypass"@,
        ],
{
    let mut args: Vec<String> = Vec::new();
    args.push("-NoProfile".to_owned());
    args.push("-NonInteractive".to_owned());
    args.push("-ExecutionPolicy".to_owned());
    args.push("Bypass".to_owned());
    proof {
        assert(views(args@) =~= seq![
            "-NoProfile"@,
            "-NonInteractive"@,
            "-ExecutionPolicy"@,
            "Bypass"@,
        ]);
    }
    args
}

/// The PowerShell arguments that run `command`.
pub fn powershell_arguments(command: &str) -> (args: Vec<String>)
    ensures
        views(args@) == powershell_arguments_spec(command@),
{
    let mut args = fixed_arguments();
    let ghost before = args@;
    args.push("-Command".to_owned());
    args.push(command.to_owned());
    proof {
        assert(views(args@) =~= views(before).push("-Command"@).push(command@));
        assert(views(args@) =~= powershell_arguments_spec(command@));
    }
    args
}

/// The PowerShell arguments that run the script file at `path`.
pub fn powershell_file_arguments(path: &str) -> (args: Vec<String>)
    ensures
        views(args@) == powershell_file_arguments_spec(path@),
{
    let mut args = fixed_arguments();
    let ghost before = args@;
    args.push("-File".to_owned());
    args.push(path.to_owned());
    proof {
        assert(views(args@) =~= views(before).push("-File"@).push(path@));
        assert(views(args@) =~= powershell_file_arguments_spec(path@));
    }
    args
}

/// The text views of a command's reply.
pub open spec fn reply_view(r: Result<String, String>) -> Result<Seq<char>, Seq<char>> {
    match r {
        Ok(s) => Ok(s@),
        Err(e) => Err(e@),
    }
}

/// The reply of a PowerShell run that exited with `success` after printing
/// `stdout` and `stderr`: the trimmed output on success; otherwise an error
/// that quotes the trimmed error output, or the trimmed output when the
/// error output is blank.
pub open spec fn powershell_reply_spec(success: bool, stdout: Seq<char>, stderr: Seq<char>) -> Result<
    Seq<char>,
    Seq<char>,
> {
    let out = trimmed(stdout);
    let err = trimmed(stderr);
    if success {
        Ok(out)
    } else {
        Err("PowerShell exit code non-zero: "@ + if err.len() > 0 {
            err
        } else {
            out
        })
    }
}

/// Reads the outcome of a PowerShell run.
pub fn powershell_reply(success: bool, stdout: &str, stderr: &str) -> (r: Result<String, String>)
    ensures
        reply_view(r) == powershell_reply_spec(success, stdout@, stderr@),
{
    let out = trim_str(stdout);
    let err = trim_str(stderr);
    if success {
        Ok(out)
    } else {
        let mut msg = "PowerShell exit code non-zero: ".to_owned();
        if !err.as_str().is_empty() {
            msg.append(err.as_str());
        } else {
            msg.append(out.as_str());
        }
        Err(msg)
    }
}

/// The error reported when PowerShell could not be started; `detail`
/// describes the failure.
pub fn launch_failure(detail: &str) -> (msg: String)
    ensures
        msg@ == "PowerShell error: "@ + detail@,
{
    let mut msg = "PowerShell error: ".to_owned();
    msg.append(detail);
    msg
}

/// `parts` joined with `sep` between neighbours (`[String]::join`).
pub open spec fn joined(parts: Seq<Seq<char>>, sep: Seq<char>) -> Seq<char>
    decreases parts.len(),
{
    if parts.len() == 0 {
        Seq::empty()
    } else if parts.len() == 1 {
        parts[0]
    } else {
        joined(parts.drop_last(), sep) + sep + parts.last()
    }
}

/// The command line handed to the elevated copy of the program: its own
/// arguments joined with single spaces.
pub fn join_arguments(args: &Vec<String>) -> (line: String)
    ensures
        line@ == joined(views(args@), " "@),
{
    let mut line = String::new();
    let mut i: usize = 0;
    while i < args.len()
        invariant
            i <= args.len(),
            line@ == joined(views(args@).take(i as int), " "@),
        decreases args.len() - i,
    {
        let ghost prev = views(args@).take(i as int);
        if i > 0 {
            line.append(" ");
        }
        line.append(args[i].as_str());
        proof {
            let all = views(args@);
            assert(all.take(i + 1).drop_last() =~= prev);
            assert(all.take(i + 1).last() == args@[i as int]@);
            if i == 0 {
                assert(prev =~= Seq::<Seq<char>>::empty());
                assert(line@ =~= args@[0]@);
            }
        }
        i = i + 1;
    }
    proof {
        assert(views(args@).take(args.len() as int) =~= views(args@));
    }
    line
}

/// `ShellExecuteW` reports success with a value above 32.
pub fn shell_execute_succeeded(code: usize) -> (ok: bool)
    ensures
        ok == (code > 32),
{
    code > 32
}

} // verus!
