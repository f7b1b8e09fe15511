//! The RAM optimizer: cleaning up what earlier installs left behind,
//! registering it to start at logon, and starting it.
use vstd::prelude::*;
use vstd::string::StringExecFns;

use crate::console::{color_code, color_code_spec, reset_code, reset_code_spec, Color};
use crate::text::views;

verus! {

/// The names earlier versions registered the RAM optimizer under.
pub open spec fn legacy_names() -> Seq<Seq<char>> {
    seq!["RS_RAM_Optimizer"@, "RSRAMOptimizer"@, "RSRamOptimizer"@, "RS RAM Optimizer"@, "RickStyles RAM Optimizer"@]
}

/// The command that removes the per-user (`HKCU`) or machine-wide
/// (`HKLM`) logon entry `name`, ignoring errors.
pub open spec fn run_key_removal(hive: Seq<char>, name: Seq<char>) -> Seq<char> {
    "Remove-ItemProperty -Path "@ + hive + ":\\Software\\Microsoft\\Windows\\CurrentVersion\\Run -Name '"@ + name
        + "' -ErrorAction SilentlyContinue"@
}

/// The two commands that remove scheduled task `name`: through PowerShell
/// and through `schtasks`.
pub open spec fn task_removals(name: Seq<char>) -> Seq<Seq<char>> {
    seq![
        "Unregister-ScheduledTask -TaskName '"@ + name + "' -Confirm:$false -ErrorAction SilentlyContinue"@,
        "schtasks /delete /tn \""@ + name + "\" /f"@,
    ]
}

/// The commands that remove logon shortcuts to optimizers from the user's
/// and the common Startup folders.
pub open spec fn startup_cleanups() -> Seq<Seq<char>> {
    seq![
        "Get-ChildItem \"$env:APPDATA\\Microsoft\\Windows\\Start Menu\\Programs\\Startup\" -Filter \"*optimizer*.lnk\" -ErrorAction SilentlyContinue | Remove-Item -Force -ErrorAction SilentlyContinue"@,
        "Get-ChildItem \"$env:ProgramData\\Microsoft\\Windows\\Start Menu\\Programs\\Startup\" -Filter \"*optimizer*.lnk\" -ErrorAction SilentlyContinue | Remove-Item -Force -ErrorAction SilentlyContinue"@,
        "Get-ChildItem \"$env:APPDATA\\Microsoft\\Windows\\Start Menu\\Programs\\Startup\" -Filter \"*ram*.lnk\" -ErrorAction SilentlyContinue | Remove-Item -Force -ErrorAction SilentlyContinue"@,
        "Get-ChildItem \"$env:ProgramData\\Microsoft\\Windows\\Start Menu\\Programs\\Startup\" -Filter \"*ram*.lnk\" -ErrorAction SilentlyContinue | Remove-Item -Force -ErrorAction SilentlyContinue"@,
    ]
}

/// Every cleanup command, in the order they run (their outcomes are not
/// looked at): the logon entries of each legacy name in both hives, the
/// scheduled tasks of each legacy name, then the Startup shortcuts.
pub open spec fn cleanup_commands() -> Seq<Seq<char>> {
    Seq::new(
        10,
        |i: int|
            run_key_removal(
                if i % 2 == 0 {
                    "HKCU"@
                } else {
                    "HKLM"@
                },
                legacy_names()[i / 2],
            ),
    ) + Seq::new(10, |i: int| task_removals(legacy_names()[i / 2])[i % 2]) + startup_cleanups()
}

fn push_text(v: &mut Vec<String>, s: String)
    ensures
        views(final(v)@) == views(old(v)@).push(s@),
{
    let ghost before = v@;
    v.push(s);
    proof {
        assert(views(v@) =~= views(before).push(s@));
    }
}

fn join3(a: &str, b: &str, c: &str) -> (s: String)
    ensures
        s@ == a@ + b@ + c@,
{
    let mut s = a.to_owned();
    s.append(b);
    s.append(c);
    s
}

fn legacy_name(i: usize) -> (n: &'static str)
    requires
        i < 5,
    ensures
        n@ == legacy_names()[i as int],
{
    if i == 0 {
        "RS_RAM_Optimizer"
    } else if i == 1 {
        "RSRAMOptimizer"
    } else if i == 2 {
        "RSRamOptimizer"
    } else if i == 3 {
        "RS RAM Optimizer"
    } else {
        "RickStyles RAM Optimizer"
    }
}

/// The cleanup commands.
pub fn ram_cleanup_commands() -> (cmds: Vec<String>)
    ensures
        views(cmds@) == cleanup_commands(),
{
    let mut cmds: Vec<String> = Vec::new();
    let mut i: usize = 0;
    while i < 5
        invariant
            i <= 5,
            views(cmds@) == Seq::new(
                2 * i as nat,
                |k: int|
                    run_key_removal(
                        if k % 2 == 0 {
                            "HKCU"@
                        } else {
                            "HKLM"@
                        },
                        legacy_names()[k / 2],
                    ),
            ),
        decreases 5 - i,
    {
        let name = legacy_name(i);
        let mut a = join3("Remove-ItemProperty -Path ", "HKCU", ":\\Software\\Microsoft\\Windows\\CurrentVersion\\Run -Name '");
        a.append(name);
        a.append("' -ErrorAction SilentlyContinue");
        push_text(&mut cmds, a);
        let mut b = join3("Remove-ItemProperty -Path ", "HKLM", ":\\Software\\Microsoft\\Windows\\CurrentVersion\\Run -Name '");
        b.append(name);
        b.append("' -ErrorAction SilentlyContinue");
        push_text(&mut cmds, b);
        proof {
            assert((2 * i) / 2 == i && (2 * i + 1) / 2 == i && (2 * i) % 2 == 0 && (2 * i + 1) % 2 == 1);
            assert(views(cmds@) =~= Seq::new(
                2 * (i + 1) as nat,
                |k: int|
                    run_key_removal(
                        if k % 2 == 0 {
                            "HKCU"@
                        } else {
                            "HKLM"@
                        },
                        legacy_names()[k / 2],
                    ),
            ));
        }
        i = i + 1;
    }
    let ghost head = views(cmds@);
    let mut j: usize = 0;
    while j < 5
        invariant
            j <= 5,
            views(cmds@) == head + Seq::new(2 * j as nat, |k: int| task_removals(legacy_names()[k / 2])[k % 2]),
        decreases 5 - j,
    {
        let name = legacy_name(j);
        push_text(&mut cmds, join3("Unregister-ScheduledTask -TaskName '", name, "' -Confirm:$false -ErrorAction SilentlyContinue"));
        push_text(&mut cmds, join3("schtasks /delete /tn \"", name, "\" /f"));
        proof {
            assert((2 * j) / 2 == j && (2 * j + 1) / 2 == j && (2 * j) % 2 == 0 && (2 * j + 1) % 2 == 1);
            assert(views(cmds@) =~= head + Seq::new(2 * (j + 1) as nat, |k: int| task_removals(legacy_names()[k / 2])[k % 2]));
        }
        j = j + 1;
    }
    push_text(&mut cmds, "Get-ChildItem \"$env:APPDATA\\Microsoft\\Windows\\Start Menu\\Programs\\Startup\" -Filter \"*optimizer*.lnk\" -ErrorAction SilentlyContinue | Remove-Item -Force -ErrorAction SilentlyContinue".to_owned());
    push_text(&mut cmds, "Get-ChildItem \"$env:ProgramData\\Microsoft\\Windows\\Start Menu\\Programs\\Startup\" -Filter \"*optimizer*.lnk\" -ErrorAction SilentlyContinue | Remove-Item -Force -ErrorAction SilentlyContinue".to_owned());
    push_text(&mut cmds, "Get-ChildItem \"$env:APPDATA\\Microsoft\\Windows\\Start Menu\\Programs\\Startup\" -Filter \"*ram*.lnk\" -ErrorAction SilentlyContinue | Remove-Item -Force -ErrorAction SilentlyContinue".to_owned());
    push_text(&mut cmds, "Get-ChildItem \"$env:ProgramData\\Microsoft\\Windows\\Start Menu\\Programs\\Startup\" -Filter \"*ram*.lnk\" -ErrorAction SilentlyContinue | Remove-Item -Force -ErrorAction SilentlyContinue".to_owned());
    proof {
        assert(views(cmds@) =~= cleanup_commands());
    }
    cmds
}

/// The name of the scheduled task that starts the RAM optimizer.
pub const TASK_NAME: &'static str = "RSRAMOptimizer";

/// The command that starts the RAM optimizer's scheduled task.
pub const START_TASK_COMMAND: &'static str = "Start-ScheduledTask -TaskName 'RSRAMOptimizer'";

/// The script that (re)registers the RAM optimizer at `exe` to start, with
/// highest privileges and working directory `folder`, ten seconds after any
/// administrator logs on; it exits with status 1 when the task is missing
/// afterwards.
pub open spec fn task_registration_script_spec(exe: Seq<char>, folder: Seq<char>) -> Seq<char> {
    "$ErrorActionPreference = 'SilentlyContinue'\r\nUnregister-ScheduledTask -TaskName 'RSRAMOptimizer' -Confirm:$false -ErrorAction SilentlyContinue\r\n$act = New-ScheduledTaskAction -Execute '"@ + exe + "' -WorkingDirectory '"@ + folder + "'\r\n$trig = New-ScheduledTaskTrigger -AtLogon\r\n$trig.Delay = 'PT10S'\r\n$sett = New-ScheduledTaskSettingsSet -AllowStartIfOnBatteries -DontStopIfGoingOnBatteries -DontStopOnIdleEnd -ExecutionTimeLimit ([System.TimeSpan]::Zero)\r\n$sett.Priority = 4\r\n$sett.StartWhenAvailable = $true\r\n$sett.RestartCount = 5\r\n$sett.RestartInterval = 'PT1M'\r\n$prin = New-ScheduledTaskPrincipal -GroupId 'S-1-5-32-544' -RunLevel Highest\r\nRegister-ScheduledTask -TaskName 'RSRAMOptimizer' -Action $act -Trigger $trig -Settings $sett -Principal $prin -Force\r\nif (-not (Get-ScheduledTask -TaskName 'RSRAMOptimizer' -ErrorAction SilentlyContinue)) { exit 1 }"@
}

/// The script that registers the RAM optimizer at `exe`.
pub fn task_registration_script(exe: &str, folder: &str) -> (s: String)
    ensures
        s@ == task_registration_script_spec(exe@, folder@),
{
    let mut s = join3("$ErrorActionPreference = 'SilentlyContinue'\r\nUnregister-ScheduledTask -TaskName 'RSRAMOptimizer' -Confirm:$false -ErrorAction SilentlyContinue\r\n$act = New-ScheduledTaskAction -Execute '", exe, "' -WorkingDirectory '");
    s.append(folder);
    s.append("'\r\n$trig = New-ScheduledTaskTrigger -AtLogon\r\n$trig.Delay = 'PT10S'\r\n$sett = New-ScheduledTaskSettingsSet -AllowStartIfOnBatteries -DontStopIfGoingOnBatteries -DontStopOnIdleEnd -ExecutionTimeLimit ([System.TimeSpan]::Zero)\r\n$sett.Priority = 4\r\n$sett.StartWhenAvailable = $true\r\n$sett.RestartCount = 5\r\n$sett.RestartInterval = 'PT1M'\r\n$prin = New-ScheduledTaskPrincipal -GroupId 'S-1-5-32-544' -RunLevel Highest\r\nRegister-ScheduledTask -TaskName 'RSRAMOptimizer' -Action $act -Trigger $trig -Settings $sett -Principal $prin -Force\r\nif (-not (Get-ScheduledTask -TaskName 'RSRAMOptimizer' -ErrorAction SilentlyContinue)) { exit 1 }");
    s
}

/// The `schtasks` command that registers the RAM optimizer at `exe` to
/// start at logon with highest privileges.
pub open spec fn schtasks_registration_spec(exe: Seq<char>) -> Seq<char> {
    "schtasks /create /tn \"RSRAMOptimizer\" /tr \"'"@ + exe + "'\" /sc onlogon /rl highest /f"@
}

/// The `schtasks` command that registers the RAM optimizer at `exe`.
pub fn schtasks_registration(exe: &str) -> (s: String)
    ensures
        s@ == schtasks_registration_spec(exe@),
{
    join3("schtasks /create /tn \"RSRAMOptimizer\" /tr \"'", exe, "'\" /sc onlogon /rl highest /f")
}

/// A line in colour `c`: the colour, the text, a line feed, the colour
/// reset.
pub open spec fn colored_spec(c: Color, text: Seq<char>) -> Seq<char> {
    color_code_spec(c) + text + "\n"@ + reset_code_spec()
}

/// A line in colour `c`.
pub fn colored(c: Color, text: &str) -> (s: String)
    ensures
        s@ == colored_spec(c, text@),
{
    let mut s = join3(color_code(c), text, "\n");
    s.append(reset_code());
    s
}

/// What follows the registration script's run: a confirmation when it
/// worked; otherwise a warning and the `schtasks` command to fall back on.
pub open spec fn registration_followup_spec(registered: bool, exe: Seq<char>) -> (Seq<char>, Option<Seq<char>>) {
    if registered {
        (colored_spec(Color::Green, "[ OK ]"@), None)
    } else {
        (
            colored_spec(Color::Yellow, "[ ADVERTENCIA: Se usara schtasks como respaldo ]"@),
            Some(schtasks_registration_spec(exe)),
        )
    }
}

/// What to print, and what to run if anything, after the registration
/// script for `exe` ran (`registered` when it exited successfully).
pub fn registration_followup(registered: bool, exe: &str) -> (r: (String, Option<String>))
    ensures
        r.0@ == registration_followup_spec(registered, exe@).0,
        match registration_followup_spec(registered, exe@).1 {
            Some(c) => r.1 matches Some(x) && x@ == c,
            None => r.1 is None,
        },
{
    if registered {
        (colored(Color::Green, "[ OK ]"), None)
    } else {
        (colored(Color::Yellow, "[ ADVERTENCIA: Se usara schtasks como respaldo ]"), Some(schtasks_registration(exe)))
    }
}

/// The ways of starting the optimizer, tried in order: its scheduled task,
/// then the executable itself.
pub const LAUNCH_ALTERNATIVES: usize = 2;

/// The line that reports whether the optimizer was started.
pub open spec fn launch_report_spec(started: bool) -> Seq<char> {
    if started {
        colored_spec(Color::Green, "[ OK ]"@)
    } else {
        colored_spec(Color::Red, "[ ERROR ]"@)
    }
}

/// The line that reports whether the optimizer was started.
pub fn launch_report(started: bool) -> (s: String)
    ensures
        s@ == launch_report_spec(started),
{
    if started {
        colored(Color::Green, "[ OK ]")
    } else {
        colored(Color::Red, "[ ERROR ]")
    }
}

/// Where the installation of the RAM optimizer stands between two outside
/// steps.
#[derive(PartialEq, Eq, Structural, Clone, Copy, Debug)]
pub enum InstallStage {
    /// Looking for the user's application-data folder.
    Locate,
    /// Removing what earlier installs left behind.
    Cleanup,
    /// Writing the optimizer's executable.
    Extract,
    /// Registering and starting the optimizer.
    Register,
    /// Stopped before the end.
    Done,
}

/// The next stage, and the line to print if any, after the outside step of
/// `stage` ended with `ok`: for `Locate`, whether the application-data
/// folder is known (without it the installation stops silently); for
/// `Cleanup`, nothing (the cleanup commands' outcomes are not looked at);
/// for `Extract`, whether the executable was written (if not, an error is
/// reported and the installation stops). `Register` and `Done` are final.
pub open spec fn install_step_spec(stage: InstallStage, ok: bool) -> (InstallStage, Option<Seq<char>>) {
    match stage {
        InstallStage::Locate => if ok {
            (InstallStage::Cleanup, None)
        } else {
            (InstallStage::Done, None)
        },
        InstallStage::Cleanup => (InstallStage::Extract, Some(colored_spec(Color::Green, "[ OK ]"@))),
        InstallStage::Extract => if ok {
            (InstallStage::Register, Some(colored_spec(Color::Green, "[ OK ]"@)))
        } else {
            (
                InstallStage::Done,
                Some(colored_spec(Color::Red, "[ ERROR ] No se pudo escribir el archivo exe."@)),
            )
        },
        InstallStage::Register => (InstallStage::Register, None),
        InstallStage::Done => (InstallStage::Done, None),
    }
}

/// Decides the next stage of the installation and what to print.
pub fn install_step(stage: InstallStage, ok: bool) -> (r: (InstallStage, Option<String>))
    ensures
        r.0 == install_step_spec(stage, ok).0,
        match install_step_spec(stage, ok).1 {
            Some(t) => r.1 matches Some(x) && x@ == t,
            None => r.1 is None,
        },
{
    match stage {
        InstallStage::Locate => if ok {
            (InstallStage::Cleanup, None)
        } else {
            (InstallStage::Done, None)
        },
        InstallStage::Cleanup => (InstallStage::Extract, Some(colored(Color::Green, "[ OK ]"))),
        InstallStage::Extract => if ok {
            (InstallStage::Register, Some(colored(Color::Green, "[ OK ]")))
        } else {
            (
                InstallStage::Done,
                Some(colored(Color::Red, "[ ERROR ] No se pudo escribir el archivo exe.")),
            )
        },
        InstallStage::Register => (InstallStage::Register, None),
        InstallStage::Done => (InstallStage::Done, None),
    }
}

/// The installation reaches registration exactly when the folder is found
/// and the executable is written; otherwise it stops, reporting an error
/// only when the executable could not be written.
pub proof fn lemma_install_reaches_register(found: bool, written: bool)
    ensures
        ({
            let (s1, _) = install_step_spec(InstallStage::Locate, found);
            let (s2, _) = install_step_spec(s1, true);
            let (s3, last) = install_step_spec(s2, written);
            &&& (s3 == InstallStage::Register) <==> (found && written)
            &&& (s3 == InstallStage::Done) <==> !(found && written)
            &&& (found && !written) ==> last == Some(
                colored_spec(Color::Red, "[ ERROR ] No se pudo escribir el archivo exe."@),
            )
        }),
{
}

} // verus!
