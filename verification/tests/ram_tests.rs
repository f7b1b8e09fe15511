use rust_optimizer::chain::{next_in_chain, ChainStep};
use rust_optimizer::ram::{
    colored, install_step, launch_report, ram_cleanup_commands, registration_followup,
    schtasks_registration, task_registration_script, InstallStage, LAUNCH_ALTERNATIVES,
    START_TASK_COMMAND,
};
use rust_optimizer::console::Color;

#[test]
fn cleanup_commands_in_order() {
    let names = ["RS_RAM_Optimizer", "RSRAMOptimizer", "RSRamOptimizer", "RS RAM Optimizer", "RickStyles RAM Optimizer"];
    let mut expected = Vec::new();
    for name in &names {
        expected.push(format!(
            "Remove-ItemProperty -Path HKCU:\\Software\\Microsoft\\Windows\\CurrentVersion\\Run -Name '{}' -ErrorAction SilentlyContinue",
            name
        ));
        expected.push(format!(
            "Remove-ItemProperty -Path HKLM:\\Software\\Microsoft\\Windows\\CurrentVersion\\Run -Name '{}' -ErrorAction SilentlyContinue",
            name
        ));
    }
    for tname in &names {
        expected.push(format!("Unregister-ScheduledTask -TaskName '{}' -Confirm:$false -ErrorAction SilentlyContinue", tname));
        expected.push(format!("schtasks /delete /tn \"{}\" /f", tname));
    }
    expected.push("Get-ChildItem \"$env:APPDATA\\Microsoft\\Windows\\Start Menu\\Programs\\Startup\" -Filter \"*optimizer*.lnk\" -ErrorAction SilentlyContinue | Remove-Item -Force -ErrorAction SilentlyContinue".to_string());
    expected.push("Get-ChildItem \"$env:ProgramData\\Microsoft\\Windows\\Start Menu\\Programs\\Startup\" -Filter \"*optimizer*.lnk\" -ErrorAction SilentlyContinue | Remove-Item -Force -ErrorAction SilentlyContinue".to_string());
    expected.push("Get-ChildItem \"$env:APPDATA\\Microsoft\\Windows\\Start Menu\\Programs\\Startup\" -Filter \"*ram*.lnk\" -ErrorAction SilentlyContinue | Remove-Item -Force -ErrorAction SilentlyContinue".to_string());
    expected.push("Get-ChildItem \"$env:ProgramData\\Microsoft\\Windows\\Start Menu\\Programs\\Startup\" -Filter \"*ram*.lnk\" -ErrorAction SilentlyContinue | Remove-Item -Force -ErrorAction SilentlyContinue".to_string());
    assert_eq!(ram_cleanup_commands(), expected);
}

#[test]
fn task_script_matches_template() {
    let exe = "C:\\Users\\u\\AppData\\Roaming\\RickStyles\\RSOptimizer\\RS RAM Optimizer.exe";
    let folder = "C:\\Users\\u\\AppData\\Roaming\\RickStyles\\RSOptimizer";
    let expected = format!(
                "$ErrorActionPreference = 'SilentlyContinue'\r\n\
                 Unregister-ScheduledTask -TaskName 'RSRAMOptimizer' -Confirm:$false -ErrorAction SilentlyContinue\r\n\
                 $act = New-ScheduledTaskAction -Execute '{}' -WorkingDirectory '{}'\r\n\
                 $trig = New-ScheduledTaskTrigger -AtLogon\r\n\
                 $trig.Delay = 'PT10S'\r\n\
                 $sett = New-ScheduledTaskSettingsSet -AllowStartIfOnBatteries -DontStopIfGoingOnBatteries -DontStopOnIdleEnd -ExecutionTimeLimit ([System.TimeSpan]::Zero)\r\n\
                 $sett.Priority = 4\r\n\
                 $sett.StartWhenAvailable = $true\r\n\
                 $sett.RestartCount = 5\r\n\
                 $sett.RestartInterval = 'PT1M'\r\n\
                 $prin = New-ScheduledTaskPrincipal -GroupId 'S-1-5-32-544' -RunLevel Highest\r\n\
                 Register-ScheduledTask -TaskName 'RSRAMOptimizer' -Action $act -Trigger $trig -Settings $sett -Principal $prin -Force\r\n\
                 if (-not (Get-ScheduledTask -TaskName 'RSRAMOptimizer' -ErrorAction SilentlyContinue)) {{ exit 1 }}",
        exe, folder
    );
    assert_eq!(task_registration_script(exe, folder), expected);
}

#[test]
fn schtasks_fallback_command() {
    assert_eq!(
        schtasks_registration("C:\\x\\RS RAM Optimizer.exe"),
        "schtasks /create /tn \"RSRAMOptimizer\" /tr \"'C:\\x\\RS RAM Optimizer.exe'\" /sc onlogon /rl highest /f"
    );
}

#[test]
fn registration_followups() {
    assert_eq!(registration_followup(true, "e.exe"), ("\x1b[32m[ OK ]\n\x1b[0m".to_string(), None));
    assert_eq!(
        registration_followup(false, "e.exe"),
        (
            "\x1b[33m[ ADVERTENCIA: Se usara schtasks como respaldo ]\n\x1b[0m".to_string(),
            Some(schtasks_registration("e.exe"))
        )
    );
}

#[test]
fn launch_falls_back_on_the_executable() {
    assert_eq!(START_TASK_COMMAND, "Start-ScheduledTask -TaskName 'RSRAMOptimizer'");
    assert_eq!(next_in_chain(LAUNCH_ALTERNATIVES, &vec![]), ChainStep::Attempt(0));
    assert_eq!(next_in_chain(LAUNCH_ALTERNATIVES, &vec![true]), ChainStep::Succeeded(0));
    assert_eq!(next_in_chain(LAUNCH_ALTERNATIVES, &vec![false]), ChainStep::Attempt(1));
    assert_eq!(next_in_chain(LAUNCH_ALTERNATIVES, &vec![false, false]), ChainStep::Exhausted);
    assert_eq!(launch_report(true), "\x1b[32m[ OK ]\n\x1b[0m");
    assert_eq!(launch_report(false), "\x1b[31m[ ERROR ]\n\x1b[0m");
}

#[test]
fn coloured_lines() {
    assert_eq!(colored(Color::Cyan, "x"), "\x1b[36mx\n\x1b[0m");
}

#[test]
fn install_stops_without_app_data() {
    assert_eq!(install_step(InstallStage::Locate, false), (InstallStage::Done, None));
    assert_eq!(install_step(InstallStage::Locate, true), (InstallStage::Cleanup, None));
}

#[test]
fn install_reports_cleanup_and_extraction() {
    assert_eq!(
        install_step(InstallStage::Cleanup, false),
        (InstallStage::Extract, Some("\x1b[32m[ OK ]\n\x1b[0m".to_string()))
    );
    assert_eq!(
        install_step(InstallStage::Extract, true),
        (InstallStage::Register, Some("\x1b[32m[ OK ]\n\x1b[0m".to_string()))
    );
    assert_eq!(
        install_step(InstallStage::Extract, false),
        (
            InstallStage::Done,
            Some("\x1b[31m[ ERROR ] No se pudo escribir el archivo exe.\n\x1b[0m".to_string())
        )
    );
    assert_eq!(install_step(InstallStage::Register, false), (InstallStage::Register, None));
    assert_eq!(install_step(InstallStage::Done, true), (InstallStage::Done, None));
}

#[test]
fn install_reaches_registration_only_when_everything_worked() {
    for found in [false, true] {
        for written in [false, true] {
            let (s1, _) = install_step(InstallStage::Locate, found);
            let (s2, _) = install_step(s1, true);
            let (s3, _) = install_step(s2, written);
            assert_eq!(s3 == InstallStage::Register, found && written);
        }
    }
}
