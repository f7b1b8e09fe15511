use rust_optimizer::shell::{
    join_arguments, launch_failure, powershell_arguments, powershell_file_arguments,
    powershell_reply, shell_execute_succeeded,
};

#[test]
fn arguments_of_a_command() {
    assert_eq!(
        powershell_arguments("Get-Date"),
        vec!["-NoProfile", "-NonInteractive", "-ExecutionPolicy", "Bypass", "-Command", "Get-Date"]
    );
    assert_eq!(
        powershell_file_arguments("C:\\t\\x.ps1"),
        vec!["-NoProfile", "-NonInteractive", "-ExecutionPolicy", "Bypass", "-File", "C:\\t\\x.ps1"]
    );
}

#[test]
fn successful_reply_is_trimmed_output() {
    assert_eq!(powershell_reply(true, "  1024\r\n", "noise"), Ok("1024".to_string()));
    assert_eq!(powershell_reply(true, "", ""), Ok(String::new()));
}

#[test]
fn failed_reply_quotes_error_output() {
    assert_eq!(
        powershell_reply(false, "out", "  bad thing \n"),
        Err("PowerShell exit code non-zero: bad thing".to_string())
    );
}

#[test]
fn failed_reply_falls_back_on_output() {
    assert_eq!(
        powershell_reply(false, " partial ", " \n "),
        Err("PowerShell exit code non-zero: partial".to_string())
    );
}

#[test]
fn launch_failure_message() {
    assert_eq!(launch_failure("NotFound"), "PowerShell error: NotFound");
}

#[test]
fn arguments_are_joined_with_spaces() {
    assert_eq!(join_arguments(&vec![]), "");
    assert_eq!(join_arguments(&vec!["a".to_string()]), "a");
    assert_eq!(join_arguments(&vec!["a".to_string(), "b c".to_string(), "".to_string()]), "a b c ");
    let args = vec!["--x".to_string(), "y".to_string()];
    assert_eq!(join_arguments(&args), args.join(" "));
}

#[test]
fn shell_execute_threshold() {
    assert!(!shell_execute_succeeded(32));
    assert!(shell_execute_succeeded(33));
    assert!(!shell_execute_succeeded(0));
}
