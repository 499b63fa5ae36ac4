use mbtunnel::elevation::{elevation_command, join_texts, quote_for_powershell};

#[test]
fn powershell_quoting() {
    assert_eq!(quote_for_powershell("plain"), "'plain'");
    assert_eq!(quote_for_powershell("it's"), "'it''s'");
    assert_eq!(quote_for_powershell(""), "''");
}

#[test]
fn elevation_command_lines() {
    let args = vec!["--selfcap".to_string(), "it's".to_string()];
    assert_eq!(
        elevation_command("C:\\Apps\\mbtunnel.exe", &args),
        "Start-Process -FilePath 'C:\\Apps\\mbtunnel.exe' -ArgumentList @('--selfcap','it''s') -Verb RunAs"
    );
    assert_eq!(
        elevation_command("C:\\a.exe", &[]),
        "Start-Process -FilePath 'C:\\a.exe' -ArgumentList @() -Verb RunAs"
    );
}

#[test]
fn joining_arguments() {
    let args = vec!["a".to_string(), "b c".to_string(), "d".to_string()];
    assert_eq!(join_texts(&args, " "), args.join(" "));
    assert_eq!(join_texts(&[], " "), "");
    assert_eq!(join_texts(&["x".to_string()], ","), "x");
}
