use mbtunnel::update::{
    checksum_in_table, checksum_name, finished_report, unpack_download, Awaiting, Binary,
    UpdateAction, UpdateDialogState, UpdateEvent, UpdateLoop, UpdateLoopKind, UpdateProgress,
    WorkerAction, ARCH, OS,
};

#[test]
fn unpack_a_download() {
    let program = b"#!/bin/sh\necho hello\n".repeat(50);
    let packed = zstd::stream::encode_all(&program[..], 3).unwrap();
    assert_ne!(packed, program);
    assert_eq!(unpack_download(&packed).unwrap(), program);
    assert!(unpack_download(b"not zstd at all").is_err());
}

#[test]
fn self_update_loop() {
    let mut lp = UpdateLoop::new(UpdateLoopKind::SelfUpdate);
    assert_eq!(lp.step(UpdateEvent::ReleaseUnreachable), UpdateAction::AskRetry);
    assert_eq!(lp.awaiting, Awaiting::RetryAnswer);
    assert_eq!(lp.step(UpdateEvent::Answer(Some(WorkerAction::Retry))), UpdateAction::CheckRelease);
    assert!(!lp.failed);
    assert_eq!(lp.step(UpdateEvent::ReleaseNew), UpdateAction::Download);
    assert_eq!(lp.step(UpdateEvent::DownloadFailed), UpdateAction::AskRetry);
    // "Continue" marks the update failed but checks the release again.
    assert_eq!(lp.step(UpdateEvent::Answer(Some(WorkerAction::Continue))), UpdateAction::CheckRelease);
    assert!(lp.failed);
    assert_eq!(lp.step(UpdateEvent::ReleaseNew), UpdateAction::Download);
    assert_eq!(lp.step(UpdateEvent::Downloaded), UpdateAction::Unpack);
    assert_eq!(lp.step(UpdateEvent::Unpacked), UpdateAction::Install);
    assert_eq!(lp.step(UpdateEvent::InstallFailed), UpdateAction::AskAcknowledge);
    assert_eq!(lp.step(UpdateEvent::Answer(None)), UpdateAction::Stop);
    assert!(lp.failed);
}

#[test]
fn self_update_up_to_date_and_vanished_dialog() {
    let mut lp = UpdateLoop::new(UpdateLoopKind::SelfUpdate);
    assert_eq!(lp.step(UpdateEvent::ReleaseUpToDate), UpdateAction::Stop);
    assert!(!lp.failed);
    assert_eq!(lp.step(UpdateEvent::ReleaseUnreachable), UpdateAction::AskRetry);
    assert_eq!(lp.step(UpdateEvent::Answer(None)), UpdateAction::Stop);
    assert!(!lp.failed);
}

#[test]
fn helpers_loop() {
    let mut lp = UpdateLoop::new(UpdateLoopKind::Helpers);
    assert_eq!(lp.step(UpdateEvent::DownloadFailed), UpdateAction::AskRetry);
    assert_eq!(lp.step(UpdateEvent::Answer(Some(WorkerAction::Retry))), UpdateAction::Download);
    assert_eq!(lp.step(UpdateEvent::DownloadFailed), UpdateAction::AskRetry);
    assert_eq!(lp.step(UpdateEvent::Answer(Some(WorkerAction::Continue))), UpdateAction::NextProgram);
    assert!(lp.failed);
    assert_eq!(lp.step(UpdateEvent::Downloaded), UpdateAction::Unpack);
    assert_eq!(lp.step(UpdateEvent::UnpackFailed), UpdateAction::AskAcknowledge);
    assert_eq!(lp.step(UpdateEvent::Answer(Some(WorkerAction::Retry))), UpdateAction::NextProgram);
    assert_eq!(lp.step(UpdateEvent::Unpacked), UpdateAction::Install);
    assert_eq!(lp.step(UpdateEvent::InstallFailed), UpdateAction::ReportAndNext);
    assert_eq!(lp.step(UpdateEvent::Installed), UpdateAction::NextProgram);
    assert_eq!(lp.step(UpdateEvent::DownloadFailed), UpdateAction::AskRetry);
    assert_eq!(lp.step(UpdateEvent::Answer(None)), UpdateAction::Stop);
}

#[test]
fn helpers_report() {
    assert_eq!(finished_report(false, true), (false, false));
    assert_eq!(finished_report(true, false), (true, false));
    assert_eq!(finished_report(true, true), (true, true));
}

#[test]
fn checksum_table_lookup() {
    let table = "udpproxy-linux-amd64 aa11\nwstunnel-linux-amd64   bb22  \nno-space-line\nudpproxy-linux-amd64 cc33\n";
    assert_eq!(
        checksum_in_table(table, "udpproxy-linux-amd64"),
        Some("aa11".to_string())
    );
    assert_eq!(checksum_in_table(table, "wstunnel-linux-amd64"), Some("bb22".to_string()));
    assert_eq!(checksum_in_table(table, "no-space-line"), None);
    assert_eq!(checksum_in_table(table, "wireguard-windows-amd64"), None);
    assert_eq!(checksum_in_table("", "x"), None);
    assert_eq!(
        checksum_name(&Binary::Librespeed, OS::Windows, ARCH::Arm64),
        "librespeed-cli-windows-arm64"
    );
}

#[test]
fn dialog_completion_is_kept() {
    let mut st = UpdateDialogState::start(4);
    assert!(!st.is_complete);
    st.on_checking(0, "udpproxy".to_string());
    assert!(!st.is_complete);
    st.on_finished(true, true);
    assert!(st.is_complete);
    assert!(matches!(st.progress, UpdateProgress::Done { had_updates: true, updates_failed: true }));
    // Messages after the first "finished" change what is shown, not completion.
    st.on_checking(1, "wstunnel".to_string());
    assert!(st.is_complete);
    match &st.progress {
        UpdateProgress::Checking { current_name, current_index, total } => {
            assert_eq!(current_name, "wstunnel");
            assert_eq!(*current_index, 1);
            assert_eq!(*total, 0);
        }
        _ => panic!("expected checking"),
    }
    st.on_progress("wstunnel".to_string(), 10, 10, true);
    assert!(st.is_complete);
    match &st.progress {
        UpdateProgress::Downloading { done_count, total, .. } => {
            assert_eq!(*done_count, 1);
            assert_eq!(*total, 0);
        }
        _ => panic!("expected downloading"),
    }
}
