use minerva_worker::net::updater::{
    append_ext, exe_download_url, is_newer, parse_version, update_notice, version_is_greater,
    version_url,
};
use minerva_worker::ui::controls::{
    item_layout, log_trim, resize_layout, transfer_caption, AppControls, Edges, TransferInfo,
};
use minerva_worker::ui::messages::{TransferPhase, UiMessage};
use minerva_worker::ui::window::{
    command_words, resize_size, start_stop, ui_effects, StartStop, UiEffect,
};

fn info(id: i64, label: &str, phase: TransferPhase) -> TransferInfo {
    TransferInfo { file_id: id, label: label.into(), phase, current: 0, total: 0 }
}

#[test]
fn transfers_add_update_remove() {
    let mut c = AppControls::new();
    c.add_transfer(info(1, "a", TransferPhase::Download));
    c.add_transfer(info(2, "b", TransferPhase::Download));
    c.update_transfer(1, 50, 100, TransferPhase::Download);
    assert_eq!(c.transfers[0].current, 50);
    assert_eq!(c.transfers[0].total, 100);
    c.add_transfer(info(1, "a2", TransferPhase::Upload));
    assert_eq!(c.transfers.len(), 2);
    assert_eq!(c.transfers[0].label, "a2");
    assert!(c.transfers[0].phase == TransferPhase::Upload);
    assert_eq!(c.transfers[0].current, 0);
    c.update_transfer(7, 1, 1, TransferPhase::Upload);
    assert_eq!(c.transfers.len(), 2);
    c.remove_transfer(1);
    assert_eq!(c.transfers.len(), 1);
    assert_eq!(c.transfers[0].file_id, 2);
    c.remove_transfer(1);
    assert_eq!(c.transfers.len(), 1);
}

#[test]
fn layout_of_default_window() {
    let l = resize_layout(700, 550, 20);
    assert_eq!((l.transfer_list.x, l.transfer_list.y, l.transfer_list.width, l.transfer_list.height), (10, 50, 680, 188));
    assert_eq!((l.log_edit.x, l.log_edit.y, l.log_edit.width, l.log_edit.height), (10, 243, 680, 277));
}

#[test]
fn layout_of_small_windows() {
    let l = resize_layout(100, 100, 20);
    assert_eq!(l.transfer_list.height, 80);
    assert_eq!(l.log_edit.height, 20 - 80 - 5);
    let l = resize_layout(0, 0, 0);
    assert_eq!(l.transfer_list.height, 80);
    assert_eq!(l.log_edit.height, -60 - 80 - 5);
}

#[test]
fn messages_to_effects() {
    let e = ui_effects(UiMessage::AuthSuccess, 2, "s");
    assert!(matches!(e[0], UiEffect::SetLoggedIn(true)));
    assert!(matches!(&e[1], UiEffect::SetStatus(t) if t == "Logged in - Ready"));
    assert!(matches!(&e[2], UiEffect::AppendLog(t) if t == "Login successful!"));
    let e = ui_effects(UiMessage::WorkerStarted, 4, "https://s");
    assert!(matches!(&e[1], UiEffect::SetStatus(t) if t == "Running (4 workers)"));
    assert!(matches!(&e[2], UiEffect::AppendLog(t) if t == "Worker started (concurrency=4, server=https://s)"));
    let e = ui_effects(UiMessage::WorkerStopped, 4, "s");
    assert!(matches!(e[0], UiEffect::SetRunning(false)));
    assert!(matches!(&e[1], UiEffect::SetStatus(t) if t == "Stopped"));
    let e = ui_effects(UiMessage::AuthFailed("nope".into()), 1, "s");
    assert!(matches!(&e[0], UiEffect::AppendLog(t) if t == "Login failed: nope"));
}

#[test]
fn job_messages_to_log_lines() {
    let e = ui_effects(UiMessage::JobCompleted { file_id: 1, dest_path: "d/f".into(), bytes: 42 }, 1, "s");
    assert!(matches!(&e[0], UiEffect::AppendLog(t) if t == "OK d/f (42 bytes)"));
    let long = "p".repeat(70);
    let e = ui_effects(UiMessage::JobCompleted { file_id: 1, dest_path: long, bytes: 0 }, 1, "s");
    assert!(matches!(&e[0], UiEffect::AppendLog(t) if *t == format!("OK ...{} (0 bytes)", "p".repeat(57))));
    let e = ui_effects(UiMessage::JobFailed { file_id: 1, error: "q".repeat(130) }, 1, "s");
    assert!(matches!(&e[0], UiEffect::AppendLog(t) if *t == format!("FAIL: {}", "q".repeat(120))));
}

#[test]
fn transfer_messages_to_effects() {
    let e = ui_effects(UiMessage::TransferStarted { file_id: 3, label: "l".into(), phase: TransferPhase::Upload }, 1, "s");
    assert!(matches!(&e[0], UiEffect::AddTransfer(i) if i.file_id == 3 && i.label == "l" && i.current == 0));
    let e = ui_effects(UiMessage::TransferProgress { file_id: 3, current: 5, total: 9, phase: TransferPhase::Upload }, 1, "s");
    assert!(matches!(e[0], UiEffect::UpdateTransfer { file_id: 3, current: 5, total: 9, .. }));
    let e = ui_effects(UiMessage::TransferDone { file_id: 3 }, 1, "s");
    assert!(matches!(e[0], UiEffect::RemoveTransfer(3)));
    let e = ui_effects(UiMessage::StatusText("x".into()), 1, "s");
    assert!(matches!(&e[0], UiEffect::SetStatus(t) if t == "x"));
    let e = ui_effects(UiMessage::UpdateAvailable { current: "1".into(), remote: "2".into() }, 1, "s");
    assert!(matches!(&e[0], UiEffect::AskToUpdate { current, remote } if current == "1" && remote == "2"));
}

#[test]
fn start_stop_button() {
    assert!(start_stop(true, true) == StartStop::Stop);
    assert!(start_stop(true, false) == StartStop::Stop);
    assert!(start_stop(false, false) == StartStop::NeedLogin);
    assert!(start_stop(false, true) == StartStop::Start);
}

#[test]
fn update_check() {
    assert!(update_notice("unknown".into()).is_none());
    assert!(update_notice("1.2.4".into()).is_none());
    match update_notice("1.3.0".into()) {
        Some(UiMessage::UpdateAvailable { current, remote }) => {
            assert_eq!(current, "1.2.4");
            assert_eq!(remote, "1.3.0");
        }
        other => panic!("unexpected {:?}", other),
    }
    assert_eq!(version_url("https://a"), "https://a/worker/exe/version");
    assert_eq!(exe_download_url("https://a"), "https://a/worker/exe/download");
    assert_eq!(append_ext("C:\\w\\worker.exe", "old"), "C:\\w\\worker.exe.old");
}

#[test]
fn item_captions_and_layout() {
    assert_eq!(transfer_caption(&info(1, "x/y", TransferPhase::Download)), "DL x/y");
    assert_eq!(transfer_caption(&info(1, "x/y", TransferPhase::Upload)), "UL x/y");
    let l = item_layout(&Edges { left: 0, top: 28, right: 560, bottom: 56 });
    assert_eq!((l.bar.left, l.bar.top, l.bar.right, l.bar.bottom), (4, 31, 334, 53));
    assert_eq!((l.caption.left, l.caption.top, l.caption.right, l.caption.bottom), (340, 28, 556, 56));
    let l = item_layout(&Edges { left: 10, top: 0, right: 5, bottom: 0 });
    assert_eq!(l.bar.right, 10 - 3 - 2);
    assert_eq!(log_trim(30001), 10000);
    assert_eq!(log_trim(30000), 0);
    assert_eq!(log_trim(0), 0);
}

#[test]
fn update_only_for_newer_versions() {
    assert!(update_notice("1.0.0".into()).is_none());
    assert!(update_notice("1.2.3".into()).is_none());
    assert!(update_notice("1.2.4.0".into()).is_none());
    assert!(update_notice("0.9".into()).is_none());
    assert!(update_notice("1.2.10".into()).is_some());
    assert!(update_notice("1.2.4.1".into()).is_some());
    assert!(update_notice("2".into()).is_some());
    assert!(update_notice("1.3".into()).is_some());
}

#[test]
fn update_ignores_text_that_is_not_a_version() {
    assert!(update_notice("".into()).is_none());
    assert!(update_notice("v2.0.0".into()).is_none());
    assert!(update_notice("2.0.0-beta".into()).is_none());
    assert!(update_notice("2..0".into()).is_none());
    assert!(update_notice("2.0.".into()).is_none());
    assert!(update_notice("99999999999999999999999.0".into()).is_none());
}

#[test]
fn version_numbers_compare_numerically() {
    assert_eq!(parse_version("1.2.4"), Some(vec![1, 2, 4]));
    assert_eq!(parse_version("007.18446744073709551615"), Some(vec![7, u64::MAX]));
    assert_eq!(parse_version("18446744073709551616"), None);
    assert!(is_newer("1.10", "1.9"));
    assert!(!is_newer("1.9", "1.10"));
    assert!(!is_newer("1.2", "1.2.0"));
    assert!(!is_newer("3", "x"));
    assert!(version_is_greater(&vec![2], &vec![1, 9, 9]));
}

#[test]
fn message_parameters_split_into_words() {
    assert_eq!(resize_size((600 << 16) | 800), (800, 600));
    assert_eq!(resize_size(-1), (65535, 65535));
    assert_eq!(command_words((0 << 16) | 102), (102, 0));
    assert_eq!(command_words((5 << 16) | 201), (201, 5));
}
