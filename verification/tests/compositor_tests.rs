use wayvr::capture::{chunk_bounds, effective_channels, effective_rate, frame_layout, sample_offset};
use wayvr::compositor::{
    client_origin, display_number_file_contents, next_display_num, parse_wayvr_env,
    pointer_button_code, ClientOrigin, MouseIndex,
};
use wayvr::overlay::{
    paste_key_sequence, paste_target, parse_action, start_action, ActionCommand, KeyboardFocus,
    PasteKey, PasteTarget, StartAction, WhisperCommand,
};

#[test]
fn environment_is_read_from_nul_separated_entries() {
    let env = parse_wayvr_env("PATH=/bin\0WAYVR_DISPLAY_AUTH=k1\0\0WAYVR_DISPLAY_NAME=wayland-20\0WAYVR_DISPLAY_AUTH=k2=x\0");
    assert_eq!(env.display_auth.as_deref(), Some("k2=x"));
    assert_eq!(env.display_name.as_deref(), Some("wayland-20"));
    let env = parse_wayvr_env("");
    assert!(env.display_auth.is_none() && env.display_name.is_none());
}

#[test]
fn clients_are_matched_by_auth_key() {
    let keys = vec![None, Some("aaa".to_string()), Some("bbb".to_string()), Some("bbb".to_string())];
    assert_eq!(client_origin(&keys, &Some("bbb".to_string())), ClientOrigin::Managed(2));
    assert_eq!(client_origin(&keys, &Some("ccc".to_string())), ClientOrigin::External);
    assert_eq!(client_origin(&keys, &None), ClientOrigin::External);
}

#[test]
fn display_numbers() {
    assert_eq!(next_display_num(20), Some(21));
    assert_eq!(next_display_num(39), Some(40));
    assert_eq!(next_display_num(40), None);
    assert_eq!(display_number_file_contents(23), "23\n");
}

#[test]
fn button_codes() {
    assert_eq!(pointer_button_code(MouseIndex::Left), 0x110);
    assert_eq!(pointer_button_code(MouseIndex::Center), 0x112);
    assert_eq!(pointer_button_code(MouseIndex::Right), 0x111);
}

#[test]
fn capture_buffer_bounds() {
    assert_eq!(chunk_bounds(8, 100, 64), Some((8, 64)));
    assert_eq!(chunk_bounds(8, 16, 64), Some((8, 24)));
    assert_eq!(chunk_bounds(64, 16, 64), None);
    assert_eq!(chunk_bounds(1, usize::MAX, 64), Some((1, 64)));
    assert_eq!(effective_channels(0), 1);
    assert_eq!(effective_channels(2), 2);
    assert_eq!(effective_rate(0), 48000);
    assert_eq!(effective_rate(44100), 44100);
}

#[test]
fn frame_layout_and_offsets() {
    assert_eq!(frame_layout(20, 2, 48000), Some((8, 2)));
    assert_eq!(frame_layout(7, 2, 48000), None);
    assert_eq!(frame_layout(64, 0, 48000), None);
    assert_eq!(frame_layout(64, 2, 0), None);
    assert_eq!(sample_offset(1, 1, 8, 2, 20), 12);
}

#[test]
fn overlay_actions() {
    assert_eq!(parse_action("::WhisperTranscribeStart"), ActionCommand::Command(WhisperCommand::TranscribeStart));
    assert_eq!(parse_action("  ::WhisperPaste extra"), ActionCommand::Command(WhisperCommand::Paste));
    assert_eq!(parse_action("::WhisperUnload"), ActionCommand::Command(WhisperCommand::Unload));
    assert_eq!(parse_action("::WhisperTranscribeStop"), ActionCommand::Command(WhisperCommand::TranscribeStop));
    assert_eq!(parse_action("::Other"), ActionCommand::Unknown);
    assert_eq!(parse_action("   "), ActionCommand::Blank);
}

#[test]
fn overlay_decisions() {
    assert_eq!(start_action(true, false), StartAction::StartRecording);
    assert_eq!(start_action(false, true), StartAction::LoadModel);
    assert_eq!(start_action(false, false), StartAction::NotifyModelMissing);
    assert_eq!(paste_target(true, KeyboardFocus::WayVR, true, false), Some(PasteTarget::WayVrClipboard));
    assert_eq!(paste_target(true, KeyboardFocus::PhysicalScreen, true, false), None);
    assert_eq!(paste_target(true, KeyboardFocus::PhysicalScreen, false, true), Some(PasteTarget::DesktopClipboard));
    assert_eq!(paste_target(false, KeyboardFocus::WayVR, true, true), None);
    assert_eq!(
        paste_key_sequence(),
        vec![(PasteKey::RCtrl, true), (PasteKey::V, true), (PasteKey::V, false), (PasteKey::RCtrl, false)]
    );
}
