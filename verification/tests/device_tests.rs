use venice_cli::device::{
    DeviceFileState, LinkKind, MetadataAck, NegotiationState, PostUploadAction, RadioChannel,
    RadioFailure, TransferKind, begin_negotiation, classify_link, metadata_outcome,
    needs_upload, needs_upload_for, negotiation_step, resolve_after_upload,
    transfer_percent, transfer_plan, transfer_step_action,
};
use venice_cli::errors::CliError;

#[test]
fn link_classification() {
    assert_eq!(classify_link(true, false), LinkKind::Wireless);
    assert_eq!(classify_link(true, true), LinkKind::Wired);
    assert_eq!(classify_link(false, false), LinkKind::Wired);
    assert_eq!(classify_link(false, true), LinkKind::Wired);
}

#[test]
fn wired_link_negotiates_without_request() {
    let (state, send_select) = begin_negotiation(LinkKind::Wired, 0, RadioChannel::Download);
    assert_eq!(state, NegotiationState::Succeeded);
    assert!(!send_select);
}

#[test]
fn on_target_channel_negotiates_without_request() {
    let (state, send_select) = begin_negotiation(LinkKind::Wireless, 5, RadioChannel::Download);
    assert_eq!(state, NegotiationState::Succeeded);
    assert!(!send_select);

    // the mid-hop sentinel counts as already switched
    let (state, send_select) = begin_negotiation(LinkKind::Wireless, 9, RadioChannel::Download);
    assert_eq!(state, NegotiationState::Succeeded);
    assert!(!send_select);
}

#[test]
fn off_target_channel_requests_switch() {
    let (state, send_select) = begin_negotiation(LinkKind::Wireless, 0, RadioChannel::Download);
    assert_eq!(state, NegotiationState::AwaitingSilence { polls: 0 });
    assert!(send_select);
}

#[test]
fn never_responding_link_reconnect_timeout() {
    let (mut state, send_select) = begin_negotiation(LinkKind::Wireless, 0, RadioChannel::Download);
    assert!(send_select);
    // the device never replies again: the first unanswered poll ends the
    // silence phase, the bounded attempts after it exhaust the reconnect
    // phase
    for _ in 0..40 {
        state = negotiation_step(state, false);
    }
    assert_eq!(
        state,
        NegotiationState::Failed {
            failure: RadioFailure::ReconnectTimeout
        }
    );
}

#[test]
fn ever_replying_link_disconnect_timeout() {
    let (mut state, _) = begin_negotiation(LinkKind::Wireless, 0, RadioChannel::Download);
    // the device never goes silent: the silence phase times out
    for _ in 0..32 {
        state = negotiation_step(state, true);
    }
    assert_eq!(
        state,
        NegotiationState::Failed {
            failure: RadioFailure::DisconnectTimeout
        }
    );
}

#[test]
fn reconnect_succeeds_on_reply() {
    let (mut state, _) = begin_negotiation(LinkKind::Wireless, 0, RadioChannel::Download);
    state = negotiation_step(state, false);
    assert_eq!(state, NegotiationState::AwaitingReply { polls: 0 });
    state = negotiation_step(state, false);
    state = negotiation_step(state, true);
    assert_eq!(state, NegotiationState::Succeeded);
}

#[test]
fn checksum_match_skips_upload() {
    let remote = Some(DeviceFileState {
        name: String::from("venice-v0.1.0.bin"),
        vendor: 1,
        crc32: 0x89A1897F,
    });
    // 0x89A1897F is the device checksum of the bytes `123456789`
    let local = b"123456789".to_vec();
    assert!(!needs_upload_for(&remote, &local));

    let other = b"123456780".to_vec();
    assert!(needs_upload_for(&remote, &other));
    assert!(needs_upload_for(&None, &local));
}

#[test]
fn upload_decisions() {
    let remote = Some(DeviceFileState {
        name: String::from("slot_1.ini"),
        vendor: 1,
        crc32: 77,
    });
    assert!(!needs_upload(&remote, 77));
    assert!(needs_upload(&remote, 78));
    assert!(needs_upload(&None, 77));
}

#[test]
fn transfer_order_fixed() {
    assert_eq!(
        transfer_plan(true, true),
        vec![
            TransferKind::Config,
            TransferKind::Runtime,
            TransferKind::Table
        ]
    );
    assert_eq!(
        transfer_plan(false, true),
        vec![TransferKind::Runtime, TransferKind::Table]
    );
    assert_eq!(
        transfer_plan(true, false),
        vec![TransferKind::Config, TransferKind::Table]
    );
    assert_eq!(transfer_plan(false, false), vec![TransferKind::Table]);
}

#[test]
fn metadata_reply_meaning() {
    let state = DeviceFileState {
        name: String::from("slot_1.ini"),
        vendor: 1,
        crc32: 42,
    };
    assert_eq!(
        metadata_outcome(MetadataAck::Ack, String::new(), Some(state.clone())),
        Ok(Some(state))
    );
    assert_eq!(
        metadata_outcome(MetadataAck::NackProgramFile, String::new(), None),
        Ok(None)
    );
    assert_eq!(
        metadata_outcome(MetadataAck::OtherNack, String::from("nack"), None),
        Err(CliError::Serial(String::from("nack")))
    );
}

#[test]
fn transfer_progress_percent() {
    assert_eq!(transfer_percent(0, 200), 0);
    assert_eq!(transfer_percent(50, 200), 25);
    assert_eq!(transfer_percent(200, 200), 100);
    assert_eq!(transfer_percent(1, 3), 33);
}

#[test]
fn only_final_transfer_carries_action() {
    assert_eq!(
        transfer_step_action(TransferKind::Config, PostUploadAction::RunProgram),
        PostUploadAction::DoNothing
    );
    assert_eq!(
        transfer_step_action(TransferKind::Runtime, PostUploadAction::RunProgram),
        PostUploadAction::DoNothing
    );
    assert_eq!(
        transfer_step_action(TransferKind::Table, PostUploadAction::RunProgram),
        PostUploadAction::RunProgram
    );
}

#[test]
fn post_upload_action_defaults() {
    assert_eq!(
        resolve_after_upload(None),
        PostUploadAction::ShowRunScreen
    );
    assert_eq!(
        resolve_after_upload(Some(PostUploadAction::RunProgram)),
        PostUploadAction::RunProgram
    );
    assert_eq!(
        resolve_after_upload(Some(PostUploadAction::Halt)),
        PostUploadAction::Halt
    );
}
