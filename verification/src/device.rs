//! The device session: classifying the link, negotiating the operating
//! radio channel over a wireless link, deciding which files need upload by
//! checksum, the fixed transfer order, and the post-upload action.
//!
//! The session's I/O — handshakes, polls, timed sleeps — is performed by
//! the unverified shell, which feeds every observation back into the
//! decision functions here and carries out the actions they return.

use vstd::prelude::*;

use crate::errors::CliError;

verus! {

/// How the connection to the device is carried.
#[derive(Debug, Clone, Copy, PartialEq, Eq, Structural)]
pub enum LinkKind {
    /// A cable straight to the device, or a tethered peripheral.
    Wired,
    /// A detachable wireless peripheral relaying to the device.
    Wireless,
}

/// A link is wireless exactly when the peer reports itself as the
/// detachable wireless peripheral and its tethered bit is clear.
pub open spec fn wireless_link(is_peripheral: bool, tethered: bool) -> bool {
    is_peripheral && !tethered
}

/// Classifies the link from the peer's reported identity and status.
pub fn classify_link(is_peripheral: bool, tethered: bool) -> (r: LinkKind)
    ensures
        r == (if wireless_link(is_peripheral, tethered) {
            LinkKind::Wireless
        } else {
            LinkKind::Wired
        }),
{
    if is_peripheral && !tethered {
        LinkKind::Wireless
    } else {
        LinkKind::Wired
    }
}

/// The two operating radio channels a wireless link can be switched to.
#[derive(Debug, Clone, Copy, PartialEq, Eq, Structural)]
pub enum RadioChannel {
    /// The ordinary control channel.
    Pit,
    /// The high-bandwidth channel used for bulk file transfer.
    Download,
}

/// The channel code the radio reports while on the download channel.
pub const DOWNLOAD_CHANNEL_CODE: u8 = 5;

/// The channel code the radio reports while a channel hop is in progress:
/// the "already switched" sentinel.
pub const RECONNECTING_CHANNEL_CODE: u8 = 9;

/// The channel code the radio reports on a short-range wireless carrier.
pub const BLUETOOTH_CHANNEL_CODE: u8 = 245;

/// Whether the reported channel code already satisfies the requested
/// target, the mid-hop sentinel counting as already switched for the
/// download channel; every other code is an ordinary control channel.
pub open spec fn channel_matches(target: RadioChannel, code: u8) -> bool {
    match target {
        RadioChannel::Download => code == DOWNLOAD_CHANNEL_CODE || code
            == RECONNECTING_CHANNEL_CODE,
        RadioChannel::Pit => code != DOWNLOAD_CHANNEL_CODE && code != RECONNECTING_CHANNEL_CODE
            && code != BLUETOOTH_CHANNEL_CODE,
    }
}

/// Milliseconds between negotiation polls.
pub const POLL_INTERVAL_MS: u32 = 250;

/// Polls allowed per negotiation phase: 8 seconds of 250 ms polls.
pub const NEGOTIATION_POLL_LIMIT: u32 = 32;

/// Why negotiation failed.
#[derive(Debug, Clone, Copy, PartialEq, Eq, Structural)]
pub enum RadioFailure {
    /// The device kept replying: it never began the hop.
    DisconnectTimeout,
    /// The device never resumed replying after the hop began.
    ReconnectTimeout,
}

/// Where the channel negotiation stands.
#[derive(Debug, Clone, Copy, PartialEq, Eq, Structural)]
pub enum NegotiationState {
    /// The select request is out; polls must go unanswered before the hop
    /// is believed to have begun. `polls` replies seen so far.
    AwaitingSilence { polls: u32 },
    /// The hop has begun; polls must be answered again. `polls` unanswered
    /// attempts so far.
    AwaitingReply { polls: u32 },
    /// The link is on the requested channel.
    Succeeded,
    /// Negotiation failed; the failure says in which phase.
    Failed { failure: RadioFailure },
}

/// A state's poll counter never passes the per-phase limit.
pub open spec fn negotiation_wf(s: NegotiationState) -> bool {
    match s {
        NegotiationState::AwaitingSilence { polls } => polls < NEGOTIATION_POLL_LIMIT,
        NegotiationState::AwaitingReply { polls } => polls < NEGOTIATION_POLL_LIMIT,
        _ => true,
    }
}

/// How negotiation starts: at once successful over a wired link or a
/// link already on target — with no channel-select request issued — and
/// otherwise awaiting silence, with the select request to be sent.
pub open spec fn begin_negotiation_spec(
    link: LinkKind,
    current_code: u8,
    target: RadioChannel,
) -> (NegotiationState, bool) {
    if link == LinkKind::Wired {
        (NegotiationState::Succeeded, false)
    } else if channel_matches(target, current_code) {
        (NegotiationState::Succeeded, false)
    } else {
        (NegotiationState::AwaitingSilence { polls: 0 }, true)
    }
}

/// Starts channel negotiation. Returns the starting state and whether the
/// shell must issue a channel-select request now; over a wired link the
/// current channel is not even queried, so any code may be passed.
pub fn begin_negotiation(link: LinkKind, current_code: u8, target: RadioChannel) -> (r: (
    NegotiationState,
    bool,
))
    ensures
        r == begin_negotiation_spec(link, current_code, target),
        negotiation_wf(r.0),
{
    match link {
        LinkKind::Wired => (NegotiationState::Succeeded, false),
        LinkKind::Wireless => {
            let matches = match target {
                RadioChannel::Download => current_code == DOWNLOAD_CHANNEL_CODE || current_code
                    == RECONNECTING_CHANNEL_CODE,
                RadioChannel::Pit => current_code != DOWNLOAD_CHANNEL_CODE && current_code
                    != RECONNECTING_CHANNEL_CODE && current_code != BLUETOOTH_CHANNEL_CODE,
            };
            if matches {
                (NegotiationState::Succeeded, false)
            } else {
                (NegotiationState::AwaitingSilence { polls: 0 }, true)
            }
        },
    }
}

/// One poll's outcome moves the negotiation on: while awaiting silence, a
/// reply counts against the disconnect bound and an unanswered poll means
/// the hop has begun; while awaiting a reply, an answer completes the
/// negotiation and an unanswered poll counts against the reconnect bound.
/// A finished negotiation stays finished.
pub open spec fn negotiation_step_spec(s: NegotiationState, replied: bool) -> NegotiationState {
    match s {
        NegotiationState::AwaitingSilence { polls } => if !replied {
            NegotiationState::AwaitingReply { polls: 0 }
        } else if polls + 1 >= NEGOTIATION_POLL_LIMIT {
            NegotiationState::Failed { failure: RadioFailure::DisconnectTimeout }
        } else {
            NegotiationState::AwaitingSilence { polls: (polls + 1) as u32 }
        },
        NegotiationState::AwaitingReply { polls } => if replied {
            NegotiationState::Succeeded
        } else if polls + 1 >= NEGOTIATION_POLL_LIMIT {
            NegotiationState::Failed { failure: RadioFailure::ReconnectTimeout }
        } else {
            NegotiationState::AwaitingReply { polls: (polls + 1) as u32 }
        },
        done => done,
    }
}

/// Advances the negotiation by one poll outcome. The shell polls every
/// `POLL_INTERVAL_MS` milliseconds and reports whether the device
/// replied; a transport failure other than an unanswered poll aborts the
/// session outside this machine and passes through unchanged.
pub fn negotiation_step(s: NegotiationState, replied: bool) -> (r: NegotiationState)
    requires
        negotiation_wf(s),
    ensures
        r == negotiation_step_spec(s, replied),
        negotiation_wf(r),
{
    match s {
        NegotiationState::AwaitingSilence { polls } => {
            if !replied {
                NegotiationState::AwaitingReply { polls: 0 }
            } else if polls + 1 >= NEGOTIATION_POLL_LIMIT {
                NegotiationState::Failed { failure: RadioFailure::DisconnectTimeout }
            } else {
                NegotiationState::AwaitingSilence { polls: polls + 1 }
            }
        },
        NegotiationState::AwaitingReply { polls } => {
            if replied {
                NegotiationState::Succeeded
            } else if polls + 1 >= NEGOTIATION_POLL_LIMIT {
                NegotiationState::Failed { failure: RadioFailure::ReconnectTimeout }
            } else {
                NegotiationState::AwaitingReply { polls: polls + 1 }
            }
        },
        done => done,
    }
}

/// The state after a whole sequence of poll outcomes.
pub open spec fn run_negotiation(s: NegotiationState, replies: Seq<bool>) -> NegotiationState
    decreases replies.len(),
{
    if replies.len() == 0 {
        s
    } else {
        run_negotiation(negotiation_step_spec(s, replies[0]), replies.skip(1))
    }
}

/// Law: a wired link reports success at once, with no channel-select
/// request issued, whatever channel code would have been read.
pub proof fn lemma_wired_negotiation(current_code: u8, target: RadioChannel)
    ensures
        begin_negotiation_spec(LinkKind::Wired, current_code, target) == (
            NegotiationState::Succeeded,
            false,
        ),
{
}

/// Law: a wireless link already on the target channel succeeds at once,
/// with no channel-select request issued.
pub proof fn lemma_on_target_negotiation(current_code: u8, target: RadioChannel)
    requires
        channel_matches(target, current_code),
    ensures
        begin_negotiation_spec(LinkKind::Wireless, current_code, target) == (
            NegotiationState::Succeeded,
            false,
        ),
{
}

proof fn lemma_silent_reconnect_times_out(polls: u32, replies: Seq<bool>)
    requires
        polls < NEGOTIATION_POLL_LIMIT,
        replies.len() >= NEGOTIATION_POLL_LIMIT - polls,
        forall|i: int| 0 <= i < replies.len() ==> !replies[i],
    ensures
        run_negotiation(NegotiationState::AwaitingReply { polls }, replies)
            == (NegotiationState::Failed { failure: RadioFailure::ReconnectTimeout }),
    decreases replies.len(),
{
    if polls + 1 >= NEGOTIATION_POLL_LIMIT {
        lemma_failed_absorbing(RadioFailure::ReconnectTimeout, replies.skip(1));
    } else {
        lemma_silent_reconnect_times_out((polls + 1) as u32, replies.skip(1));
    }
}

proof fn lemma_failed_absorbing(failure: RadioFailure, replies: Seq<bool>)
    ensures
        run_negotiation(NegotiationState::Failed { failure }, replies)
            == (NegotiationState::Failed { failure }),
    decreases replies.len(),
{
    if replies.len() > 0 {
        lemma_failed_absorbing(failure, replies.skip(1));
    }
}

/// Law: a wireless link that must switch and never responds again within
/// the bound fails with the reconnect timeout — not the disconnect
/// timeout: the first unanswered poll ends the silence phase, and the
/// bounded unanswered polls after it exhaust the reconnect phase.
pub proof fn lemma_never_responding_link(
    current_code: u8,
    target: RadioChannel,
    replies: Seq<bool>,
)
    requires
        !channel_matches(target, current_code),
        replies.len() > NEGOTIATION_POLL_LIMIT,
        forall|i: int| 0 <= i < replies.len() ==> !replies[i],
    ensures
        run_negotiation(
            begin_negotiation_spec(LinkKind::Wireless, current_code, target).0,
            replies,
        ) == (NegotiationState::Failed { failure: RadioFailure::ReconnectTimeout }),
        begin_negotiation_spec(LinkKind::Wireless, current_code, target).1,
{
    assert(negotiation_step_spec(NegotiationState::AwaitingSilence { polls: 0 }, replies[0])
        == (NegotiationState::AwaitingReply { polls: 0 }));
    lemma_silent_reconnect_times_out(0, replies.skip(1));
}

/// What the device reports of a remote file: its vendor tag and content
/// checksum; the file is the one queried for by name.
#[derive(Debug, Clone, PartialEq, Eq)]
pub struct DeviceFileState {
    pub name: String,
    pub vendor: u8,
    pub crc32: u32,
}

/// A file needs upload when the device has no file of its name, or the
/// reported checksum differs from the local candidate's.
pub open spec fn needs_upload_spec(remote: Option<DeviceFileState>, local_crc: u32) -> bool {
    match remote {
        None => true,
        Some(state) => state.crc32 != local_crc,
    }
}

/// Decides whether a file must be transferred, from the device's report
/// and the local candidate's checksum.
pub fn needs_upload(remote: &Option<DeviceFileState>, local_crc: u32) -> (r: bool)
    ensures
        r == needs_upload_spec(*remote, local_crc),
{
    match remote {
        None => true,
        Some(state) => state.crc32 != local_crc,
    }
}

/// What the device-facing checksum of a byte string is. The session
/// compares it against the checksums the device reports.
pub uninterp spec fn crc32_of(data: Seq<u8>) -> u32;

/// Relies on the serial protocol crate's `VEX_CRC32` (a CRC-32 used for
/// file transfers): the checksum depends on the bytes alone.
#[verifier::external_body]
fn vex_crc32(data: &Vec<u8>) -> (r: u32)
    ensures
        r == crc32_of(data@),
{
    vex_v5_serial::protocol::VEX_CRC32.checksum(data.as_slice())
}

/// Decides whether a file must be transferred, from the device's report
/// and the local candidate's bytes.
pub fn needs_upload_for(remote: &Option<DeviceFileState>, local: &Vec<u8>) -> (r: bool)
    ensures
        r == needs_upload_spec(*remote, crc32_of(local@)),
{
    let crc = vex_crc32(local);
    needs_upload(remote, crc)
}

/// A metadata query's acknowledgement, as the shell decodes the reply.
#[derive(Debug, Clone, Copy, PartialEq, Eq, Structural)]
pub enum MetadataAck {
    /// The device acknowledged the query.
    Ack,
    /// The device reports no program file of that name.
    NackProgramFile,
    /// The device refused the query for another reason.
    OtherNack,
}

/// The meaning of a metadata reply: an acknowledged reply hands its
/// payload through — an empty payload meaning the file does not exist —
/// the program-file refusal also means the file does not exist, and any
/// other refusal is a link failure carrying its text.
pub fn metadata_outcome(
    ack: MetadataAck,
    nack_text: String,
    payload: Option<DeviceFileState>,
) -> (r: Result<Option<DeviceFileState>, CliError>)
    ensures
        match ack {
            MetadataAck::Ack => r == Ok::<Option<DeviceFileState>, CliError>(payload),
            MetadataAck::NackProgramFile => r == Ok::<Option<DeviceFileState>, CliError>(
                None::<DeviceFileState>,
            ),
            MetadataAck::OtherNack => r == Err::<Option<DeviceFileState>, CliError>(
                (CliError::Serial(nack_text)),
            ),
        },
{
    match ack {
        MetadataAck::Ack => Ok(payload),
        MetadataAck::NackProgramFile => Ok(None),
        MetadataAck::OtherNack => Err(CliError::Serial(nack_text)),
    }
}

/// One transfer's progress as a whole percentage: the events the
/// presentation layer consumes, from first byte to the final 100. File
/// sizes fit the protocol's 32-bit length field.
pub fn transfer_percent(offset: u64, total: u64) -> (r: u64)
    requires
        0 < total <= u32::MAX,
        offset <= total,
    ensures
        r == offset * 100 / (total as int),
        r <= 100,
{
    proof {
        assert(offset * 100 <= total * 100) by (nonlinear_arith)
            requires
                offset <= total,
        ;
        assert(offset * 100 / (total as int) <= 100) by (nonlinear_arith)
            requires
                offset * 100 <= total * 100,
                total > 0,
        ;
    }
    offset * 100 / total
}

/// The three transferable files, in their fixed order.
#[derive(Debug, Clone, Copy, PartialEq, Eq, Structural)]
pub enum TransferKind {
    /// The configuration file.
    Config,
    /// The runtime image.
    Runtime,
    /// The program table.
    Table,
}

/// The session's transfers, strictly in the order configuration file,
/// runtime image, program table: the first two only when their checksums
/// call for it, the table always.
pub open spec fn transfer_plan_spec(config_needed: bool, runtime_needed: bool) -> Seq<
    TransferKind,
> {
    (if config_needed {
        seq![TransferKind::Config]
    } else {
        Seq::empty()
    }) + (if runtime_needed {
        seq![TransferKind::Runtime]
    } else {
        Seq::empty()
    }) + seq![TransferKind::Table]
}

/// Plans the session's transfers from the two upload decisions.
pub fn transfer_plan(config_needed: bool, runtime_needed: bool) -> (r: Vec<TransferKind>)
    ensures
        r@ == transfer_plan_spec(config_needed, runtime_needed),
{
    let mut out: Vec<TransferKind> = Vec::new();
    if config_needed {
        out.push(TransferKind::Config);
    }
    if runtime_needed {
        out.push(TransferKind::Runtime);
    }
    out.push(TransferKind::Table);
    proof {
        assert(out@ =~= transfer_plan_spec(config_needed, runtime_needed));
    }
    out
}

/// Law: a remote file whose reported checksum matches the local candidate
/// is transferred zero times; a mismatch or an absent file has it
/// transferred exactly once. Stated for the runtime image; the
/// configuration file is planned by the same decision.
pub proof fn lemma_checksum_skip(
    remote: Option<DeviceFileState>,
    local_crc: u32,
    config_needed: bool,
)
    ensures
        !needs_upload_spec(remote, local_crc) ==> !transfer_plan_spec(
            config_needed,
            needs_upload_spec(remote, local_crc),
        ).contains(TransferKind::Runtime),
        needs_upload_spec(remote, local_crc) ==> {
            let plan = transfer_plan_spec(config_needed, needs_upload_spec(remote, local_crc));
            plan.contains(TransferKind::Runtime) && (forall|i: int, j: int|
                0 <= i < plan.len() && 0 <= j < plan.len() && plan[i] == TransferKind::Runtime
                    && plan[j] == TransferKind::Runtime ==> i == j)
        },
{
    let needed = needs_upload_spec(remote, local_crc);
    let plan = transfer_plan_spec(config_needed, needed);
    if needed {
        if config_needed {
            assert(plan =~= seq![TransferKind::Config, TransferKind::Runtime, TransferKind::Table]);
            assert(plan[1] == TransferKind::Runtime);
        } else {
            assert(plan =~= seq![TransferKind::Runtime, TransferKind::Table]);
            assert(plan[0] == TransferKind::Runtime);
        }
    } else {
        if config_needed {
            assert(plan =~= seq![TransferKind::Config, TransferKind::Table]);
        } else {
            assert(plan =~= seq![TransferKind::Table]);
        }
    }
}

/// What the device is told to do once the table is uploaded.
#[derive(Debug, Clone, Copy, PartialEq, Eq, Structural)]
pub enum PostUploadAction {
    /// Stop the running program.
    Halt,
    /// Leave the device as it is.
    DoNothing,
    /// Show the program's run screen.
    ShowRunScreen,
    /// Start the program at once.
    RunProgram,
}

/// The action each transfer carries: transfers before the last leave the
/// device as it is; only the final table transfer carries the session's
/// post-upload action.
pub open spec fn step_action_spec(kind: TransferKind, after: PostUploadAction) -> PostUploadAction {
    match kind {
        TransferKind::Table => after,
        _ => PostUploadAction::DoNothing,
    }
}

/// The action one transfer of the plan is sent with.
pub fn transfer_step_action(kind: TransferKind, after: PostUploadAction) -> (r: PostUploadAction)
    ensures
        r == step_action_spec(kind, after),
{
    match kind {
        TransferKind::Table => after,
        _ => PostUploadAction::DoNothing,
    }
}

/// The action performed after the upload: what the caller asked for, or
/// showing the run screen when the caller asked for nothing.
pub open spec fn resolve_action_spec(requested: Option<PostUploadAction>) -> PostUploadAction {
    match requested {
        Some(action) => action,
        None => PostUploadAction::ShowRunScreen,
    }
}

/// Resolves the post-upload action from the caller's request.
pub fn resolve_after_upload(requested: Option<PostUploadAction>) -> (r: PostUploadAction)
    ensures
        r == resolve_action_spec(requested),
{
    match requested {
        Some(action) => action,
        None => PostUploadAction::ShowRunScreen,
    }
}

} // verus!
