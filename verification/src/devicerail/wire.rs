//! What a DeviceRail daemon and its client hand over, as plain values.

use vstd::prelude::*;

use crate::ir::runtime::{ActionExecution, AssetRef, ErrorInfo, UiContextRef};
use crate::ir::vocab::{ScreenshotOmissionReason, UiSnapshotOmissionReason};
use crate::json::{Json, JsonNumber};
use crate::keyed::TextMap;
use crate::kit::manifest::ActionProtection;
use crate::sets::TextSet;

verus! {

/// An error reply of the daemon.
#[derive(Debug, PartialEq, Eq)]
pub struct RpcError {
    /// Numeric code of the envelope.
    pub code: i32,
    /// Human-readable message of the envelope.
    pub message: String,
    /// The error that the daemon describes.
    pub data: ErrorInfo,
}

/// How a call of the client failed.
#[derive(Debug, PartialEq, Eq)]
pub enum ClientFailure {
    /// The daemon replied with an error.
    RemoteRpc(RpcError),
    /// The method needs a feature that the handshake did not grant.
    FeatureNotNegotiated,
    /// The transport failed.
    Transport,
    /// The connection is closed.
    Closed,
    /// A frame was malformed.
    Framing,
    /// The daemon broke the protocol.
    ProtocolViolation,
    /// A value could not be written or read.
    Serialization,
    /// Too many requests are pending.
    PendingRequestLimit,
    /// Too many requests were abandoned.
    AbandonedRequestLimit,
    /// The write queue is full.
    WriteQueueFull,
    /// A frame is too large to write.
    WriteFrameTooLarge,
    /// The connection is in this phase, which does not allow the call.
    HandshakeState(String),
    /// There is no runtime to run the client on.
    RuntimeUnavailable,
    /// The client itself is at fault.
    Internal,
}

/// A failed call of the client.
#[derive(Debug, PartialEq, Eq)]
pub struct ClientError {
    /// How it failed.
    pub failure: ClientFailure,
    /// The client's own description.
    pub text: String,
}

/// The platform that a daemon reports for a device.
#[derive(Debug, PartialEq, Eq)]
pub enum Platform {
    /// A web browser.
    Web,
    /// Android.
    Android,
    /// iOS.
    Ios,
    /// HarmonyOS.
    HarmonyOs,
    /// macOS.
    MacOs,
    /// Windows.
    Windows,
    /// Linux.
    Linux,
    /// A remote desktop.
    Rdp,
    /// A simulated device.
    Mock,
    /// A platform that the protocol has no name for.
    Other(String),
}

/// A viewport as the daemon reports it.
#[derive(Debug, PartialEq, Eq)]
pub struct WireViewport {
    /// Width in pixels.
    pub width: u32,
    /// Height in pixels.
    pub height: u32,
    /// Device pixel ratio.
    pub scale_factor: JsonNumber,
}

/// A reference to a UI snapshot as the daemon reports it.
#[derive(Debug, PartialEq, Eq)]
pub struct WireUiSnapshotRef {
    /// Version of the snapshot format.
    pub format_version: u16,
    /// The context that was captured.
    pub context: UiContextRef,
    /// Number of nodes.
    pub node_count: u32,
    /// Size in bytes.
    pub byte_length: u64,
    /// The asset that holds the snapshot.
    pub evidence: AssetRef,
}

/// An observation as the daemon reports it.
#[derive(Debug, PartialEq, Eq)]
pub struct WireObservation {
    /// Observation id.
    pub id: String,
    /// Device id.
    pub device_id: String,
    /// Capture time in epoch milliseconds.
    pub captured_at_ms: u64,
    /// Viewport at capture time.
    pub viewport: WireViewport,
    /// Screenshot, if one was captured.
    pub screenshot: Option<AssetRef>,
    /// Why the screenshot is missing.
    pub screenshot_omission: Option<ScreenshotOmissionReason>,
    /// UI snapshot, if one was captured.
    pub ui_snapshot: Option<WireUiSnapshotRef>,
    /// Why the UI snapshot is missing.
    pub ui_snapshot_omission: Option<UiSnapshotOmissionReason>,
    /// Driver metadata.
    pub metadata: TextMap<Json>,
}

/// The result of an action as the daemon reports it.
#[derive(Debug, PartialEq, Eq)]
pub struct WireActionResult {
    /// Action id.
    pub call_id: String,
    /// Start in epoch milliseconds.
    pub started_at_ms: u64,
    /// End in epoch milliseconds.
    pub finished_at_ms: u64,
    /// Output of the action.
    pub output: Json,
    /// Observation before the action.
    pub before: Option<WireObservation>,
    /// Observation after the action.
    pub after: Option<WireObservation>,
    /// Evidence that the action produced.
    pub evidence: Vec<AssetRef>,
    /// How the action was carried out.
    pub execution: Option<ActionExecution>,
}

/// A terminal of an action as the daemon reports it.
#[derive(Debug, PartialEq, Eq)]
pub enum WireActionOutcome {
    /// The action succeeded.
    Succeeded {
        /// Its result.
        result: Box<WireActionResult>,
    },
    /// The action failed.
    Failed {
        /// What went wrong.
        error: ErrorInfo,
    },
    /// The action was cancelled.
    Cancelled {
        /// What the daemon says of it.
        error: ErrorInfo,
    },
    /// The action ran out of its budget.
    TimedOut {
        /// What the daemon says of it.
        error: ErrorInfo,
        /// The budget.
        timeout_ms: u64,
    },
}

/// An action that a device offers.
#[derive(Debug, PartialEq, Eq)]
pub struct ActionDefinition {
    /// Action name.
    pub name: String,
    /// Human-readable description.
    pub description: String,
    /// JSON schema of the arguments.
    pub input_schema: Json,
    /// Protection level.
    pub protection: ActionProtection,
}

/// A device that a daemon knows.
#[derive(Debug, PartialEq, Eq)]
pub struct DeviceInfo {
    /// Device id.
    pub id: String,
    /// Human-readable name.
    pub name: String,
    /// Platform.
    pub platform: Platform,
    /// Version of the operating system.
    pub os_version: Option<String>,
    /// Whether the device is connected.
    pub connected: bool,
}

/// What the handshake settled.
#[derive(Debug, PartialEq, Eq)]
pub struct HelloResult {
    /// Selected protocol major.
    pub major: u16,
    /// Selected protocol minor.
    pub minor: u16,
    /// Name of the server.
    pub server_name: String,
    /// Version of the server.
    pub server_version: String,
    /// Enabled features.
    pub enabled: TextSet,
}

/// What an entry of a session's event log says.
#[derive(Debug, PartialEq, Eq)]
pub enum LogPayload {
    /// An action started.
    ActionStarted {
        /// Action id.
        call_id: String,
    },
    /// An action reached its terminal.
    ActionCompleted {
        /// Action id.
        call_id: String,
        /// The terminal.
        outcome: WireActionOutcome,
    },
    /// Anything else.
    Other,
}

/// An entry of a session's event log.
#[derive(Debug, PartialEq, Eq)]
pub struct LogEvent {
    /// Position in the log, from one.
    pub sequence: u64,
    /// What it says.
    pub payload: LogPayload,
}

} // verus!
