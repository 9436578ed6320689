//! Verified control plane for a video surveillance server: frame
//! pub/sub with per-session flow control, capture supervision, storage
//! budget enforcement, and the observation-to-alert pipeline.

/// Service-level error type shared by the request handlers.
pub mod errors;

/// Value records of the persisted data model and the typed requests on it.
pub mod models;

/// The frame bus: pub/sub of camera frames keyed by stream.
pub mod ws_camera_server;

/// Per-connection websocket session with ACK-windowed flow control.
pub mod ws_session;

/// Supervisor of the per-camera capture workers.
pub mod capture_supervisor;

/// Storage reaper: deletes the oldest recordings of a group once its
/// byte budget is exceeded.
pub mod file_deletion_actor;

/// Per-camera capture worker: parses the capture subprocess's records
/// and turns them into persistence requests and bus frames.
pub mod capture_actor;

/// Supervisor of the notifier workers and the notification messages.
pub mod notifier_supervisor;

/// Alert engine: matches observations against rules, clusters them,
/// and fires notifications subject to cool-downs.
pub mod alert_actor;

/// Root supervisor: starts capture and reaper workers from persisted
/// configuration and owns the run/standby mode.
pub mod root_supervisor;

/// Supervisor of the analysis workers: reconciliation against the
/// persisted instance list.
pub mod analysis_supervisor;

/// Per-instance analysis worker: frame-rate limiting per subscribed
/// source.
pub mod analysis_actor;

/// Plain settings values exchanged with the ONVIF camera-configuration
/// client.
pub mod onvif;
