//! Verified core of a control client for Blackmagic Design ATEM video switchers.
pub mod address;
pub mod commands;
pub mod connection;
pub mod dto;
pub mod laws;
pub mod panel_laws;
pub mod snapshot;
pub mod source;
pub mod text;
pub mod ui;

pub use commands::{parse_transition, resolve_command, source_by_index, CommandRequest, SwitcherCommand};
pub use connection::{resolve_udp_target, ClientError, ConnectionStatus, UdpTarget};
pub use dto::{empty_snapshot_dto, snapshot_to_dto, status_to_dto, AtemSnapshotDto, ConnectionStatusDto};
pub use snapshot::{AtemSnapshot, SwitcherState};
pub use source::{source_id, stringify_source, transition_next, TallyFlags, TransitionType, VideoSource};
pub use ui::{video_source_label, PanelState};
