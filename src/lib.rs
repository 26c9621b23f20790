//! A one-way relay from publish/subscribe topics to chat channels.
//!
//! Each channel binds a subscription topic to an output destination and a
//! payload transform. The library holds the verified decisions: how a payload
//! becomes an outbound message, how a destination identifier is read, and how a
//! channel worker moves between its states as events arrive.

pub mod channel;
pub mod json;
pub mod message;
pub mod supervisor;
pub mod transform;
pub mod worker;

pub use json::{lookup_field, JsonValue};
pub use message::{rgb, OutboundMessage, ACCENT_BLUE, ACCENT_GREEN, ACCENT_RED};
pub use transform::{
    asay_line_to_message, decode_asay_subscription, handle_access_subscription,
    handle_asay_subscription, handle_meta_subscription, handle_round_subscription,
    AsaySubscription,
};
pub use channel::{parse_destination_id, ChannelDefinition, ResolveError, TransformKind};
pub use worker::{ChannelWorker, TerminationReason, WorkerAction, WorkerEvent, WorkerState};
pub use supervisor::{resolve_channels, ChannelConfig};
