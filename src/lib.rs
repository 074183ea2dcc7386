//! Protocol engine for Soundcore wireless headphones: frame codec, device
//! profiles, command dispatch, the device session state machine and the
//! connection registry.

pub mod checksum;
pub mod dispatch;
pub mod equalizer;
pub mod frame;
pub mod inbound;
pub mod init;
pub mod laws;
pub mod outbound;
pub mod profile;
pub mod registry;
pub mod session;
pub mod state;
pub mod structures;
pub mod transform;

pub use checksum::calculate_checksum;
