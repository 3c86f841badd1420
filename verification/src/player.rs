//! The player: its shared state, its controller and its playback session.

pub mod controller;
pub mod info;
pub mod network;
pub mod session;

pub use controller::StreamPlayer;
pub use info::{PlayerInfo, Status};
pub use network::NetworkMediaSource;
