//! Container control for a chat bot: a closed registry of game-server
//! containers, the allow-list filter over what the container engine reports,
//! and the replies to the `status`, `start`, `stop` and `logs` commands.

pub mod dispatch;
pub mod engine;
pub mod registry;
pub mod reply;
pub mod text;
