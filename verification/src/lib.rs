//! Verified control plane for a three-process desktop shell: the wire
//! protocol exchanged between the supervisor, background, and UI processes,
//! and the state machines that start, ping, and stop them.

pub mod background;
pub mod codec;
pub mod control;
pub mod frame;
pub mod ipc;
pub mod supervisor;
pub mod tray;

pub use ipc::IpcCommand;
pub use ipc::IpcError;
pub use ipc::BACKGROUND_IPC_PORT;
pub use ipc::UI_IPC_PORT;
