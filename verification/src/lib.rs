//! Event-driven transfer core for a USB host-control wrapper.
//!
//! The native USB library performs asynchronous I/O and reports completions
//! through a C callback that may run at any time.  This crate holds the
//! bookkeeping that must be exact for that to be safe: the table of running
//! transfers and their identifiers, the completion dispatch state machine,
//! the registration of the native pollable descriptor set with an external
//! event loop, and the per-iteration event pump.  Every function here is
//! verified; the unverifiable parts (the C calls themselves, locks, and the
//! event loop) live outside and drive this crate with plain values.

pub mod dispatch;
pub mod errors;
pub mod log_level;
pub mod messages;
pub mod pump;
pub mod ref_type;
pub mod registration;
pub mod status;
pub mod sync_io;
pub mod table;
pub mod transfer;

pub use errors::AsyncError;
pub use errors::UsbError;
pub use log_level::LogLevel;
pub use ref_type::MarkerType;
pub use status::AsyncIoTransferStatus;
pub use sync_io::SyncIo;
pub use table::UnixAsyncIoState;
pub use transfer::UnixAsyncIoCallbackData;
pub use transfer::UnixAsyncIoCallbackResult;
pub use transfer::UnixAsyncIoTransfer;
pub use transfer::UnixAsyncIoTransferResult;
