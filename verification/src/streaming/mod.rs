//! Per-stream session state and the header-emission policy.

pub mod header;
pub mod state;

pub use header::render_header_line;
pub use header::HeaderEmitter;
pub use header::HeaderLabel;
pub use header::HeaderOp;
pub use header::HeaderState;
pub use state::StreamState;
pub use state::StreamView;
