//! The wire-protocol runtime of a display-server compositor: a binary
//! message codec, per-connection object and global registries with
//! lifecycle and version rules, request dispatch with a uniform error
//! taxonomy, typed event emission, and the cooperative queue that feeds
//! asynchronous occurrences into the single-threaded dispatch loop.

pub mod client;
pub mod dispatch;
pub mod fixed;
pub mod globals;
pub mod ids;
pub mod jay_compositor;
pub mod object;
pub mod output;
pub mod parser;
pub mod queue;
pub mod seat;
pub mod state;
pub mod surface;
pub mod test_shm_pool;
pub mod wire;
pub mod wl_pointer;
pub mod zwp_primary_selection_offer_v1;
pub mod zxdg_output_manager_v1;
