//! A lightweight Mutter `IdleMonitor` for X11.
//!
//! Applications ask on the session bus to be told when the user has been idle
//! for some time, or when the user is back. This library holds the watches that
//! they register, decides at each sample of the X server's idle counter which
//! watches fire, and drops the watches of clients that have left the bus.
//! Talking to the bus and to the X server is left to the daemon around it.
//!
//! - [`state`]: the watch registry, and [`model`]: what it means
//! - [`monitor`]: the requests of the bus interface
//! - [`poll`] and [`cleanup`]: the decisions of the two background loops
//! - [`lifecycle`]: starting and ending the daemon
//! - [`bus`]: what is read out of bus messages
//! - [`effects`]: what each operation does, entry by entry
//! - [`laws`]: what holds of all this together
pub mod bus;
pub mod cleanup;
pub mod effects;
pub mod error;
pub mod laws;
pub mod lifecycle;
pub mod model;
pub mod monitor;
pub mod poll;
pub mod state;

pub use bus::OwnerName;
pub use error::MonitorError;
pub use monitor::{IdleMonitor, OBJECT_PATH, WELL_KNOWN_NAME};
pub use state::{IdleWatch, State};
