//! Single value update and receive channel.
//!
//! A latest-message style channel: any number of [`Updater`]s overwrite the one
//! value that waits for the single [`Receiver`], and the receiver, whenever it
//! looks, finds the newest value that was sent. Unlike a queue, a value that was
//! not looked at in time is replaced by the next one and never seen.
//!
//! Neither side waits for the other beyond the moment that it takes to move a
//! value in or out of the shared slot.
//!
//! # Example
//!
//! ```
//! use single_value_channel::channel_starting_with;
//!
//! let (mut receiver, updater) = channel_starting_with(0);
//! assert_eq!(*receiver.latest(), 0);
//!
//! updater.update(2).unwrap(); // the next `latest` would find 2
//! updater.update(12).unwrap(); // the next `latest` finds 12
//! assert_eq!(*receiver.latest(), 12);
//! ```
//!
//! The crate has four parts:
//!
//! - [`slot`]: the slot itself, as plain data with exact contracts;
//! - [`handles`]: the receiver and the updaters, which reach one slot behind a
//!   lock from different threads;
//! - [`lemmas`]: what follows from the contracts for whole runs of writes and
//!   reads;
//! - `shared`: the parts of `std::sync` that the handles are built on, taken on
//!   trust.
pub mod handles;
pub mod lemmas;
mod shared;
pub mod slot;

pub use handles::channel;
pub use handles::channel_starting_with;
pub use handles::deliver;
pub use handles::none_observing;
pub use handles::refresh_from;
pub use handles::slot_behind;
pub use handles::slot_is_gone;
pub use handles::NoReceiverError;
pub use handles::Receiver;
pub use handles::Updater;
pub use slot::refresh;
pub use slot::Slot;
