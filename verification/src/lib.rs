//! A small concurrency toolkit: an atomic flag, a spin lock with a scoped
//! guard, and an unbounded channel from many senders to one receiver.

pub mod atomic_bool;
pub mod channel;
pub mod channel_laws;
pub mod custom_error;
pub mod mutex;
pub mod mutex_laws;
pub mod sync;
pub mod timeout_result;
