//! A cross-platform asynchronous timer.
//!
//! The [`Timeout`](timeout::Timeout) future becomes ready once a configured
//! expiry is reached: either a delay measured from construction or an
//! absolute point on the system clock. Two timer backends are supported, a
//! native-runtime sleep and a browser-hosted millisecond timeout, behind one
//! unified type.

pub mod laws;
pub mod time;
pub mod timeout;

pub use time::Moment;
pub use time::Span;
pub use timeout::sleep;
pub use timeout::sleep_until;
pub use timeout::Backend;
pub use timeout::Expiry;
pub use timeout::Timeout;
