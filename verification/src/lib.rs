//! Latches: signals by which one thread announces that a unit of work is
//! done, and others find out or wait for it.
//!
//! A latch starts unfired. Eventually someone calls `set`, and once enough
//! calls have been made the latch has fired, which `probe` reports. What
//! distinguishes the kinds is what they hold and how one waits:
//!
//! - [`SpinLatch`]: an atomic flag, polled.
//! - [`LockLatch`]: a flag under a mutex with a condition variable, on which
//!   a thread can block, and which can be rearmed.
//! - [`CountLatch`]: an atomic counter that fires when it reaches zero.
//! - [`TickleLatch`]: any latch, with a wake-up of the parked workers added
//!   to its `set`.
pub mod count;
pub mod latch;
pub mod lock;
pub mod spin;
pub mod tickle;

pub use crate::count::CountLatch;
pub use crate::latch::Latch;
pub use crate::latch::LatchProbe;
pub use crate::lock::LockLatch;
pub use crate::spin::SpinLatch;
pub use crate::tickle::TickleLatch;
pub use crate::tickle::WakeService;
pub use crate::tickle::WakeTarget;
