//! A pausable monotonic stopwatch that is anchored to a wall-clock
//! reference point (an [`Epoch`]), so elapsed durations can be turned into
//! absolute timestamps without repeated system-clock reads.
//!
//! [`Clock`] is a cloneable, thread-safe handle over the stopwatch state
//! ([`InnerClock`]); durations are carried by the plain nanosecond value
//! type [`Dur`].

pub mod clock;
pub mod dur;
pub mod epoch;
mod time_source;

pub use clock::Clock;
pub use clock::InnerClock;
pub use dur::Dur;
pub use epoch::Epoch;
