//! Arithmetic on rates and durations: unit conversions between seconds,
//! milliseconds and nanoseconds, the duration of one frame at a given frame
//! rate, the sleep that keeps a loop at a constant rate, and the frequency
//! band (Rayleigh to Nyquist) that a windowed transform can resolve.
//!
//! Every function is pure. The generic functions work on any numeric type
//! with the operators they name; their contracts are stated over the
//! specifications that `vstd` attaches to those operators, and the laws at
//! the end of each module instantiate them on `u64`.

pub mod error;
pub mod frame;
pub mod frequency;
pub mod units;

pub use error::RateError;
pub use frame::fps_to_ns_per_frame;
pub use frame::ns_sleep_needed_for_constant_rate;
pub use frequency::cycles_per_second_to_seconds_per_cycle;
pub use frequency::hertz_range;
pub use frequency::nyquist;
pub use frequency::rayleigh;
pub use units::ms_to_ns;
pub use units::ms_to_s;
pub use units::s_to_ms;
pub use units::s_to_ns;
