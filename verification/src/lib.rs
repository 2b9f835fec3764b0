//! Keyboard-driven pulse engine.
//!
//! The verified core of a small daemon that fires a short, time-bounded
//! electrical pulse on one digital output line whenever a qualifying key is
//! pressed. Key events arrive from any number of input devices merged into
//! one feed; a fixed key combination toggles actuation on and off; the
//! actuation line enforces its own exclusivity, so an overlapping pulse
//! request is reported busy and dropped rather than queued.
//!
//! - [`keys`]: key-code normalization, the actuation policy, and the set of
//!   currently held keys.
//! - [`engine`]: the per-event decision step of the main loop — activation
//!   toggling, pulse requests, hotplug-driven rebuild requests, shutdown.
//! - [`actuator`]: the timed, mutually exclusive pulse model of the line.
//! - [`gpio`]: the output-line capability: controller, pin, and output pin
//!   with its level and fail-safe configuration.

pub mod actuator;
pub mod engine;
pub mod gpio;
pub mod keys;
