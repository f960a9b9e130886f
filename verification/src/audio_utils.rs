//! The pulsing functions, under their older module path.
pub use crate::pulse::{pulse_custom, pulse_gentle, pulse_musical, pulse_with_error_sound};
