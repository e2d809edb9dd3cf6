//! Decoder for quadrature rotary encoders.
//!
//! A quadrature encoder reports rotation through two digital lines: a clock
//! line whose edges mark steps, and a data line whose level at each edge
//! encodes the direction. [`RotaryEncoder`] polls the two lines, counts steps
//! in a counter of any fixed-width integer type, and remembers the most
//! recent direction. [`ClickableRotaryEncoder`] adds a push-button line.
//! The iterators in [`iter`] present either decoder as an endless sequence
//! of poll results.

mod counter;
pub mod iter;
mod model;
mod rotary;
mod signal;

pub use counter::StepCounter;
pub use counter::TwoBitCounter;
pub use model::ButtonedModel;
pub use model::DecoderModel;
pub use model::lemma_clockwise_step;
pub use model::lemma_counterclockwise_step;
pub use model::lemma_direction_latched;
pub use model::lemma_idle_polls;
pub use model::lemma_no_edge_no_change;
pub use model::run_model;
pub use model::step_model;
pub use rotary::ClickableRotaryEncoder;
pub use rotary::pressed_from_level;
pub use rotary::RotaryEncoder;
pub use rotary::RotationDirection;
pub use signal::InputSignal;
pub use signal::SignalTrace;
