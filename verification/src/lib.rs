//! A paired-magnitude value object: two fixed-point magnitudes kept under one
//! label, a coherence score derived from them at construction, and operations
//! to collapse the pair to its mean, invert (swap) the pair, and render a
//! textual summary.
//!
//! Magnitudes are counted in thousandths (milli-units), so every derived
//! quantity is exact integer arithmetic: the coherence score and the
//! collapsed mean are ratios of integers, and the renderer prints them to
//! three decimal places.

pub mod decimal;
pub mod ratio;
pub mod state;

pub use ratio::Ratio;
pub use state::QToken;
pub use state::QuasiField;
pub use state::QuasiState;
pub use state::MAG_LIMIT;
