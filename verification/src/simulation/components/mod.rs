pub mod filters;
pub mod envelope;
pub mod harmonics;
pub mod oscillator;
