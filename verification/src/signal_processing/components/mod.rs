pub mod oscillator;
pub mod harmonics;
pub mod filters;
pub mod envelope;
