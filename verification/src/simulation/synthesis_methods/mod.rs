pub mod additive;
pub mod subtractive;
