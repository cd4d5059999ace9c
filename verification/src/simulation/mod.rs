/// Contains the optimisation algorithms currently supported.
pub mod algorithms;

/// Implementation of synthesis methods currently supported.
pub mod synthesis_methods;

/// Some of the typical components found in synthesisers that can be included
/// in a synthesis method encoding.
pub mod components;
