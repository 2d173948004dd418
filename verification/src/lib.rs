//! A stereo Schroeder/Moorer-style reverb core in Q24 fixed point.
//!
//! The engine is a network of circular-buffer delay lines, feedback-coupled
//! delay pairs, Schroeder allpass filters, a sample-and-hold degradation
//! stage and a low-frequency oscillator.  Every sample value and coefficient
//! is a Q24 fixed-point integer (24 fractional bits), so each processing step
//! is an exact integer transformation with a proved contract.

pub mod fixed;
pub mod delay;
pub mod feedback;
pub mod degrade;
pub mod lfo;
pub mod engine;
