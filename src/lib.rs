//! Host-side lifecycle of a snapshotted, single-shot script interpreter image.
//!
//! The image is built once: the host environment is bootstrapped, the
//! interpreter is brought up, optional sources are preloaded, and the user's
//! program text is captured. The frozen image is later resumed to evaluate that
//! text exactly once and to tear the interpreter down. The interpreter and the
//! environment hooks themselves are driven by the embedding program; this crate
//! decides what happens next at every step and proves the protocol's rules.
pub mod laws;
pub mod preload;
pub mod program_text;
pub mod resume;
pub mod snapshot;
