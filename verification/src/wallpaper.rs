//! Wallpaper pipeline rules: cache bookkeeping, download acceptance, the
//! order in which a switch picks its image, and the fallback renderer's
//! pseudo-random sequence.

pub mod cache;
pub mod fallback;
pub mod provider;
pub mod schedule;
