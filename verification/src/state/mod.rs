//! Room state around state resolution: short ids, compressed state events,
//! and the lowering of a resolved state into its stored form.

pub mod compress;
pub mod delta;
pub mod resolve;
pub mod short;
