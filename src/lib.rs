//! An interlaced frame compositor: two half-height render targets written in turn, and
//! each frame composited from the newest half-frame and the one before it. The state
//! here decides what the graphics backend does and when; the backend does it.

pub mod frame;
pub mod interlaced;
pub mod uniform;
pub mod utils;
