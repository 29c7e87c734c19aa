//! Touch input decoding, finger-lifecycle synthesis and the touch-to-draw
//! state machine of an e-paper sketch pad.

pub mod device;
pub mod geom;
pub mod input;
pub mod interaction;
pub mod lifecycle;
pub mod record;
pub mod sketch;
