//! A widget that draws a heart pulsing in time: the animation clock, the
//! requests it makes of its host, and the shape and drawing operations of
//! each frame.

pub mod animation;
pub mod heart;
