pub mod coproduct;
pub mod easing;
pub mod engine;
pub mod events;
pub mod geometry;
pub mod message;
pub mod property;
pub mod registry;
pub mod transform;
pub mod zindex;
