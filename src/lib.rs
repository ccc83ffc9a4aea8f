pub mod app;
pub mod device;
pub mod error;
pub mod frame;
pub mod pip;
pub mod pipeline;
pub mod recording;
pub mod text;
