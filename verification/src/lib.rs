pub mod dispatch;
pub mod escape;
pub mod model;
pub mod parse;
pub mod render;
pub mod resolve;
