pub mod image;
pub mod pdf;
pub mod video;
