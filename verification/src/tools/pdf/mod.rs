pub mod convert;
pub mod inspect;
pub mod optimize;
pub mod qpdf;
