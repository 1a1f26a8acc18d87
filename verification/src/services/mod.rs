pub mod batch;
pub mod child;
pub mod export;
pub mod inspect;
pub mod jobs;
