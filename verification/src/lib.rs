//! The verified core of the Minerva DPN worker: URL and request parsing,
//! path sanitising, retry and job-processing decisions, and the state that
//! the worker and its window keep.
pub mod text;
pub mod net;
pub mod worker;
pub mod ui;
