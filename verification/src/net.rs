//! Talking to the job, upload and update servers: the parts that decide.
pub mod auth;
pub mod client;
pub mod jobs;
pub mod upload;
pub mod download;
pub mod updater;
