//! Resume a block stream from a persisted checkpoint and guard the single
//! publishing connection through which that checkpoint is stored.
pub mod text;
pub mod checkpoint;
pub mod env;
pub mod stream;
pub mod publisher;
