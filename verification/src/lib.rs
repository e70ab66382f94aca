//! Gateway core for running an external transcoding/inspection tool and
//! delivering its output to a caller-chosen storage destination.
//!
//! The verified library holds the orchestration logic: resolving a
//! destination descriptor to a backend key and relative path, choosing
//! between the streaming and the copy delivery path, assembling the
//! tool's argument list, judging the joined results of the concurrent
//! tasks, and composing remote paths for the bulk copy. The surrounding
//! process, pipe and storage I/O is driven by an unverified shell that
//! obeys the contracts stated here.
pub mod config;
pub mod copier;
pub mod descriptor;
pub mod engine;
pub mod request;
pub mod text;
