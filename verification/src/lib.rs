use vstd::prelude::*;

pub mod artifact;
pub mod digest;
pub mod downloader;
pub mod error;
pub mod job;
pub mod options;
pub mod progress;

verus! {

} // verus!
