//! A client for fetching a saved-media collection from a remote content
//! platform and saving each entry's audio segments to disk: authenticated
//! pagination of the collection listing, per-entry segment listing, stream
//! resolution and download orchestration with per-entry progress. The
//! network calls and file writes themselves are the caller's; everything
//! the pipeline computes and decides lives here.

pub mod api;
pub mod encode;
pub mod errors;
pub mod json;
pub mod numfmt;
pub mod paginate;
pub mod run;
pub mod sanitize;
pub mod select;

use vstd::prelude::*;
use vstd::string::StringExecFns;

verus! {

/// Display title and uploader name of one media item.
#[derive(Clone, Debug)]
pub struct VideoInf {
    pub name: String,
    pub author: String,
}

impl Default for VideoInf {
    fn default() -> (r: VideoInf)
        ensures
            r.name@ == "What?"@,
            r.author@ == "Who?"@,
    {
        VideoInf { name: String::from_str("What?"), author: String::from_str("Who?") }
    }
}

} // verus!
