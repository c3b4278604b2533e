//! Addresses of the synthesis backend.

use vstd::prelude::*;

verus! {

/// Where the synthesis backend listens.
pub const API_BASE_URL: &'static str = "http://localhost:8000";

/// The address that reports the progress of a clip-import task.
pub fn get_youtube_progress_url(task_id: &str) -> (r: String)
    ensures
        r@ == API_BASE_URL@ + "/youtube/progress/"@ + task_id@,
{
    String::from_str(API_BASE_URL).concat("/youtube/progress/").concat(task_id)
}

} // verus!
