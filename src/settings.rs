//! Application settings: where synthesized audio, voice references and
//! projects are kept.

use vstd::prelude::*;

verus! {

#[derive(Clone, Debug, PartialEq)]
pub struct Settings {
    pub output_directory: String,
    pub voice_files_directory: String,
    pub projects_directory: String,
    pub active_project_id: Option<String>,
}

impl Default for Settings {
    fn default() -> (r: Settings)
        ensures
            r.output_directory@ == "frontend/data/output"@,
            r.voice_files_directory@ == "frontend/data/voices"@,
            r.projects_directory@ == "frontend/data/projects"@,
            r.active_project_id is None,
    {
        Settings {
            output_directory: String::from_str("frontend/data/output"),
            voice_files_directory: String::from_str("frontend/data/voices"),
            projects_directory: String::from_str("frontend/data/projects"),
            active_project_id: None,
        }
    }
}

} // verus!
