//! The configuration of a run.

use vstd::prelude::*;

verus! {

/// What the command line configures.
#[derive(Debug)]
pub struct Config {
    /// The directory that holds the volunteer description files.
    pub volunteer_dir: String,
    /// The directory that holds the pictures of the volunteers.
    pub picture_dir: String,
    /// The directory that holds the template with its fonts and packages.
    pub template_dir: String,
    /// The file that the PDF is written to.
    pub output: Option<String>,
}

/// The name of the output file: the configured one, or else the time stamp
/// followed by `_Stempelkarten.pdf`.
pub open spec fn output_name(output: Option<String>, stamp: Seq<char>) -> Seq<char> {
    match output {
        Some(name) => name@,
        None => stamp + "_Stempelkarten.pdf"@,
    }
}

impl Config {
    /// The file that the PDF goes to, given the local time of the run as a
    /// time stamp down to the second.
    pub fn output_file(&self, stamp: &str) -> (name: String)
        ensures
            name@ == output_name(self.output, stamp@),
    {
        match &self.output {
            Some(name) => name.clone(),
            None => {
                let mut name = String::from_str(stamp);
                name.append("_Stempelkarten.pdf");
                name
            },
        }
    }
}

} // verus!
