//! The value to use for the shell prompt when inside a virtual environment.

use vstd::prelude::*;

verus! {

/// The value to use for the shell prompt when inside a virtual environment.
#[derive(Debug)]
pub enum Prompt {
    /// Use the current directory name as the prompt.
    CurrentDirectoryName,
    /// Use the fixed string as the prompt.
    Static(String),
    /// Default to no prompt. The prompt is then set by the activator script
    /// to the virtual environment's directory name.
    Unset,
}

impl Prompt {
    /// Determine the prompt value to be used from the command line arguments:
    /// a lone `.` selects the current directory name, any other string is
    /// used verbatim, and an absent argument leaves the prompt unset.
    pub fn from_args(prompt: Option<String>) -> (r: Self)
        ensures
            prompt is Some && prompt->0@ == "."@ ==> r is CurrentDirectoryName,
            prompt is Some && prompt->0@ != "."@ ==> r is Static && r->0@ == prompt->0@,
            prompt is None ==> r is Unset,
    {
        match prompt {
            Some(p) => {
                let dot: String = ".".to_owned();
                if p == dot {
                    Self::CurrentDirectoryName
                } else {
                    Self::Static(p)
                }
            },
            None => Self::Unset,
        }
    }
}

} // verus!
