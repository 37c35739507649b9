use vstd::prelude::*;
use crate::names::{same_name, ParseError};

verus! {

/// The kind of generation a session is opened for.
#[derive(Debug, Clone, Copy, PartialEq, Eq, Structural)]
pub enum Task {
    TextToImage,
    ImageToImage,
}

/// The task that a mode name selects, if any.
pub open spec fn parse_task(s: Seq<char>) -> Option<Task> {
    if s == "txt2img"@ {
        Some(Task::TextToImage)
    } else if s == "img2img"@ {
        Some(Task::ImageToImage)
    } else {
        None
    }
}

impl Task {
    /// Resolves a mode name (`txt2img`, `img2img`); an unknown name is an
    /// error that carries it.
    pub fn from_name(name: &str) -> (r: Result<Task, ParseError>)
        ensures
            match parse_task(name@) {
                Some(t) => r == Ok::<Task, ParseError>(t),
                None => r matches Err(ParseError::UnknownMode(s)) && s@ == name@,
            },
    {
        if same_name(name, "txt2img") {
            Ok(Task::TextToImage)
        } else if same_name(name, "img2img") {
            Ok(Task::ImageToImage)
        } else {
            Err(ParseError::UnknownMode(name.to_owned()))
        }
    }
}

impl std::str::FromStr for Task {
    type Err = ParseError;

    fn from_str(s: &str) -> Result<Task, ParseError> {
        Task::from_name(s)
    }
}

} // verus!
