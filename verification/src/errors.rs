//! The bot's own error type.

use vstd::prelude::*;
use vstd::string::*;

verus! {

/// An error raised by the bot itself (as opposed to the database or Discord).
#[derive(Debug, Clone)]
pub struct MjokError {
    pub msg: String,
}

impl MjokError {
    /// Boxes a new error carrying `msg`.
    pub fn new(msg: String) -> (e: Box<Self>)
        ensures
            e.msg == msg,
    {
        Box::new(MjokError { msg })
    }

    /// Boxes a new error carrying a copy of `msg`.
    pub fn new_str(msg: &str) -> (e: Box<Self>)
        ensures
            e.msg@ == msg@,
    {
        Self::new(String::from_str(msg))
    }

    /// The error's human-readable form: `Fox error: <msg>` and a line break.
    pub fn to_string(&self) -> (s: String)
        ensures
            s@ == "Fox error: "@ + self.msg@ + "\n"@,
    {
        let mut s = String::from_str("Fox error: ");
        s.append(self.msg.as_str());
        s.append("\n");
        assert(s@ =~= "Fox error: "@ + self.msg@ + "\n"@);
        s
    }
}

} // verus!
