//! A question for the user. To ask it is for the caller.

use vstd::prelude::*;

verus! {

/// A question for the user.
#[derive(Clone, Debug)]
pub struct Prompt {
    msg: String,
    secure: bool,
}

impl Prompt {
    /// The text of the question.
    pub closed spec fn text(&self) -> Seq<char> {
        self.msg@
    }

    /// Whether the answer is hidden while it is typed.
    pub closed spec fn hidden(&self) -> bool {
        self.secure
    }

    /// A question with the given text, whose answer shows while it is typed.
    pub fn with_msg(msg: &str) -> (prompt: Prompt)
        ensures
            prompt.text() == msg@,
            !prompt.hidden(),
    {
        Prompt { msg: String::from_str(msg), secure: false }
    }

    /// Has the answer hidden while it is typed.
    pub fn secure(self) -> (prompt: Prompt)
        ensures
            prompt.text() == self.text(),
            prompt.hidden(),
    {
        let mut prompt = self;
        prompt.secure = true;
        prompt
    }

    /// The text of the question.
    pub fn message(&self) -> (msg: &str)
        ensures
            msg@ == self.text(),
    {
        self.msg.as_str()
    }

    /// Whether the answer is hidden while it is typed.
    pub fn is_secure(&self) -> (secure: bool)
        ensures
            secure == self.hidden(),
    {
        self.secure
    }
}

} // verus!
