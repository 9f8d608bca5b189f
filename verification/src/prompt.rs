//! The prompt state: the text shown before the cursor, owned by the session
//! and updatable once per processed line by the post-command hook.

use vstd::prelude::*;
use vstd::string::*;

verus! {

/// The prompt's current prefix text.
#[derive(Debug, Clone)]
pub struct ReplPrompt {
    pub prefix: String,
}

impl View for ReplPrompt {
    type V = Seq<char>;

    open spec fn view(&self) -> Seq<char> {
        self.prefix@
    }
}

impl ReplPrompt {
    /// Constructor with the given initial prefix text.
    pub fn new(left_prompt: &str) -> (r: Self)
        ensures
            r@ == left_prompt@,
    {
        Self { prefix: left_prompt.to_owned() }
    }

    /// Replace the prefix text.
    pub fn update_prefix(&mut self, prefix: &str)
        ensures
            final(self)@ == prefix@,
    {
        self.prefix = prefix.to_owned();
    }

    /// The current prefix text.
    pub fn prefix(&self) -> (r: &str)
        ensures
            r@ == self@,
    {
        self.prefix.as_str()
    }
}

impl Default for ReplPrompt {
    /// The prompt before any name is configured.
    fn default() -> (r: Self)
        ensures
            r@ == "repl"@,
    {
        ReplPrompt::new("repl")
    }
}

} // verus!
