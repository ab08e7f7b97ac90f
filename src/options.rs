use vstd::prelude::*;

verus! {

/// Configuration of one invocation, read-only once built.
#[derive(Debug)]
pub struct RmOptions {
    /// Remove directories and their contents.
    pub recursive: bool,
    /// Ignore missing operands and never prompt.
    pub force: bool,
    /// Remove empty directories without `recursive`.
    pub dir: bool,
    /// The operands, in the order given.
    pub file: Vec<String>,
}

impl RmOptions {
    /// No operand was given, and `force` does not silence the complaint.
    pub fn missing_operand(&self) -> (r: bool)
        ensures
            r == (self.file@.len() == 0 && !self.force),
    {
        self.file.len() == 0 && !self.force
    }
}

} // verus!
