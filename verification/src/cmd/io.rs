//! What a command prints: the two streams as texts that the program writes out.

use vstd::prelude::*;
use vstd::string::*;

verus! {

/// The two output streams a run prints to.
pub struct Streams {
    /// Standard output.
    pub stdout: String,
    /// Standard error.
    pub stderr: String,
}

impl Default for Streams {
    /// Nothing was printed.
    fn default() -> (r: Streams)
        ensures
            r.stdout@.len() == 0,
            r.stderr@.len() == 0,
    {
        Streams { stdout: String::new(), stderr: String::new() }
    }
}

impl Streams {
    /// Prints a line on standard output.
    pub fn line(&mut self, msg: &str)
        ensures
            final(self).stdout@ == old(self).stdout@ + msg@ + "\n"@,
            final(self).stderr == old(self).stderr,
    {
        self.stdout.append(msg);
        self.stdout.append("\n");
    }

    /// Prints a warning on standard error; it carries its own prefix.
    pub fn warning(&mut self, msg: &str)
        ensures
            final(self).stderr@ == old(self).stderr@ + msg@ + "\n"@,
            final(self).stdout == old(self).stdout,
    {
        self.stderr.append(msg);
        self.stderr.append("\n");
    }

    /// Prints a caution on standard error.
    pub fn caution(&mut self, msg: &str)
        ensures
            final(self).stderr@ == old(self).stderr@ + "⚠ "@ + msg@ + "\n"@,
            final(self).stdout == old(self).stdout,
    {
        self.stderr.append("⚠ ");
        self.stderr.append(msg);
        self.stderr.append("\n");
    }
}

} // verus!
