use vstd::prelude::*;

verus! {

/// An SSH host entry.
///
/// Wraps a hostname string for type distinction from other leaf values.
#[derive(Debug, Clone)]
pub struct Host {
    /// The SSH hostname to connect to.
    pub hostname: String,
}

impl View for Host {
    type V = Seq<char>;

    open spec fn view(&self) -> Seq<char> {
        self.hostname@
    }
}

impl Host {
    /// Returns the command to execute: `ssh {hostname}`.
    pub fn command(&self) -> (r: String)
        ensures
            r@ == "ssh "@ + self.hostname@,
    {
        let prefix = String::from_str("ssh ");
        prefix.concat(self.hostname.as_str())
    }
}

} // verus!
