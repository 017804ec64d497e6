//! The environment snapshot: an ordered sequence of key/value pairs captured
//! once at startup and never re-queried.

use vstd::prelude::*;
use vstd::string::StringExecFns;

verus! {

/// A single environment variable: a key together with its value.
#[derive(Debug)]
pub struct Environment {
    pub key: String,
    pub value: String,
}

impl Environment {
    /// Builds an entry from a key and a value.
    pub fn new(key: String, value: String) -> (e: Environment)
        ensures
            e.key == key,
            e.value == value,
    {
        Environment { key, value }
    }

    /// The `KEY=VALUE` form of the entry, as a shell would print it.
    pub fn display_string(&self) -> (s: String)
        ensures
            s@ == self.key@ + "="@ + self.value@,
    {
        let mut s = self.key.clone();
        s.append("=");
        s.append(self.value.as_str());
        s
    }
}

} // verus!
