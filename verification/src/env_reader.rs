//! Indirection over reading named environment variables.  The reader holds a
//! snapshot of name/value pairs, handed in by the caller, so that every lookup
//! is a verified function of that snapshot and tests never touch the real
//! process environment.

use vstd::prelude::*;
use vstd::string::StrSliceExecFns;
use crate::strings::str_eq;

verus! {

/// A snapshot of environment variables: name/value pairs, earliest entry wins.
pub struct EnvReader {
    entries: Vec<(String, String)>,
}

/// The value of `name` in `env`: the value of the first pair whose name
/// matches, or `None` when no pair matches.
pub open spec fn spec_env_lookup(env: Seq<(Seq<char>, Seq<char>)>, name: Seq<char>) -> Option<
    Seq<char>,
>
    decreases env.len(),
{
    if env.len() == 0 {
        None
    } else if env[0].0 == name {
        Some(env[0].1)
    } else {
        spec_env_lookup(env.drop_first(), name)
    }
}

impl View for EnvReader {
    type V = Seq<(Seq<char>, Seq<char>)>;

    closed spec fn view(&self) -> Seq<(Seq<char>, Seq<char>)> {
        Seq::new(self.entries@.len(), |i: int| (self.entries@[i].0@, self.entries@[i].1@))
    }
}

impl EnvReader {
    /// A reader over the given name/value pairs.
    pub fn new(entries: Vec<(String, String)>) -> (r: EnvReader)
        ensures
            r@ == Seq::new(entries@.len(), |i: int| (entries@[i].0@, entries@[i].1@)),
    {
        EnvReader { entries }
    }

    /// The value of the variable called `name`, if the snapshot holds one.
    pub fn env_variable(&self, name: &str) -> (r: Option<String>)
        ensures
            r is Some <==> spec_env_lookup(self@, name@) is Some,
            r matches Some(v) ==> spec_env_lookup(self@, name@) == Some(v@),
    {
        let n = self.entries.len();
        let mut i: usize = 0;
        proof {
            assert(self@.skip(0) =~= self@);
        }
        while i < n
            invariant
                i <= n,
                n == self.entries@.len(),
                spec_env_lookup(self@, name@) == spec_env_lookup(
                    self@.skip(i as int),
                    name@,
                ),
            decreases n - i,
        {
            proof {
                assert(self@.skip(i as int)[0] == self@[i as int]);
                assert(self@.skip(i as int).drop_first() =~= self@.skip(i as int + 1));
            }
            if str_eq(self.entries[i].0.as_str(), name) {
                let value = self.entries[i].1.clone();
                return Some(value);
            }
            i = i + 1;
        }
        proof {
            assert(self@.skip(n as int) =~= Seq::<(Seq<char>, Seq<char>)>::empty());
        }
        None
    }
}

} // verus!
