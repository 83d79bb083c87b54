//! A snapshot of the process environment, as the resolver sees it.
//!
//! The embedder captures the variables once and hands them over as plain
//! values; the resolver never touches the OS environment itself. A variable
//! can be present with a text value, or present with a value that is not
//! valid text — the decoder treats the two differently.

use vstd::prelude::*;
use crate::parse::str_eq;

verus! {

/// The raw value of one present environment variable.
#[derive(Debug)]
pub enum EnvValue {
    /// The value is valid text.
    Text(String),
    /// The value exists but cannot be decoded as text.
    NonText,
}

impl View for EnvValue {
    type V = Option<Seq<char>>;

    open spec fn view(&self) -> Option<Seq<char>> {
        match self {
            EnvValue::Text(s) => Some(s@),
            EnvValue::NonText => None,
        }
    }
}

/// One environment variable: a name and its raw value.
#[derive(Debug)]
pub struct EnvVar {
    pub name: String,
    pub value: EnvValue,
}

impl View for EnvVar {
    type V = (Seq<char>, Option<Seq<char>>);

    open spec fn view(&self) -> (Seq<char>, Option<Seq<char>>) {
        (self.name@, self.value@)
    }
}

/// The environment snapshot the resolver works from.
#[derive(Debug)]
pub struct EnvSnapshot {
    pub vars: Vec<EnvVar>,
}

impl View for EnvSnapshot {
    type V = Seq<(Seq<char>, Option<Seq<char>>)>;

    open spec fn view(&self) -> Seq<(Seq<char>, Option<Seq<char>>)> {
        Seq::new(self.vars@.len(), |i: int| self.vars@[i]@)
    }
}

/// The first entry named `name` at or after position `i`.
pub open spec fn lookup_from(
    env: Seq<(Seq<char>, Option<Seq<char>>)>,
    name: Seq<char>,
    i: int,
) -> Option<Option<Seq<char>>>
    decreases env.len() - i,
{
    if i < 0 || i >= env.len() {
        None
    } else if env[i].0 == name {
        Some(env[i].1)
    } else {
        lookup_from(env, name, i + 1)
    }
}

/// What looking up a variable in the snapshot yields: `None` when the
/// variable is absent, `Some(None)` when it is present but not text,
/// `Some(Some(s))` when it is present with text `s`.
pub open spec fn lookup(
    env: Seq<(Seq<char>, Option<Seq<char>>)>,
    name: Seq<char>,
) -> Option<Option<Seq<char>>> {
    lookup_from(env, name, 0)
}

impl EnvSnapshot {
    /// An empty snapshot: no variable is present.
    pub fn new() -> (r: EnvSnapshot)
        ensures
            r@.len() == 0,
    {
        EnvSnapshot { vars: Vec::new() }
    }

    /// Finds the first entry with the given name, as an OS environment
    /// lookup would.
    pub fn get_var(&self, name: &str) -> (r: Option<&EnvValue>)
        ensures
            match lookup(self@, name@) {
                Some(v) => r matches Some(ev) && ev@ == v,
                None => r is None,
            },
    {
        let n = self.vars.len();
        let mut i: usize = 0;
        while i < n
            invariant
                0 <= i <= n,
                n == self.vars.len(),
                lookup(self@, name@) == lookup_from(self@, name@, i as int),
            decreases n - i,
        {
            let entry = &self.vars[i];
            if str_eq(entry.name.as_str(), name) {
                return Some(&entry.value);
            }
            i = i + 1;
        }
        None
    }
}

} // verus!
