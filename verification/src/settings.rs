//! Per-setting helpers: merging one optional setting under a caller
//! supplied policy function, reading settings from an environment
//! snapshot, and parsing scalar values out of strings.
//!
//! Environment lookups go through an explicit read-only snapshot
//! passed into resolution, not a hidden ambient global, which keeps
//! resolution deterministic.

use vstd::prelude::*;
use vstd::string::StringExecFns;
use crate::error::ConfigError;
use crate::error::HandlerError;
use crate::partial::merge_fields_ok;
use crate::partial::merge_fields_val;
use crate::partial::merge_partial;
use crate::partial::specs_view;
use crate::partial::FieldSpec;
use crate::partial::PartialFields;
use crate::strutil::str_eq;

verus! {

/// A read-only snapshot of environment variables: key/value pairs,
/// earlier entries shadowing later ones with the same key.
pub struct EnvSnapshot {
    pub entries: Vec<(String, String)>,
}

/// The value a snapshot holds for a key: the first entry with that
/// key, if any.
pub open spec fn env_lookup(entries: Seq<(Seq<char>, Seq<char>)>, key: Seq<char>) -> Option<
    Seq<char>,
>
    decreases entries.len(),
{
    if entries.len() == 0 {
        Option::None
    } else if entries[0].0 == key {
        Option::Some(entries[0].1)
    } else {
        env_lookup(entries.drop_first(), key)
    }
}

/// The view of a snapshot's entries.
pub open spec fn entries_view(entries: Seq<(String, String)>) -> Seq<(Seq<char>, Seq<char>)> {
    Seq::new(entries.len(), |i: int| (entries[i].0@, entries[i].1@))
}

impl EnvSnapshot {
    /// A snapshot with no variables.
    pub fn new() -> (r: EnvSnapshot)
        ensures
            r@.len() == 0,
    {
        EnvSnapshot { entries: Vec::new() }
    }

    /// Adds a variable to the snapshot; an existing entry with the
    /// same key keeps shadowing this one.
    pub fn push(&mut self, key: String, value: String)
        ensures
            final(self)@ == old(self)@.push((key@, value@)),
    {
        self.entries.push((key, value));
        proof {
            assert(entries_view(self.entries@) =~= entries_view(old(self).entries@).push(
                (key@, value@),
            ));
        }
    }

    /// Looks a key up in the snapshot.
    pub fn get(&self, key: &str) -> (r: Option<String>)
        ensures
            match r {
                Option::Some(v) => env_lookup(self@, key@) == Option::Some(v@),
                Option::None => env_lookup(self@, key@) is None,
            },
    {
        let n = self.entries.len();
        proof {
            assert(entries_view(self.entries@).skip(0) =~= entries_view(self.entries@));
        }
        let mut i: usize = 0;
        while i < n
            invariant
                i <= n,
                n == self.entries@.len(),
                env_lookup(self@, key@) == env_lookup(
                    entries_view(self.entries@).skip(i as int),
                    key@,
                ),
            decreases n - i,
        {
            let entry = &self.entries[i];
            proof {
                let tail = entries_view(self.entries@).skip(i as int);
                assert(tail[0] == (entry.0@, entry.1@));
                assert(tail.drop_first() =~= entries_view(self.entries@).skip(i as int + 1));
            }
            if str_eq(entry.0.as_str(), key) {
                return Some(entry.1.clone());
            }
            i = i + 1;
        }
        proof {
            assert(entries_view(self.entries@).skip(n as int) =~= Seq::<
                (Seq<char>, Seq<char>),
            >::empty());
        }
        None
    }
}

impl View for EnvSnapshot {
    type V = Seq<(Seq<char>, Seq<char>)>;

    open spec fn view(&self) -> Seq<(Seq<char>, Seq<char>)> {
        entries_view(self.entries@)
    }
}

/// A scalar that can be read out of a string, with an exact
/// description of which strings parse and to what value.
pub trait ParseFromStr: Sized + View {
    /// Which strings parse, and to what value.
    spec fn parse_spec(s: Seq<char>) -> Option<Self::V>;

    /// Parses a string, succeeding exactly as `parse_spec` says.
    fn parse_from(s: &str) -> (r: Option<Self>)
        ensures
            match r {
                Option::Some(v) => Self::parse_spec(s@) == Option::Some(v@),
                Option::None => Self::parse_spec(s@) is None,
            },
    ;
}

impl ParseFromStr for String {
    open spec fn parse_spec(s: Seq<char>) -> Option<Seq<char>> {
        Option::Some(s)
    }

    fn parse_from(s: &str) -> (r: Option<String>) {
        Some(s.to_owned())
    }
}

impl ParseFromStr for bool {
    open spec fn parse_spec(s: Seq<char>) -> Option<bool> {
        if s == "true"@ {
            Option::Some(true)
        } else if s == "false"@ {
            Option::Some(false)
        } else {
            Option::None
        }
    }

    fn parse_from(s: &str) -> (r: Option<bool>) {
        if str_eq(s, "true") {
            Some(true)
        } else if str_eq(s, "false") {
            Some(false)
        } else {
            None
        }
    }
}

/// Maps a user-supplied default provider's failure into the
/// configuration error channel.
pub fn handle_default_fn<T>(result: Result<T, String>) -> (r: Result<T, ConfigError>)
    ensures
        result matches Ok(v) ==> (r matches Ok(w) && w == v),
        result matches Err(m) ==> (r matches Err(e) && e == (ConfigError::InvalidDefault(m))),
{
    match result {
        Ok(v) => Ok(v),
        Err(message) => Err(ConfigError::InvalidDefault(message)),
    }
}

/// Parses a string into a scalar, wrapping a failure as a handler
/// error.
pub fn parse_value<T: ParseFromStr>(value: &str) -> (r: Result<T, HandlerError>)
    ensures
        T::parse_spec(value@) matches Some(v) ==> (r matches Ok(w) && w@ == v),
        T::parse_spec(value@) is None ==> r is Err,
{
    match T::parse_from(value) {
        Some(v) => Ok(v),
        None => {
            let mut message = "failed to parse \"".to_owned();
            message.append(value);
            message.append("\" into the correct type");
            Err(HandlerError(message))
        },
    }
}

/// Reads a variable from the snapshot and runs a caller-supplied
/// parser over it; an absent variable is not an error.
pub fn parse_from_env_var<T, F: Fn(String) -> Result<Option<T>, HandlerError>>(
    env: &EnvSnapshot,
    key: &str,
    parser: F,
) -> (r: Result<Option<T>, HandlerError>)
    requires
        forall|v: String| env_lookup(env@, key@) == Option::Some(v@) ==> call_requires(
            parser,
            (v,),
        ),
    ensures
        env_lookup(env@, key@) is None ==> (r matches Ok(o) && o is None),
        env_lookup(env@, key@) matches Some(s) ==> exists|v: String,
            res: Result<Option<T>, HandlerError>|
            v@ == s && call_ensures(parser, (v,), res) && (match res {
                Ok(o) => r matches Ok(x) && x == o,
                Err(_) => r is Err,
            }),
{
    match env.get(key) {
        Some(var) => match parser(var) {
            Ok(value) => Ok(value),
            Err(_) => {
                let mut message = "invalid environment variable ".to_owned();
                message.append(key);
                Err(HandlerError(message))
            },
        },
        None => Ok(None),
    }
}

/// Reads a scalar setting from the snapshot: an absent variable
/// yields no value, a present but unparseable one is a handler error.
pub fn default_from_env_var<T: ParseFromStr>(env: &EnvSnapshot, key: &str) -> (r: Result<
    Option<T>,
    HandlerError,
>)
    ensures
        env_lookup(env@, key@) is None ==> (r matches Ok(o) && o is None),
        env_lookup(env@, key@) matches Some(s) ==> (match T::parse_spec(s) {
            Option::Some(v) => r matches Ok(o) && o matches Some(w) && w@ == v,
            Option::None => r is Err,
        }),
{
    match env.get(key) {
        Some(var) => match parse_value::<T>(var.as_str()) {
            Ok(v) => Ok(Some(v)),
            Err(e) => Err(e),
        },
        None => Ok(None),
    }
}

/// Merges one optional setting: when both layers hold a value the
/// caller-supplied policy function decides, otherwise the present
/// value wins.
pub fn merge_setting<T, C, F: Fn(T, T, &C) -> Result<Option<T>, HandlerError>>(
    prev: Option<T>,
    next: Option<T>,
    context: &C,
    merger: F,
) -> (r: Result<Option<T>, HandlerError>)
    requires
        prev is Some && next is Some ==> call_requires(merger, (prev->0, next->0, context)),
    ensures
        prev is Some && next is Some ==> call_ensures(merger, (prev->0, next->0, context), r),
        prev is None ==> (r matches Ok(v) && v == next),
        prev is Some && next is None ==> (r matches Ok(v) && v == prev),
{
    match (prev, next) {
        (Some(p), Some(n)) => merger(p, n, context),
        (None, n) => Ok(n),
        (p, None) => Ok(p),
    }
}

/// Merges one optional nested partial-configuration setting: when
/// both layers hold one, the two partials deep-merge under the given
/// field specs, otherwise the present one wins.
pub fn merge_partial_setting(
    prev: Option<PartialFields>,
    next: Option<PartialFields>,
    specs: &Vec<FieldSpec>,
) -> (r: Result<Option<PartialFields>, HandlerError>)
    ensures
        prev matches Some(p) ==> next matches Some(n) ==> (match r {
            Ok(o) => o matches Some(m) && merge_fields_ok(specs_view(specs@), p@, n@) && m@
                == merge_fields_val(specs_view(specs@), p@, n@),
            Err(_) => !merge_fields_ok(specs_view(specs@), p@, n@),
        }),
        prev is None ==> (r matches Ok(v) && v == next),
        prev is Some && next is None ==> (r matches Ok(v) && v == prev),
{
    match (prev, next) {
        (Some(p), Some(n)) => match merge_partial(p, n, specs) {
            Ok(m) => Ok(Some(m)),
            Err(e) => Err(e),
        },
        (None, n) => Ok(n),
        (p, None) => Ok(p),
    }
}

} // verus!
