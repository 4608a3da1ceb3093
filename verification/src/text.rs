//! Small helpers on text.

use vstd::prelude::*;
use vstd::string::{StrSliceExecFns, StringExecFns};

verus! {

/// The characters of an optional string.
pub open spec fn opt_view(text: Option<String>) -> Option<Seq<char>> {
    match text {
        Some(s) => Some(s@),
        None => None,
    }
}

/// A copy of an optional string.
pub fn clone_opt(text: &Option<String>) -> (copy: Option<String>)
    ensures
        opt_view(copy) == opt_view(*text),
{
    match text {
        Some(s) => Some(s.clone()),
        None => None,
    }
}

/// The first of two optional values that is present.
pub open spec fn first_of<T>(first: Option<T>, second: Option<T>) -> Option<T> {
    match first {
        Some(_) => first,
        None => second,
    }
}

/// The effective value of a setting: the entry's own where it is set, else
/// the global one where that is set, else the built-in default.
pub open spec fn resolved<T>(entry: Option<T>, global: Option<T>, default: T) -> T {
    match first_of(entry, global) {
        Some(value) => value,
        None => default,
    }
}

/// Resolves a setting through its three tiers, each setting on its own.
pub fn resolve<T: Copy>(entry: Option<T>, global: Option<T>, default: T) -> (value: T)
    ensures
        value == resolved(entry, global, default),
{
    match entry {
        Some(value) => value,
        None => match global {
            Some(value) => value,
            None => default,
        },
    }
}

/// The lower-case form of a text, as `str::to_lowercase` gives it.
pub uninterp spec fn lowercase(text: Seq<char>) -> Seq<char>;

/// A text without its leading and trailing white space, as `str::trim` gives it.
pub uninterp spec fn trimmed(text: Seq<char>) -> Seq<char>;

/// `str::to_lowercase`: the result is the lower-case form of the text, which
/// depends on the text alone.
pub assume_specification[ str::to_lowercase ](text: &str) -> (lower: String)
    ensures
        lower@ == lowercase(text@),
;

/// `str::trim`: the result is the text without its leading and trailing white
/// space, which depends on the text alone.
pub assume_specification[ str::trim ](text: &str) -> (inner: &str)
    ensures
        inner@ == trimmed(text@),
;

/// The fully-qualified name of a hostname under a base domain: the base
/// domain itself for the empty name and for `@`; else the name, trimmed and in
/// lower case, a dot, and the base domain.
pub open spec fn fqdn_of(name: Seq<char>, base: Seq<char>) -> Seq<char> {
    if name == Seq::<char>::empty() || name == seq!['@'] {
        base
    } else {
        lowercase(trimmed(name)) + seq!['.'] + base
    }
}

/// Composes the fully-qualified name of a hostname under a base domain.
pub fn fqdn(name: &str, base: &str) -> (full: String)
    ensures
        full@ == fqdn_of(name@, base@),
{
    if name.is_empty() || (name.unicode_len() == 1 && name.get_char(0) == '@') {
        assert(name@ =~= Seq::<char>::empty() || name@ =~= seq!['@']);
        base.to_owned()
    } else {
        proof {
            reveal_strlit(".");
        }
        assert("."@ =~= seq!['.']);
        let mut full = name.trim().to_lowercase();
        full.append(".");
        full.append(base);
        full
    }
}

} // verus!
