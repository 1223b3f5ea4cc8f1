//! The field-level default/patch mechanism.
//!
//! A configuration value is persisted as a sparse patch against its
//! compiled-in default: per field, the patch holds `Some(value)` iff the
//! value differs from the default's.  These helpers state what diffing and
//! applying mean for a single field; each configuration type assembles them
//! field by field.

use vstd::prelude::*;

verus! {

/// One field of a diff: present iff `v` differs from `base`.
pub open spec fn opt_diff<T>(v: T, base: T) -> Option<T> {
    if v == base {
        None
    } else {
        Some(v)
    }
}

/// One field of an application: a present field overwrites, an absent one
/// keeps the base.
pub open spec fn opt_apply<T>(base: T, p: Option<T>) -> T {
    match p {
        Some(v) => v,
        None => base,
    }
}

/// The value of an optional string field: present strings read as character
/// sequences.
pub open spec fn opt_str_view(o: Option<String>) -> Option<Seq<char>> {
    match o {
        Some(s) => Some(s@),
        None => None,
    }
}

/// Diff of one string field.
pub fn diff_string(v: &String, base: &String) -> (r: Option<String>)
    ensures
        opt_str_view(r) == opt_diff(v@, base@),
{
    if *v == *base {
        None
    } else {
        Some(v.clone())
    }
}

/// Application of one string field.
pub fn apply_string(base: &String, p: Option<String>) -> (r: String)
    ensures
        r@ == opt_apply(base@, opt_str_view(p)),
{
    match p {
        Some(v) => v,
        None => base.clone(),
    }
}

/// Application of one boolean field.
pub fn apply_bool(base: bool, p: Option<bool>) -> (r: bool)
    ensures
        r == opt_apply(base, p),
{
    match p {
        Some(v) => v,
        None => base,
    }
}

/// Diff of one boolean field.
pub fn diff_bool(v: bool, base: bool) -> (r: Option<bool>)
    ensures
        r == opt_diff(v, base),
{
    if v == base {
        None
    } else {
        Some(v)
    }
}

/// Round trip on one field: applying to `base` the diff of `v` against
/// `base` restores `v`.
pub proof fn lemma_opt_roundtrip<T>(v: T, base: T)
    ensures
        opt_apply(base, opt_diff(v, base)) == v,
{
}

/// Diffing a field against itself yields an absent field.
pub proof fn lemma_opt_diff_self<T>(v: T)
    ensures
        opt_diff(v, v) is None,
{
}

/// Applying the same field twice yields the same value as applying it once.
pub proof fn lemma_opt_apply_idempotent<T>(base: T, p: Option<T>)
    ensures
        opt_apply(opt_apply(base, p), p) == opt_apply(base, p),
{
}

} // verus!
