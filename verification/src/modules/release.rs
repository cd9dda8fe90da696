//! Reading fields such as `arch=amd64` from the CatWrt release description.

use vstd::prelude::*;

use crate::text::{lines, lines_of, split, split_char, starts_with, starts_with_str, views};

verus! {

/// The first line of `ls` that starts with `p`.
pub open spec fn first_with_prefix(ls: Seq<Seq<char>>, p: Seq<char>) -> Option<Seq<char>>
    decreases ls.len(),
{
    if ls.len() == 0 {
        None
    } else if starts_with(ls[0], p) {
        Some(ls[0])
    } else {
        first_with_prefix(ls.drop_first(), p)
    }
}

/// The value of `key` in a release description: on the first line that
/// starts with `key=`, the text between the first and the second `'='`.
pub open spec fn release_value(content: Seq<char>, key: Seq<char>) -> Option<Seq<char>> {
    match first_with_prefix(lines(content), key + "="@) {
        Some(l) => if split(l, '=').len() >= 2 {
            Some(split(l, '=')[1])
        } else {
            None
        },
        None => None,
    }
}

/// The value of `key` in the release description `content`, or `default`
/// when it has none.
pub fn release_field(content: &str, key: &str, default: &str) -> (r: String)
    ensures
        r@ == (match release_value(content@, key@) {
            Some(v) => v,
            None => default@,
        }),
{
    let ls = lines_of(content);
    let mut prefix = String::from_str(key);
    prefix.append("=");
    let ghost all = lines(content@);
    let mut k: usize = 0;
    assert(all.skip(0) =~= all);
    while k < ls.len()
        invariant
            k <= ls@.len(),
            views(ls@) == all,
            all == lines(content@),
            prefix@ == key@ + "="@,
            first_with_prefix(all, prefix@) == first_with_prefix(all.skip(k as int), prefix@),
        decreases ls@.len() - k,
    {
        assert(all.skip(k as int)[0] == all[k as int]);
        if starts_with_str(ls[k].as_str(), prefix.as_str()) {
            let parts = split_char(ls[k].as_str(), '=');
            if parts.len() >= 2 {
                return parts[1].clone();
            } else {
                return String::from_str(default);
            }
        }
        assert(all.skip(k as int).drop_first() =~= all.skip(k + 1));
        k = k + 1;
    }
    String::from_str(default)
}

/// The release description used when the file cannot be read.
pub open spec fn fallback_release() -> Seq<char> {
    "arch=amd64\nversion=v25.8"@
}

/// The release description: the file's text if it could be read, else the
/// fallback `arch=amd64`, `version=v25.8`.
pub fn release_or_fallback(content: Option<String>) -> (r: String)
    ensures
        r@ == (match content {
            Some(c) => c@,
            None => fallback_release(),
        }),
{
    match content {
        Some(c) => c,
        None => String::from_str("arch=amd64\nversion=v25.8"),
    }
}

/// The architecture named by a release description (`amd64` if none).
pub fn release_arch(content: &str) -> (r: String)
    ensures
        r@ == (match release_value(content@, "arch"@) {
            Some(v) => v,
            None => "amd64"@,
        }),
{
    release_field(content, "arch", "amd64")
}

/// The version named by a release description (`v25.8` if none).
pub fn release_version(content: &str) -> (r: String)
    ensures
        r@ == (match release_value(content@, "version"@) {
            Some(v) => v,
            None => "v25.8"@,
        }),
{
    release_field(content, "version", "v25.8")
}

} // verus!
