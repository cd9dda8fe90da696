//! The package source that the repository service names for an
//! architecture and a version.

use vstd::prelude::*;

use crate::api::json::{json_get, json_member, json_parse, parse_json, Json};
use crate::cli::opt_view;
use crate::error::CatoolsError;
use crate::text::{debug_text, has_char, decimal_text, numeral, str_debug, str_eq};

verus! {

/// A package source: its address, and whether it serves beta builds.
#[derive(Debug, Clone)]
pub struct RepoSource {
    pub url: String,
    pub beta: bool,
}

/// The entry of the service's reply `root` for `arch` and `version`: the
/// member `version` of the member `arch`.
pub open spec fn repo_entry(root: Json, arch: Seq<char>, version: Seq<char>) -> Option<Json> {
    match json_get(root, arch) {
        Some(node) => json_get(node, version),
        None => None,
    }
}

/// The text of a boolean.
pub open spec fn bool_text(b: bool) -> Seq<char> {
    if b {
        "true"@
    } else {
        "false"@
    }
}

/// A number's text is an integer's: it has no fraction and no exponent.
pub open spec fn is_integer_text(t: Seq<char>) -> bool {
    !t.contains('.') && !t.contains('e') && !t.contains('E')
}

/// How serde_json names the value `v` it did not expect (its wording of
/// serde's `Unexpected`): null is `null`; a number is an integer or a
/// floating point, written as the number's own text.
pub open spec fn unexpected_text(v: Json) -> Seq<char> {
    match v {
        Json::Null => "null"@,
        Json::Bool(b) => "boolean `"@ + bool_text(b) + "`"@,
        Json::Number(t) => if is_integer_text(t@) {
            "integer `"@ + t@ + "`"@
        } else {
            "floating point `"@ + t@ + "`"@
        },
        Json::Str(s) => "string "@ + str_debug(s@),
        Json::Array(_) => "sequence"@,
        Json::Object(_) => "map"@,
    }
}

/// serde's error for the value `v` where `expected` was expected.
pub open spec fn type_error(v: Json, expected: Seq<char>) -> Seq<char> {
    "invalid type: "@ + unexpected_text(v) + ", expected "@ + expected
}

/// serde's error when an object has no address.
pub open spec fn url_missing() -> Seq<char> {
    "missing field `url`"@
}

/// serde's error when an object names the field `f` twice.
pub open spec fn duplicate_field(f: Seq<char>) -> Seq<char> {
    "duplicate field `"@ + f + "`"@
}

/// serde's error when an array is empty.
pub open spec fn empty_source() -> Seq<char> {
    "invalid length 0, expected struct RepoSource with 2 elements"@
}

/// serde's error when an array has `n` elements, more than two.
pub open spec fn long_source(n: nat) -> Seq<char> {
    "invalid length "@ + numeral(n) + ", expected fewer elements in array"@
}

/// The members `es` of an object read in order, as serde's derived visitor
/// reads a `RepoSource`, after the address `url` and the flag `beta` seen so
/// far: `url` must be a string, `beta` a boolean, neither twice; other
/// members are passed over.
pub open spec fn member_reading(
    es: Seq<(String, Json)>,
    url: Option<Seq<char>>,
    beta: Option<bool>,
) -> Result<(Option<Seq<char>>, Option<bool>), Seq<char>>
    decreases es.len(),
{
    if es.len() == 0 {
        Ok((url, beta))
    } else {
        let k = es[0].0@;
        let v = es[0].1;
        if k == "url"@ {
            if url is Some {
                Err(duplicate_field("url"@))
            } else {
                match v {
                    Json::Str(u) => member_reading(es.drop_first(), Some(u@), beta),
                    _ => Err(type_error(v, "a string"@)),
                }
            }
        } else if k == "beta"@ {
            if beta is Some {
                Err(duplicate_field("beta"@))
            } else {
                match v {
                    Json::Bool(b) => member_reading(es.drop_first(), url, Some(b)),
                    _ => Err(type_error(v, "a boolean"@)),
                }
            }
        } else {
            member_reading(es.drop_first(), url, beta)
        }
    }
}

/// How an entry reads as a package source, as serde reads a `RepoSource`
/// whose `beta` defaults to false: an object by its members in order (see
/// `member_reading`), then the address must have been there; an array as
/// `[url]` or `[url, beta]`, element by element, then no element may be
/// left; any other value is of the wrong type. The address and the flag, or
/// serde's error.
pub open spec fn repo_entry_reading(e: Json) -> Result<(Seq<char>, bool), Seq<char>> {
    match e {
        Json::Object(es) => match member_reading(es@, None, None) {
            Err(d) => Err(d),
            Ok((None, _)) => Err(url_missing()),
            Ok((Some(u), b)) => Ok(
                (
                    u,
                    match b {
                        Some(x) => x,
                        None => false,
                    },
                ),
            ),
        },
        Json::Array(xs) => {
            if xs@.len() == 0 {
                Err(empty_source())
            } else if !(xs@[0] is Str) {
                Err(type_error(xs@[0], "a string"@))
            } else if xs@.len() >= 2 && !(xs@[1] is Bool) {
                Err(type_error(xs@[1], "a boolean"@))
            } else if xs@.len() > 2 {
                Err(long_source(xs@.len()))
            } else {
                Ok(
                    (
                        xs@[0]->Str_0@,
                        if xs@.len() == 2 {
                            xs@[1]->Bool_0
                        } else {
                            false
                        },
                    ),
                )
            }
        },
        _ => Err(type_error(e, "struct RepoSource"@)),
    }
}

/// The message when the service's reply cannot be read.
pub open spec fn repo_parse_message(detail: Seq<char>) -> Seq<char> {
    "解析软件源配置失败: "@ + detail
}

/// `r` is what the reply `root` gives for `arch` and `version`: no entry is
/// `Ok(None)`; an entry that reads as a source is that source; another is an
/// API error saying what is wrong.
pub open spec fn repo_source_of(
    root: Json,
    arch: Seq<char>,
    version: Seq<char>,
    r: Result<Option<RepoSource>, CatoolsError>,
) -> bool {
    match repo_entry(root, arch, version) {
        None => r matches Ok(None),
        Some(e) => match repo_entry_reading(e) {
            Ok((u, b)) => r matches Ok(Some(s)) && s.url@ == u && s.beta == b,
            Err(d) => r matches Err(CatoolsError::ApiError(m)) && m@ == repo_parse_message(d),
        },
    }
}

/// How serde_json names the value `v` it did not expect.
fn unexpected_of(v: &Json) -> (r: String)
    ensures
        r@ == unexpected_text(*v),
{
    match v {
        Json::Null => String::from_str("null"),
        Json::Bool(b) => {
            let mut r = String::from_str("boolean `");
            if *b {
                r.append("true");
            } else {
                r.append("false");
            }
            r.append("`");
            r
        },
        Json::Number(t) => {
            let dot = has_char(t.as_str(), '.');
            let exp = has_char(t.as_str(), 'e') || has_char(t.as_str(), 'E');
            let mut r = if !dot && !exp {
                String::from_str("integer `")
            } else {
                String::from_str("floating point `")
            };
            r.append(t.as_str());
            r.append("`");
            r
        },
        Json::Str(s) => {
            let mut r = String::from_str("string ");
            r.append(debug_text(s.as_str()).as_str());
            r
        },
        Json::Array(_) => String::from_str("sequence"),
        Json::Object(_) => String::from_str("map"),
    }
}

/// serde's error for the value `v` where `expected` was expected.
fn type_error_text(v: &Json, expected: &str) -> (r: String)
    ensures
        r@ == type_error(*v, expected@),
{
    let mut r = String::from_str("invalid type: ");
    r.append(unexpected_of(v).as_str());
    r.append(", expected ");
    r.append(expected);
    r
}

/// The members `es` of an object read in order as `member_reading` says.
fn read_members(es: &Vec<(String, Json)>) -> (r: Result<(Option<String>, Option<bool>), String>)
    ensures
        match member_reading(es@, None, None) {
            Ok((u, b)) => r matches Ok((x, y)) && opt_view(x) == u && y == b,
            Err(d) => r matches Err(m) && m@ == d,
        },
{
    let mut url: Option<String> = None;
    let mut beta: Option<bool> = None;
    let mut i: usize = 0;
    assert(es@.skip(0) =~= es@);
    while i < es.len()
        invariant
            i <= es@.len(),
            member_reading(es@, None, None) == member_reading(es@.skip(i as int), opt_view(url), beta),
        decreases es@.len() - i,
    {
        let ghost rest = es@.skip(i as int);
        assert(rest[0] == es@[i as int]);
        assert(rest.drop_first() =~= es@.skip(i + 1));
        let k = es[i].0.as_str();
        let v = &es[i].1;
        if str_eq(k, "url") {
            if url.is_some() {
                let mut m = String::from_str("duplicate field `");
                m.append("url");
                m.append("`");
                return Err(m);
            }
            match v {
                Json::Str(u) => {
                    url = Some(u.clone());
                },
                _ => {
                    return Err(type_error_text(v, "a string"));
                },
            }
        } else if str_eq(k, "beta") {
            if beta.is_some() {
                let mut m = String::from_str("duplicate field `");
                m.append("beta");
                m.append("`");
                return Err(m);
            }
            match v {
                Json::Bool(b) => {
                    beta = Some(*b);
                },
                _ => {
                    return Err(type_error_text(v, "a boolean"));
                },
            }
        }
        i = i + 1;
    }
    Ok((url, beta))
}

/// The package source that the entry `e` describes, or serde's error.
fn read_entry(e: &Json) -> (r: Result<RepoSource, String>)
    ensures
        match repo_entry_reading(*e) {
            Ok((u, b)) => r matches Ok(s) && s.url@ == u && s.beta == b,
            Err(d) => r matches Err(m) && m@ == d,
        },
{
    match e {
        Json::Object(es) => match read_members(es) {
            Err(d) => Err(d),
            Ok((None, _)) => Err(String::from_str("missing field `url`")),
            Ok((Some(u), b)) => Ok(
                RepoSource {
                    url: u,
                    beta: match b {
                        Some(x) => x,
                        None => false,
                    },
                },
            ),
        },
        Json::Array(xs) => {
            if xs.len() == 0 {
                return Err(String::from_str(
                    "invalid length 0, expected struct RepoSource with 2 elements",
                ));
            }
            let url = match &xs[0] {
                Json::Str(u) => u.clone(),
                _ => {
                    return Err(type_error_text(&xs[0], "a string"));
                },
            };
            let mut flag = false;
            if xs.len() >= 2 {
                match &xs[1] {
                    Json::Bool(b) => {
                        flag = *b;
                    },
                    _ => {
                        return Err(type_error_text(&xs[1], "a boolean"));
                    },
                }
            }
            if xs.len() > 2 {
                let mut m = String::from_str("invalid length ");
                m.append(decimal_text(xs.len()).as_str());
                m.append(", expected fewer elements in array");
                return Err(m);
            }
            Ok(RepoSource { url, beta: flag })
        },
        _ => Err(type_error_text(e, "struct RepoSource")),
    }
}

/// The package source that the service's parsed reply `root` names for
/// `arch` and `version`: none when it has no entry there; an API error when
/// the entry does not read as a source.
pub fn repo_source_from_json(root: &Json, arch: &str, version: &str) -> (r: Result<
    Option<RepoSource>,
    CatoolsError,
>)
    ensures
        repo_source_of(*root, arch@, version@, r),
{
    let node = match json_member(root, arch) {
        Some(n) => n,
        None => {
            return Ok(None);
        },
    };
    let entry = match json_member(node, version) {
        Some(e) => e,
        None => {
            return Ok(None);
        },
    };
    match read_entry(entry) {
        Ok(s) => Ok(Some(s)),
        Err(d) => {
            let mut m = String::from_str("解析软件源配置失败: ");
            m.append(d.as_str());
            Err(CatoolsError::ApiError(m))
        },
    }
}

/// The package source that the service's reply text `body` names for `arch`
/// and `version`: the text is parsed as JSON (a parse error is an API error
/// quoting it), then read as `repo_source_from_json` does.
pub fn repo_source_from_reply(body: &str, arch: &str, version: &str) -> (r: Result<
    Option<RepoSource>,
    CatoolsError,
>)
    ensures
        match json_parse(body@) {
            Ok(root) => repo_source_of(root, arch@, version@, r),
            Err(d) => r matches Err(CatoolsError::ApiError(m)) && m@ == repo_parse_message(d),
        },
{
    match parse_json(body) {
        Ok(root) => repo_source_from_json(&root, arch, version),
        Err(d) => {
            let mut m = String::from_str("解析软件源配置失败: ");
            m.append(d.as_str());
            Err(CatoolsError::ApiError(m))
        },
    }
}

} // verus!
