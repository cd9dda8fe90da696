//! The tool's settings and where they are kept.

use vstd::prelude::*;

use crate::error::CatoolsError;
use crate::text::{ends_with_str, views};

verus! {

/// The tool's settings.
pub struct Config {
    pub mirror_priority: Vec<String>,
    pub default_ip: String,
    pub beta_channel: bool,
    pub language: String,
}

impl Default for Config {
    /// Mirrors netlify, github, miaoer in that order; default address
    /// `192.168.1.4`; stable channel; language `zh_CN`.
    fn default() -> (c: Config)
        ensures
            views(c.mirror_priority@) == seq!["netlify"@, "github"@, "miaoer"@],
            c.default_ip@ == "192.168.1.4"@,
            !c.beta_channel,
            c.language@ == "zh_CN"@,
    {
        let mut m: Vec<String> = Vec::new();
        m.push(String::from_str("netlify"));
        m.push(String::from_str("github"));
        m.push(String::from_str("miaoer"));
        assert(views(m@) =~= seq!["netlify"@, "github"@, "miaoer"@]);
        Config {
            mirror_priority: m,
            default_ip: String::from_str("192.168.1.4"),
            beta_channel: false,
            language: String::from_str("zh_CN"),
        }
    }
}

/// `base` joined with the relative path `name` (`Path::join`): a `'/'` is put
/// between them unless `base` is empty or already ends with one.
pub open spec fn path_join(base: Seq<char>, name: Seq<char>) -> Seq<char> {
    if base.len() == 0 || base.last() == '/' {
        base + name
    } else {
        base + "/"@ + name
    }
}

/// `base` joined with the relative path `name`.
pub fn join_path(base: &str, name: &str) -> (r: String)
    ensures
        r@ == path_join(base@, name@),
{
    let mut r = String::from_str(base);
    let nonempty = base.unicode_len() > 0;
    let ends = ends_with_str(base, "/");
    proof {
        reveal_strlit("/");
        if base@.len() > 0 {
            assert(base@.skip(base@.len() - 1) =~= seq![base@.last()]);
            if ends {
                assert(base@.skip(base@.len() - 1)[0] == '/');
            }
            if base@.last() == '/' {
                assert(base@.skip(base@.len() - 1) =~= "/"@);
            }
        }
        assert(ends == (base@.len() > 0 && base@.last() == '/'));
    }
    if nonempty && !ends {
        r.append("/");
    }
    r.append(name);
    r
}

/// `base` joined with the path `name` as `Path::join` joins them: an
/// absolute `name` (starting with `'/'`) replaces `base`; a relative one is
/// put after it (`path_join`).
pub open spec fn path_push(base: Seq<char>, name: Seq<char>) -> Seq<char> {
    if name.len() > 0 && name[0] == '/' {
        name
    } else {
        path_join(base, name)
    }
}

/// `base` joined with the path `name` as `Path::join` joins them.
pub fn push_path(base: &str, name: &str) -> (r: String)
    ensures
        r@ == path_push(base@, name@),
{
    if name.unicode_len() > 0 && name.get_char(0) == '/' {
        String::from_str(name)
    } else {
        join_path(base, name)
    }
}

/// The message when the user's configuration directory is unknown.
pub open spec fn no_config_dir_message() -> Seq<char> {
    "Cannot find config directory"@
}

impl Config {
    /// The tool's own directory under the user's configuration directory
    /// `base`, if that is known.
    pub fn config_dir(base: Option<&str>) -> (r: Result<String, CatoolsError>)
        ensures
            base is None ==> (r matches Err(CatoolsError::ConfigError(m)) && m@
                == no_config_dir_message()),
            base matches Some(b) ==> (r matches Ok(d) && d@ == path_join(b@, "catools"@)),
    {
        match base {
            None => Err(CatoolsError::ConfigError(String::from_str("Cannot find config directory"))),
            Some(b) => Ok(join_path(b, "catools")),
        }
    }

    /// The settings file, `config.toml` in the tool's directory.
    pub fn config_file(base: Option<&str>) -> (r: Result<String, CatoolsError>)
        ensures
            base is None ==> (r matches Err(CatoolsError::ConfigError(m)) && m@
                == no_config_dir_message()),
            base matches Some(b) ==> (r matches Ok(f) && f@ == path_join(
                path_join(b@, "catools"@),
                "config.toml"@,
            )),
    {
        match Config::config_dir(base) {
            Err(e) => Err(e),
            Ok(d) => Ok(join_path(d.as_str(), "config.toml")),
        }
    }
}

} // verus!
