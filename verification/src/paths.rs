//! Where the config file and the themes directory live.
//!
//! Paths are strings here. Joining a relative component follows
//! `PathBuf::push`: a separator goes between the parts unless the base is
//! empty or already ends with one; on Windows the separator is `\`, `/`
//! counts as one too, and none follows a bare drive such as `C:`.

use vstd::prelude::*;
use crate::config::read::cat;
use crate::text::{chars_of, owned};

verus! {

/// The platform whose directory layout applies.
#[derive(Debug, Clone, Copy, PartialEq, Eq)]
pub enum Platform {
    /// `$XDG_CONFIG_HOME/tuicr`, else `$HOME/.config/tuicr`.
    Unix,
    /// `%APPDATA%\tuicr`.
    Windows,
}

/// Why no config directory can be named.
#[derive(Debug, Clone, Copy, PartialEq, Eq)]
pub enum ConfigDirError {
    /// Neither `XDG_CONFIG_HOME` nor `HOME` is set to a non-empty path.
    NoHome,
    /// `APPDATA` is not set to a non-empty path.
    NoAppData,
}

/// `base` joined with the relative component `part`, on Unix.
pub open spec fn join(base: Seq<char>, part: Seq<char>) -> Seq<char> {
    if base.len() == 0 || base.last() == '/' {
        base + part
    } else {
        base + "/"@ + part
    }
}

/// Joins the relative component `part` onto `base`, on Unix.
pub fn join_path(base: &str, part: &str) -> (r: String)
    ensures
        r@ == join(base@, part@),
{
    let chars = chars_of(base);
    let n = chars.len();
    if n == 0 || chars[n - 1] == '/' {
        cat(owned(base), part)
    } else {
        cat(cat(owned(base), "/"), part)
    }
}

/// A bare drive prefix such as `C:`.
pub open spec fn is_drive(base: Seq<char>) -> bool {
    &&& base.len() == 2
    &&& base[1] == ':'
    &&& ('a' <= base[0] <= 'z' || 'A' <= base[0] <= 'Z')
}

/// A verbatim path: one that starts with `\\?\`. Only `\` separates its
/// components.
pub open spec fn is_verbatim(base: Seq<char>) -> bool {
    &&& base.len() >= 4
    &&& base[0] == '\\'
    &&& base[1] == '\\'
    &&& base[2] == '?'
    &&& base[3] == '\\'
}

/// A bare verbatim drive prefix such as `\\?\C:`.
pub open spec fn is_verbatim_drive(base: Seq<char>) -> bool {
    is_verbatim(base) && is_drive(base.subrange(4, base.len() as int))
}

/// `base` joined with the relative component `part`, on Windows. No `\` is
/// put in after an empty base, a base that ends in a separator (`\`, or `/`
/// outside a verbatim path), or a bare drive, verbatim or not.
pub open spec fn windows_join(base: Seq<char>, part: Seq<char>) -> Seq<char> {
    if base.len() == 0 || base.last() == '\\' || is_drive(base) || is_verbatim_drive(base) || (
    !is_verbatim(base) && base.last() == '/') {
        base + part
    } else {
        base + "\\"@ + part
    }
}

fn is_letter(c: char) -> (r: bool)
    ensures
        r == ('a' <= c <= 'z' || 'A' <= c <= 'Z'),
{
    ('a' <= c && c <= 'z') || ('A' <= c && c <= 'Z')
}

/// Joins the relative component `part` onto `base`, on Windows.
pub fn windows_join_path(base: &str, part: &str) -> (r: String)
    ensures
        r@ == windows_join(base@, part@),
{
    let chars = chars_of(base);
    let n = chars.len();
    let drive = n == 2 && chars[1] == ':' && is_letter(chars[0]);
    let verbatim = n >= 4 && chars[0] == '\\' && chars[1] == '\\' && chars[2] == '?' && chars[3] == '\\';
    let verbatim_drive = verbatim && n == 6 && chars[5] == ':' && is_letter(chars[4]);
    proof {
        let rest = base@.subrange(4, base@.len() as int);
        if verbatim {
            assert(rest.len() == n - 4);
            if n == 6 {
                assert(rest[0] == chars@[4] && rest[1] == chars@[5]);
            }
        }
    }
    if n == 0 || chars[n - 1] == '\\' || drive || verbatim_drive || (!verbatim && chars[n - 1] == '/') {
        cat(owned(base), part)
    } else {
        cat(cat(owned(base), "\\"), part)
    }
}

/// `base` joined with `part` on `platform`.
pub open spec fn platform_join(platform: Platform, base: Seq<char>, part: Seq<char>) -> Seq<char> {
    match platform {
        Platform::Unix => join(base, part),
        Platform::Windows => windows_join(base, part),
    }
}

/// Joins `part` onto `base` on `platform`.
pub fn platform_join_path(platform: Platform, base: &str, part: &str) -> (r: String)
    ensures
        r@ == platform_join(platform, base@, part@),
{
    match platform {
        Platform::Unix => join_path(base, part),
        Platform::Windows => windows_join_path(base, part),
    }
}

/// A path that is set and not empty.
pub open spec fn usable(p: Option<String>) -> bool {
    p matches Some(s) && s@.len() > 0
}

/// The Unix config directory: `$XDG_CONFIG_HOME/tuicr` where that is set and
/// not empty, else `$HOME/.config/tuicr` where that is, else no directory.
pub open spec fn unix_config_dir(xdg_config_home: Option<String>, home: Option<String>) -> Result<Seq<char>, ConfigDirError> {
    if usable(xdg_config_home) {
        Ok(join(xdg_config_home.unwrap()@, "tuicr"@))
    } else if usable(home) {
        Ok(join(join(home.unwrap()@, ".config"@), "tuicr"@))
    } else {
        Err(ConfigDirError::NoHome)
    }
}

/// The Windows config directory: `%APPDATA%\tuicr` where that is set and
/// not empty, else no directory.
pub open spec fn windows_config_dir(appdata: Option<String>) -> Result<Seq<char>, ConfigDirError> {
    if usable(appdata) {
        Ok(windows_join(appdata.unwrap()@, "tuicr"@))
    } else {
        Err(ConfigDirError::NoAppData)
    }
}

/// The config directory on `platform` for the given `XDG_CONFIG_HOME`,
/// `HOME` and `APPDATA` values; Unix reads the first two, Windows the last.
pub open spec fn config_dir_spec(
    platform: Platform,
    xdg_config_home: Option<String>,
    home: Option<String>,
    appdata: Option<String>,
) -> Result<Seq<char>, ConfigDirError> {
    match platform {
        Platform::Unix => unix_config_dir(xdg_config_home, home),
        Platform::Windows => windows_config_dir(appdata),
    }
}

/// `XDG_CONFIG_HOME`, where set and not empty, decides the config directory
/// whatever `HOME` is; set but empty, it counts as unset.
pub proof fn lemma_xdg_precedence(xdg: String, home: Option<String>, other_home: Option<String>)
    ensures
        xdg@.len() > 0 ==> unix_config_dir(Some(xdg), home) == unix_config_dir(Some(xdg), other_home),
        xdg@.len() == 0 ==> unix_config_dir(Some(xdg), home) == unix_config_dir(None, home),
{
}

/// On Unix the config directory is always a directory named `tuicr`; the
/// config file is `config.toml` inside it and the themes directory `themes`
/// beside that.
pub proof fn lemma_config_dir_layout(xdg_config_home: Option<String>, home: Option<String>)
    ensures
        unix_config_dir(xdg_config_home, home) matches Ok(d) ==> {
            &&& d.len() >= 6
            &&& d.subrange(d.len() - 6, d.len() as int) == "/tuicr"@
            &&& join(d, "config.toml"@) == d + "/config.toml"@
            &&& join(d, "themes"@) == d + "/themes"@
        },
{
    reveal_strlit("tuicr");
    reveal_strlit("/tuicr");
    reveal_strlit("/");
    reveal_strlit("/config.toml");
    reveal_strlit("config.toml");
    reveal_strlit("themes");
    reveal_strlit("/themes");
    if let Ok(d) = unix_config_dir(xdg_config_home, home) {
        let base = if usable(xdg_config_home) {
            xdg_config_home.unwrap()@
        } else {
            join(home.unwrap()@, ".config"@)
        };
        assert(d == join(base, "tuicr"@));
        assert(d.last() == 'r');
        assert(d.subrange(d.len() - 6, d.len() as int) =~= "/tuicr"@) by {
            if base.len() == 0 {
                assert(false);
            } else if base.last() == '/' {
                assert(d =~= base + "tuicr"@);
                assert(d[d.len() - 6] == base.last());
            } else {
                assert(d =~= base + "/"@ + "tuicr"@);
            }
        }
        assert(join(d, "config.toml"@) =~= d + "/config.toml"@);
        assert(join(d, "themes"@) =~= d + "/themes"@);
    }
}

/// On Windows the config directory is `tuicr` under `APPDATA`, whatever
/// `XDG_CONFIG_HOME` and `HOME` are; the config file and the themes directory
/// sit inside it behind a `\`.
pub proof fn lemma_windows_dir_layout(xdg_config_home: Option<String>, home: Option<String>, appdata: Option<String>)
    ensures
        config_dir_spec(Platform::Windows, xdg_config_home, home, appdata) == windows_config_dir(appdata),
        windows_config_dir(appdata) matches Ok(d) ==> {
            &&& d.len() >= 5
            &&& d.subrange(d.len() - 5, d.len() as int) == "tuicr"@
            &&& windows_join(d, "config.toml"@) == d + "\\config.toml"@
            &&& windows_join(d, "themes"@) == d + "\\themes"@
        },
{
    reveal_strlit("tuicr");
    reveal_strlit("\\");
    reveal_strlit("config.toml");
    reveal_strlit("\\config.toml");
    reveal_strlit("themes");
    reveal_strlit("\\themes");
    if let Ok(d) = windows_config_dir(appdata) {
        let base = appdata.unwrap()@;
        assert(d.subrange(d.len() - 5, d.len() as int) =~= "tuicr"@) by {
            if base.len() == 0 || base.last() == '\\' || is_drive(base) || is_verbatim_drive(base) || (
            !is_verbatim(base) && base.last() == '/') {
                assert(d =~= base + "tuicr"@);
            } else {
                assert(d =~= base + "\\"@ + "tuicr"@);
            }
        }
        assert(d.last() == 'r');
        assert(!is_drive(d));
        assert(!is_verbatim_drive(d)) by {
            if is_verbatim(d) && d.len() == 6 {
                assert(d.subrange(4, 6)[1] == d.last());
            }
        }
        assert(windows_join(d, "config.toml"@) =~= d + "\\config.toml"@);
        assert(windows_join(d, "themes"@) =~= d + "\\themes"@);
    }
}

/// The Unix config directory for the given `XDG_CONFIG_HOME` and `HOME`.
pub fn unix_config_dir_from_parts(xdg_config_home: &Option<String>, home: &Option<String>) -> (r: Result<String, ConfigDirError>)
    ensures
        match unix_config_dir(*xdg_config_home, *home) {
            Ok(d) => r matches Ok(s) && s@ == d,
            Err(e) => r == Err::<String, ConfigDirError>(e),
        },
{
    if let Some(base) = xdg_config_home {
        if base.as_str().unicode_len() > 0 {
            return Ok(join_path(base.as_str(), "tuicr"));
        }
    }
    match home {
        Some(h) => {
            if h.as_str().unicode_len() > 0 {
                Ok(join_path(join_path(h.as_str(), ".config").as_str(), "tuicr"))
            } else {
                Err(ConfigDirError::NoHome)
            }
        },
        None => Err(ConfigDirError::NoHome),
    }
}

/// The Windows config directory for the given `APPDATA`.
pub fn windows_config_dir_from_parts(appdata: &Option<String>) -> (r: Result<String, ConfigDirError>)
    ensures
        match windows_config_dir(*appdata) {
            Ok(d) => r matches Ok(s) && s@ == d,
            Err(e) => r == Err::<String, ConfigDirError>(e),
        },
{
    match appdata {
        Some(a) => {
            if a.as_str().unicode_len() > 0 {
                Ok(windows_join_path(a.as_str(), "tuicr"))
            } else {
                Err(ConfigDirError::NoAppData)
            }
        },
        None => Err(ConfigDirError::NoAppData),
    }
}

/// The config directory on `platform` for the given `XDG_CONFIG_HOME`,
/// `HOME` and `APPDATA` values: Unix reads the first two, Windows the last.
pub fn config_dir_from_parts(
    xdg_config_home: Option<String>,
    home: Option<String>,
    appdata: Option<String>,
    platform: Platform,
) -> (r: Result<String, ConfigDirError>)
    ensures
        match config_dir_spec(platform, xdg_config_home, home, appdata) {
            Ok(d) => r matches Ok(s) && s@ == d,
            Err(e) => r == Err::<String, ConfigDirError>(e),
        },
{
    match platform {
        Platform::Unix => unix_config_dir_from_parts(&xdg_config_home, &home),
        Platform::Windows => windows_config_dir_from_parts(&appdata),
    }
}

/// The config file: `config.toml` in the config directory.
pub fn config_path_from_parts(
    xdg_config_home: Option<String>,
    home: Option<String>,
    appdata: Option<String>,
    platform: Platform,
) -> (r: Result<String, ConfigDirError>)
    ensures
        match config_dir_spec(platform, xdg_config_home, home, appdata) {
            Ok(d) => r matches Ok(s) && s@ == platform_join(platform, d, "config.toml"@),
            Err(e) => r == Err::<String, ConfigDirError>(e),
        },
{
    match config_dir_from_parts(xdg_config_home, home, appdata, platform) {
        Ok(dir) => Ok(platform_join_path(platform, dir.as_str(), "config.toml")),
        Err(e) => Err(e),
    }
}

/// The themes directory: `themes` in the config directory.
pub fn themes_dir_from_parts(
    xdg_config_home: Option<String>,
    home: Option<String>,
    appdata: Option<String>,
    platform: Platform,
) -> (r: Result<String, ConfigDirError>)
    ensures
        match config_dir_spec(platform, xdg_config_home, home, appdata) {
            Ok(d) => r matches Ok(s) && s@ == platform_join(platform, d, "themes"@),
            Err(e) => r == Err::<String, ConfigDirError>(e),
        },
{
    match config_dir_from_parts(xdg_config_home, home, appdata, platform) {
        Ok(dir) => Ok(platform_join_path(platform, dir.as_str(), "themes")),
        Err(e) => Err(e),
    }
}

} // verus!
