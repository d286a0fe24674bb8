//! The configuration the tool runs under, and the path arithmetic around
//! it.  Reading the file and the environment is the caller's business;
//! everything here is a function of the values handed in.

use vstd::prelude::*;

verus! {

/// The whole configuration file.
pub struct Config {
    pub genius: GeniusConfig,
    pub database: DatabaseConfig,
}

/// The lyrics-provider section.
pub struct GeniusConfig {
    pub access_token: Option<String>,
}

/// The cache section.
pub struct DatabaseConfig {
    pub path: String,
}

/// A path with a leading `~/` rewritten to start at the home directory:
/// the tilde alone is replaced, the slash stays.
pub open spec fn expand_home_spec(path: Seq<char>, home: Seq<char>) -> Seq<char> {
    if path.len() >= 2 && path[0] == '~' && path[1] == '/' {
        home + path.subrange(1, path.len() as int)
    } else {
        path
    }
}

impl Config {
    /// The application directory, `.pb` under the home directory.
    pub fn get_app_dir(home: &str) -> (r: String)
        ensures
            r@ == home@ + "/.pb"@,
    {
        let mut r = String::new();
        r.append(home);
        r.append("/.pb");
        proof {
            assert(r@ =~= home@ + "/.pb"@);
        }
        r
    }

    /// The default configuration file, `config.toml` in the application
    /// directory.
    pub fn get_default_config_path(home: &str) -> (r: String)
        ensures
            r@ == home@ + "/.pb"@ + "/config.toml"@,
    {
        let mut r = Self::get_app_dir(home);
        r.append("/config.toml");
        r
    }

    /// The default database file, `playbot.db` in the application
    /// directory.
    pub fn get_default_db_path(home: &str) -> (r: String)
        ensures
            r@ == home@ + "/.pb"@ + "/playbot.db"@,
    {
        let mut r = Self::get_app_dir(home);
        r.append("/playbot.db");
        r
    }

    /// The database path with a leading `~/` expanded to the home
    /// directory; any other path is kept as it stands.
    pub fn expand_home(path: &str, home: &str) -> (r: String)
        ensures
            r@ == expand_home_spec(path@, home@),
    {
        let n = path.unicode_len();
        if n >= 2 && path.get_char(0) == '~' && path.get_char(1) == '/' {
            let mut r = String::new();
            r.append(home);
            let rest = path.substring_char(1, n);
            r.append(rest);
            r
        } else {
            path.to_owned()
        }
    }
}

} // verus!
