//! Runtime configuration of the service.

use vstd::prelude::*;
use vstd::string::*;

verus! {

/// The command-line options.
#[derive(Clone, Debug)]
pub struct Cli {
    /// Probe the local health endpoint and exit.
    pub healthcheck: bool,
    /// Address to bind.
    pub host: String,
    /// TCP port to bind.
    pub port: u16,
    /// Authentication token; takes precedence over `FILM_RECORD_TOKEN`.
    pub token: Option<String>,
    /// SQLite database file.
    pub db: Option<String>,
}

/// The settings the service runs with.
#[derive(Clone, Debug)]
pub struct Config {
    pub host: String,
    pub port: u16,
    pub token: String,
    pub db_path: String,
}

/// The database file used when none is given.
pub open spec fn default_db_path() -> Seq<char> {
    "data/films.db"@
}

/// The token that applies: the command-line one unless it is absent or empty,
/// else the one from the environment.
pub open spec fn chosen_token(cli_token: Option<String>, env_token: Option<String>) -> Option<
    Seq<char>,
> {
    match cli_token {
        Some(t) if t@.len() > 0 => Some(t@),
        _ => match env_token {
            Some(t) => Some(t@),
            None => None,
        },
    }
}

/// The token the service accepts, or the message it stops with: a token is
/// required, and it must have at least 8 characters (counted as Unicode scalar
/// values).
pub open spec fn token_outcome(cli_token: Option<String>, env_token: Option<String>) -> Result<
    Seq<char>,
    Seq<char>,
> {
    match chosen_token(cli_token, env_token) {
        None => Err("Authentication token required. Set --token or FILM_RECORD_TOKEN."@),
        Some(t) => if t.len() < 8 {
            Err("Token too weak. Minimum 8 characters required."@)
        } else {
            Ok(t)
        },
    }
}

/// The database file: the given one, else `data/films.db`.
pub open spec fn db_path_of(db: Option<String>) -> Seq<char> {
    match db {
        Some(d) => d@,
        None => default_db_path(),
    }
}

/// The shortest token accepted, in characters.
pub const MIN_TOKEN_CHARS: usize = 8;

impl Config {
    /// Builds the configuration from the command line and the value of the
    /// `FILM_RECORD_TOKEN` environment variable (`None` when it is unset or not
    /// Unicode). A token is required and must have at least 8 characters.
    pub fn from_cli(cli: Cli, env_token: Option<String>) -> (r: Result<Config, String>)
        ensures
            r is Ok <==> token_outcome(cli.token, env_token) is Ok,
            r matches Err(e) ==> token_outcome(cli.token, env_token) == Err::<Seq<char>, Seq<char>>(
                e@,
            ),
            r matches Ok(c) ==> {
                &&& token_outcome(cli.token, env_token) == Ok::<Seq<char>, Seq<char>>(c.token@)
                &&& c.host == cli.host
                &&& c.port == cli.port
                &&& c.db_path@ == db_path_of(cli.db)
            },
    {
        let token = match cli.token {
            Some(value) if value.as_str().unicode_len() > 0 => value,
            _ => match env_token {
                Some(value) => value,
                None => {
                    return Err(
                        String::from_str(
                            "Authentication token required. Set --token or FILM_RECORD_TOKEN.",
                        ),
                    );
                },
            },
        };
        if token.as_str().unicode_len() < MIN_TOKEN_CHARS {
            return Err(String::from_str("Token too weak. Minimum 8 characters required."));
        }
        let db_path = match cli.db {
            Some(d) => d,
            None => String::from_str("data/films.db"),
        };
        Ok(Config { host: cli.host, port: cli.port, token, db_path })
    }
}

} // verus!
