//! The server's settings and where they are read from.

use vstd::prelude::*;
use vstd::string::*;

verus! {

/// The settings file read when no path is given on the command line.
pub open spec fn default_config_location() -> Seq<char> {
    "example.json"@
}

/// The settings of the server: the content root, the database, the secret that
/// signs session tokens, and the administrator created at start-up.
#[derive(Debug)]
pub struct Vault {
    pub root: String,
    pub database_url: String,
    pub jwt_secret: String,
    pub username: String,
    pub password: String,
}

/// The settings file to read: the first command-line argument after the
/// program name, or `example.json` when there is none.
pub fn config_location(args: &Vec<String>) -> (location: String)
    ensures
        args.len() > 1 ==> location@ == args[1]@,
        args.len() <= 1 ==> location@ == default_config_location(),
{
    if args.len() > 1 {
        args[1].clone()
    } else {
        String::from_str("example.json")
    }
}

} // verus!
