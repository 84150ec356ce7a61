//! The program's arguments and the defaults that apply when one is absent.

use vstd::prelude::*;

verus! {

/// The port served on when none is given.
pub const DEFAULT_PORT: u16 = 8080;

/// The arguments of the server program.
#[derive(Debug, Clone)]
pub struct ProgramArgs {
    /// The port to serve on.
    pub port: Option<u16>,
    /// The directory to serve static files from.
    pub static_dir: Option<String>,
    /// The URL of the database.
    pub database_url: Option<String>,
    /// A super user to create, as a name and a password separated by a colon.
    pub create_super_user: Option<String>,
    /// The logging verbosity.
    pub verbosity: Option<String>,
}

impl ProgramArgs {
    /// The port given, or `DEFAULT_PORT`.
    pub fn port_or_default(&self) -> (r: u16)
        ensures
            r == match self.port {
                Some(p) => p,
                None => DEFAULT_PORT,
            },
    {
        match self.port {
            Some(p) => p,
            None => DEFAULT_PORT,
        }
    }

    /// The static directory given, or `../static`.
    pub fn static_dir_or_default(&self) -> (r: String)
        ensures
            r@ == match self.static_dir {
                Some(d) => d@,
                None => "../static"@,
            },
    {
        match &self.static_dir {
            Some(d) => d.clone(),
            None => "../static".to_owned(),
        }
    }
}

} // verus!
