//! The fixed places of the site: where it listens, and where it keeps its
//! database, its templates and its static files.

use vstd::prelude::*;

verus! {

/// The file that holds the database.
pub const DATABASE_FILE: &'static str = "rocket.db";

/// The pattern of the template files that are loaded at startup.
pub const TEMPLATE_FILES: &'static str = "templates/**/*.html";

/// The address that the site listens on.
pub const BIND_ADDRESS: &'static str = "127.0.0.1";

/// The port that the site listens on.
pub const BIND_PORT: u16 = 8000;

/// The path under which static files are served.
pub const STATIC_PATH: &'static str = "/static";

/// The directory that holds the static files.
pub const STATIC_DIRECTORY: &'static str = "static";

} // verus!
