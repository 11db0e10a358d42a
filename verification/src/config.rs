//! Startup parameters. Built once before the server starts and read-only
//! afterwards; the core never changes a `Config`.

use vstd::prelude::*;

verus! {

/// The startup parameters every handler may read: the listening address and
/// the directories the font source scans.
pub struct Config {
    pub host: String,
    pub port: String,
    pub font_dirs: Vec<String>,
}

} // verus!
