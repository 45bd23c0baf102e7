//! The fixed surface of the site: where it listens and where its static
//! files lie.

use vstd::prelude::*;

verus! {

/// The port that the site listens on, on every interface.
pub const PORT: u16 = 9999;

/// The address that the site binds: every interface of the machine.
pub const BIND_ADDRESS: [u8; 4] = [0, 0, 0, 0];

/// The path under which the static files are served.
pub const ASSETS_PATH: &'static str = "/assets";

/// The file that is served in place of a static file that does not exist.
pub const FALLBACK_FILE: &'static str = "index.html";

/// The directory of the static files: `assets` under the directory that the
/// server was started in.
pub fn assets_dir(working_dir: &str) -> (dir: String)
    ensures
        dir@ == working_dir@ + ASSETS_PATH@,
{
    let mut dir = working_dir.to_owned();
    dir.append(ASSETS_PATH);
    dir
}

/// The full name of the fallback file in the directory of the static files.
pub fn fallback_file(assets_dir: &str) -> (file: String)
    ensures
        file@ == assets_dir@ + "/"@ + FALLBACK_FILE@,
{
    let mut file = assets_dir.to_owned();
    file.append("/");
    file.append(FALLBACK_FILE);
    file
}

} // verus!
