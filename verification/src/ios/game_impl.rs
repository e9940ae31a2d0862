//! The game's identity and Hachimi's data directory on iOS.
use vstd::prelude::*;

use crate::path::{join_path, path_join};

verus! {

/// The bundle identifier of the game on iOS.
pub const PACKAGE_NAME: &'static str = "jp.co.cygames.umamusume";

/// Home directory assumed when `HOME` is not set.
pub const DEFAULT_HOME: &'static str = "/var/mobile";

/// An optional string, taken by its view.
pub open spec fn opt_str_view(s: Option<&str>) -> Option<Seq<char>> {
    match s {
        Some(t) => Some(t@),
        None => None,
    }
}

/// Hachimi's directory inside the app's Documents directory, for the home
/// directory `home` (the default home when it is unknown).
pub open spec fn documents_dir(home: Option<Seq<char>>) -> Seq<char> {
    let h = match home {
        Some(h) => h,
        None => DEFAULT_HOME@,
    };
    path_join(path_join(h, "Documents"@), "hachimi"@)
}

/// The game's bundle identifier.
pub fn get_package_name() -> (r: String)
    ensures
        r@ == PACKAGE_NAME@,
{
    String::from_str(PACKAGE_NAME)
}

/// Hachimi's data directory, `<home>/Documents/hachimi`; `home` is the value
/// of `HOME`, if it is set. The package name plays no part on iOS.
pub fn get_data_dir(_package_name: &str, home: Option<&str>) -> (r: String)
    ensures
        r@ == documents_dir(opt_str_view(home)),
{
    let h = match home {
        Some(h) => h,
        None => DEFAULT_HOME,
    };
    let docs = join_path(h, "Documents");
    join_path(docs.as_str(), "hachimi")
}

} // verus!
