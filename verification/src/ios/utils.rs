//! Where Hachimi's log and configuration live on iOS.
use vstd::prelude::*;

use crate::ios::game_impl::{documents_dir, get_data_dir, opt_str_view};
use crate::path::{join_path, path_join};

verus! {

/// The log file, `hachimi.log` in the data directory.
pub fn get_log_path(home: Option<&str>) -> (r: String)
    ensures
        r@ == path_join(documents_dir(opt_str_view(home)), "hachimi.log"@),
{
    let dir = get_data_dir("", home);
    join_path(dir.as_str(), "hachimi.log")
}

/// The configuration file, `config.json` in the data directory.
pub fn get_config_path(home: Option<&str>) -> (r: String)
    ensures
        r@ == path_join(documents_dir(opt_str_view(home)), "config.json"@),
{
    let dir = get_data_dir("", home);
    join_path(dir.as_str(), "config.json")
}

} // verus!
