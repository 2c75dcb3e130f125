//! Where the application keeps its files. The directory is fixed once,
//! when the application starts, and handed to whatever needs a path.
//! Paths are written with `/` between their parts, which every supported
//! platform accepts.

use crate::text::{joined, texts};
use vstd::prelude::*;

verus! {

/// The application's private data directory.
#[derive(Debug)]
pub struct AppDirs {
    root: String,
}

impl View for AppDirs {
    type V = Seq<char>;

    closed spec fn view(&self) -> Seq<char> {
        self.root@
    }
}

/// The path of `name` inside the directory `dir`.
pub open spec fn child(dir: Seq<char>, name: Seq<char>) -> Seq<char> {
    dir + "/"@ + name
}

/// The directories that have to exist before anything is stored: the
/// data directory itself, the one reserved for the agent and the one
/// reserved for configuration.
pub open spec fn required_directories(dir: Seq<char>) -> Seq<Seq<char>> {
    seq![dir, child(dir, "frpc"@), child(dir, "config"@)]
}

impl AppDirs {
    /// The layout under the data directory `root`.
    pub fn new(root: String) -> (r: AppDirs)
        ensures
            r@ == root@,
    {
        AppDirs { root }
    }

    /// The path of `name` inside the data directory.
    pub fn path_of(&self, name: &str) -> (r: String)
        ensures
            r@ == child(self@, name@),
    {
        joined(self.root.as_str(), "/").concat(name)
    }

    /// The directories that have to exist before anything is stored.
    pub fn directories(&self) -> (r: Vec<String>)
        ensures
            texts(r@) == required_directories(self@),
    {
        let mut dirs: Vec<String> = Vec::new();
        dirs.push(self.root.clone());
        dirs.push(self.path_of("frpc"));
        dirs.push(self.path_of("config"));
        assert(texts(dirs@) =~= required_directories(self@));
        dirs
    }
}

/// The application's data directory.
pub fn get_app_dir(dirs: &AppDirs) -> (r: String)
    ensures
        r@ == dirs@,
{
    dirs.root.clone()
}

/// The path of the configuration document, `config.json` in the data
/// directory. It never fails.
pub fn get_config_path(dirs: &AppDirs) -> (r: Result<String, String>)
    ensures
        r matches Ok(path) && path@ == child(dirs@, "config.json"@),
{
    Ok(dirs.path_of("config.json"))
}

} // verus!
