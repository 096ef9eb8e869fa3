//! Program identity and process-level directories.

use vstd::prelude::*;
use vstd::string::*;

use crate::provider::opt_view;
use crate::text::{begins, own, parts_of, same, split, starts_with, strs};

pub mod diag;
pub mod env;
pub mod fs;
pub mod paths;

verus! {

/// The command and brand name.
pub const NAME: &'static str = "iota";

/// The per-user directory under the home directory.
pub const DOT_DIR: &'static str = ".iota";

/// The config file stem.
pub const CONFIG_BASE: &'static str = ".iota";

/// Config file extensions in lookup order.
pub const CONFIG_EXTS: [&'static str; 2] = [".yaml", ".yml"];

/// `name` inside the directory `dir`: an absolute name stands alone, and one separator parts the two.
pub open spec fn path_join(dir: Seq<char>, name: Seq<char>) -> Seq<char> {
    if begins(name, "/"@) || dir.len() == 0 {
        name
    } else if dir.last() == '/' {
        dir + name
    } else {
        dir + "/"@ + name
    }
}

/// `name` inside the directory `dir`.
pub fn join_path(dir: &str, name: &str) -> (r: String)
    ensures
        r@ == path_join(dir@, name@),
{
    if starts_with(name, "/") || dir.is_empty() {
        return own(name);
    }
    let n: usize = dir.unicode_len();
    let mut r: String = own(dir);
    if dir.get_char(n - 1) != '/' {
        r.append("/");
    }
    r.append(name);
    r
}

/// The last part of a path that names something, from the `n`th part down: empty parts and `.` name nothing.
pub open spec fn last_named(parts: Seq<Seq<char>>, n: int) -> Option<Seq<char>>
    decreases n,
{
    if n <= 0 {
        None
    } else if parts[n - 1].len() == 0 || parts[n - 1] == "."@ {
        last_named(parts, n - 1)
    } else {
        Some(parts[n - 1])
    }
}

/// The file name of a path: its last part, unless that is `..`.
pub open spec fn name_in(path: Seq<char>) -> Option<Seq<char>> {
    let parts = parts_of(path, '/');
    match last_named(parts, parts.len() as int) {
        Some(p) => if p == ".."@ {
            None
        } else {
            Some(p)
        },
        None => None,
    }
}

/// The file name of a path.
pub fn file_name(path: &str) -> (r: Option<String>)
    ensures
        opt_view(r) == name_in(path@),
{
    let parts: Vec<String> = split(path, '/');
    let ghost all = strs(parts@);
    let mut n: usize = parts.len();
    while n > 0
        invariant
            n <= parts.len(),
            all == strs(parts@),
            all == parts_of(path@, '/'),
            last_named(all, all.len() as int) == last_named(all, n as int),
        decreases n,
    {
        assert(all[n - 1] == parts@[n - 1]@);
        let part: &str = parts[n - 1].as_str();
        if !part.is_empty() && !same(part, ".") {
            return if same(part, "..") {
                None
            } else {
                Some(own(part))
            };
        }
        n -= 1;
    }
    None
}

/// Process-level directories, resolved once at the edge of the program and handed to everything below it.
pub struct HostDirs {
    /// The home directory; `None` when unset or empty.
    pub home: Option<String>,
    /// The working directory; `None` when unavailable.
    pub cwd: Option<String>,
    /// The directory for temporary files.
    pub temp: String,
    /// The directory for cached files; `None` when there is none.
    pub cache: Option<String>,
}

/// The families of platforms that place their cache differently.
#[derive(Clone, Copy, Debug, PartialEq, Eq, Structural)]
pub enum Platform {
    MacOs,
    Unix,
    Other,
}

/// The home directory of a home variable: none when it is unset or empty.
pub open spec fn home_of(var: Option<Seq<char>>) -> Option<Seq<char>> {
    match var {
        Some(v) => if v.len() == 0 {
            None
        } else {
            Some(v)
        },
        None => None,
    }
}

/// The cache directory: `home/Library/Caches` on macOS; on another Unix the XDG variable when it is absolute,
/// else `home/.cache`; none elsewhere.
pub open spec fn cache_of(
    platform: Platform,
    home: Option<Seq<char>>,
    xdg: Option<Seq<char>>,
) -> Option<Seq<char>> {
    match platform {
        Platform::MacOs => match home {
            Some(h) => Some(path_join(path_join(h, "Library"@), "Caches"@)),
            None => None,
        },
        Platform::Unix => if xdg is Some && begins(xdg->0, "/"@) {
            xdg
        } else {
            match home {
                Some(h) => Some(path_join(h, ".cache"@)),
                None => None,
            }
        },
        Platform::Other => None,
    }
}

/// The directory for temporary files: on Unix the variable when it is set and not empty, else `/tmp`; the
/// platform's own elsewhere.
pub open spec fn temp_of(
    platform: Platform,
    tmpdir: Option<Seq<char>>,
    default: Seq<char>,
) -> Seq<char> {
    if platform == Platform::Other {
        default
    } else if tmpdir is Some && tmpdir->0.len() > 0 {
        tmpdir->0
    } else {
        "/tmp"@
    }
}

/// The home directory of a home variable.
pub fn user_home(var: Option<String>) -> (r: Option<String>)
    ensures
        opt_view(r) == home_of(opt_view(var)),
{
    match var {
        Some(v) => if v.as_str().is_empty() {
            None
        } else {
            Some(v)
        },
        None => None,
    }
}

/// The cache directory of a platform, given the home directory and the value of `XDG_CACHE_HOME`.
pub fn cache_dir(platform: Platform, home: &Option<String>, xdg: Option<String>) -> (r: Option<
    String,
>)
    ensures
        opt_view(r) == cache_of(platform, opt_view(*home), opt_view(xdg)),
{
    match platform {
        Platform::MacOs => match home {
            Some(h) => Some(join_path(join_path(h.as_str(), "Library").as_str(), "Caches")),
            None => None,
        },
        Platform::Unix => {
            if let Some(x) = xdg {
                if starts_with(x.as_str(), "/") {
                    return Some(x);
                }
            }
            match home {
                Some(h) => Some(join_path(h.as_str(), ".cache")),
                None => None,
            }
        },
        Platform::Other => None,
    }
}

/// The directory for temporary files, given the value of `TMPDIR` and the platform's own choice.
pub fn temp_dir(platform: Platform, tmpdir: Option<String>, default: &str) -> (r: String)
    ensures
        r@ == temp_of(platform, opt_view(tmpdir), default@),
{
    match platform {
        Platform::Other => own(default),
        _ => match tmpdir {
            Some(t) => if t.as_str().is_empty() {
                own("/tmp")
            } else {
                t
            },
            None => own("/tmp"),
        },
    }
}

impl Default for HostDirs {
    /// No directory at all.
    fn default() -> (r: HostDirs)
        ensures
            r.home is None,
            r.cwd is None,
            r.temp@.len() == 0,
            r.cache is None,
    {
        HostDirs { home: None, cwd: None, temp: String::new(), cache: None }
    }
}

impl HostDirs {
    /// The directories, from the variables of the environment (home, `XDG_CACHE_HOME`, `TMPDIR`), the working
    /// directory and the platform's own directory for temporary files.
    pub fn resolve(
        platform: Platform,
        home: Option<String>,
        xdg: Option<String>,
        tmpdir: Option<String>,
        cwd: Option<String>,
        default_temp: &str,
    ) -> (r: HostDirs)
        ensures
            opt_view(r.home) == home_of(opt_view(home)),
            opt_view(r.cache) == cache_of(platform, home_of(opt_view(home)), opt_view(xdg)),
            opt_view(r.cwd) == opt_view(cwd),
            r.temp@ == temp_of(platform, opt_view(tmpdir), default_temp@),
    {
        let home: Option<String> = user_home(home);
        let cache: Option<String> = cache_dir(platform, &home, xdg);
        HostDirs { home, cwd, temp: temp_dir(platform, tmpdir, default_temp), cache }
    }

    /// `<home>/.iota`.
    pub fn app_home(&self) -> (r: Option<String>)
        ensures
            opt_view(r) == match self.home {
                Some(h) => Some(path_join(h@, DOT_DIR@)),
                None => None,
            },
    {
        match &self.home {
            Some(h) => Some(join_path(h.as_str(), DOT_DIR)),
            None => None,
        }
    }

    /// `<home>/.iota/images`.
    pub fn images_dir(&self) -> (r: Option<String>)
        ensures
            opt_view(r) == match self.home {
                Some(h) => Some(path_join(path_join(h@, DOT_DIR@), "images"@)),
                None => None,
            },
    {
        match self.app_home() {
            Some(h) => Some(join_path(h.as_str(), "images")),
            None => None,
        }
    }

    /// A copy of the directories.
    pub fn copy(&self) -> (r: HostDirs)
        ensures
            r == *self,
    {
        HostDirs {
            home: self.home.clone(),
            cwd: self.cwd.clone(),
            temp: self.temp.clone(),
            cache: self.cache.clone(),
        }
    }
}

} // verus!
