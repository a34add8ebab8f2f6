//! Filesystem command support: access scope and path joining.
//!
//! The filesystem commands operate on paths the webview supplies.  When an
//! [`AllowPaths`] scope is configured, a command touches a path only if it
//! lies under one of the allowed prefixes; without a scope every path is
//! accessible.  A path argument may name a well-known base directory; the
//! embedding host resolves the base directory to a concrete path (that answer
//! depends on the machine and its environment), and [`join_path_if_need`]
//! joins the two.

use vstd::prelude::*;
use vstd::string::*;

use crate::strutil::str_eq;

verus! {

/// An error a command surfaces to the webview.
#[derive(Debug)]
pub enum ApiError {
    /// The path lies outside the configured access scope.
    NotPermittedPath,
    /// The host reported an input/output failure, with its message.
    Io(String),
}

impl ApiError {
    /// A human-readable message for the error.
    pub fn message(&self) -> (r: String)
        ensures
            self is NotPermittedPath ==> r@ == "not permitted path"@,
            self matches ApiError::Io(m) ==> r@ == m@,
    {
        match self {
            ApiError::NotPermittedPath => "not permitted path".to_owned(),
            ApiError::Io(m) => m.clone(),
        }
    }
}

/// Whether `prefix` is a path prefix of `path`: equal, or followed in `path`
/// by a `/`-separated remainder.
pub open spec fn spec_path_has_prefix(path: Seq<char>, prefix: Seq<char>) -> bool {
    path == prefix || (prefix.len() < path.len() && path.subrange(0, prefix.len() as int)
        == prefix && path[prefix.len() as int] == '/')
}

/// Whether a path is accessible under a list of allowed prefixes.
pub open spec fn spec_accessible(allows: Seq<Seq<char>>, path: Seq<char>) -> bool {
    exists|i: int| 0 <= i < allows.len() && spec_path_has_prefix(path, allows[i])
}

/// Decides whether `prefix` is a path prefix of `path`.
pub fn path_has_prefix(path: &str, prefix: &str) -> (r: bool)
    ensures
        r == spec_path_has_prefix(path@, prefix@),
{
    if str_eq(path, prefix) {
        return true;
    }
    let n = path.unicode_len();
    let p = prefix.unicode_len();
    if p < n {
        let head = path.substring_char(0, p);
        str_eq(head, prefix) && path.get_char(p) == '/'
    } else {
        false
    }
}

/// The paths accessible to the filesystem commands.
///
/// When no scope is configured at all, the commands may access every path.
pub struct AllowPaths {
    allows: Vec<String>,
}

impl View for AllowPaths {
    type V = Seq<Seq<char>>;

    closed spec fn view(&self) -> Seq<Seq<char>> {
        self.allows.deep_view()
    }
}

impl AllowPaths {
    /// Creates a scope from a list of allowed path prefixes.
    pub fn new(allows: Vec<String>) -> (r: Self)
        ensures
            r@ == allows.deep_view(),
    {
        AllowPaths { allows }
    }

    /// Adds a path that allows access to the file system.
    pub fn add(&mut self, path: String)
        ensures
            final(self)@ == old(self)@.push(path@),
    {
        self.allows.push(path);
        proof {
            assert(final(self)@ =~= old(self)@.push(path@));
        }
    }

    /// Adds paths that allow access to the file system.
    pub fn add_all(&mut self, paths: Vec<String>)
        ensures
            final(self)@ == old(self)@ + paths.deep_view(),
    {
        let mut i: usize = 0;
        while i < paths.len()
            invariant
                i <= paths.len(),
                self.allows@ == old(self).allows@ + paths@.subrange(0, i as int),
            decreases paths.len() - i,
        {
            self.allows.push(paths[i].clone());
            proof {
                assert(self.allows@ =~= old(self).allows@ + paths@.subrange(0, i + 1));
            }
            i += 1;
        }
        proof {
            assert(paths@.subrange(0, paths@.len() as int) =~= paths@);
            assert forall|k: int|
                0 <= k < self.allows@.len() implies self.allows.deep_view()[k] == (old(self)@
                + paths.deep_view())[k] by {
                assert(self.allows.deep_view()[k] == self.allows@[k]@);
                if k < old(self).allows@.len() {
                    assert(self.allows@[k] == old(self).allows@[k]);
                    assert(old(self)@[k] == old(self).allows@[k]@);
                } else {
                    let m = k - old(self).allows@.len();
                    assert(self.allows@[k] == paths@[m]);
                    assert(paths.deep_view()[m] == paths@[m]@);
                }
            };
            assert(final(self)@ =~= old(self)@ + paths.deep_view());
        }
    }

    /// Whether a path lies under one of the allowed prefixes.
    pub fn check_accessible(&self, path: &str) -> (r: bool)
        ensures
            r == spec_accessible(self@, path@),
    {
        let mut i: usize = 0;
        while i < self.allows.len()
            invariant
                i <= self.allows.len(),
                self@ == self.allows.deep_view(),
                self@.len() == self.allows@.len(),
                forall|k: int| 0 <= k < self@.len() ==> self@[k] == self.allows@[k]@,
                forall|k: int| 0 <= k < i ==> !spec_path_has_prefix(path@, #[trigger] self@[k]),
            decreases self.allows.len() - i,
        {
            if path_has_prefix(path, self.allows[i].as_str()) {
                proof {
                    assert(spec_path_has_prefix(path@, self@[i as int]));
                }
                return true;
            }
            i += 1;
        }
        proof {
            if spec_accessible(self@, path@) {
                let w = choose|k: int|
                    0 <= k < self@.len() && spec_path_has_prefix(path@, self@[k]);
                assert(!spec_path_has_prefix(path@, self@[w]));
                assert(false);
            }
        }
        false
    }
}

impl Default for AllowPaths {
    /// An empty scope: no path is accessible.
    fn default() -> (r: Self)
        ensures
            r@ == Seq::<Seq<char>>::empty(),
    {
        AllowPaths { allows: Vec::new() }
    }
}

/// Checks a path against an optional scope: with no scope configured every
/// path passes; with one, a path outside it is rejected with
/// [`ApiError::NotPermittedPath`].
pub fn error_if_not_accessible(path: &str, scope: &Option<AllowPaths>) -> (r: Result<
    (),
    ApiError,
>)
    ensures
        r.is_ok() == (scope matches Some(s) ==> spec_accessible(s@, path@)),
        r matches Err(e) ==> e is NotPermittedPath,
{
    match scope {
        Some(s) => {
            if s.check_accessible(path) {
                Ok(())
            } else {
                Err(ApiError::NotPermittedPath)
            }
        },
        None => Ok(()),
    }
}

/// A well-known base directory a path argument may be taken relative to.
/// The embedding host resolves it to a concrete directory.
#[derive(Clone, Copy, Debug, PartialEq, Eq, Structural)]
pub enum BaseDirectory {
    ConfigLocal,
    Data,
    LocalData,
    Audio,
    Cache,
    Config,
    Desktop,
    Document,
    Download,
    Executable,
    Font,
    Home,
    Picture,
    Public,
    Runtime,
    Temp,
    Template,
    Video,
}

/// The base directory a name denotes, as the command arguments spell it.
pub open spec fn spec_base_directory_of_name(s: Seq<char>) -> Option<BaseDirectory> {
    if s == "ConfigLocal"@ {
        Some(BaseDirectory::ConfigLocal)
    } else if s == "Data"@ {
        Some(BaseDirectory::Data)
    } else if s == "LocalData"@ {
        Some(BaseDirectory::LocalData)
    } else if s == "Audio"@ {
        Some(BaseDirectory::Audio)
    } else if s == "Cache"@ {
        Some(BaseDirectory::Cache)
    } else if s == "Config"@ {
        Some(BaseDirectory::Config)
    } else if s == "Desktop"@ {
        Some(BaseDirectory::Desktop)
    } else if s == "Document"@ {
        Some(BaseDirectory::Document)
    } else if s == "Download"@ {
        Some(BaseDirectory::Download)
    } else if s == "Executable"@ {
        Some(BaseDirectory::Executable)
    } else if s == "Font"@ {
        Some(BaseDirectory::Font)
    } else if s == "Home"@ {
        Some(BaseDirectory::Home)
    } else if s == "Picture"@ {
        Some(BaseDirectory::Picture)
    } else if s == "Public"@ {
        Some(BaseDirectory::Public)
    } else if s == "Runtime"@ {
        Some(BaseDirectory::Runtime)
    } else if s == "Temp"@ {
        Some(BaseDirectory::Temp)
    } else if s == "Template"@ {
        Some(BaseDirectory::Template)
    } else if s == "Video"@ {
        Some(BaseDirectory::Video)
    } else {
        None
    }
}

/// Parses a base-directory name from command arguments.
pub fn base_directory_of_name(s: &str) -> (r: Option<BaseDirectory>)
    ensures
        r == spec_base_directory_of_name(s@),
{
    if str_eq(s, "ConfigLocal") {
        Some(BaseDirectory::ConfigLocal)
    } else if str_eq(s, "Data") {
        Some(BaseDirectory::Data)
    } else if str_eq(s, "LocalData") {
        Some(BaseDirectory::LocalData)
    } else if str_eq(s, "Audio") {
        Some(BaseDirectory::Audio)
    } else if str_eq(s, "Cache") {
        Some(BaseDirectory::Cache)
    } else if str_eq(s, "Config") {
        Some(BaseDirectory::Config)
    } else if str_eq(s, "Desktop") {
        Some(BaseDirectory::Desktop)
    } else if str_eq(s, "Document") {
        Some(BaseDirectory::Document)
    } else if str_eq(s, "Download") {
        Some(BaseDirectory::Download)
    } else if str_eq(s, "Executable") {
        Some(BaseDirectory::Executable)
    } else if str_eq(s, "Font") {
        Some(BaseDirectory::Font)
    } else if str_eq(s, "Home") {
        Some(BaseDirectory::Home)
    } else if str_eq(s, "Picture") {
        Some(BaseDirectory::Picture)
    } else if str_eq(s, "Public") {
        Some(BaseDirectory::Public)
    } else if str_eq(s, "Runtime") {
        Some(BaseDirectory::Runtime)
    } else if str_eq(s, "Temp") {
        Some(BaseDirectory::Temp)
    } else if str_eq(s, "Template") {
        Some(BaseDirectory::Template)
    } else if str_eq(s, "Video") {
        Some(BaseDirectory::Video)
    } else {
        None
    }
}

/// The path a command works on: an absolute path argument stands alone, a
/// relative one is joined under the resolved base directory when one was
/// given.
pub open spec fn spec_join_path(base: Option<Seq<char>>, path: Seq<char>) -> Seq<char> {
    match base {
        Some(b) => if path.len() > 0 && path[0] == '/' {
            path
        } else {
            b + "/"@ + path
        },
        None => path,
    }
}

/// The model of an optional resolved base directory.
pub open spec fn spec_opt_view(base: Option<String>) -> Option<Seq<char>> {
    match base {
        Some(b) => Some(b@),
        None => None,
    }
}

/// Prepares the path a filesystem command works on: joins the argument with
/// its resolved base directory, then checks it against the scope.  Returns
/// the joined path exactly when it is accessible (or no scope is
/// configured); otherwise the command's not-permitted error.
pub fn prepare_fs_path(path: String, base: &Option<String>, scope: &Option<AllowPaths>) -> (r:
    Result<String, ApiError>)
    ensures
        ({
            let joined = spec_join_path(spec_opt_view(*base), path@);
            &&& r.is_ok() == (scope matches Some(s) ==> spec_accessible(s@, joined))
            &&& (r matches Ok(p) ==> p@ == joined)
            &&& (r matches Err(e) ==> e is NotPermittedPath)
        }),
{
    let joined = join_path_if_need(base, path);
    match error_if_not_accessible(joined.as_str(), scope) {
        Ok(_) => Ok(joined),
        Err(e) => Err(e),
    }
}

/// Joins a path argument with its resolved base directory, when one was
/// given.  An absolute path argument stands alone, as it would when joined
/// onto a directory.
pub fn join_path_if_need(base: &Option<String>, path: String) -> (r: String)
    ensures
        r@ == spec_join_path(
            match base {
                Some(b) => Some(b@),
                None => None,
            },
            path@,
        ),
{
    match base {
        Some(b) => {
            let n = path.as_str().unicode_len();
            if n > 0 && path.as_str().get_char(0) == '/' {
                path
            } else {
                let mut r = b.clone();
                r.append("/");
                r.append(path.as_str());
                r
            }
        },
        None => path,
    }
}

} // verus!
