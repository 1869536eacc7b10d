//! Where the application keeps its files: a directory named by the
//! environment, or else the user's project directories.

use directories_next::ProjectDirs;
use vstd::prelude::*;
use vstd::string::StringExecFns;

verus! {

/// The environment variable that names the home directory.
pub const APP_HOME_ENV_VAR: &'static str = "TB_HOME_DIR";

/// The environment variable that names the cache directory.
pub const APP_CACHE_ENV_VAR: &'static str = "TB_CACHE_DIR";

/// The organization under which the project directories are looked up.
pub const ORGANIZATION: &'static str = "teamdman";

/// The application's name in the project directories.
pub const APPLICATION: &'static str = "tb";

/// The project directories of `directories_next`: opaque here, handed from
/// the lookup to the two functions that read a path out of it.
#[verifier::external_type_specification]
#[verifier::external_body]
pub struct ExProjectDirs(ProjectDirs);

/// `ProjectDirs::from` of `directories_next`: the project directories for
/// a qualifier, an organization and an application, or `None` where the
/// user has no home directory. What comes back depends on the environment
/// and on the system, so nothing is claimed of it.
pub assume_specification[ ProjectDirs::from ](
    qualifier: &str,
    organization: &str,
    application: &str,
) -> Option<ProjectDirs>
;

/// `ProjectDirs::config_dir` of `directories_next`, as text. Nothing is
/// claimed of the text. The path is turned to text with
/// `to_string_lossy`: where it is not valid Unicode, each offending part
/// becomes U+FFFD, so the text then names another path than the system
/// gave.
#[verifier::external_body]
fn config_dir_text(dirs: &ProjectDirs) -> String {
    dirs.config_dir().to_string_lossy().into_owned()
}

/// `ProjectDirs::cache_dir` of `directories_next`, as text. Nothing is
/// claimed of the text. The path is turned to text with
/// `to_string_lossy`: where it is not valid Unicode, each offending part
/// becomes U+FFFD, so the text then names another path than the system
/// gave.
#[verifier::external_body]
fn cache_dir_text(dirs: &ProjectDirs) -> String {
    dirs.cache_dir().to_string_lossy().into_owned()
}

/// Why a directory could not be determined.
#[derive(Clone, Copy, Debug, PartialEq, Eq, Structural)]
pub enum PathError {
    /// Neither the environment nor the system names a home directory.
    AppHomeUndetermined,
    /// Neither the environment nor the system names a cache directory.
    CacheHomeUndetermined,
}

impl PathError {
    /// The text of the error's message.
    pub open spec fn message_text(self) -> Seq<char> {
        match self {
            PathError::AppHomeUndetermined => "Could not determine app home directory"@,
            PathError::CacheHomeUndetermined => "Could not determine app cache directory"@,
        }
    }

    /// One line that says what went wrong.
    pub fn message(&self) -> (r: String)
        ensures
            r@ == self.message_text(),
    {
        match self {
            PathError::AppHomeUndetermined => String::from_str(
                "Could not determine app home directory",
            ),
            PathError::CacheHomeUndetermined => String::from_str(
                "Could not determine app cache directory",
            ),
        }
    }
}

/// The directory that `from_env` and `from_system` name between them: the
/// environment's wherever it names one, else the system's.
pub open spec fn chosen_dir(from_env: Option<Seq<char>>, from_system: Option<Seq<char>>) -> Option<
    Seq<char>,
> {
    match from_env {
        Some(path) => Some(path),
        None => from_system,
    }
}

/// The view of an optional text.
pub open spec fn text_view(t: Option<String>) -> Option<Seq<char>> {
    match t {
        Some(t) => Some(t@),
        None => None,
    }
}

/// The directory of the application's settings.
#[derive(Clone, Debug)]
pub struct AppHome {
    path: String,
}

impl View for AppHome {
    type V = Seq<char>;

    closed spec fn view(&self) -> Seq<char> {
        self.path@
    }
}

impl AppHome {
    /// The home directory for what the environment and the system name.
    pub fn from_sources(from_env: Option<String>, from_system: Option<String>) -> (r: Result<
        AppHome,
        PathError,
    >)
        ensures
            match chosen_dir(text_view(from_env), text_view(from_system)) {
                Some(path) => r is Ok && r->Ok_0@ == path,
                None => r == Err::<AppHome, PathError>(PathError::AppHomeUndetermined),
            },
    {
        match from_env {
            Some(path) => Ok(AppHome { path }),
            None => match from_system {
                Some(path) => Ok(AppHome { path }),
                None => Err(PathError::AppHomeUndetermined),
            },
        }
    }

    /// The home directory: what the environment variable holds, given as
    /// `from_env`, or else the configuration directory that the system
    /// gives this application. The system is asked only where the
    /// environment names nothing.
    pub fn resolve(from_env: Option<String>) -> (r: Result<AppHome, PathError>)
        ensures
            from_env is Some ==> r is Ok && r->Ok_0@ == from_env->0@,
            r is Err ==> r == Err::<AppHome, PathError>(PathError::AppHomeUndetermined),
    {
        if from_env.is_some() {
            return AppHome::from_sources(from_env, None);
        }
        let from_system = match ProjectDirs::from("", ORGANIZATION, APPLICATION) {
            Some(dirs) => Some(config_dir_text(&dirs)),
            None => None,
        };
        AppHome::from_sources(None, from_system)
    }

    /// The directory's path.
    pub fn path(&self) -> (r: &str)
        ensures
            r@ == self@,
    {
        self.path.as_str()
    }
}

/// The directory of what the application may lose.
#[derive(Clone, Debug)]
pub struct CacheHome {
    path: String,
}

impl View for CacheHome {
    type V = Seq<char>;

    closed spec fn view(&self) -> Seq<char> {
        self.path@
    }
}

impl CacheHome {
    /// The cache directory for what the environment and the system name.
    pub fn from_sources(from_env: Option<String>, from_system: Option<String>) -> (r: Result<
        CacheHome,
        PathError,
    >)
        ensures
            match chosen_dir(text_view(from_env), text_view(from_system)) {
                Some(path) => r is Ok && r->Ok_0@ == path,
                None => r == Err::<CacheHome, PathError>(PathError::CacheHomeUndetermined),
            },
    {
        match from_env {
            Some(path) => Ok(CacheHome { path }),
            None => match from_system {
                Some(path) => Ok(CacheHome { path }),
                None => Err(PathError::CacheHomeUndetermined),
            },
        }
    }

    /// The cache directory: what the environment variable holds, given as
    /// `from_env`, or else the cache directory that the system gives this
    /// application. The system is asked only where the environment names
    /// nothing.
    pub fn resolve(from_env: Option<String>) -> (r: Result<CacheHome, PathError>)
        ensures
            from_env is Some ==> r is Ok && r->Ok_0@ == from_env->0@,
            r is Err ==> r == Err::<CacheHome, PathError>(PathError::CacheHomeUndetermined),
    {
        if from_env.is_some() {
            return CacheHome::from_sources(from_env, None);
        }
        let from_system = match ProjectDirs::from("", ORGANIZATION, APPLICATION) {
            Some(dirs) => Some(cache_dir_text(&dirs)),
            None => None,
        };
        CacheHome::from_sources(None, from_system)
    }

    /// The directory's path.
    pub fn path(&self) -> (r: &str)
        ensures
            r@ == self@,
    {
        self.path.as_str()
    }
}

/// The home directory; see `AppHome::resolve`.
pub fn app_home(from_env: Option<String>) -> (r: Result<AppHome, PathError>)
    ensures
        from_env is Some ==> r is Ok && r->Ok_0@ == from_env->0@,
        r is Err ==> r == Err::<AppHome, PathError>(PathError::AppHomeUndetermined),
{
    AppHome::resolve(from_env)
}

/// The cache directory; see `CacheHome::resolve`.
pub fn cache_home(from_env: Option<String>) -> (r: Result<CacheHome, PathError>)
    ensures
        from_env is Some ==> r is Ok && r->Ok_0@ == from_env->0@,
        r is Err ==> r == Err::<CacheHome, PathError>(PathError::CacheHomeUndetermined),
{
    CacheHome::resolve(from_env)
}

} // verus!
