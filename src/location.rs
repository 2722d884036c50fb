use vstd::prelude::*;

verus! {

pub const QUALIFIER: &'static str = "xyz.georgekaplan";

pub const ORG: &'static str = "g-s-k";

pub const APP_NAME: &'static str = "wear";

pub const DEFAULT_FILE_NAME: &'static str = "data.db";

/// The name of the data file where a path does not give one.
pub open spec fn default_file_spec() -> Seq<char> {
    "data.db"@
}

/// What the file system holds at a path.
#[derive(Clone, Copy, Debug, PartialEq, Eq, Structural)]
pub enum PathKind {
    Directory,
    File,
    /// It exists and is neither a file nor a directory.
    Other,
    /// Nothing is there yet.
    Missing,
}

/// The directory of the data file.
#[derive(Clone, Debug, PartialEq, Eq)]
pub enum StoreDir {
    Path(String),
    /// The process's working directory, where no other could be found.
    WorkingDir,
}

/// Where the data file lives: a directory and a file name in it.
#[derive(Clone, Debug, PartialEq, Eq)]
pub struct Location {
    pub directory: StoreDir,
    pub file_name: String,
}

impl Location {
    /// The directory's path, or none for the working directory.
    pub open spec fn dir_view(self) -> Option<Seq<char>> {
        match self.directory {
            StoreDir::Path(d) => Some(d@),
            StoreDir::WorkingDir => None,
        }
    }
}

/// The parent of a path, as `Path::parent` gives it.
pub uninterp spec fn path_parent(p: Seq<char>) -> Option<Seq<char>>;

/// The last component of a path, as `Path::file_name` gives it.
pub uninterp spec fn path_file_name(p: Seq<char>) -> Option<Seq<char>>;

/// The extension of a path, as `Path::extension` gives it.
pub uninterp spec fn path_extension(p: Seq<char>) -> Option<Seq<char>>;

/// Two paths joined, as `Path::join` gives it.
pub uninterp spec fn path_join(base: Seq<char>, tail: Seq<char>) -> Seq<char>;

pub open spec fn opt_view(s: Option<String>) -> Option<Seq<char>> {
    match s {
        Some(s) => Some(s@),
        None => None,
    }
}

/// Relies on `std::path::Path::parent`: the parent depends on the path
/// alone.
#[verifier::external_body]
fn parent_of(p: &str) -> (r: Option<String>)
    ensures
        opt_view(r) == path_parent(p@),
{
    std::path::Path::new(p).parent().map(|d| d.to_string_lossy().into_owned())
}

/// Relies on `std::path::Path::file_name`: the last component depends on
/// the path alone.
#[verifier::external_body]
fn file_name_of(p: &str) -> (r: Option<String>)
    ensures
        opt_view(r) == path_file_name(p@),
{
    std::path::Path::new(p).file_name().map(|f| f.to_string_lossy().into_owned())
}

/// Relies on `std::path::Path::extension`: the extension depends on the
/// path alone.
#[verifier::external_body]
fn extension_of(p: &str) -> (r: Option<String>)
    ensures
        opt_view(r) == path_extension(p@),
{
    std::path::Path::new(p).extension().map(|e| e.to_string_lossy().into_owned())
}

/// Relies on `std::path::Path::join`: the joined path depends on the two
/// paths alone.
#[verifier::external_body]
fn join_paths(base: &str, tail: &str) -> (r: String)
    ensures
        r@ == path_join(base@, tail@),
{
    std::path::Path::new(base).join(tail).to_string_lossy().into_owned()
}

/// Relies on the `directories` crate's `ProjectDirs::from` and
/// `ProjectDirs::data_dir`: the platform's data directory for an
/// application, which depends on the environment, or none where the
/// platform offers none.
#[verifier::external_body]
fn project_data_dir(qualifier: &str, org: &str, app: &str) -> (r: Option<String>) {
    directories::ProjectDirs::from(qualifier, org, app).map(
        |d| d.data_dir().to_string_lossy().into_owned(),
    )
}

/// The directory and file name for a path that the user gave, by what is
/// there: a directory is used with the default file name; a file is split
/// into its parent and its name; a path where nothing is yet is split the
/// same way when it has an extension, and is else taken as a directory to
/// be made; anything else is taken as a directory.
pub open spec fn resolve_spec(p: Seq<char>, kind: PathKind) -> (Seq<char>, Seq<char>) {
    match kind {
        PathKind::File => match (path_parent(p), path_file_name(p)) {
            (Some(d), Some(f)) => (d, f),
            _ => (p, default_file_spec()),
        },
        PathKind::Missing => match (path_parent(p), path_file_name(p), path_extension(p)) {
            (Some(d), Some(f), Some(_)) => (d, f),
            _ => (p, default_file_spec()),
        },
        _ => (p, default_file_spec()),
    }
}

/// A directory that exists is used whole with the default file name; a
/// file that exists is split into its parent and its name; a path where
/// nothing is yet is split the same way when it has an extension, and is
/// else used whole with the default file name.
pub proof fn lemma_resolution_policy(p: Seq<char>)
    ensures
        resolve_spec(p, PathKind::Directory) == (p, default_file_spec()),
        path_parent(p) matches Some(d) ==> path_file_name(p) matches Some(f) ==> resolve_spec(
            p,
            PathKind::File,
        ) == (d, f),
        path_parent(p) matches Some(d) ==> path_file_name(p) matches Some(f)
            ==> path_extension(p) is Some ==> resolve_spec(p, PathKind::Missing) == (d, f),
        path_extension(p) is None ==> resolve_spec(p, PathKind::Missing) == (
            p,
            default_file_spec(),
        ),
{
}

/// The location for a path that the user gave, where the file system holds
/// `kind` at it.
pub fn resolve_path(path: &str, kind: PathKind) -> (r: Location)
    ensures
        r.dir_view() == Some(resolve_spec(path@, kind).0),
        r.file_name@ == resolve_spec(path@, kind).1,
{
    match kind {
        PathKind::File => {
            let parent = parent_of(path);
            let name = file_name_of(path);
            match (parent, name) {
                (Some(d), Some(f)) => Location { directory: StoreDir::Path(d), file_name: f },
                _ => Location {
                    directory: StoreDir::Path(String::from_str(path)),
                    file_name: String::from_str(DEFAULT_FILE_NAME),
                },
            }
        },
        PathKind::Missing => {
            let parent = parent_of(path);
            let name = file_name_of(path);
            let ext = extension_of(path);
            match (parent, name, ext) {
                (Some(d), Some(f), Some(_)) => Location {
                    directory: StoreDir::Path(d),
                    file_name: f,
                },
                _ => Location {
                    directory: StoreDir::Path(String::from_str(path)),
                    file_name: String::from_str(DEFAULT_FILE_NAME),
                },
            }
        },
        _ => Location {
            directory: StoreDir::Path(String::from_str(path)),
            file_name: String::from_str(DEFAULT_FILE_NAME),
        },
    }
}

/// The location where the user gave no path: the platform's data directory
/// when there is one, else the working directory; the default file name
/// either way.
pub fn resolve_default(platform_dir: Option<String>) -> (r: Location)
    ensures
        r.dir_view() == opt_view(platform_dir),
        r.file_name@ == default_file_spec(),
{
    let directory = match platform_dir {
        Some(d) => StoreDir::Path(d),
        None => StoreDir::WorkingDir,
    };
    Location { directory, file_name: String::from_str(DEFAULT_FILE_NAME) }
}

/// The location of the data file, from the path that the user gave and what
/// the file system holds there, or from the platform's data directory.
pub fn database_file(user_path: Option<(&str, PathKind)>) -> (r: Location)
    ensures
        user_path matches Some((p, kind)) ==> r.dir_view() == Some(resolve_spec(p@, kind).0)
            && r.file_name@ == resolve_spec(p@, kind).1,
        user_path is None ==> r.file_name@ == default_file_spec(),
{
    match user_path {
        Some((p, kind)) => resolve_path(p, kind),
        None => resolve_default(project_data_dir(QUALIFIER, ORG, APP_NAME)),
    }
}

/// The address that the store opens: the file's path after `sqlite://`.
pub fn database_url(directory: &str, file_name: &str) -> (r: String)
    ensures
        r@ == "sqlite://"@ + path_join(directory@, file_name@),
{
    let path = join_paths(directory, file_name);
    String::from_str("sqlite://").concat(path.as_str())
}

} // verus!
