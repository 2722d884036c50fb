use directories::ProjectDirs;
use wear::location::{resolve_default, resolve_path, APP_NAME, DEFAULT_FILE_NAME, ORG, QUALIFIER};
use wear::{database_file, database_url, Location, PathKind, StoreDir};

fn at(dir: &str, file: &str) -> Location {
    Location { directory: StoreDir::Path(dir.to_string()), file_name: file.to_string() }
}

fn nested() -> String {
    let mut p = String::from("/tmp");
    for c in "abcdefghijkl".chars() {
        p.push('/');
        p.push(c);
    }
    p
}

#[test]
fn none() {
    let p_dirs = ProjectDirs::from(QUALIFIER, ORG, APP_NAME).unwrap();
    let dir = p_dirs.data_dir().to_string_lossy().into_owned();
    assert_eq!(database_file(None), at(&dir, DEFAULT_FILE_NAME));
}

#[test]
fn current_dir() {
    assert_eq!(database_file(Some((".", PathKind::Directory))), at(".", DEFAULT_FILE_NAME));
}

#[test]
fn parent_dir() {
    assert_eq!(database_file(Some(("..", PathKind::Directory))), at("..", DEFAULT_FILE_NAME));
}

#[test]
fn existing_dir() {
    assert_eq!(database_file(Some(("/tmp", PathKind::Directory))), at("/tmp", DEFAULT_FILE_NAME));
}

#[test]
fn existing_file() {
    assert_eq!(
        database_file(Some(("/tmp/data.db", PathKind::File))),
        at("/tmp", DEFAULT_FILE_NAME)
    );
}

#[test]
fn non_existing_dir() {
    let tmp = nested();
    assert_eq!(database_file(Some((&tmp, PathKind::Missing))), at(&tmp, DEFAULT_FILE_NAME));
}

#[test]
fn non_existing_file() {
    let dir = nested();
    let file = format!("{}/{}", dir, "zyxwvut.db");
    assert_eq!(database_file(Some((&file, PathKind::Missing))), at(&dir, "zyxwvut.db"));
}

#[test]
fn existing_file_with_other_name() {
    assert_eq!(
        resolve_path("/srv/wear/garments.sqlite", PathKind::File),
        at("/srv/wear", "garments.sqlite")
    );
}

#[test]
fn special_file_is_taken_as_directory() {
    assert_eq!(resolve_path("/dev/null", PathKind::Other), at("/dev/null", DEFAULT_FILE_NAME));
}

#[test]
fn missing_relative_file_has_empty_parent() {
    assert_eq!(resolve_path("store.db", PathKind::Missing), at("", "store.db"));
}

#[test]
fn missing_path_without_extension_is_a_directory() {
    assert_eq!(resolve_path("data/new", PathKind::Missing), at("data/new", DEFAULT_FILE_NAME));
}

#[test]
fn existing_directory_with_dot_keeps_whole_path() {
    assert_eq!(resolve_path("/var/lib/x.d", PathKind::Directory), at("/var/lib/x.d", "data.db"));
}

#[test]
fn no_platform_dir_falls_back_to_working_dir() {
    let loc = resolve_default(None);
    assert_eq!(loc.directory, StoreDir::WorkingDir);
    assert_eq!(loc.file_name, "data.db");
}

#[test]
fn platform_dir_is_used() {
    assert_eq!(resolve_default(Some("/home/u/.local/share/wear".to_string())), at("/home/u/.local/share/wear", "data.db"));
}

#[test]
fn url_joins_directory_and_file() {
    assert_eq!(database_url("/tmp/x", "data.db"), "sqlite:///tmp/x/data.db");
    assert_eq!(database_url("", "data.db"), "sqlite://data.db");
    assert_eq!(database_url("rel/dir/", "a.db"), "sqlite://rel/dir/a.db");
}
