use filez::errors::{ListError, ListErrorKind, ReadError, WriteError};
use filez::listing::ListEntry;
use filez::store::ParentDirectory;

fn run<F: std::future::Future>(f: F) -> F::Output {
    tokio::runtime::Builder::new_current_thread().build().unwrap().block_on(f)
}

async fn fresh(root: &str) -> ParentDirectory {
    let _ = tokio::fs::remove_dir_all(root).await;
    ParentDirectory::new(root.to_string())
}

async fn write(store: &ParentDirectory, path: &str, content: &str) -> Result<(), WriteError> {
    let target = store.write_target(path)?;
    let outcome = match tokio::fs::create_dir_all(&target.dir).await {
        Ok(()) => tokio::fs::write(&target.file, content).await,
        Err(e) => Err(e),
    };
    ParentDirectory::finish_write(path, outcome)
}

async fn read(store: &ParentDirectory, path: &str) -> Result<String, ReadError> {
    let outcome = tokio::fs::read_to_string(store.with_parent(path)).await;
    ParentDirectory::finish_read(path, outcome)
}

fn list(store: &ParentDirectory, expression: &str) -> Result<Vec<String>, ListError> {
    let outcome = glob::glob(&store.with_parent(expression)).map(|paths| {
        paths
            .map(|found| match found {
                Ok(p) => ListEntry::Matched { is_file: p.is_file(), text: p.to_str().map(String::from) },
                Err(e) => ListEntry::Unreadable(e),
            })
            .collect()
    });
    store.collect_listing(expression, outcome)
}

#[test]
fn write_then_read_round_trip() {
    run(async {
        let store = fresh("/tmp/filez_round_trip").await;
        for (path, content) in [("a.txt", "alpha"), ("x/y.txt", ""), ("x/z.txt", "line\nnext\n")] {
            write(&store, path, content).await.unwrap();
            assert_eq!(read(&store, path).await.unwrap(), content);
        }
        write(&store, "a.txt", "replaced").await.unwrap();
        assert_eq!(read(&store, "a.txt").await.unwrap(), "replaced");
    });
}

#[test]
fn write_creates_missing_directories() {
    run(async {
        let store = fresh("/tmp/filez_nested").await;
        write(&store, "a/b/c.txt", "deep").await.unwrap();
        assert!(std::path::Path::new("/tmp/filez_nested/a").is_dir());
        assert!(std::path::Path::new("/tmp/filez_nested/a/b").is_dir());
        assert!(std::path::Path::new("/tmp/filez_nested/a/b/c.txt").is_file());
    });
}

#[test]
fn read_missing_file_names_path() {
    run(async {
        let store = fresh("/tmp/filez_missing").await;
        let err = read(&store, "nope/absent.txt").await.unwrap_err();
        assert_eq!(err.path, "nope/absent.txt");
        assert_eq!(err.source.kind(), std::io::ErrorKind::NotFound);
        assert_eq!(err.message(), "error reading `nope/absent.txt`");
    });
}

#[test]
fn list_without_matches_is_empty() {
    run(async {
        let store = fresh("/tmp/filez_empty").await;
        write(&store, "a.txt", "x").await.unwrap();
        assert_eq!(list(&store, "*.rs").unwrap(), Vec::<String>::new());
    });
}

#[test]
fn list_invalid_glob_fails_to_parse() {
    let store = ParentDirectory::new("/tmp/filez_invalid".to_string());
    let err = list(&store, "notes/[").unwrap_err();
    assert_eq!(err.expression, "notes/[");
    assert!(matches!(err.kind, ListErrorKind::ParseGlob(_)));
}

#[test]
fn list_returns_only_files() {
    run(async {
        let store = fresh("/tmp/filez_kinds").await;
        write(&store, "both.txt/inner.md", "in a directory").await.unwrap();
        write(&store, "file.txt", "plain").await.unwrap();
        assert_eq!(list(&store, "*.txt").unwrap(), vec!["file.txt".to_string()]);
    });
}

#[test]
fn notes_scenario() {
    run(async {
        let store = fresh("/tmp/store").await;
        write(&store, "notes/today.txt", "hello").await.unwrap();
        assert_eq!(read(&store, "notes/today.txt").await.unwrap(), "hello");
        let listed = list(&store, "notes/*.txt").unwrap();
        assert_eq!(listed, vec!["notes/today.txt".to_string()]);
        assert_eq!(read(&store, &listed[0]).await.unwrap(), "hello");
    });
}
