use emstudio::backend::BackendError;
use emstudio::project_store::ProjectStore;

#[test]
fn saved_projects_load_back_by_id() {
    let mut store: ProjectStore<String> = ProjectStore::new();
    assert!(store.save_project("a".to_string(), "first".to_string()).is_ok());
    assert!(store.save_project("b".to_string(), "second".to_string()).is_ok());
    assert_eq!(store.load_project("a").unwrap(), "first");
    assert_eq!(store.load_project("b").unwrap(), "second");
}

#[test]
fn saving_again_replaces_the_project() {
    let mut store: ProjectStore<u32> = ProjectStore::new();
    store.save_project("p".to_string(), 1).unwrap();
    store.save_project("q".to_string(), 2).unwrap();
    store.save_project("p".to_string(), 3).unwrap();
    assert_eq!(*store.load_project("p").unwrap(), 3);
    assert_eq!(*store.load_project("q").unwrap(), 2);
}

#[test]
fn unknown_ids_are_not_found() {
    let store: ProjectStore<u32> = ProjectStore::new();
    match store.load_project("missing") {
        Err(BackendError::ProjectNotFound(id)) => assert_eq!(id, "missing"),
        other => panic!("{:?}", other.map(|p| *p)),
    }
}
