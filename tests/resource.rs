use crud_api::api::{ApiError, ModelApi, ResId, LIST_CAP};
use crud_api::store::{MemoryStore, Record};

type Posts = ModelApi<String>;

fn post(id: u64, name: &str) -> Record<String> {
    Record { id, fields: name.to_string() }
}

#[test]
fn create_get_delete_round() {
    let mut store: MemoryStore<String> = MemoryStore::new();
    assert_eq!(Posts::create_model(&mut store, post(0, "foo")), Ok(ResId { id: 1 }));
    assert_eq!(Posts::get_model(&store, 1), Ok(&post(1, "foo")));
    assert_eq!(Posts::delete_model(&mut store, 1), Ok(()));
    assert_eq!(Posts::get_model(&store, 1), Err(ApiError::NotFound));
    assert_eq!(Posts::delete_model(&mut store, 1), Err(ApiError::NotFound));
    assert_eq!(ApiError::NotFound.status_code(), 404);
}

#[test]
fn create_then_get_returns_payload_fields() {
    let mut store: MemoryStore<String> = MemoryStore::new();
    Posts::create_model(&mut store, post(0, "first")).unwrap();
    let created = Posts::create_model(&mut store, post(0, "second")).unwrap();
    assert_eq!(created.id, 2);
    let got = Posts::get_model(&store, created.id).unwrap();
    assert_eq!(got.id, 2);
    assert_eq!(got.fields, "second");
    assert_eq!(Posts::get_model(&store, 1).unwrap().fields, "first");
}

#[test]
fn get_of_absent_key_is_not_found() {
    let mut store: MemoryStore<String> = MemoryStore::new();
    assert_eq!(Posts::get_model(&store, 7), Err(ApiError::NotFound));
    Posts::create_model(&mut store, post(0, "a")).unwrap();
    assert_eq!(Posts::get_model(&store, 0), Err(ApiError::NotFound));
    assert_eq!(Posts::get_model(&store, 2), Err(ApiError::NotFound));
    assert_eq!(Posts::get_model(&store, u64::MAX), Err(ApiError::NotFound));
}

#[test]
fn delete_of_absent_key_is_not_found() {
    let mut store: MemoryStore<String> = MemoryStore::new();
    assert_eq!(Posts::delete_model(&mut store, 3), Err(ApiError::NotFound));
    Posts::create_model(&mut store, post(0, "a")).unwrap();
    assert_eq!(Posts::delete_model(&mut store, 2), Err(ApiError::NotFound));
    assert_eq!(store.len(), 1);
}

#[test]
fn delete_succeeds_once() {
    let mut store: MemoryStore<String> = MemoryStore::new();
    for name in ["a", "b", "c"] {
        Posts::create_model(&mut store, post(0, name)).unwrap();
    }
    assert_eq!(Posts::delete_model(&mut store, 2), Ok(()));
    assert_eq!(Posts::delete_model(&mut store, 2), Err(ApiError::NotFound));
    assert_eq!(store.len(), 2);
    assert_eq!(Posts::get_model(&store, 1), Ok(&post(1, "a")));
    assert_eq!(Posts::get_model(&store, 3), Ok(&post(3, "c")));
}

#[test]
fn list_never_exceeds_cap() {
    let mut store: MemoryStore<String> = MemoryStore::new();
    assert_eq!(Posts::list_model(&store).unwrap().items.len(), 0);
    for i in 0..15 {
        Posts::create_model(&mut store, post(0, &format!("p{}", i))).unwrap();
    }
    assert_eq!(store.len(), 15);
    let listed = Posts::list_model(&store).unwrap();
    assert_eq!(LIST_CAP, 10);
    assert_eq!(listed.items.len(), 10);
    for (i, rec) in listed.items.iter().enumerate() {
        assert_eq!(rec.id, i as u64 + 1);
        assert_eq!(rec.fields, format!("p{}", i));
    }
}

#[test]
fn list_of_few_rows_returns_them_all_in_order() {
    let mut store: MemoryStore<String> = MemoryStore::new();
    for name in ["x", "y", "z"] {
        Posts::create_model(&mut store, post(0, name)).unwrap();
    }
    Posts::delete_model(&mut store, 2).unwrap();
    let listed = Posts::list_model(&store).unwrap();
    assert_eq!(listed.items, vec![&post(1, "x"), &post(3, "z")]);
}

#[test]
fn create_ignores_payload_key() {
    let mut store: MemoryStore<String> = MemoryStore::new();
    assert_eq!(Posts::create_model(&mut store, post(99, "forged")), Ok(ResId { id: 1 }));
    assert_eq!(Posts::get_model(&store, 99), Err(ApiError::NotFound));
    assert_eq!(Posts::get_model(&store, 1), Ok(&post(1, "forged")));
    assert_eq!(Posts::create_model(&mut store, post(1, "again")), Ok(ResId { id: 2 }));
    assert_eq!(Posts::get_model(&store, 1), Ok(&post(1, "forged")));
}
