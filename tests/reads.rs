use std::time::Duration;

use collections_api::reads::{
    aliases_response, collection_aliases_response, collection_info_response, collections_response,
    AliasDescription, CollectionDescription,
};
use collections_api::status::{Code, StorageError};

fn desc(alias: &str, collection: &str) -> AliasDescription {
    AliasDescription { alias_name: alias.to_string(), collection_name: collection.to_string() }
}

#[test]
fn collection_aliases_take_requested_name() {
    let names = vec!["a".to_string(), "b".to_string()];
    let r = collection_aliases_response(&"foo".to_string(), Duration::from_millis(3), Ok(names))
        .unwrap();
    assert_eq!(r.aliases, vec![desc("a", "foo"), desc("b", "foo")]);
    assert_eq!(r.time, Duration::from_millis(3));
}

#[test]
fn collection_aliases_empty() {
    let r = collection_aliases_response(&"foo".to_string(), Duration::ZERO, Ok(vec![])).unwrap();
    assert!(r.aliases.is_empty());
}

#[test]
fn collection_aliases_error_is_classified() {
    let e = collection_aliases_response(
        &"foo".to_string(),
        Duration::ZERO,
        Err(StorageError::NotFound { description: "no foo".to_string() }),
    )
    .unwrap_err();
    assert_eq!(e.code, Code::NotFound);
    assert_eq!(e.message, "no foo");
}

#[test]
fn all_aliases_keep_pairs_in_order() {
    let pairs = vec![
        ("x".to_string(), "c1".to_string()),
        ("y".to_string(), "c2".to_string()),
        ("z".to_string(), "c1".to_string()),
    ];
    let r = aliases_response(Duration::from_secs(2), Ok(pairs)).unwrap();
    assert_eq!(r.aliases, vec![desc("x", "c1"), desc("y", "c2"), desc("z", "c1")]);
    assert_eq!(r.time, Duration::from_secs(2));
}

#[test]
fn all_aliases_error_is_classified() {
    let e = aliases_response(
        Duration::ZERO,
        Err(StorageError::Unavailable { description: "down".to_string() }),
    )
    .unwrap_err();
    assert_eq!(e.code, Code::Unavailable);
}

#[test]
fn collections_are_listed_by_name() {
    let r = collections_response(
        Duration::from_millis(9),
        Ok(vec!["one".to_string(), "two".to_string()]),
    )
    .unwrap();
    assert_eq!(
        r.collections,
        vec![
            CollectionDescription { name: "one".to_string() },
            CollectionDescription { name: "two".to_string() },
        ]
    );
    assert_eq!(r.time, Duration::from_millis(9));
}

#[test]
fn collections_error_is_classified() {
    let e = collections_response(
        Duration::ZERO,
        Err(StorageError::ServiceError { description: "boom".to_string() }),
    )
    .unwrap_err();
    assert_eq!(e.code, Code::Internal);
    assert_eq!(e.message, "boom");
}

#[test]
fn collection_info_is_forwarded() {
    let r = collection_info_response(Duration::from_secs(1), Ok(17u32)).unwrap();
    assert_eq!(r.result, 17);
    assert_eq!(r.time, Duration::from_secs(1));
    let e = collection_info_response::<u32>(
        Duration::ZERO,
        Err(StorageError::Timeout { description: "slow".to_string() }),
    )
    .unwrap_err();
    assert_eq!(e.code, Code::DeadlineExceeded);
}
