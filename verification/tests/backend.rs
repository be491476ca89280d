use fastly::backend::{validate_backend, Backend, BackendError};
use std::iter::FromIterator;

#[test]
fn valid_backend_names_are_accepted() {
    let valid_backend_names = [
        "valid_backend_1",
        "1_backend_with_leading_integer",
        "backend-with-kebab-case",
        "backend with spaces",
        "backend.with.periods",
        "123_456_789_000",
        "123.456.789.000",
        "tilde~backend",
        "(parens-backend)",
    ];
    for backend in valid_backend_names.iter() {
        match validate_backend(backend) {
            Ok(_) => {}
            x => panic!(
                "backend string \"{}\" yielded unexpected result: {:?}",
                backend, x
            ),
        }
    }
}

#[test]
fn empty_str_is_not_accepted() {
    let invalid_backend = "";
    match validate_backend(invalid_backend) {
        Err(BackendError::EmptyName) => {}
        x => panic!("unexpected result: {:?}", x),
    }
}

#[test]
fn name_equal_to_character_limit_is_accepted() {
    let invalid_backend: String = String::from_iter(vec!['a'; 255]);
    match validate_backend(&invalid_backend) {
        Ok(_) => {}
        x => panic!("unexpected result: {:?}", x),
    }
}

#[test]
fn name_longer_than_character_limit_are_not_accepted() {
    let invalid_backend: String = String::from_iter(vec!['a'; 256]);
    match validate_backend(&invalid_backend) {
        Err(BackendError::TooLong) => {}
        x => panic!("unexpected result: {:?}", x),
    }
}

#[test]
fn unprintable_characters_are_not_accepted() {
    let invalid_backend = "\n";
    match validate_backend(invalid_backend) {
        Err(BackendError::InvalidName) => {}
        x => panic!("unexpected result: {:?}", x),
    }
}

#[test]
fn unicode_is_not_accepted() {
    let invalid_backend = "♓";
    match validate_backend(invalid_backend) {
        Err(BackendError::InvalidName) => {}
        x => panic!("unexpected result: {:?}", x),
    }
}

#[test]
fn backend_from_name_keeps_the_name() {
    let backend = Backend::from_name("origin_0").unwrap();
    assert_eq!(backend.name(), "origin_0");
    assert_eq!(backend.clone().into_string(), "origin_0".to_string());
    assert_eq!(Backend::from_name(""), Err(BackendError::EmptyName));
    assert_eq!(Backend::from_name("a\u{7f}"), Err(BackendError::InvalidName));
}
