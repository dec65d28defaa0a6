use essence::text::{decimal, join3};
use essence::types::{Entity, EntityType, EssenceError};

#[test]
fn decimal_of_single_digits() {
    let digits = ["0", "1", "2", "3", "4", "5", "6", "7", "8", "9"];
    for (value, numeral) in digits.iter().enumerate() {
        assert_eq!(decimal(value as u32), *numeral);
    }
}

#[test]
fn decimal_of_longer_numbers() {
    assert_eq!(decimal(10), "10");
    assert_eq!(decimal(42), "42");
    assert_eq!(decimal(100), "100");
    assert_eq!(decimal(1009), "1009");
    assert_eq!(decimal(123456789), "123456789");
    assert_eq!(decimal(u32::MAX), "4294967295");
}

#[test]
fn decimal_agrees_with_the_standard_library() {
    let mut value: u32 = 1;
    for _ in 0..40 {
        assert_eq!(decimal(value), value.to_string());
        assert_eq!(decimal(value - 1), (value - 1).to_string());
        value = value.wrapping_mul(7).wrapping_add(3);
        if value == 0 {
            value = 1;
        }
    }
}

#[test]
fn join3_keeps_the_order() {
    assert_eq!(join3("a", "b", "c"), "abc");
    assert_eq!(join3("", "x", ""), "x");
    assert_eq!(join3("", "", ""), "");
    assert_eq!(join3("left ", "", "right"), "left right");
}

#[test]
fn message_of_a_garbled_marker() {
    assert_eq!(
        EssenceError::GarbledMarkerError(12).message(),
        "garbled marker comment (line: 12)"
    );
    assert_eq!(
        EssenceError::GarbledMarkerError(0).message(),
        "garbled marker comment (line: 0)"
    );
}

#[test]
fn message_of_a_missing_schema() {
    assert_eq!(
        EssenceError::SchemaMissingError("orders".to_string()).message(),
        "schema unknown for function 'orders'"
    );
}

#[test]
fn message_of_a_garbled_function_name() {
    assert_eq!(
        EssenceError::GarbledFunctionNameError("foo".to_string()).message(),
        "function signature garbled (foo)"
    );
}

#[test]
fn message_of_an_existing_base_directory() {
    assert_eq!(
        EssenceError::BaseDirExistsError.message(),
        "Base directory already exists, specify '-d' to allow automcatic deletion."
    );
}

#[test]
fn message_of_an_io_error_is_that_of_its_cause() {
    let cause = std::io::Error::new(std::io::ErrorKind::Other, "disk on fire");
    let expected = cause.to_string();
    assert_eq!(EssenceError::from(cause).message(), expected);
}

#[test]
fn io_error_becomes_an_essence_error() {
    let cause = std::io::Error::new(std::io::ErrorKind::NotFound, "gone");
    match EssenceError::from(cause) {
        EssenceError::IoError(inner) => assert_eq!(inner.kind(), std::io::ErrorKind::NotFound),
        other => panic!("{:?}", other),
    }
}

#[test]
fn default_entity_is_blank() {
    let entity = Entity::default();
    assert_eq!(entity.name, "");
    assert_eq!(entity.entity_type, EntityType::Acl);
    assert_eq!(entity.schema, None);
    assert_eq!(entity.owner, "");
}
