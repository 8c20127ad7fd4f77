use lineage_core::domain::shared::{canonicalize, CanonicalValue};

#[test]
fn canonicalize_is_key_order_independent() {
    let a = vec![("b".to_string(), CanonicalValue::Integer(2)), ("a".to_string(), CanonicalValue::Integer(1))];
    let b = vec![("a".to_string(), CanonicalValue::Integer(1)), ("b".to_string(), CanonicalValue::Integer(2))];

    assert_eq!(canonicalize(&a), canonicalize(&b));
    assert_eq!(canonicalize(&a), r#"{"a":1,"b":2}"#);
}
