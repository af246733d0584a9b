use grade_service::key::{KeyError, ResourceKey};

#[test]
fn distinct_components_give_unequal_keys() {
    // Adversarial pair: a separator-free concatenation would collapse both
    // to "123". The structured key must keep them apart.
    let a = ResourceKey::new("12".to_string(), "3".to_string()).unwrap();
    let b = ResourceKey::new("1".to_string(), "23".to_string()).unwrap();
    assert_ne!(a, b);
    assert_ne!(a.student_id(), b.student_id());
}

#[test]
fn same_components_give_equal_keys() {
    let a = ResourceKey::new("20223948".to_string(), "1293".to_string()).unwrap();
    let b = ResourceKey::new("20223948".to_string(), "1293".to_string()).unwrap();
    assert_eq!(a, b);
    assert_eq!(a.student_id().as_str(), "20223948");
    assert_eq!(a.subject_id().as_str(), "1293");
}

#[test]
fn empty_student_id_is_rejected() {
    let r = ResourceKey::new("".to_string(), "1293".to_string());
    assert_eq!(r, Err(KeyError::InvalidKey));
}

#[test]
fn empty_subject_id_is_rejected() {
    let r = ResourceKey::new("20223948".to_string(), "".to_string());
    assert_eq!(r, Err(KeyError::InvalidKey));
}
