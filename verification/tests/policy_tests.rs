use grade_service::identity::{Identity, Role};
use grade_service::key::ResourceKey;
use grade_service::policy::{evaluate, AuthVerdict, DenyReason, Operation};

fn key(student: &str, subject: &str) -> ResourceKey {
    ResourceKey::new(student.to_string(), subject.to_string()).unwrap()
}

fn student(id: &str) -> Identity {
    Identity { id: id.to_string(), role: Role::Student }
}

fn teacher(id: &str) -> Identity {
    Identity { id: id.to_string(), role: Role::Teacher }
}

#[test]
fn student_may_read_own_record() {
    let verdict = evaluate(&student("20223948"), Operation::Read, &key("20223948", "1293"));
    assert_eq!(verdict, AuthVerdict::Permit);
}

#[test]
fn student_may_not_read_another_students_record() {
    let verdict = evaluate(&student("20223948"), Operation::Read, &key("20223949", "1293"));
    assert_eq!(verdict, AuthVerdict::Deny(DenyReason::NotOwner));
}

#[test]
fn student_may_not_write_any_record_including_their_own() {
    let own = evaluate(&student("20223948"), Operation::Write, &key("20223948", "1293"));
    assert_eq!(own, AuthVerdict::Deny(DenyReason::InsufficientRole));
    let other = evaluate(&student("20223948"), Operation::Write, &key("20223949", "1293"));
    assert_eq!(other, AuthVerdict::Deny(DenyReason::InsufficientRole));
}

#[test]
fn teacher_may_read_and_write_any_record() {
    let t = teacher("teacher-001");
    assert_eq!(evaluate(&t, Operation::Read, &key("20223948", "1293")), AuthVerdict::Permit);
    assert_eq!(evaluate(&t, Operation::Read, &key("20223949", "1293")), AuthVerdict::Permit);
    assert_eq!(evaluate(&t, Operation::Write, &key("20223948", "1293")), AuthVerdict::Permit);
    assert_eq!(evaluate(&t, Operation::Write, &key("20223949", "1293")), AuthVerdict::Permit);
}

#[test]
fn fixed_resolver_returns_the_hardcoded_student() {
    let u = grade_service::identity::get_current_user_from_request();
    assert_eq!(u.id.as_str(), "20223948");
    assert_eq!(u.role, Role::Student);
}
