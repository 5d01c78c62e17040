use s3_cleanup::creation::{fresh_name, object_creators, ObjectCreator, CREATION_WORKERS};
use s3_cleanup::menu::{
    auth_from_label, auth_labels, operation_from_label, operation_labels, AuthMethod, Operation,
};
use s3_cleanup::quantity::{quantity_verdict, validate_number, Validation, QUANTITY_HINT};

fn hint() -> Validation {
    Validation::Invalid(QUANTITY_HINT.to_string())
}

#[test]
fn quantities_of_one_to_six_digits_pass() {
    assert_eq!(validate_number("1"), Ok(Validation::Valid));
    assert_eq!(validate_number("123"), Ok(Validation::Valid));
    assert_eq!(validate_number("999999"), Ok(Validation::Valid));
}

#[test]
fn other_quantities_are_refused_with_the_hint() {
    assert_eq!(validate_number(""), Ok(hint()));
    assert_eq!(validate_number("1234567"), Ok(hint()));
    assert_eq!(validate_number("12a"), Ok(hint()));
    assert_eq!(validate_number("-5"), Ok(hint()));
    assert_eq!(validate_number(" 5"), Ok(hint()));
}

#[test]
fn verdict_follows_the_match() {
    assert_eq!(quantity_verdict(true), Validation::Valid);
    assert_eq!(quantity_verdict(false), hint());
}

fn is_uuid_text(s: &str) -> bool {
    s.len() == 36
        && s.chars().enumerate().all(|(i, c)| {
            if [8, 13, 18, 23].contains(&i) {
                c == '-'
            } else {
                c.is_ascii_digit() || ('a'..='f').contains(&c)
            }
        })
}

#[test]
fn fresh_names_are_distinct_uuids() {
    let a = fresh_name();
    let b = fresh_name();
    assert!(is_uuid_text(&a));
    assert!(is_uuid_text(&b));
    assert_ne!(a, b);
}

#[test]
fn creator_puts_exactly_its_count() {
    let mut c = ObjectCreator::new("bucket".to_string(), 3);
    let mut keys = vec![];
    while let Some(p) = c.next_put() {
        assert_eq!(p.bucket, "bucket");
        assert_eq!(p.body, p.key);
        assert!(is_uuid_text(&p.key));
        keys.push(p.key);
    }
    assert_eq!(keys.len(), 3);
    keys.dedup();
    assert_eq!(keys.len(), 3);
}

#[test]
fn creator_of_zero_puts_nothing() {
    let mut c = ObjectCreator::new("bucket".to_string(), 0);
    assert!(c.next_put().is_none());
}

#[test]
fn sixteen_workers_fill_a_bucket() {
    let mut workers = object_creators(&"bucket".to_string(), 2);
    assert_eq!(workers.len(), CREATION_WORKERS);
    assert_eq!(CREATION_WORKERS, 16);
    let mut total = 0;
    for w in workers.iter_mut() {
        while w.next_put().is_some() {
            total += 1;
        }
    }
    assert_eq!(total, 32);
}

#[test]
fn menu_labels_name_their_operations() {
    let labels = operation_labels();
    let ops: Vec<Option<Operation>> = labels.iter().map(operation_from_label).collect();
    assert_eq!(
        ops,
        vec![
            Some(Operation::CleanupBucket),
            Some(Operation::CreateObjects),
            Some(Operation::CreateBucket),
            Some(Operation::DeleteBucket)
        ]
    );
    assert_eq!(labels[0], "Cleanup bucket");
}

#[test]
fn quit_words_and_unknown_answers() {
    for w in ["q", "quit", "exit"] {
        assert_eq!(operation_from_label(&w.to_string()), Some(Operation::Quit));
    }
    assert_eq!(operation_from_label(&"cleanup bucket".to_string()), None);
}

#[test]
fn authentication_choices() {
    let labels = auth_labels();
    let methods: Vec<AuthMethod> = labels.iter().map(auth_from_label).collect();
    assert_eq!(
        methods,
        vec![AuthMethod::Default, AuthMethod::EnvironmentVariables, AuthMethod::Profile, AuthMethod::Sso]
    );
    assert_eq!(auth_from_label(&"something else".to_string()), AuthMethod::Default);
}
