use submission_service::error::ErrorKind;
use submission_service::event::{self, EVENT_OPEN};
use submission_service::store::{create_tables, Store};
use submission_service::submission::{self, SUBMISSION_DRAFT};
use submission_service::user;

fn ready_store() -> Store {
    let mut store = Store::new();
    create_tables(&mut store).unwrap();
    store
}

#[test]
fn register_round_trip_reads_back_field_for_field() {
    let mut store = ready_store();
    let added = user::add_user(&mut store, "addr".to_string(), "m@x.com".to_string()).unwrap();
    let read = user::get_user(&store, "addr".to_string()).unwrap();
    assert_eq!(added, read);
    assert_eq!(read.near_address, "addr");
    assert_eq!(read.email, "m@x.com");
    assert_eq!(read.first_name, "");
    assert_eq!(read.is_student, 0);
    assert!(read.success);
    assert_eq!(read.err_msg, "");
}

#[test]
fn duplicate_address_fails_duplicate_key() {
    let mut store = ready_store();
    user::add_user(&mut store, "addr".to_string(), "m@x.com".to_string()).unwrap();
    let err =
        user::add_user(&mut store, "addr".to_string(), "other@x.com".to_string()).unwrap_err();
    assert_eq!(err.kind, ErrorKind::DuplicateKey);
    assert_eq!(err.message, "duplicate key: near_address");
}

#[test]
fn duplicate_email_fails_duplicate_key() {
    let mut store = ready_store();
    user::add_user(&mut store, "addr".to_string(), "m@x.com".to_string()).unwrap();
    let err = user::add_user(&mut store, "addr2".to_string(), "m@x.com".to_string()).unwrap_err();
    assert_eq!(err.kind, ErrorKind::DuplicateKey);
    assert_eq!(err.message, "duplicate key: email");
}

#[test]
fn update_user_round_trip() {
    let mut store = ready_store();
    user::add_user(&mut store, "addr".to_string(), "m@x.com".to_string()).unwrap();
    let updated = user::update_user(
        &mut store,
        "addr".to_string(),
        "Ada".to_string(),
        "Lovelace".to_string(),
        1,
        "UK".to_string(),
        "ada".to_string(),
        "ada-l".to_string(),
        "@ada".to_string(),
    )
    .unwrap();
    let read = user::get_user(&store, "addr".to_string()).unwrap();
    assert_eq!(updated, read);
    assert_eq!(read.near_address, "addr");
    assert_eq!(read.email, "m@x.com");
    assert_eq!(read.first_name, "Ada");
    assert_eq!(read.last_name, "Lovelace");
    assert_eq!(read.is_student, 1);
    assert_eq!(read.country, "UK");
    assert_eq!(read.git_handler, "ada");
    assert_eq!(read.linkedin_handler, "ada-l");
    assert_eq!(read.twitter_handler, "@ada");
}

#[test]
fn update_unknown_user_fails_not_found() {
    let mut store = ready_store();
    let err = user::update_user(
        &mut store,
        "nobody".to_string(),
        "A".to_string(),
        "B".to_string(),
        0,
        "C".to_string(),
        "D".to_string(),
        "E".to_string(),
        "F".to_string(),
    )
    .unwrap_err();
    assert_eq!(err.kind, ErrorKind::NotFound);
    assert_eq!(err.message, "Value doesn't exist");
}

#[test]
fn event_identifiers_increment_from_one() {
    let mut store = ready_store();
    for i in 0..3 {
        let e = event::add_event(
            &mut store,
            format!("E{}", i),
            "online".to_string(),
            "2024-01-01".to_string(),
            "".to_string(),
            "l".to_string(),
        )
        .unwrap();
        assert_eq!(e.id, i + 1);
        assert_eq!(e.status, EVENT_OPEN);
    }
}

#[test]
fn add_event_round_trip() {
    let mut store = ready_store();
    let added = event::add_event(
        &mut store,
        "Hack".to_string(),
        "online".to_string(),
        "2024-01-01".to_string(),
        "2024-01-02".to_string(),
        "logo.png".to_string(),
    )
    .unwrap();
    let read = event::get_event(&store, added.id).unwrap();
    assert_eq!(added, read);
    assert_eq!(read.title, "Hack");
    assert_eq!(read.event_type, "online");
    assert_eq!(read.start_date, "2024-01-01");
    assert_eq!(read.end_date, "2024-01-02");
    assert_eq!(read.logo, "logo.png");
}

#[test]
fn update_event_round_trip_keeps_id_and_status() {
    let mut store = ready_store();
    event::add_event(
        &mut store,
        "Old".to_string(),
        "online".to_string(),
        "2024-01-01".to_string(),
        "".to_string(),
        "l".to_string(),
    )
    .unwrap();
    event::close_event(&mut store, 1).unwrap();
    let updated = event::update_event(
        &mut store,
        1,
        "New".to_string(),
        "onsite".to_string(),
        "2024-02-01".to_string(),
        "2024-02-02".to_string(),
        "l2".to_string(),
    )
    .unwrap();
    let read = event::get_event(&store, 1).unwrap();
    assert_eq!(updated, read);
    assert_eq!(read.id, 1);
    assert_eq!(read.title, "New");
    // a closed event stays closed through content updates
    assert_eq!(read.status, submission_service::event::EVENT_CLOSED);
}

#[test]
fn get_missing_event_fails_not_found() {
    let store = ready_store();
    let err = event::get_event(&store, 1).unwrap_err();
    assert_eq!(err.kind, ErrorKind::NotFound);
    let err = event::get_event(&store, 0).unwrap_err();
    assert_eq!(err.kind, ErrorKind::NotFound);
    let err = event::get_event(&store, -3).unwrap_err();
    assert_eq!(err.kind, ErrorKind::NotFound);
}

#[test]
fn submission_round_trip_and_pair_lookup() {
    let mut store = ready_store();
    let added = submission::add_submission(
        &mut store,
        4,
        "Proj".to_string(),
        "desc".to_string(),
        "thumb".to_string(),
        "git://x".to_string(),
        "live://x".to_string(),
        "video://x".to_string(),
        "addr".to_string(),
    )
    .unwrap();
    assert_eq!(added.uuid, 1);
    assert_eq!(added.status, SUBMISSION_DRAFT);
    let by_id = submission::get_submission(&store, 1).unwrap();
    let by_pair =
        submission::get_user_submission_for_event(&store, "addr".to_string(), 4).unwrap();
    assert_eq!(added, by_id);
    assert_eq!(added, by_pair);
    assert_eq!(by_id.project_name, "Proj");
    assert_eq!(by_id.description, "desc");
    assert_eq!(by_id.thumbnail, "thumb");
    assert_eq!(by_id.git_url, "git://x");
    assert_eq!(by_id.live_demo_url, "live://x");
    assert_eq!(by_id.video_demo_url, "video://x");
    assert_eq!(by_id.submit_by, "addr");
    assert_eq!(by_id.created_by, "");
}

#[test]
fn store_enforces_pair_uniqueness_itself() {
    let mut store = ready_store();
    submission::add_submission(
        &mut store,
        1,
        "A".to_string(),
        "a".to_string(),
        "".to_string(),
        "g".to_string(),
        "".to_string(),
        "v".to_string(),
        "addr".to_string(),
    )
    .unwrap();
    // same participant, same event: refused by the store, not by a workflow check
    let err = submission::add_submission(
        &mut store,
        1,
        "B".to_string(),
        "b".to_string(),
        "".to_string(),
        "g".to_string(),
        "".to_string(),
        "v".to_string(),
        "addr".to_string(),
    )
    .unwrap_err();
    assert_eq!(err.kind, ErrorKind::DuplicateKey);
    assert_eq!(err.message, "duplicate key: submit_by, event_id");
    // same participant, another event: fine
    assert!(submission::add_submission(
        &mut store,
        2,
        "B".to_string(),
        "b".to_string(),
        "".to_string(),
        "g".to_string(),
        "".to_string(),
        "v".to_string(),
        "addr".to_string(),
    )
    .is_ok());
}

#[test]
fn listing_by_event_keeps_order_and_filters() {
    let mut store = ready_store();
    for (i, by) in ["p1", "p2", "p3"].iter().enumerate() {
        submission::add_submission(
            &mut store,
            if i == 1 { 2 } else { 1 },
            format!("P{}", i),
            "d".to_string(),
            "".to_string(),
            "g".to_string(),
            "".to_string(),
            "v".to_string(),
            by.to_string(),
        )
        .unwrap();
    }
    let all = submission::get_submissions(&store).unwrap();
    assert_eq!(all.len(), 3);
    let for_one = submission::get_submissions_by_event(&store, 1).unwrap();
    assert_eq!(for_one.len(), 2);
    assert_eq!(for_one[0].submit_by, "p1");
    assert_eq!(for_one[1].submit_by, "p3");
    assert!(submission::get_submissions_by_event(&store, 9)
        .unwrap()
        .is_empty());
}

#[test]
fn storage_errors_when_tables_absent() {
    let store = Store::new();
    let err = user::get_user(&store, "a".to_string()).unwrap_err();
    assert_eq!(err.kind, ErrorKind::Storage);
    assert_eq!(err.message, "no such table");
    let err = event::get_events(&store).unwrap_err();
    assert_eq!(err.kind, ErrorKind::Storage);
    let err = submission::get_submissions(&store).unwrap_err();
    assert_eq!(err.kind, ErrorKind::Storage);
}
