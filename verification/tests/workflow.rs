use submission_service::error::ErrorKind;
use submission_service::event::{EVENT_CLOSED, EVENT_OPEN};
use submission_service::service::{
    add_event, close_event, draft, draft_submission, get_event, get_event_submissions,
    get_live_events, get_submission, get_submissions, get_user, get_user_event_submission,
    init_service, register_user, reset_service, submit, update_submission,
};
use submission_service::store::Store;
use submission_service::submission::{SUBMISSION_DRAFT, SUBMISSION_SUBMITTED};

fn ready_store() -> Store {
    let mut store = Store::new();
    let r = init_service(&mut store, true);
    assert!(r.success);
    store
}

#[test]
fn concrete_scenario() {
    let mut store = ready_store();

    let u = register_user(&mut store, "addr1".to_string(), "a@x.com".to_string());
    assert!(u.success);

    let e = add_event(
        &mut store,
        "Hack".to_string(),
        "online".to_string(),
        "2024-01-01".to_string(),
        "2024-01-02".to_string(),
        "logo.png".to_string(),
    );
    assert!(e.success);
    assert_eq!(e.id, 1);
    assert_eq!(e.status, EVENT_OPEN);

    let s = draft(
        &mut store,
        1,
        "Proj".to_string(),
        "desc".to_string(),
        "".to_string(),
        "git://x".to_string(),
        "".to_string(),
        "video://x".to_string(),
        "addr1".to_string(),
    );
    assert!(s.success);
    assert_eq!(s.status, SUBMISSION_DRAFT);
    assert_eq!(s.event_id, 1);
    assert_eq!(s.submit_by, "addr1");

    let submitted = submit(&mut store, s.uuid);
    assert!(submitted.success);
    assert_eq!(submitted.status, SUBMISSION_SUBMITTED);

    let again = draft(
        &mut store,
        1,
        "Other".to_string(),
        "d2".to_string(),
        "".to_string(),
        "git://y".to_string(),
        "".to_string(),
        "video://y".to_string(),
        "addr1".to_string(),
    );
    assert!(!again.success);
    assert_eq!(again.err_msg, "already submitted");
}

#[test]
fn one_submission_rule_regardless_of_fields() {
    let mut store = ready_store();
    register_user(&mut store, "p".to_string(), "p@x.com".to_string());
    add_event(
        &mut store,
        "E".to_string(),
        "online".to_string(),
        "2024-01-01".to_string(),
        "".to_string(),
        "l".to_string(),
    );
    let first = draft_submission(
        &mut store,
        1,
        "A".to_string(),
        "a".to_string(),
        "".to_string(),
        "g".to_string(),
        "".to_string(),
        "v".to_string(),
        "p".to_string(),
    );
    assert!(first.is_ok());
    let second = draft_submission(
        &mut store,
        1,
        "B".to_string(),
        "b".to_string(),
        "t".to_string(),
        "g2".to_string(),
        "l2".to_string(),
        "v2".to_string(),
        "p".to_string(),
    );
    let err = second.unwrap_err();
    assert_eq!(err.kind, ErrorKind::Conflict);
    assert_eq!(err.message, "already submitted");
}

#[test]
fn draft_validation_errors_in_order() {
    let mut store = ready_store();
    // unknown participant comes first
    let err = draft_submission(
        &mut store,
        1,
        "P".to_string(),
        "d".to_string(),
        "".to_string(),
        "g".to_string(),
        "".to_string(),
        "v".to_string(),
        "ghost".to_string(),
    )
    .unwrap_err();
    assert_eq!(err.kind, ErrorKind::Validation);
    assert_eq!(err.message, "unknown participant");

    register_user(&mut store, "ghost".to_string(), "g@x.com".to_string());
    let err = draft_submission(
        &mut store,
        7,
        "P".to_string(),
        "d".to_string(),
        "".to_string(),
        "g".to_string(),
        "".to_string(),
        "v".to_string(),
        "ghost".to_string(),
    )
    .unwrap_err();
    assert_eq!(err.kind, ErrorKind::Validation);
    assert_eq!(err.message, "unknown event");
}

#[test]
fn drafting_into_closed_event_is_permitted() {
    let mut store = ready_store();
    register_user(&mut store, "p".to_string(), "p@x.com".to_string());
    add_event(
        &mut store,
        "E".to_string(),
        "online".to_string(),
        "2024-01-01".to_string(),
        "".to_string(),
        "l".to_string(),
    );
    close_event(&mut store, 1);
    let s = draft(
        &mut store,
        1,
        "P".to_string(),
        "d".to_string(),
        "".to_string(),
        "g".to_string(),
        "".to_string(),
        "v".to_string(),
        "p".to_string(),
    );
    assert!(s.success);
    assert_eq!(s.status, SUBMISSION_DRAFT);
}

#[test]
fn status_gate_update_after_submit_changes_nothing() {
    let mut store = ready_store();
    register_user(&mut store, "p".to_string(), "p@x.com".to_string());
    add_event(
        &mut store,
        "E".to_string(),
        "online".to_string(),
        "2024-01-01".to_string(),
        "".to_string(),
        "l".to_string(),
    );
    let s = draft(
        &mut store,
        1,
        "Original".to_string(),
        "text".to_string(),
        "t".to_string(),
        "g".to_string(),
        "l".to_string(),
        "v".to_string(),
        "p".to_string(),
    );
    submit(&mut store, s.uuid);

    let reply = update_submission(
        &mut store,
        s.uuid,
        "Hijacked".to_string(),
        "x".to_string(),
        "x".to_string(),
        "x".to_string(),
        "x".to_string(),
        "x".to_string(),
    );
    // the silent variant: the call reports success and writes nothing
    assert!(reply.success);
    let back = get_submission(&store, s.uuid);
    assert_eq!(back.project_name, "Original");
    assert_eq!(back.description, "text");
    assert_eq!(back.status, SUBMISSION_SUBMITTED);
}

#[test]
fn update_while_draft_replaces_content() {
    let mut store = ready_store();
    register_user(&mut store, "p".to_string(), "p@x.com".to_string());
    add_event(
        &mut store,
        "E".to_string(),
        "online".to_string(),
        "2024-01-01".to_string(),
        "".to_string(),
        "l".to_string(),
    );
    let s = draft(
        &mut store,
        1,
        "Original".to_string(),
        "text".to_string(),
        "t".to_string(),
        "g".to_string(),
        "l".to_string(),
        "v".to_string(),
        "p".to_string(),
    );
    let reply = update_submission(
        &mut store,
        s.uuid,
        "New".to_string(),
        "d2".to_string(),
        "t2".to_string(),
        "g2".to_string(),
        "l2".to_string(),
        "v2".to_string(),
    );
    assert!(reply.success);
    let back = get_submission(&store, s.uuid);
    assert_eq!(back.project_name, "New");
    assert_eq!(back.description, "d2");
    assert_eq!(back.thumbnail, "t2");
    assert_eq!(back.git_url, "g2");
    assert_eq!(back.live_demo_url, "l2");
    assert_eq!(back.video_demo_url, "v2");
    assert_eq!(back.submit_by, "p");
    assert_eq!(back.status, SUBMISSION_DRAFT);
}

#[test]
fn update_missing_submission_fails_not_found() {
    let mut store = ready_store();
    let reply = update_submission(
        &mut store,
        9,
        "N".to_string(),
        "d".to_string(),
        "t".to_string(),
        "g".to_string(),
        "l".to_string(),
        "v".to_string(),
    );
    assert!(!reply.success);
    assert_eq!(reply.err_msg, "Value doesn't exist");
}

#[test]
fn idempotent_close() {
    let mut store = ready_store();
    add_event(
        &mut store,
        "E".to_string(),
        "online".to_string(),
        "2024-01-01".to_string(),
        "".to_string(),
        "l".to_string(),
    );
    let first = close_event(&mut store, 1);
    assert!(first.success);
    assert_eq!(first.status, EVENT_CLOSED);
    let second = close_event(&mut store, 1);
    assert!(second.success);
    assert_eq!(second.status, EVENT_CLOSED);
    assert_eq!(get_event(&store, 1).status, EVENT_CLOSED);
}

#[test]
fn idempotent_submit() {
    let mut store = ready_store();
    register_user(&mut store, "p".to_string(), "p@x.com".to_string());
    add_event(
        &mut store,
        "E".to_string(),
        "online".to_string(),
        "2024-01-01".to_string(),
        "".to_string(),
        "l".to_string(),
    );
    let s = draft(
        &mut store,
        1,
        "P".to_string(),
        "d".to_string(),
        "".to_string(),
        "g".to_string(),
        "".to_string(),
        "v".to_string(),
        "p".to_string(),
    );
    let once = submit(&mut store, s.uuid);
    let twice = submit(&mut store, s.uuid);
    assert!(once.success && twice.success);
    assert_eq!(once.status, SUBMISSION_SUBMITTED);
    assert_eq!(twice.status, SUBMISSION_SUBMITTED);
    assert_eq!(once.project_name, twice.project_name);
}

#[test]
fn live_events_filters_closed_ones() {
    let mut store = ready_store();
    for i in 0..3 {
        add_event(
            &mut store,
            format!("E{}", i),
            "online".to_string(),
            "2024-01-01".to_string(),
            "".to_string(),
            "l".to_string(),
        );
    }
    close_event(&mut store, 2);
    let live = get_live_events(&store);
    assert_eq!(live.len(), 2);
    assert_eq!(live[0].id, 1);
    assert_eq!(live[1].id, 3);
    assert!(live.iter().all(|e| e.status == EVENT_OPEN));
}

#[test]
fn owner_gate_blocks_init_and_reset() {
    let mut store = Store::new();
    let r = init_service(&mut store, false);
    assert!(!r.success);
    assert_eq!(r.err_msg, "You are not the owner!");
    assert!(!store.tables_ready);

    let r = reset_service(&mut store, false);
    assert!(!r.success);
    assert_eq!(r.err_msg, "You are not the owner!");
}

#[test]
fn operations_before_init_report_storage_failure() {
    let mut store = Store::new();
    let u = register_user(&mut store, "a".to_string(), "a@x.com".to_string());
    assert!(!u.success);
    assert_eq!(u.err_msg, "no such table");
    let e = add_event(
        &mut store,
        "E".to_string(),
        "online".to_string(),
        "2024-01-01".to_string(),
        "".to_string(),
        "l".to_string(),
    );
    assert!(!e.success);
    assert_eq!(e.err_msg, "no such table");
    assert!(get_live_events(&store).is_empty());
}

#[test]
fn reset_drops_rows_but_keeps_team_table() {
    let mut store = ready_store();
    register_user(&mut store, "a".to_string(), "a@x.com".to_string());
    let r = reset_service(&mut store, true);
    assert!(r.success);
    assert!(!store.tables_ready);
    assert!(store.team_table_ready);
    assert!(store.users.is_empty());
    let u = get_user(&store, "a".to_string());
    assert!(!u.success);
    assert_eq!(u.err_msg, "no such table");

    // the schema can be created again afterwards
    let r = init_service(&mut store, true);
    assert!(r.success);
    let u = get_user(&store, "a".to_string());
    assert!(!u.success);
    assert_eq!(u.err_msg, "Value doesn't exist");
}

#[test]
fn listings_and_pair_lookup_through_the_service() {
    let mut store = ready_store();
    register_user(&mut store, "p1".to_string(), "p1@x.com".to_string());
    register_user(&mut store, "p2".to_string(), "p2@x.com".to_string());
    for _ in 0..2 {
        add_event(
            &mut store,
            "E".to_string(),
            "online".to_string(),
            "2024-01-01".to_string(),
            "".to_string(),
            "l".to_string(),
        );
    }
    for (by, ev) in [("p1", 1), ("p1", 2), ("p2", 2)] {
        let s = draft(
            &mut store,
            ev,
            format!("{by}-{ev}"),
            "d".to_string(),
            "".to_string(),
            "g".to_string(),
            "".to_string(),
            "v".to_string(),
            by.to_string(),
        );
        assert!(s.success);
    }
    assert_eq!(get_submissions(&store).len(), 3);
    let second_event = get_event_submissions(&store, 2);
    assert_eq!(second_event.len(), 2);
    assert_eq!(second_event[0].submit_by, "p1");
    assert_eq!(second_event[1].submit_by, "p2");

    let found = get_user_event_submission(&store, "p1".to_string(), 2);
    assert!(found.success);
    assert_eq!(found.project_name, "p1-2");
    let missing = get_user_event_submission(&store, "p2".to_string(), 1);
    assert!(!missing.success);
    assert_eq!(missing.err_msg, "Value doesn't exist");
}

#[test]
fn init_is_idempotent_and_keeps_rows() {
    let mut store = ready_store();
    register_user(&mut store, "a".to_string(), "a@x.com".to_string());
    let r = init_service(&mut store, true);
    assert!(r.success);
    assert!(get_user(&store, "a".to_string()).success);
}
