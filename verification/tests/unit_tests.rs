use analyzer::raw::{RawActor, RawEvent};
use analyzer::reduce::{reduce, Outcome, ReduceError};
use analyzer::role::{classify, Role};
use analyzer::time::{elapsed_seconds, Timestamp};

fn ts(secs: i64, nanos: u32) -> Timestamp {
    Timestamp { secs, nanos, text: String::new() }
}

#[test]
fn elapsed_truncates_toward_zero() {
    assert_eq!(elapsed_seconds(&ts(0, 0), &ts(86400, 0)), 86400);
    assert_eq!(elapsed_seconds(&ts(86400, 0), &ts(0, 0)), -86400);
    // a span of 0.1 seconds holds no whole second, in either direction
    assert_eq!(elapsed_seconds(&ts(0, 900_000_000), &ts(1, 0)), 0);
    assert_eq!(elapsed_seconds(&ts(1, 0), &ts(0, 900_000_000)), 0);
    // -1.5 seconds truncates to -1
    assert_eq!(elapsed_seconds(&ts(0, 500_000_000), &ts(-1, 0)), -1);
    // 1.5 seconds truncates to 1
    assert_eq!(elapsed_seconds(&ts(-1, 0), &ts(0, 500_000_000)), 1);
    assert_eq!(elapsed_seconds(&ts(5, 0), &ts(5, 0)), 0);
}

#[test]
fn classify_follows_the_quirks() {
    let bot = String::from("Bot");
    let user = String::from("User");
    let member_upper = String::from("MEMBER");
    let member_mixed = String::from("mEmBeR");
    let contributor = String::from("CONTRIBUTOR");
    let contributor_lower = String::from("contributor");
    // a declared bot wins over any association
    assert_eq!(classify(Some(&bot), Some(&member_upper)), Role::Bot);
    // member is matched in any letter case
    assert_eq!(classify(Some(&user), Some(&member_upper)), Role::Member);
    assert_eq!(classify(Some(&user), Some(&member_mixed)), Role::Member);
    // contributor is matched exactly, and only exactly
    assert_eq!(classify(Some(&user), Some(&contributor)), Role::Contributor);
    assert_eq!(classify(Some(&user), Some(&contributor_lower)), Role::PlainUser);
    // no association, or no account type at all, falls back to plain user
    assert_eq!(classify(Some(&user), None), Role::PlainUser);
    assert_eq!(classify(None, None), Role::PlainUser);
}

fn event(kind: &str, actor_id: Option<u64>, at: Option<Timestamp>) -> RawEvent {
    RawEvent {
        time: at,
        kind: Some(String::from(kind)),
        actor: actor_id.map(|id| RawActor { id: Some(id), kind: Some(String::from("User")) }),
        user: None,
        association: None,
    }
}

#[test]
fn empty_timeline_keeps_sentinels() {
    let create = ts(1000, 0);
    let out = reduce(&create, 1, Role::PlainUser, &Vec::new()).unwrap();
    assert_eq!(out.first_event_elapsed, None);
    assert_eq!(out.first_comment_elapsed, None);
    assert_eq!(out.commit_count, 0);
    assert_eq!(out.closer_id, 0);
    assert_eq!(out.outcome, Outcome::Red);
    assert_eq!(out.participants, vec![(1, Role::PlainUser)]);
}

#[test]
fn reduce_records_last_closer_and_green_on_merge() {
    let create = ts(0, 0);
    let events = vec![
        event("closed", Some(9), Some(ts(10, 0))),
        event("merged", Some(3), Some(ts(20, 0))),
        event("head_ref_force_pushed", Some(5), Some(ts(30, 0))),
    ];
    let out = reduce(&create, 1, Role::PlainUser, &events).unwrap();
    assert_eq!(out.closer_id, 5);
    assert_eq!(out.outcome, Outcome::Green);
    assert_eq!(out.first_event_elapsed, Some(10));
}

#[test]
fn reduce_fails_on_actor_without_id() {
    let create = ts(0, 0);
    let events = vec![RawEvent {
        time: Some(ts(5, 0)),
        kind: Some(String::from("closed")),
        actor: Some(RawActor { id: None, kind: Some(String::from("User")) }),
        user: None,
        association: None,
    }];
    assert_eq!(
        reduce(&create, 1, Role::PlainUser, &events),
        Err(ReduceError::MissingActorId)
    );
}

#[test]
fn reduce_never_reclassifies_a_known_actor() {
    let create = ts(0, 0);
    let mut first = event("commented", Some(2), Some(ts(10, 0)));
    first.association = Some(String::from("CONTRIBUTOR"));
    let mut second = event("closed", Some(2), Some(ts(20, 0)));
    second.association = Some(String::from("MEMBER"));
    let events = vec![first, second];
    let out = reduce(&create, 1, Role::PlainUser, &events).unwrap();
    assert_eq!(out.participants, vec![(1, Role::PlainUser), (2, Role::Contributor)]);
    assert_eq!(out.first_comment_elapsed, Some(10));
}

#[test]
fn first_metrics_are_applied_once_even_at_minus_one() {
    // an event one second before creation has elapsed time exactly -1;
    // the value is applied once and a later event must not overwrite it
    let create = ts(100, 0);
    let events = vec![
        event("commented", Some(2), Some(ts(99, 0))),
        event("closed", Some(3), Some(ts(300, 0))),
    ];
    let out = reduce(&create, 1, Role::PlainUser, &events).unwrap();
    assert_eq!(out.first_event_elapsed, Some(-1));
    assert_eq!(out.first_comment_elapsed, Some(-1));
}

#[test]
fn actor_member_is_preferred_over_user_member() {
    let create = ts(0, 0);
    let both = RawEvent {
        time: Some(ts(10, 0)),
        kind: Some(String::from("closed")),
        actor: Some(RawActor { id: Some(7), kind: Some(String::from("User")) }),
        user: Some(RawActor { id: Some(8), kind: Some(String::from("User")) }),
        association: None,
    };
    let out = reduce(&create, 1, Role::PlainUser, &vec![both]).unwrap();
    assert_eq!(out.closer_id, 7);
    assert_eq!(out.participants, vec![(1, Role::PlainUser), (7, Role::PlainUser)]);
}

#[test]
fn user_member_is_the_fallback_actor() {
    let create = ts(0, 0);
    let only_user = RawEvent {
        time: Some(ts(10, 0)),
        kind: Some(String::from("closed")),
        actor: None,
        user: Some(RawActor { id: Some(8), kind: Some(String::from("User")) }),
        association: None,
    };
    let out = reduce(&create, 1, Role::PlainUser, &vec![only_user]).unwrap();
    assert_eq!(out.closer_id, 8);
}

#[test]
fn an_actor_member_without_id_shadows_the_user_member() {
    let create = ts(0, 0);
    let shadowed = RawEvent {
        time: Some(ts(10, 0)),
        kind: Some(String::from("closed")),
        actor: Some(RawActor { id: None, kind: None }),
        user: Some(RawActor { id: Some(8), kind: Some(String::from("User")) }),
        association: None,
    };
    assert_eq!(
        reduce(&create, 1, Role::PlainUser, &vec![shadowed]),
        Err(ReduceError::MissingActorId)
    );
}
