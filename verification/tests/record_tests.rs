use analyzer::record::{Record, RecordError, RecordKind};
use analyzer::reduce::Outcome;

#[test]
fn scenario_merged_author_closes() {
    let input = r#"{"html_url":"https://example.org/r/1","node_id":"PR_abc","user":{"id":7,"type":"User"},"author_association":"NONE","comments":2,"created_at":"2024-01-01T00:00:00Z","closed_at":"2024-01-02T00:00:00Z","time_line":[{"event":"merged","actor":{"id":7,"type":"User"},"created_at":"2024-01-01T12:00:00Z"}]}"#;
    let rec = Record::parse(input).unwrap();
    assert_eq!(rec.outcome, Outcome::Green);
    assert!(rec.author_is_closer);
    assert_eq!(rec.life_time_seconds, 86400);
    assert_eq!(rec.first_event_elapsed_seconds, 43200);
    assert_eq!(rec.kind, RecordKind::PR);
    assert_eq!(rec.participants_total, 1);
    assert_eq!(rec.comment_count, 2);
    assert_eq!(rec.commit_count, 0);
    assert_eq!(rec.first_comment_elapsed_seconds, -1);
}

#[test]
fn scenario_last_closer_event_wins() {
    let input = r#"{"html_url":"u","node_id":"I_1","user":{"id":1,"type":"User"},"author_association":"NONE","comments":0,"created_at":"2024-01-01T00:00:00Z","closed_at":"2024-01-03T00:00:00Z","time_line":[{"event":"closed","actor":{"id":9,"type":"User"},"author_association":"MEMBER","created_at":"2024-01-01T01:00:00Z"},{"event":"head_ref_force_pushed","actor":{"id":3,"type":"User"},"author_association":"CONTRIBUTOR","created_at":"2024-01-02T01:00:00Z"}]}"#;
    let rec = Record::parse(input).unwrap();
    // actor 3 wrote last: its role, Contributor, is the closer role, not
    // actor 9's Member.
    assert_eq!(rec.closer_role, analyzer::role::Role::Contributor);
    assert!(!rec.author_is_closer);
    assert_eq!(rec.participants_total, 3);
}

#[test]
fn scenario_completed_reason_upgrades_outcome() {
    let input = r#"{"html_url":"u","node_id":"I_1","user":{"id":1,"type":"User"},"author_association":"NONE","comments":0,"created_at":"2024-01-01T00:00:00Z","closed_at":"2024-01-02T00:00:00Z","state_reason":"completed","time_line":[{"event":"closed","actor":{"id":2,"type":"User"},"created_at":"2024-01-01T01:00:00Z"}]}"#;
    let rec = Record::parse(input).unwrap();
    assert_eq!(rec.outcome, Outcome::Green);
}

#[test]
fn scenario_other_reason_stays_red() {
    let input = r#"{"html_url":"u","node_id":"I_1","user":{"id":1,"type":"User"},"author_association":"NONE","comments":0,"created_at":"2024-01-01T00:00:00Z","closed_at":"2024-01-02T00:00:00Z","state_reason":"not_planned","time_line":[{"event":"closed","actor":{"id":2,"type":"User"},"created_at":"2024-01-01T01:00:00Z"}]}"#;
    let rec = Record::parse(input).unwrap();
    assert_eq!(rec.outcome, Outcome::Red);
}

#[test]
fn scenario_missing_close_time_is_dropped() {
    let input = r#"{"html_url":"u","node_id":"I_1","user":{"id":1,"type":"User"},"author_association":"NONE","comments":0,"created_at":"2024-01-01T00:00:00Z","time_line":[]}"#;
    assert_eq!(Record::parse(input), Err(RecordError::MissingOrInvalidCloseTime));
}

#[test]
fn scenario_bot_type_overrides_member_association() {
    let input = r#"{"html_url":"u","node_id":"I_1","user":{"id":1,"type":"Bot"},"author_association":"MEMBER","comments":0,"created_at":"2024-01-01T00:00:00Z","closed_at":"2024-01-02T00:00:00Z","time_line":[{"event":"closed","actor":{"id":1,"type":"Bot"},"author_association":"MEMBER","created_at":"2024-01-01T01:00:00Z"}]}"#;
    let rec = Record::parse(input).unwrap();
    assert_eq!(rec.author_role, analyzer::role::Role::Bot);
    assert_eq!(rec.closer_role, analyzer::role::Role::Bot);
    assert_eq!(rec.participants_bot, 1);
    assert_eq!(rec.participants_member, 0);
}

#[test]
fn empty_timeline_resolves_no_closer() {
    let input = r#"{"html_url":"u","node_id":"I_1","user":{"id":1,"type":"User"},"author_association":"NONE","comments":0,"created_at":"2024-01-01T00:00:00Z","closed_at":"2024-01-02T00:00:00Z","time_line":[]}"#;
    assert_eq!(Record::parse(input), Err(RecordError::NoCloserResolved));
}

#[test]
fn malformed_input_is_named() {
    assert_eq!(Record::parse("not json at all"), Err(RecordError::MalformedInput));
    assert_eq!(Record::parse("{\"a\":"), Err(RecordError::MalformedInput));
}

#[test]
fn missing_create_time_is_named() {
    let input = r#"{"html_url":"u","node_id":"I_1","user":{"id":1,"type":"User"},"closed_at":"2024-01-02T00:00:00Z","time_line":[]}"#;
    assert_eq!(Record::parse(input), Err(RecordError::MissingOrInvalidCreateTime));
}

#[test]
fn invalid_create_time_is_named() {
    let input = r#"{"html_url":"u","node_id":"I_1","user":{"id":1,"type":"User"},"created_at":"yesterday","closed_at":"2024-01-02T00:00:00Z","time_line":[]}"#;
    assert_eq!(Record::parse(input), Err(RecordError::MissingOrInvalidCreateTime));
}

#[test]
fn missing_timeline_is_named() {
    let input = r#"{"html_url":"u","node_id":"I_1","user":{"id":1,"type":"User"},"created_at":"2024-01-01T00:00:00Z","closed_at":"2024-01-02T00:00:00Z"}"#;
    assert_eq!(Record::parse(input), Err(RecordError::MissingTimeline));
}

#[test]
fn missing_author_id_is_named() {
    let input = r#"{"html_url":"u","node_id":"I_1","user":{"type":"User"},"created_at":"2024-01-01T00:00:00Z","closed_at":"2024-01-02T00:00:00Z","time_line":[]}"#;
    assert_eq!(Record::parse(input), Err(RecordError::MissingUserId));
}

#[test]
fn missing_event_actor_id_is_named() {
    let input = r#"{"html_url":"u","node_id":"I_1","user":{"id":1,"type":"User"},"created_at":"2024-01-01T00:00:00Z","closed_at":"2024-01-02T00:00:00Z","time_line":[{"event":"closed","actor":{"type":"User"},"created_at":"2024-01-01T01:00:00Z"}]}"#;
    assert_eq!(Record::parse(input), Err(RecordError::MissingUserId));
}

#[test]
fn assembling_twice_is_identical() {
    let input = r#"{"html_url":"u","node_id":"PR_1","user":{"id":1,"type":"User"},"author_association":"CONTRIBUTOR","comments":5,"created_at":"2024-03-01T08:30:00+02:00","closed_at":"2024-03-02T00:00:00Z","time_line":[{"event":"commented","actor":{"id":2,"type":"User"},"created_at":"2024-03-01T09:00:00+02:00"},{"event":"merged","actor":{"id":1,"type":"User"},"created_at":"2024-03-01T23:59:59+02:00"}]}"#;
    let first = Record::parse(input).unwrap();
    let second = Record::parse(input).unwrap();
    assert_eq!(first, second);
}

#[test]
fn participant_counts_partition_total() {
    let input = r#"{"html_url":"u","node_id":"I_1","user":{"id":1,"type":"Bot"},"comments":0,"created_at":"2024-01-01T00:00:00Z","closed_at":"2024-01-02T00:00:00Z","time_line":[{"event":"commented","actor":{"id":2,"type":"User"},"author_association":"member","created_at":"2024-01-01T01:00:00Z"},{"event":"commented","actor":{"id":3,"type":"User"},"author_association":"CONTRIBUTOR","created_at":"2024-01-01T02:00:00Z"},{"event":"labeled","actor":{"id":4,"type":"User"},"created_at":"2024-01-01T03:00:00Z"},{"event":"closed","actor":{"id":2,"type":"User"},"created_at":"2024-01-01T04:00:00Z"}]}"#;
    let rec = Record::parse(input).unwrap();
    assert_eq!(rec.participants_total, 4);
    assert_eq!(rec.participants_bot, 1);
    assert_eq!(rec.participants_member, 1);
    assert_eq!(rec.participants_contributor, 1);
    assert_eq!(rec.participants_user, 1);
    assert_eq!(
        rec.participants_bot + rec.participants_member + rec.participants_contributor
            + rec.participants_user,
        rec.participants_total
    );
    // the closer, actor 2, was first seen as a member and never reclassified
    assert_eq!(rec.closer_role, analyzer::role::Role::Member);
}

#[test]
fn first_comment_set_once_and_commits_counted() {
    let input = r#"{"html_url":"u","node_id":"I_1","user":{"id":1,"type":"User"},"comments":3,"created_at":"2024-01-01T00:00:00Z","closed_at":"2024-01-02T00:00:00Z","time_line":[{"event":"committed","created_at":"2024-01-01T00:10:00Z"},{"event":"committed","actor":{"id":2,"type":"User"},"created_at":"2024-01-01T00:20:00Z"},{"event":"commented","actor":{"id":3,"type":"User"},"created_at":"2024-01-01T01:00:00Z"},{"event":"commented","actor":{"id":4,"type":"User"},"created_at":"2024-01-01T02:00:00Z"},{"event":"closed","actor":{"id":1,"type":"User"},"created_at":"2024-01-01T03:00:00Z"}]}"#;
    let rec = Record::parse(input).unwrap();
    assert_eq!(rec.commit_count, 2);
    assert_eq!(rec.first_event_elapsed_seconds, 600);
    assert_eq!(rec.first_comment_elapsed_seconds, 3600);
    assert_eq!(rec.comment_count, 3);
    // the actor-less committed event adds no participant
    assert_eq!(rec.participants_total, 4);
}

#[test]
fn node_id_heuristic_picks_kind() {
    let pr = r#"{"html_url":"u","node_id":"P_9","user":{"id":1,"type":"User"},"comments":0,"created_at":"2024-01-01T00:00:00Z","closed_at":"2024-01-02T00:00:00Z","time_line":[{"event":"closed","actor":{"id":1,"type":"User"},"created_at":"2024-01-01T01:00:00Z"}]}"#;
    let issue = r#"{"html_url":"u","node_id":"I_9","user":{"id":1,"type":"User"},"comments":0,"created_at":"2024-01-01T00:00:00Z","closed_at":"2024-01-02T00:00:00Z","time_line":[{"event":"closed","actor":{"id":1,"type":"User"},"created_at":"2024-01-01T01:00:00Z"}]}"#;
    assert_eq!(Record::parse(pr).unwrap().kind, RecordKind::PR);
    assert_eq!(Record::parse(issue).unwrap().kind, RecordKind::Issue);
}

#[test]
fn negative_life_time_is_kept() {
    let input = r#"{"html_url":"u","node_id":"I_1","user":{"id":1,"type":"User"},"comments":0,"created_at":"2024-01-02T00:00:00Z","closed_at":"2024-01-01T00:00:00Z","time_line":[{"event":"closed","actor":{"id":1,"type":"User"},"created_at":"2024-01-02T01:00:00Z"}]}"#;
    let rec = Record::parse(input).unwrap();
    assert_eq!(rec.life_time_seconds, -86400);
}

#[test]
fn url_keeps_json_rendering() {
    let input = r#"{"html_url":"https://example.org/r/1","node_id":"I_1","user":{"id":1,"type":"User"},"comments":7,"created_at":"2024-01-01T00:00:00Z","closed_at":"2024-01-02T00:00:00Z","time_line":[{"event":"closed","actor":{"id":1,"type":"User"},"created_at":"2024-01-01T01:00:00Z"}]}"#;
    let rec = Record::parse(input).unwrap();
    assert_eq!(rec.url, "\"https://example.org/r/1\"");
    assert_eq!(rec.create_time, "2024-01-01 00:00:00 +00:00");
}

#[test]
fn first_event_time_is_applied_once() {
    // the first event lies one second before creation, elapsed exactly -1;
    // a later event must not overwrite that value with its own
    let input = r#"{"html_url":"u","node_id":"I_1","user":{"id":1,"type":"User"},"comments":0,"created_at":"2024-01-01T00:01:00Z","closed_at":"2024-01-02T00:00:00Z","time_line":[{"event":"commented","actor":{"id":2,"type":"User"},"created_at":"2024-01-01T00:00:59Z"},{"event":"closed","actor":{"id":3,"type":"User"},"created_at":"2024-01-01T00:02:00Z"}]}"#;
    let rec = Record::parse(input).unwrap();
    assert_eq!(rec.first_event_elapsed_seconds, -1);
    assert_eq!(rec.first_comment_elapsed_seconds, -1);
}

#[test]
fn event_user_member_resolves_the_actor() {
    let input = r#"{"html_url":"u","node_id":"I_1","user":{"id":1,"type":"User"},"comments":0,"created_at":"2024-01-01T00:00:00Z","closed_at":"2024-01-02T00:00:00Z","time_line":[{"event":"closed","user":{"id":4,"type":"User"},"author_association":"CONTRIBUTOR","created_at":"2024-01-01T01:00:00Z"}]}"#;
    let rec = Record::parse(input).unwrap();
    assert_eq!(rec.closer_role, analyzer::role::Role::Contributor);
    assert_eq!(rec.participants_total, 2);
}
