//! The record assembler: from one raw activity log to a flat record, or to
//! one of the named failures.

use crate::raw::{RawItem, RawItemView};
use crate::reduce::{
    contains_id, count_role, initial_reduction, lemma_reduce_closer_contained,
    lemma_role_counts_partition, lemma_role_of_is_assigned, lookup_role, reduce, reduce_spec,
    role_of, Outcome, ReduceError,
};
use crate::role::{classify, classify_spec, string_is, Role};
use crate::time::{elapsed_of, elapsed_seconds};
use vstd::prelude::*;

verus! {

/// The two kinds of trackable items.
#[derive(Clone, Copy, Debug, PartialEq, Eq, Structural)]
pub enum RecordKind {
    Issue,
    PR,
}

/// Why one raw item yields no record.  Every kind is per-record: the caller
/// skips the item and continues.
#[derive(Clone, Copy, Debug, PartialEq, Eq, Structural)]
pub enum RecordError {
    /// The input is not well-formed JSON.
    MalformedInput,
    /// No creation timestamp, or one that does not parse.
    MissingOrInvalidCreateTime,
    /// No close timestamp, or one that does not parse.
    MissingOrInvalidCloseTime,
    /// No timeline array, not even an empty one.
    MissingTimeline,
    /// An author or event actor whose id cannot be resolved.
    MissingUserId,
    /// No closing, merging or force-pushing actor was ever recorded.
    NoCloserResolved,
}

/// One flat, analysis-ready record.
#[derive(Debug, PartialEq, Eq)]
pub struct Record {
    pub kind: RecordKind,
    pub url: String,
    pub author_role: Role,
    pub closer_role: Role,
    pub author_is_closer: bool,
    pub participants_total: usize,
    pub participants_bot: usize,
    pub participants_member: usize,
    pub participants_contributor: usize,
    pub participants_user: usize,
    pub create_time: String,
    pub life_time_seconds: i64,
    pub first_event_elapsed_seconds: i64,
    pub first_comment_elapsed_seconds: i64,
    pub commit_count: u64,
    pub comment_count: u64,
    pub outcome: Outcome,
}

/// Mathematical image of a [`Record`].
#[verifier::ext_equal]
pub ghost struct RecordView {
    pub kind: RecordKind,
    pub url: Seq<char>,
    pub author_role: Role,
    pub closer_role: Role,
    pub author_is_closer: bool,
    pub participants_total: int,
    pub participants_bot: int,
    pub participants_member: int,
    pub participants_contributor: int,
    pub participants_user: int,
    pub create_time: Seq<char>,
    pub life_time_seconds: int,
    pub first_event_elapsed_seconds: int,
    pub first_comment_elapsed_seconds: int,
    pub commit_count: int,
    pub comment_count: int,
    pub outcome: Outcome,
}

impl View for Record {
    type V = RecordView;

    open spec fn view(&self) -> RecordView {
        RecordView {
            kind: self.kind,
            url: self.url@,
            author_role: self.author_role,
            closer_role: self.closer_role,
            author_is_closer: self.author_is_closer,
            participants_total: self.participants_total as int,
            participants_bot: self.participants_bot as int,
            participants_member: self.participants_member as int,
            participants_contributor: self.participants_contributor as int,
            participants_user: self.participants_user as int,
            create_time: self.create_time@,
            life_time_seconds: self.life_time_seconds as int,
            first_event_elapsed_seconds: self.first_event_elapsed_seconds as int,
            first_comment_elapsed_seconds: self.first_comment_elapsed_seconds as int,
            commit_count: self.commit_count as int,
            comment_count: self.comment_count as int,
            outcome: self.outcome,
        }
    }
}

/// A result of assembly, up to views.
pub open spec fn result_view(r: Result<Record, RecordError>) -> Result<RecordView, RecordError> {
    match r {
        Ok(rec) => Ok(rec@),
        Err(e) => Err(e),
    }
}

/// What assembling one raw item yields.  The preconditions are checked in
/// order, each with its own failure kind; then the timeline is reduced;
/// then a still-Red outcome is upgraded by a record-level "completed"
/// reason; a record comes out only when a closer was resolved.
pub open spec fn assemble_spec(v: RawItemView) -> Result<RecordView, RecordError> {
    if v.created_at is None {
        Err(RecordError::MissingOrInvalidCreateTime)
    } else if v.closed_at is None {
        Err(RecordError::MissingOrInvalidCloseTime)
    } else if v.timeline is None {
        Err(RecordError::MissingTimeline)
    } else if !(v.author matches Some(a) && a.id is Some) {
        Err(RecordError::MissingUserId)
    } else {
        let create = v.created_at->0;
        let author = v.author->0;
        let author_id = author.id->0;
        let author_role = classify_spec(author.kind, v.author_association);
        match reduce_spec(create, author_id, author_role, v.timeline->0) {
            Err(_) => Err(RecordError::MissingUserId),
            Ok(red) => {
                let outcome = if red.outcome is Red && (v.state_reason matches Some(sr) && sr
                    == "completed"@) {
                    Outcome::Green
                } else {
                    red.outcome
                };
                if red.closer_id == 0 {
                    Err(RecordError::NoCloserResolved)
                } else {
                    Ok(
                        RecordView {
                            kind: if v.node_id matches Some(n) && n.len() > 0 && n[0] == 'P' {
                                RecordKind::PR
                            } else {
                                RecordKind::Issue
                            },
                            url: v.url,
                            author_role,
                            closer_role: role_of(red.participants, red.closer_id),
                            author_is_closer: author_id == red.closer_id,
                            participants_total: red.participants.len() as int,
                            participants_bot: count_role(red.participants, Role::Bot),
                            participants_member: count_role(red.participants, Role::Member),
                            participants_contributor: count_role(
                                red.participants,
                                Role::Contributor,
                            ),
                            participants_user: count_role(red.participants, Role::PlainUser),
                            create_time: create.text,
                            life_time_seconds: elapsed_of(create, v.closed_at->0),
                            first_event_elapsed_seconds: match red.first_event_elapsed {
                                Some(v) => v,
                                None => -1,
                            },
                            first_comment_elapsed_seconds: match red.first_comment_elapsed {
                                Some(v) => v,
                                None => -1,
                            },
                            commit_count: red.commit_count,
                            comment_count: match v.comments {
                                Some(c) => c as int,
                                None => 0,
                            },
                            outcome,
                        },
                    )
                }
            },
        }
    }
}

impl Record {
    /// Assemble one raw item, exactly as [`assemble_spec`] says.  On
    /// success the four per-role participant counts partition the total,
    /// and the life time is exactly the elapsed seconds from creation to
    /// close, negative included.
    pub fn assemble(raw: &RawItem) -> (r: Result<Record, RecordError>)
        requires
            raw.wf(),
        ensures
            result_view(r) == assemble_spec(raw@),
            r matches Ok(rec) ==> rec.participants_bot + rec.participants_member
                + rec.participants_contributor + rec.participants_user == rec.participants_total,
            r matches Ok(rec) ==> {
                &&& raw@.created_at is Some
                &&& raw@.closed_at is Some
                &&& rec.life_time_seconds == elapsed_of(raw@.created_at->0, raw@.closed_at->0)
            },
    {
        let create = match &raw.created_at {
            Some(t) => t,
            None => {
                return Err(RecordError::MissingOrInvalidCreateTime);
            },
        };
        let close = match &raw.closed_at {
            Some(t) => t,
            None => {
                return Err(RecordError::MissingOrInvalidCloseTime);
            },
        };
        let events = match &raw.timeline {
            Some(v) => v,
            None => {
                return Err(RecordError::MissingTimeline);
            },
        };
        let (author_id, author_kind) = match &raw.author {
            Some(a) => match a.id {
                Some(id) => (id, a.kind.as_ref()),
                None => {
                    return Err(RecordError::MissingUserId);
                },
            },
            None => {
                return Err(RecordError::MissingUserId);
            },
        };
        let author_role = classify(author_kind, raw.author_association.as_ref());
        let red = match reduce(create, author_id, author_role, events) {
            Ok(red) => red,
            Err(ReduceError::MissingActorId) => {
                return Err(RecordError::MissingUserId);
            },
        };
        let mut outcome = red.outcome;
        if red.outcome == Outcome::Red {
            if let Some(sr) = &raw.state_reason {
                if string_is(sr, "completed") {
                    outcome = Outcome::Green;
                }
            }
        }
        if red.closer_id == 0 {
            return Err(RecordError::NoCloserResolved);
        }
        let closer_role = match lookup_role(&red.participants, red.closer_id) {
            Some(role) => role,
            None => {
                proof {
                    assert(false);
                }
                Role::PlainUser
            },
        };
        let kind = match &raw.node_id {
            Some(n) => {
                let s = n.as_str();
                if s.unicode_len() > 0 && s.get_char(0) == 'P' {
                    RecordKind::PR
                } else {
                    RecordKind::Issue
                }
            },
            None => RecordKind::Issue,
        };
        let mut bot: usize = 0;
        let mut member: usize = 0;
        let mut contributor: usize = 0;
        let mut user: usize = 0;
        let mut i: usize = 0;
        while i < red.participants.len()
            invariant
                0 <= i <= red.participants@.len(),
                bot == count_role(red.participants@.take(i as int), Role::Bot),
                member == count_role(red.participants@.take(i as int), Role::Member),
                contributor == count_role(red.participants@.take(i as int), Role::Contributor),
                user == count_role(red.participants@.take(i as int), Role::PlainUser),
                bot + member + contributor + user == i,
            decreases red.participants@.len() - i,
        {
            proof {
                assert(red.participants@.take(i as int + 1).drop_last() =~= red.participants@.take(
                    i as int,
                ));
                assert(red.participants@.take(i as int + 1).last() == red.participants@[i as int]);
            }
            let role = red.participants[i].1;
            match role {
                Role::Bot => {
                    bot = bot + 1;
                },
                Role::Member => {
                    member = member + 1;
                },
                Role::Contributor => {
                    contributor = contributor + 1;
                },
                Role::PlainUser => {
                    user = user + 1;
                },
            }
            i = i + 1;
        }
        proof {
            assert(red.participants@.take(red.participants@.len() as int) =~= red.participants@);
            lemma_role_counts_partition(red.participants@);
        }
        let rec = Record {
            kind,
            url: raw.url.clone(),
            author_role,
            closer_role,
            author_is_closer: author_id == red.closer_id,
            participants_total: red.participants.len(),
            participants_bot: bot,
            participants_member: member,
            participants_contributor: contributor,
            participants_user: user,
            create_time: create.text.clone(),
            life_time_seconds: elapsed_seconds(create, close),
            first_event_elapsed_seconds: match red.first_event_elapsed {
                Some(v) => v,
                None => -1,
            },
            first_comment_elapsed_seconds: match red.first_comment_elapsed {
                Some(v) => v,
                None => -1,
            },
            commit_count: red.commit_count,
            comment_count: match raw.comments {
                Some(c) => c,
                None => 0,
            },
            outcome,
        };
        proof {
            assert(rec@ =~= assemble_spec(raw@)->Ok_0);
        }
        Ok(rec)
    }

    /// Parse one raw JSON activity log and assemble its record.  The text
    /// must be one well-formed JSON value or the result is
    /// `MalformedInput`; on well-formed text the result is exactly
    /// [`assemble_spec`] on the fields the text carries, so in particular
    /// an accepted record satisfies the participant-count partition.
    pub fn parse(s: &str) -> (r: Result<Record, RecordError>)
        ensures
            r == Err::<Record, RecordError>(RecordError::MalformedInput) <==> !crate::json::json_wellformed(
                s@,
            ),
            crate::json::json_wellformed(s@) ==> result_view(r) == assemble_spec(
                crate::json::item_of(s@),
            ),
            r matches Ok(rec) ==> rec.participants_bot + rec.participants_member
                + rec.participants_contributor + rec.participants_user == rec.participants_total,
    {
        let raw = match crate::json::parse_item(s) {
            Some(raw) => raw,
            None => {
                return Err(RecordError::MalformedInput);
            },
        };
        let r = Record::assemble(&raw);
        proof {
            assert(result_view(r) != Err::<RecordView, RecordError>(RecordError::MalformedInput));
            assert(r != Err::<Record, RecordError>(RecordError::MalformedInput));
        }
        r
    }
}

/// Assembly is deterministic: two raw items that carry the same data yield
/// the same outcome — the same record, field for field, or the same
/// failure.  Nothing besides the item's own data enters the result.
pub proof fn lemma_assemble_deterministic(a: RawItem, b: RawItem)
    requires
        a@ == b@,
    ensures
        assemble_spec(a@) == assemble_spec(b@),
{
}

/// The closer role of an accepted record was assigned to the resolved
/// closer while the participant set was built: closer resolution never
/// invents a role outside that set.
pub proof fn lemma_closer_role_assigned(v: RawItemView)
    requires
        assemble_spec(v) is Ok,
    ensures
        ({
            let author = v.author->0;
            let red = reduce_spec(
                v.created_at->0,
                author.id->0,
                classify_spec(author.kind, v.author_association),
                v.timeline->0,
            )->Ok_0;
            &&& contains_id(red.participants, red.closer_id)
            &&& exists|i: int|
                0 <= i < red.participants.len() && #[trigger] red.participants[i] == (
                red.closer_id,
                assemble_spec(v)->Ok_0.closer_role,
                )
        }),
{
    let author = v.author->0;
    let author_role = classify_spec(author.kind, v.author_association);
    let st0 = initial_reduction(author.id->0, author_role);
    lemma_reduce_closer_contained(v.created_at->0, st0, v.timeline->0);
    let red = reduce_spec(v.created_at->0, author.id->0, author_role, v.timeline->0)->Ok_0;
    lemma_role_of_is_assigned(red.participants, red.closer_id);
}

/// An empty timeline never applies either elapsed metric (a record would
/// render both as the sentinel −1) and never records a closer, so assembly
/// fails with `NoCloserResolved` even when everything else is present.
pub proof fn lemma_empty_timeline(v: RawItemView)
    requires
        v.created_at is Some,
        v.closed_at is Some,
        v.timeline == Some(Seq::<crate::raw::RawEventView>::empty()),
        v.author matches Some(a) && a.id is Some,
    ensures
        assemble_spec(v) == Err::<RecordView, RecordError>(RecordError::NoCloserResolved),
        ({
            let author = v.author->0;
            let red = reduce_spec(
                v.created_at->0,
                author.id->0,
                classify_spec(author.kind, v.author_association),
                v.timeline->0,
            )->Ok_0;
            &&& red.first_event_elapsed is None
            &&& red.first_comment_elapsed is None
            &&& red.closer_id == 0
        }),
{
}

} // verus!
