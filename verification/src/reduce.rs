//! The timeline event reducer: one left-to-right walk over the event list,
//! accumulating first-event and first-comment times, the commit count, the
//! participant set with a role for every distinct actor, the running closer
//! candidate and the outcome.

use crate::raw::{events_view, RawEvent, RawEventView};
use crate::role::{classify, classify_spec, string_is, Role};
use crate::time::{elapsed_of, elapsed_seconds, Timestamp, TimestampView};
use vstd::prelude::*;

verus! {

/// Whether an item ended merged or completed (Green) or not (Red).
#[derive(Clone, Copy, Debug, PartialEq, Eq, Structural)]
pub enum Outcome {
    Green,
    Red,
}

/// The one failure the reducer knows: an event carries an actor object
/// whose id cannot be resolved.
#[derive(Clone, Copy, Debug, PartialEq, Eq, Structural)]
pub enum ReduceError {
    MissingActorId,
}

/// An id occurs in the participant list.
pub open spec fn contains_id(m: Seq<(u64, Role)>, id: u64) -> bool {
    exists|i: int| 0 <= i < m.len() && (#[trigger] m[i]).0 == id
}

/// The role the first entry for `id` carries.
pub open spec fn role_of(m: Seq<(u64, Role)>, id: u64) -> Role
    decreases m.len(),
{
    if m.len() == 0 {
        Role::PlainUser
    } else if m[0].0 == id {
        m[0].1
    } else {
        role_of(m.drop_first(), id)
    }
}

/// First sighting wins: a new id is appended with its role, a known id
/// leaves the list unchanged.
pub open spec fn insert_if_absent(m: Seq<(u64, Role)>, id: u64, role: Role) -> Seq<(u64, Role)> {
    if contains_id(m, id) {
        m
    } else {
        m.push((id, role))
    }
}

/// How many participants carry role `role`.
pub open spec fn count_role(m: Seq<(u64, Role)>, role: Role) -> int
    decreases m.len(),
{
    if m.len() == 0 {
        0
    } else {
        (if m.last().1 == role {
            1int
        } else {
            0int
        }) + count_role(m.drop_last(), role)
    }
}

/// Every participant carries exactly one of the four roles, so the four
/// per-role counts always partition the participant list.
pub proof fn lemma_role_counts_partition(m: Seq<(u64, Role)>)
    ensures
        count_role(m, Role::Bot) + count_role(m, Role::Member) + count_role(m, Role::Contributor)
            + count_role(m, Role::PlainUser) == m.len(),
    decreases m.len(),
{
    if m.len() > 0 {
        lemma_role_counts_partition(m.drop_last());
    }
}

/// Inserting an id leaves it present.
pub proof fn lemma_insert_contains(m: Seq<(u64, Role)>, id: u64, role: Role)
    ensures
        contains_id(insert_if_absent(m, id, role), id),
{
    if !contains_id(m, id) {
        assert(insert_if_absent(m, id, role)[m.len() as int].0 == id);
    }
}

/// Inserting never removes an id that was present.
pub proof fn lemma_insert_preserves(m: Seq<(u64, Role)>, id: u64, role: Role, x: u64)
    requires
        contains_id(m, x),
    ensures
        contains_id(insert_if_absent(m, id, role), x),
{
    if !contains_id(m, id) {
        let i = choose|i: int| 0 <= i < m.len() && (#[trigger] m[i]).0 == x;
        assert(insert_if_absent(m, id, role)[i].0 == x);
    }
}

/// No actor id occurs twice in the participant list, so the list's length
/// is the number of distinct actor ids encountered.
pub open spec fn distinct_ids(m: Seq<(u64, Role)>) -> bool {
    forall|i: int, j: int|
        0 <= i < j < m.len() ==> (#[trigger] m[i]).0 != (#[trigger] m[j]).0
}

/// Insert-if-absent keeps the ids pairwise distinct.
pub proof fn lemma_insert_keeps_distinct(m: Seq<(u64, Role)>, id: u64, role: Role)
    requires
        distinct_ids(m),
    ensures
        distinct_ids(insert_if_absent(m, id, role)),
{
    if !contains_id(m, id) {
        let m2 = m.push((id, role));
        assert forall|i: int, j: int| 0 <= i < j < m2.len() implies (#[trigger] m2[i]).0 != (
        #[trigger] m2[j]).0 by {
            if j == m.len() {
                if m[i].0 == id {
                    assert(contains_id(m, id));
                }
            }
        }
    }
}

/// The role the list assigns to a present id is the role of one of its
/// entries: looking a closer up never invents a role outside the list.
pub proof fn lemma_role_of_is_assigned(m: Seq<(u64, Role)>, id: u64)
    requires
        contains_id(m, id),
    ensures
        exists|i: int| 0 <= i < m.len() && #[trigger] m[i] == (id, role_of(m, id)),
    decreases m.len(),
{
    if m[0].0 == id {
        assert(m[0] == (id, role_of(m, id)));
    } else {
        let t = m.drop_first();
        let j = choose|j: int| 0 <= j < m.len() && (#[trigger] m[j]).0 == id;
        assert(t[j - 1].0 == id);
        lemma_role_of_is_assigned(t, id);
        let i = choose|i: int| 0 <= i < t.len() && #[trigger] t[i] == (id, role_of(t, id));
        assert(m[i + 1] == (id, role_of(m, id)));
    }
}

/// If the first entry for `id` stands at index `i`, that entry's role is
/// the one [`role_of`] returns.
proof fn lemma_role_of_at(m: Seq<(u64, Role)>, id: u64, i: int)
    requires
        0 <= i < m.len(),
        m[i].0 == id,
        forall|j: int| 0 <= j < i ==> (#[trigger] m[j]).0 != id,
    ensures
        role_of(m, id) == m[i].1,
    decreases i,
{
    if i > 0 {
        lemma_role_of_at(m.drop_first(), id, i - 1);
    }
}

/// The reducer's accumulated state.  The two elapsed metrics are `None`
/// until they have been applied, so each is set exactly once and a genuine
/// elapsed value of −1 is never mistaken for "not yet set".
#[derive(Debug, PartialEq, Eq)]
pub struct Reduction {
    pub participants: Vec<(u64, Role)>,
    pub first_event_elapsed: Option<i64>,
    pub first_comment_elapsed: Option<i64>,
    pub commit_count: u64,
    pub closer_id: u64,
    pub outcome: Outcome,
}

/// Mathematical image of a [`Reduction`].
#[verifier::ext_equal]
pub ghost struct ReductionView {
    pub participants: Seq<(u64, Role)>,
    pub first_event_elapsed: Option<int>,
    pub first_comment_elapsed: Option<int>,
    pub commit_count: int,
    pub closer_id: u64,
    pub outcome: Outcome,
}

/// View of an optional elapsed-seconds value.
pub open spec fn opt_elapsed_view(x: Option<i64>) -> Option<int> {
    match x {
        Some(v) => Some(v as int),
        None => None,
    }
}

impl View for Reduction {
    type V = ReductionView;

    open spec fn view(&self) -> ReductionView {
        ReductionView {
            participants: self.participants@,
            first_event_elapsed: opt_elapsed_view(self.first_event_elapsed),
            first_comment_elapsed: opt_elapsed_view(self.first_comment_elapsed),
            commit_count: self.commit_count as int,
            closer_id: self.closer_id,
            outcome: self.outcome,
        }
    }
}

/// The state the walk starts from: the author seeded as first participant,
/// both elapsed metrics not yet applied, no commits, no closer, outcome
/// Red.
pub open spec fn initial_reduction(author_id: u64, author_role: Role) -> ReductionView {
    ReductionView {
        participants: seq![(author_id, author_role)],
        first_event_elapsed: None,
        first_comment_elapsed: None,
        commit_count: 0,
        closer_id: 0,
        outcome: Outcome::Red,
    }
}

/// The event member the reducer reads the actor from: an "actor" member is
/// preferred, a "user" member is the fallback.
pub open spec fn event_actor(ev: RawEventView) -> Option<crate::raw::RawActorView> {
    if ev.actor is Some {
        ev.actor
    } else {
        ev.user
    }
}

/// What one event with a resolved actor id does to the state, by its kind:
/// "committed" counts a commit; "merged" turns the outcome Green and makes
/// the actor the closer candidate; "closed" and "head_ref_force_pushed"
/// make the actor the closer candidate (last such event wins); "commented"
/// applies the first-comment time once, on the first timestamped occurrence
/// only; any other kind changes nothing.
pub open spec fn dispatch_spec(
    create: TimestampView,
    st: ReductionView,
    ev: RawEventView,
    id: u64,
) -> ReductionView {
    match ev.kind {
        Some(k) => if k == "committed"@ {
            ReductionView { commit_count: st.commit_count + 1, ..st }
        } else if k == "merged"@ {
            ReductionView { outcome: Outcome::Green, closer_id: id, ..st }
        } else if k == "closed"@ || k == "head_ref_force_pushed"@ {
            ReductionView { closer_id: id, ..st }
        } else if k == "commented"@ {
            if st.first_comment_elapsed is None && ev.time is Some {
                ReductionView {
                    first_comment_elapsed: Some(elapsed_of(create, ev.time->0)),
                    ..st
                }
            } else {
                st
            }
        } else {
            st
        },
        None => st,
    }
}

/// What one event does to the state.  First the first-event time is applied
/// once, on the first event that carries a timestamp.  An event with an
/// actor object must resolve the actor's id or the whole walk fails; a
/// resolved actor is classified on first sighting and the event is
/// dispatched by kind.  An event without an actor only counts commits.
pub open spec fn step_spec(create: TimestampView, st: ReductionView, ev: RawEventView) -> Result<
    ReductionView,
    ReduceError,
> {
    let st1 = if st.first_event_elapsed is None && ev.time is Some {
        ReductionView { first_event_elapsed: Some(elapsed_of(create, ev.time->0)), ..st }
    } else {
        st
    };
    match event_actor(ev) {
        Some(a) => match a.id {
            Some(id) => {
                let role = classify_spec(a.kind, ev.association);
                let st2 = ReductionView {
                    participants: insert_if_absent(st1.participants, id, role),
                    ..st1
                };
                Ok(dispatch_spec(create, st2, ev, id))
            },
            None => Err(ReduceError::MissingActorId),
        },
        None => Ok(
            if ev.kind matches Some(k) && k == "committed"@ {
                ReductionView { commit_count: st1.commit_count + 1, ..st1 }
            } else {
                st1
            },
        ),
    }
}

/// The walk over a whole event sequence, left to right.
pub open spec fn reduce_events(
    create: TimestampView,
    st: ReductionView,
    evs: Seq<RawEventView>,
) -> Result<ReductionView, ReduceError>
    decreases evs.len(),
{
    if evs.len() == 0 {
        Ok(st)
    } else {
        match step_spec(create, st, evs[0]) {
            Ok(st2) => reduce_events(create, st2, evs.drop_first()),
            Err(e) => Err(e),
        }
    }
}

/// The whole reduction: the walk started from the seeded state.
pub open spec fn reduce_spec(
    create: TimestampView,
    author_id: u64,
    author_role: Role,
    evs: Seq<RawEventView>,
) -> Result<ReductionView, ReduceError> {
    reduce_events(create, initial_reduction(author_id, author_role), evs)
}

/// Append `(id, role)` unless `id` is already listed; a known id is never
/// reclassified.
fn insert_participant(m: &mut Vec<(u64, Role)>, id: u64, role: Role)
    ensures
        final(m)@ == insert_if_absent(old(m)@, id, role),
{
    let mut i: usize = 0;
    while i < m.len()
        invariant
            0 <= i <= m@.len(),
            m@ == old(m)@,
            forall|j: int| 0 <= j < i ==> (#[trigger] m@[j]).0 != id,
        decreases m@.len() - i,
    {
        if m[i].0 == id {
            proof {
                assert(m@[i as int].0 == id);
            }
            return ;
        }
        i = i + 1;
    }
    proof {
        assert(!contains_id(m@, id));
    }
    m.push((id, role));
    proof {
        assert(m@ =~= insert_if_absent(old(m)@, id, role));
    }
}

/// Find the role the list assigns to `id`.
pub fn lookup_role(m: &Vec<(u64, Role)>, id: u64) -> (r: Option<Role>)
    ensures
        r is Some <==> contains_id(m@, id),
        r matches Some(role) ==> role == role_of(m@, id),
{
    let mut i: usize = 0;
    while i < m.len()
        invariant
            0 <= i <= m@.len(),
            forall|j: int| 0 <= j < i ==> (#[trigger] m@[j]).0 != id,
        decreases m@.len() - i,
    {
        if m[i].0 == id {
            proof {
                lemma_role_of_at(m@, id, i as int);
            }
            return Some(m[i].1);
        }
        i = i + 1;
    }
    proof {
        assert(!contains_id(m@, id));
    }
    None
}

/// Whenever the walk has recorded a closer candidate, that candidate is
/// one of the listed participants: a closer is only ever recorded from an
/// event actor that was inserted first, and insertion never removes ids.
pub proof fn lemma_reduce_closer_contained(
    create: TimestampView,
    st: ReductionView,
    evs: Seq<RawEventView>,
)
    requires
        reduce_events(create, st, evs) is Ok,
        st.closer_id != 0 ==> contains_id(st.participants, st.closer_id),
    ensures
        ({
            let out = reduce_events(create, st, evs)->Ok_0;
            out.closer_id != 0 ==> contains_id(out.participants, out.closer_id)
        }),
    decreases evs.len(),
{
    if evs.len() > 0 {
        let ev = evs[0];
        match step_spec(create, st, ev) {
            Ok(st2) => {
                let st1 = if st.first_event_elapsed is None && ev.time is Some {
                    ReductionView {
                        first_event_elapsed: Some(elapsed_of(create, ev.time->0)),
                        ..st
                    }
                } else {
                    st
                };
                match event_actor(ev) {
                    Some(a) => match a.id {
                        Some(id) => {
                            let role = classify_spec(a.kind, ev.association);
                            lemma_insert_contains(st1.participants, id, role);
                            if st.closer_id != 0 {
                                lemma_insert_preserves(st1.participants, id, role, st.closer_id);
                            }
                        },
                        None => {},
                    },
                    None => {},
                }
                assert(st2.closer_id != 0 ==> contains_id(st2.participants, st2.closer_id));
                lemma_reduce_closer_contained(create, st2, evs.drop_first());
            },
            Err(_) => {
                assert(false);
            },
        }
    }
}

/// The reducer's running state packed into its mathematical image.
pub open spec fn packed(
    participants: Seq<(u64, Role)>,
    first_event_elapsed: Option<int>,
    first_comment_elapsed: Option<int>,
    commit_count: int,
    closer_id: u64,
    outcome: Outcome,
) -> ReductionView {
    ReductionView {
        participants,
        first_event_elapsed,
        first_comment_elapsed,
        commit_count,
        closer_id,
        outcome,
    }
}

/// Walk the timeline once, in order, as [`reduce_spec`] says.  Fails with
/// [`ReduceError::MissingActorId`] exactly where an event carries an actor
/// object without a resolvable id; whenever a closer candidate has been
/// recorded it is one of the listed participants, and the listed ids are
/// pairwise distinct, so the list's length is the distinct-actor count.
pub fn reduce(
    create: &Timestamp,
    author_id: u64,
    author_role: Role,
    events: &Vec<RawEvent>,
) -> (r: Result<Reduction, ReduceError>)
    requires
        create.wf(),
        forall|i: int| 0 <= i < events@.len() ==> (#[trigger] events@[i]).wf(),
    ensures
        match r {
            Ok(out) => {
                &&& reduce_spec(create@, author_id, author_role, events_view(events@)) == Ok::<
                    ReductionView,
                    ReduceError,
                >(out@)
                &&& out.closer_id != 0 ==> contains_id(out@.participants, out.closer_id)
                &&& distinct_ids(out@.participants)
            },
            Err(e) => reduce_spec(create@, author_id, author_role, events_view(events@)) == Err::<
                ReductionView,
                ReduceError,
            >(e),
        },
{
    let ghost full = events_view(events@);
    let ghost st0 = initial_reduction(author_id, author_role);
    let mut participants: Vec<(u64, Role)> = Vec::new();
    participants.push((author_id, author_role));
    let mut first_event: Option<i64> = None;
    let mut first_comment: Option<i64> = None;
    let mut commits: u64 = 0;
    let mut closer: u64 = 0;
    let mut outcome = Outcome::Red;
    proof {
        assert(participants@ =~= st0.participants);
        assert(packed(participants@, None, None, 0, 0, Outcome::Red) =~= st0);
        assert(full.skip(0) =~= full);
    }
    let mut i: usize = 0;
    while i < events.len()
        invariant
            0 <= i <= events@.len(),
            full == events_view(events@),
            full.len() == events@.len(),
            st0 == initial_reduction(author_id, author_role),
            create.wf(),
            forall|j: int| 0 <= j < events@.len() ==> (#[trigger] events@[j]).wf(),
            commits <= i,
            closer != 0 ==> contains_id(participants@, closer),
            distinct_ids(participants@),
            reduce_events(create@, st0, full) == reduce_events(
                create@,
                packed(
                    participants@,
                    opt_elapsed_view(first_event),
                    opt_elapsed_view(first_comment),
                    commits as int,
                    closer,
                    outcome,
                ),
                full.skip(i as int),
            ),
        decreases events@.len() - i,
    {
        let ghost pre = packed(
            participants@,
            opt_elapsed_view(first_event),
            opt_elapsed_view(first_comment),
            commits as int,
            closer,
            outcome,
        );
        let ghost evv = full[i as int];
        proof {
            assert(events_view(events@)[i as int] == events@[i as int]@);
            assert(full.skip(i as int)[0] == full[i as int]);
            assert(full.skip(i as int).drop_first() =~= full.skip(i as int + 1));
        }
        let ev = &events[i];
        if first_event.is_none() {
            if let Some(t) = &ev.time {
                first_event = Some(elapsed_seconds(create, t));
            }
        }
        let actor_opt = if ev.actor.is_some() {
            &ev.actor
        } else {
            &ev.user
        };
        match actor_opt {
            Some(a) => {
                match a.id {
                    Some(id) => {
                        let role = classify(a.kind.as_ref(), ev.association.as_ref());
                        let ghost before_insert = participants@;
                        insert_participant(&mut participants, id, role);
                        proof {
                            lemma_insert_keeps_distinct(before_insert, id, role);
                            if closer != 0 {
                                lemma_insert_preserves(before_insert, id, role, closer);
                            }
                        }
                        if let Some(k) = &ev.kind {
                            if string_is(k, "committed") {
                                commits = commits + 1;
                            } else if string_is(k, "merged") {
                                outcome = Outcome::Green;
                                closer = id;
                            } else if string_is(k, "closed") || string_is(
                                k,
                                "head_ref_force_pushed",
                            ) {
                                closer = id;
                            } else if string_is(k, "commented") {
                                if first_comment.is_none() {
                                    if let Some(t) = &ev.time {
                                        first_comment = Some(elapsed_seconds(create, t));
                                    }
                                }
                            }
                        }
                        proof {
                            if closer == id {
                                lemma_insert_contains(before_insert, id, role);
                            }
                            assert(step_spec(create@, pre, evv) == Ok::<ReductionView, ReduceError>(
                                packed(
                                    participants@,
                                    opt_elapsed_view(first_event),
                                    opt_elapsed_view(first_comment),
                                    commits as int,
                                    closer,
                                    outcome,
                                ),
                            ));
                        }
                    },
                    None => {
                        proof {
                            assert(step_spec(create@, pre, evv) == Err::<
                                ReductionView,
                                ReduceError,
                            >(ReduceError::MissingActorId));
                            assert(reduce_events(create@, pre, full.skip(i as int)) == Err::<
                                ReductionView,
                                ReduceError,
                            >(ReduceError::MissingActorId));
                        }
                        return Err(ReduceError::MissingActorId);
                    },
                }
            },
            None => {
                if let Some(k) = &ev.kind {
                    if string_is(k, "committed") {
                        commits = commits + 1;
                    }
                }
                proof {
                    assert(step_spec(create@, pre, evv) == Ok::<ReductionView, ReduceError>(
                        packed(
                            participants@,
                            opt_elapsed_view(first_event),
                            opt_elapsed_view(first_comment),
                            commits as int,
                            closer,
                            outcome,
                        ),
                    ));
                }
            },
        }
        i = i + 1;
    }
    proof {
        assert(full.skip(events@.len() as int) =~= Seq::<RawEventView>::empty());
    }
    let out = Reduction {
        participants,
        first_event_elapsed: first_event,
        first_comment_elapsed: first_comment,
        commit_count: commits,
        closer_id: closer,
        outcome,
    };
    Ok(out)
}

} // verus!
