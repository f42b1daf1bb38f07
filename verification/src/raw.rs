//! The plain shape of one activity log, as the record assembler reads it:
//! every field the logic consumes, each behind an explicit `Option` where
//! the input may lack it.

use crate::time::{Timestamp, TimestampView};
use vstd::prelude::*;

verus! {

/// An actor as the input carries it: a numeric id and a declared account
/// type, either of which may be missing.
pub struct RawActor {
    pub id: Option<u64>,
    pub kind: Option<String>,
}

/// Mathematical image of a [`RawActor`].
#[verifier::ext_equal]
pub ghost struct RawActorView {
    pub id: Option<u64>,
    pub kind: Option<Seq<char>>,
}

impl View for RawActor {
    type V = RawActorView;

    open spec fn view(&self) -> RawActorView {
        RawActorView {
            id: self.id,
            kind: match self.kind {
                Some(k) => Some(k@),
                None => None,
            },
        }
    }
}

/// One timeline entry: its timestamp (absent when the input carries none,
/// or none that parses), its kind tag, the "actor" and "user" members as
/// the input carries them (the reducer prefers the first), and the
/// association string attached to the event itself.
pub struct RawEvent {
    pub time: Option<Timestamp>,
    pub kind: Option<String>,
    pub actor: Option<RawActor>,
    pub user: Option<RawActor>,
    pub association: Option<String>,
}

/// Mathematical image of a [`RawEvent`].
#[verifier::ext_equal]
pub ghost struct RawEventView {
    pub time: Option<TimestampView>,
    pub kind: Option<Seq<char>>,
    pub actor: Option<RawActorView>,
    pub user: Option<RawActorView>,
    pub association: Option<Seq<char>>,
}

impl View for RawEvent {
    type V = RawEventView;

    open spec fn view(&self) -> RawEventView {
        RawEventView {
            time: match self.time {
                Some(t) => Some(t@),
                None => None,
            },
            kind: match self.kind {
                Some(k) => Some(k@),
                None => None,
            },
            actor: match self.actor {
                Some(a) => Some(a@),
                None => None,
            },
            user: match self.user {
                Some(a) => Some(a@),
                None => None,
            },
            association: match self.association {
                Some(a) => Some(a@),
                None => None,
            },
        }
    }
}

impl RawEvent {
    /// Any timestamp the event carries lies in the parser's range.
    pub open spec fn wf(self) -> bool {
        self.time matches Some(t) ==> t.wf()
    }
}

/// Views of a sequence of events.
pub open spec fn events_view(s: Seq<RawEvent>) -> Seq<RawEventView> {
    s.map_values(|e: RawEvent| e@)
}

/// One whole activity log, reduced to the fields the assembler reads.
pub struct RawItem {
    pub url: String,
    pub node_id: Option<String>,
    pub author: Option<RawActor>,
    pub author_association: Option<String>,
    pub comments: Option<u64>,
    pub created_at: Option<Timestamp>,
    pub closed_at: Option<Timestamp>,
    pub state_reason: Option<String>,
    pub timeline: Option<Vec<RawEvent>>,
}

/// Mathematical image of a [`RawItem`].
#[verifier::ext_equal]
pub ghost struct RawItemView {
    pub url: Seq<char>,
    pub node_id: Option<Seq<char>>,
    pub author: Option<RawActorView>,
    pub author_association: Option<Seq<char>>,
    pub comments: Option<u64>,
    pub created_at: Option<TimestampView>,
    pub closed_at: Option<TimestampView>,
    pub state_reason: Option<Seq<char>>,
    pub timeline: Option<Seq<RawEventView>>,
}

impl View for RawItem {
    type V = RawItemView;

    open spec fn view(&self) -> RawItemView {
        RawItemView {
            url: self.url@,
            node_id: match self.node_id {
                Some(n) => Some(n@),
                None => None,
            },
            author: match self.author {
                Some(a) => Some(a@),
                None => None,
            },
            author_association: match self.author_association {
                Some(a) => Some(a@),
                None => None,
            },
            comments: self.comments,
            created_at: match self.created_at {
                Some(t) => Some(t@),
                None => None,
            },
            closed_at: match self.closed_at {
                Some(t) => Some(t@),
                None => None,
            },
            state_reason: match self.state_reason {
                Some(s) => Some(s@),
                None => None,
            },
            timeline: match self.timeline {
                Some(v) => Some(events_view(v@)),
                None => None,
            },
        }
    }
}

impl RawItem {
    /// Every timestamp the item carries lies in the parser's range.
    pub open spec fn wf(self) -> bool {
        &&& self.created_at matches Some(t) ==> t.wf()
        &&& self.closed_at matches Some(t) ==> t.wf()
        &&& self.timeline matches Some(v) ==> forall|i: int|
            0 <= i < v@.len() ==> (#[trigger] v@[i]).wf()
    }
}

} // verus!
