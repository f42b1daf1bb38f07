//! Actor role classification.

use vstd::prelude::*;
use vstd::string::StrSliceExecFns;

verus! {

/// The role a participant holds within one record.
#[derive(Clone, Copy, Debug, PartialEq, Eq, Structural)]
pub enum Role {
    Bot,
    Member,
    Contributor,
    PlainUser,
}

/// `s` spells "member" in any mix of letter cases.  Only this association
/// value is matched case-insensitively — a quirk of the source data that is
/// kept deliberately.
pub open spec fn spells_member_any_case(s: Seq<char>) -> bool {
    &&& s.len() == 6
    &&& (s[0] == 'm' || s[0] == 'M')
    &&& (s[1] == 'e' || s[1] == 'E')
    &&& (s[2] == 'm' || s[2] == 'M')
    &&& (s[3] == 'b' || s[3] == 'B')
    &&& (s[4] == 'e' || s[4] == 'E')
    &&& (s[5] == 'r' || s[5] == 'R')
}

/// The role an actor gets from its declared account type and its project
/// association: a declared "Bot" type wins unconditionally; otherwise an
/// exact "CONTRIBUTOR" association makes a contributor, "member" in any
/// letter case makes a member, and anything else — or no association at
/// all — makes a plain user.
pub open spec fn classify_spec(kind: Option<Seq<char>>, assoc: Option<Seq<char>>) -> Role {
    if kind matches Some(k) && k == "Bot"@ {
        Role::Bot
    } else {
        match assoc {
            Some(a) => if a == "CONTRIBUTOR"@ {
                Role::Contributor
            } else if spells_member_any_case(a) {
                Role::Member
            } else {
                Role::PlainUser
            },
            None => Role::PlainUser,
        }
    }
}

/// View of an optional borrowed string.
pub open spec fn opt_string_view(s: Option<&String>) -> Option<Seq<char>> {
    match s {
        Some(x) => Some(x@),
        None => None,
    }
}

/// Whether `s` holds exactly the text of `lit`.
pub(crate) fn string_is(s: &String, lit: &str) -> (r: bool)
    ensures
        r == (s@ == lit@),
{
    *s == lit.to_owned()
}

/// Whether `s` spells "member" in any mix of letter cases.
fn is_member_any_case(s: &String) -> (r: bool)
    ensures
        r == spells_member_any_case(s@),
{
    let st = s.as_str();
    if st.unicode_len() != 6 {
        return false;
    }
    let c0 = st.get_char(0);
    let c1 = st.get_char(1);
    let c2 = st.get_char(2);
    let c3 = st.get_char(3);
    let c4 = st.get_char(4);
    let c5 = st.get_char(5);
    (c0 == 'm' || c0 == 'M') && (c1 == 'e' || c1 == 'E') && (c2 == 'm' || c2 == 'M') && (c3 == 'b'
        || c3 == 'B') && (c4 == 'e' || c4 == 'E') && (c5 == 'r' || c5 == 'R')
}

/// Classify an actor from its declared account type and its association.
/// Pure and total: every actor gets exactly one role.
pub fn classify(kind: Option<&String>, assoc: Option<&String>) -> (r: Role)
    ensures
        r == classify_spec(opt_string_view(kind), opt_string_view(assoc)),
{
    let declared_bot = match kind {
        Some(k) => string_is(k, "Bot"),
        None => false,
    };
    if declared_bot {
        Role::Bot
    } else {
        match assoc {
            Some(a) => {
                if string_is(a, "CONTRIBUTOR") {
                    Role::Contributor
                } else if is_member_any_case(a) {
                    Role::Member
                } else {
                    Role::PlainUser
                }
            },
            None => Role::PlainUser,
        }
    }
}

} // verus!
