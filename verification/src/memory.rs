//! The contact record: the mutable state one goal operates on, and its
//! mathematical model.

use vstd::prelude::*;

verus! {

/// Seconds after which a Waiting contact is nudged again (48 hours).
pub const NUDGE_WINDOW_SECS: i64 = 172_800;

/// Fallback age assumed for a contact that was never written to (2 days).
pub const DEFAULT_LAST_GAP_SECS: i64 = 172_800;

/// How far back replies are harvested when no stamp exists (30 days).
pub const HARVEST_LOOKBACK_SECS: i64 = 2_592_000;

/// Deferral applied after a "not now" reply (2 weeks).
pub const DEFER_SECS: i64 = 1_209_600;

/// Upper bound on a tick's clock reading accepted by the engine; far past
/// any date the calendar collaborators can represent, well under `i64::MAX`,
/// so that all stamp arithmetic stays exact.
pub const MAX_TIME_SECS: i64 = 4_000_000_000_000;

/// Upper bound on a stored stamp: a deferral may push a stamp `DEFER_SECS`
/// past the clock reading that produced it.
pub const MAX_STAMP_SECS: i64 = MAX_TIME_SECS + DEFER_SECS;

/// A clock reading the engine accepts.
pub open spec fn valid_time(t: int) -> bool {
    0 <= t <= MAX_TIME_SECS
}

/// Where a contact stands in the conversation.
#[derive(Clone, Copy, PartialEq, Eq, Structural, Debug)]
pub enum Status {
    New,
    Waiting,
    InviteAccepted,
    Declined,
    Bounce,
    NotNow,
}

impl Default for Status {
    fn default() -> (r: Self)
        ensures
            r == Status::New,
    {
        Status::New
    }
}

/// The abstract value of a contact record.
pub struct MemModel {
    pub name: Seq<char>,
    pub email: Seq<char>,
    pub company: Seq<char>,
    pub role: Seq<char>,
    pub last_msg: Option<Seq<char>>,
    pub last_stamp: Option<int>,
    pub replies: Seq<Seq<char>>,
    pub status: Status,
    pub follow_ups: int,
}

impl MemModel {
    /// Every stamp the engine ever stores lies in range; the counter is a
    /// byte.
    pub open spec fn wf(self) -> bool {
        &&& match self.last_stamp {
            Some(t) => 0 <= t <= MAX_STAMP_SECS,
            None => true,
        }
        &&& 0 <= self.follow_ups <= u8::MAX
    }
}

/// The mutable state a goal operates on: identity, conversation history,
/// status, the stamp gating the backoff check, and the nudge counter.
///
/// `last_stamp` is deliberately overloaded: it records the last outbound
/// send, but a "not now" reply moves it into the future so that the
/// elapsed-time check stays suppressed for the deferral window.
#[derive(Clone, Debug)]
pub struct ProspectMem {
    pub name: String,
    pub email: String,
    pub company: String,
    pub role: String,

    pub last_msg: Option<String>,
    pub last_stamp: Option<i64>,

    pub prospect_replies: Vec<String>,

    pub status: Status,
    pub follow_ups: u8,
}

impl View for ProspectMem {
    type V = MemModel;

    open spec fn view(&self) -> MemModel {
        MemModel {
            name: self.name@,
            email: self.email@,
            company: self.company@,
            role: self.role@,
            last_msg: match self.last_msg {
                Some(m) => Some(m@),
                None => None,
            },
            last_stamp: match self.last_stamp {
                Some(t) => Some(t as int),
                None => None,
            },
            replies: self.prospect_replies.deep_view(),
            status: self.status,
            follow_ups: self.follow_ups as int,
        }
    }
}

impl ProspectMem {
    /// A fresh record for a newly submitted goal: the given identity, an
    /// empty history, and status Waiting.
    pub fn new(name: String, email: String, company: String, role: String) -> (r: ProspectMem)
        ensures
            r@ == (MemModel {
                name: name@,
                email: email@,
                company: company@,
                role: role@,
                last_msg: None,
                last_stamp: None,
                replies: Seq::empty(),
                status: Status::Waiting,
                follow_ups: 0,
            }),
            r@.wf(),
    {
        let replies: Vec<String> = Vec::new();
        proof {
            assert(replies.deep_view() =~= Seq::<Seq<char>>::empty());
        }
        ProspectMem {
            name,
            email,
            company,
            role,
            last_msg: None,
            last_stamp: None,
            prospect_replies: replies,
            status: Status::Waiting,
            follow_ups: 0,
        }
    }
}

impl Default for ProspectMem {
    fn default() -> (r: Self)
        ensures
            r@ == (MemModel {
                name: Seq::empty(),
                email: Seq::empty(),
                company: Seq::empty(),
                role: Seq::empty(),
                last_msg: None,
                last_stamp: None,
                replies: Seq::empty(),
                status: Status::New,
                follow_ups: 0,
            }),
            r@.wf(),
    {
        let replies: Vec<String> = Vec::new();
        proof {
            assert(replies.deep_view() =~= Seq::<Seq<char>>::empty());
        }
        ProspectMem {
            name: String::new(),
            email: String::new(),
            company: String::new(),
            role: String::new(),
            last_msg: None,
            last_stamp: None,
            prospect_replies: replies,
            status: Status::New,
            follow_ups: 0,
        }
    }
}

} // verus!
