//! The built-in follow-up action: harvesting classified replies into the
//! contact record, the backoff rule deciding when to nudge, the bookkeeping
//! of a sent nudge, and the termination condition.

use vstd::prelude::*;
use vstd::string::StringExecFns;
use crate::classify::{spec_status_for, Category};
use crate::memory::{
    valid_time, MemModel, ProspectMem, Status, DEFAULT_LAST_GAP_SECS, DEFER_SECS,
    HARVEST_LOOKBACK_SECS, MAX_STAMP_SECS, NUDGE_WINDOW_SECS,
};

verus! {

/// Lead time before the meeting the action books (2 days).
pub const INVITE_LEAD_SECS: i64 = 172_800;

/// Length of the meeting the action books (15 minutes).
pub const INVITE_LEN_SECS: i64 = 900;

/// The stamp the nudge check measures from: the stored stamp, or a fixed
/// fallback age for a contact never written to.
pub open spec fn spec_effective_last(last: Option<int>, now: int) -> int {
    match last {
        Some(t) => t,
        None => now - DEFAULT_LAST_GAP_SECS,
    }
}

/// Seconds since the effective last stamp. Negative while a deferral stamp
/// lies in the future.
pub open spec fn spec_elapsed(last: Option<int>, now: int) -> int {
    now - spec_effective_last(last, now)
}

/// The backoff rule: nudge exactly the contacts still Waiting whose
/// effective last stamp is at least the nudge window old.
pub open spec fn spec_nudge_due(m: MemModel, now: int) -> bool {
    m.status == Status::Waiting && spec_elapsed(m.last_stamp, now) >= NUDGE_WINDOW_SECS
}

/// Whether a reply of this category makes the action book a meeting.
pub open spec fn spec_wants_invite(c: Category) -> bool {
    spec_status_for(c) == Status::InviteAccepted
}

/// One harvested reply folded into the record: the body is appended, the
/// status moves per the category, and a "not now" pushes the stamp a
/// deferral past the clock.
pub open spec fn spec_apply_reply(m: MemModel, body: Seq<char>, c: Category, now: int) -> MemModel {
    MemModel {
        replies: m.replies.push(body),
        status: spec_status_for(c),
        last_stamp: if c == Category::NotNow {
            Some(now + DEFER_SECS)
        } else {
            m.last_stamp
        },
        ..m
    }
}

/// Fold one classified reply into the record. Returns whether the action
/// must now book a meeting.
pub fn apply_reply(mem: &mut ProspectMem, body: String, c: Category, now: i64) -> (invite: bool)
    requires
        old(mem)@.wf(),
        valid_time(now as int),
    ensures
        final(mem)@ == spec_apply_reply(old(mem)@, body@, c, now as int),
        final(mem)@.wf(),
        invite == spec_wants_invite(c),
{
    let ghost pre = mem@;
    mem.prospect_replies.push(body);
    mem.status = crate::classify::status_for(c);
    if mem.status == Status::NotNow {
        mem.last_stamp = Some(now + DEFER_SECS);
    }
    proof {
        assert(mem@.replies =~= pre.replies.push(body@));
        assert(mem@ == spec_apply_reply(pre, body@, c, now as int));
    }
    mem.status == Status::InviteAccepted
}

/// Decide whether a nudge is due now.
pub fn nudge_due(mem: &ProspectMem, now: i64) -> (r: bool)
    requires
        mem@.wf(),
        valid_time(now as int),
    ensures
        r == spec_nudge_due(mem@, now as int),
{
    let last: i64 = match mem.last_stamp {
        Some(t) => t,
        None => now - DEFAULT_LAST_GAP_SECS,
    };
    let elapsed: i64 = now - last;
    mem.status == Status::Waiting && elapsed >= NUDGE_WINDOW_SECS
}

/// The record after a nudge body is drafted: only the copy of the last
/// message changes.
pub open spec fn spec_note_draft(m: MemModel, body: Seq<char>) -> MemModel {
    MemModel { last_msg: Some(body), ..m }
}

/// Record the drafted nudge body. The draft is recorded before the
/// transport is asked to send it, so a failed send still leaves it here.
pub fn note_draft(mem: &mut ProspectMem, body: String)
    requires
        old(mem)@.wf(),
    ensures
        final(mem)@ == spec_note_draft(old(mem)@, body@),
        final(mem)@.wf(),
{
    mem.last_msg = Some(body);
}

/// The record after a nudge went out: stamped now, counter up by one.
pub open spec fn spec_note_sent(m: MemModel, now: int) -> MemModel {
    MemModel { last_stamp: Some(now), follow_ups: m.follow_ups + 1, ..m }
}

/// Record a sent nudge.
pub fn note_sent(mem: &mut ProspectMem, now: i64)
    requires
        old(mem)@.wf(),
        valid_time(now as int),
        old(mem)@.follow_ups < u8::MAX,
    ensures
        final(mem)@ == spec_note_sent(old(mem)@, now as int),
        final(mem)@.wf(),
{
    mem.last_stamp = Some(now);
    mem.follow_ups = mem.follow_ups + 1;
}

/// The lower bound handed to the reply-retrieval collaborator: the stored
/// stamp, or a fixed lookback when none exists.
pub open spec fn spec_harvest_after(m: MemModel, now: int) -> int {
    match m.last_stamp {
        Some(t) => t,
        None => now - HARVEST_LOOKBACK_SECS,
    }
}

/// Compute the harvest lower bound for this contact.
pub fn harvest_after(mem: &ProspectMem, now: i64) -> (r: i64)
    requires
        mem@.wf(),
        valid_time(now as int),
    ensures
        r as int == spec_harvest_after(mem@, now as int),
        -HARVEST_LOOKBACK_SECS <= r as int <= MAX_STAMP_SECS,
{
    match mem.last_stamp {
        Some(t) => t,
        None => now - HARVEST_LOOKBACK_SECS,
    }
}

/// The start of the meeting the action books: the lead time out from now,
/// rounded down to a whole minute.
pub open spec fn spec_invite_start(now: int) -> int {
    (now + INVITE_LEAD_SECS) - ((now + INVITE_LEAD_SECS) % 60)
}

/// Start and end of the meeting to book.
pub fn invite_window(now: i64) -> (r: (i64, i64))
    requires
        valid_time(now as int),
    ensures
        r.0 as int == spec_invite_start(now as int),
        r.1 as int == spec_invite_start(now as int) + INVITE_LEN_SECS,
{
    let t: i64 = now + INVITE_LEAD_SECS;
    let start: i64 = t - t % 60;
    (start, start + INVITE_LEN_SECS)
}

/// A termination condition: reports whether a goal is complete.
pub trait Target {
    /// What this condition asks of the record's abstract value.
    spec fn met_spec(&self, m: MemModel) -> bool;

    /// Decide whether the goal is complete.
    fn met(&self, mem: &ProspectMem) -> (r: bool)
        ensures
            r == self.met_spec(mem@),
    ;
}

/// The built-in termination condition: the contact accepted the invite.
pub struct InviteAccepted;

impl Target for InviteAccepted {
    open spec fn met_spec(&self, m: MemModel) -> bool {
        m.status == Status::InviteAccepted
    }

    fn met(&self, mem: &ProspectMem) -> (r: bool) {
        mem.status == Status::InviteAccepted
    }
}

/// One reply as the collaborators hand it to the action: its plain-text
/// body and the category the classifier resolved it to.
#[derive(Clone, Debug)]
pub struct Reply {
    pub body: String,
    pub category: Category,
}

/// Abstract value of a reply.
pub struct ReplyModel {
    pub body: Seq<char>,
    pub category: Category,
}

impl View for Reply {
    type V = ReplyModel;

    open spec fn view(&self) -> ReplyModel {
        ReplyModel { body: self.body@, category: self.category }
    }
}

impl DeepView for Reply {
    type V = ReplyModel;

    open spec fn deep_view(&self) -> ReplyModel {
        self@
    }
}

/// Everything one tick of the follow-up action learns from the outside:
/// the clock, the harvested and classified replies (`None`: retrieval
/// failed), the drafted nudge body (`None`: drafting failed), and whether
/// the transport accepted the send.
#[derive(Clone, Debug)]
pub struct TickInput {
    pub now: i64,
    pub fetched: Option<Vec<Reply>>,
    pub draft: Option<String>,
    pub send_ok: bool,
}

/// Abstract value of a tick's input.
pub struct TickModel {
    pub now: int,
    pub fetched: Option<Seq<ReplyModel>>,
    pub draft: Option<Seq<char>>,
    pub send_ok: bool,
}

impl View for TickInput {
    type V = TickModel;

    open spec fn view(&self) -> TickModel {
        TickModel {
            now: self.now as int,
            fetched: match self.fetched {
                Some(v) => Some(v.deep_view()),
                None => None,
            },
            draft: match self.draft {
                Some(d) => Some(d@),
                None => None,
            },
            send_ok: self.send_ok,
        }
    }
}

impl DeepView for TickInput {
    type V = TickModel;

    open spec fn deep_view(&self) -> TickModel {
        self@
    }
}

/// Which collaborator failed during a tick, ending that tick early.
#[derive(Clone, Copy, PartialEq, Eq, Structural, Debug)]
pub enum AgentError {
    Fetch,
    Draft,
    Send,
}

/// What a successful tick reports: how many meetings it asked the
/// scheduling collaborator for, and whether it sent a nudge.
#[derive(Clone, Copy, PartialEq, Eq, Structural, Debug)]
pub struct TickStats {
    pub invites: usize,
    pub nudged: bool,
}

/// The record after a sequence of classified replies is folded in, oldest
/// first.
pub open spec fn spec_apply_replies(m: MemModel, rs: Seq<ReplyModel>, now: int) -> MemModel
    decreases rs.len(),
{
    if rs.len() == 0 {
        m
    } else {
        spec_apply_replies(spec_apply_reply(m, rs.first().body, rs.first().category, now), rs.drop_first(), now)
    }
}

/// How many of these replies make the action book a meeting.
pub open spec fn spec_invite_count(rs: Seq<ReplyModel>) -> int
    decreases rs.len(),
{
    if rs.len() == 0 {
        0
    } else {
        (if spec_wants_invite(rs.first().category) {
            1int
        } else {
            0int
        }) + spec_invite_count(rs.drop_first())
    }
}

/// The record a whole tick leaves behind: nothing on a failed fetch; the
/// harvested record otherwise, plus the draft and the send stamp as far as
/// those two steps got.
pub open spec fn spec_tick_mem(m: MemModel, t: TickModel) -> MemModel {
    match t.fetched {
        None => m,
        Some(rs) => {
            let m1 = spec_apply_replies(m, rs, t.now);
            if spec_nudge_due(m1, t.now) {
                match t.draft {
                    None => m1,
                    Some(body) => {
                        let m2 = spec_note_draft(m1, body);
                        if t.send_ok {
                            spec_note_sent(m2, t.now)
                        } else {
                            m2
                        }
                    },
                }
            } else {
                m1
            }
        },
    }
}

/// Whether a tick runs to the end without a collaborator failing at a point
/// the action propagates.
pub open spec fn spec_tick_ok(m: MemModel, t: TickModel) -> bool {
    match t.fetched {
        None => false,
        Some(rs) => {
            let m1 = spec_apply_replies(m, rs, t.now);
            !spec_nudge_due(m1, t.now) || (t.draft is Some && t.send_ok)
        },
    }
}

/// Which failure a tick that does not run to the end reports.
pub open spec fn spec_tick_err(m: MemModel, t: TickModel) -> AgentError {
    match t.fetched {
        None => AgentError::Fetch,
        Some(rs) => {
            if t.draft is None {
                AgentError::Draft
            } else {
                AgentError::Send
            }
        },
    }
}

/// Folding in one more reply at the end.
proof fn lemma_apply_replies_snoc(m: MemModel, rs: Seq<ReplyModel>, r: ReplyModel, now: int)
    ensures
        spec_apply_replies(m, rs.push(r), now) == spec_apply_reply(
            spec_apply_replies(m, rs, now),
            r.body,
            r.category,
            now,
        ),
    decreases rs.len(),
{
    if rs.len() == 0 {
        assert(rs.push(r).first() == r);
        assert(rs.push(r).drop_first() =~= rs);
        assert(spec_apply_replies(spec_apply_reply(m, r.body, r.category, now), rs, now)
            == spec_apply_reply(m, r.body, r.category, now));
    } else {
        assert(rs.push(r).first() == rs.first());
        assert(rs.push(r).drop_first() =~= rs.drop_first().push(r));
        lemma_apply_replies_snoc(
            spec_apply_reply(m, rs.first().body, rs.first().category, now),
            rs.drop_first(),
            r,
            now,
        );
    }
}

/// Counting one more reply at the end.
proof fn lemma_invite_count_snoc(rs: Seq<ReplyModel>, r: ReplyModel)
    ensures
        spec_invite_count(rs.push(r)) == spec_invite_count(rs) + if spec_wants_invite(r.category) {
            1int
        } else {
            0int
        },
    decreases rs.len(),
{
    if rs.len() == 0 {
        assert(rs.push(r).first() == r);
        assert(rs.push(r).drop_first() =~= rs);
        assert(spec_invite_count(rs) == 0);
    } else {
        assert(rs.push(r).first() == rs.first());
        assert(rs.push(r).drop_first() =~= rs.drop_first().push(r));
        lemma_invite_count_snoc(rs.drop_first(), r);
    }
}

/// Harvesting never touches the identity, the draft copy, or the counter,
/// and never lowers well-formedness.
pub proof fn lemma_apply_replies_frame(m: MemModel, rs: Seq<ReplyModel>, now: int)
    requires
        m.wf(),
        valid_time(now),
    ensures
        ({
            let m1 = spec_apply_replies(m, rs, now);
            &&& m1.wf()
            &&& m1.name == m.name
            &&& m1.email == m.email
            &&& m1.company == m.company
            &&& m1.role == m.role
            &&& m1.last_msg == m.last_msg
            &&& m1.follow_ups == m.follow_ups
        }),
    decreases rs.len(),
{
    if rs.len() != 0 {
        lemma_apply_replies_frame(
            spec_apply_reply(m, rs.first().body, rs.first().category, now),
            rs.drop_first(),
            now,
        );
    }
}

/// Harvesting only appends: every reply already recorded keeps its index.
proof fn lemma_apply_replies_prefix(m: MemModel, rs: Seq<ReplyModel>, now: int)
    ensures
        ({
            let m1 = spec_apply_replies(m, rs, now);
            &&& m.replies.len() <= m1.replies.len()
            &&& forall|i: int| 0 <= i < m.replies.len() ==> m1.replies[i] == m.replies[i]
        }),
    decreases rs.len(),
{
    if rs.len() != 0 {
        let m2 = spec_apply_reply(m, rs.first().body, rs.first().category, now);
        lemma_apply_replies_prefix(m2, rs.drop_first(), now);
    }
}

/// Law: the conversation history never shrinks or reorders, and the nudge
/// counter never falls. Whatever a tick's collaborators returned, every
/// reply already recorded keeps its place, and the counter moves only up.
pub proof fn lemma_history_append_only(m: MemModel, t: TickModel)
    requires
        m.wf(),
        valid_time(t.now),
    ensures
        ({
            let m1 = spec_tick_mem(m, t);
            &&& m.replies.len() <= m1.replies.len()
            &&& forall|i: int| 0 <= i < m.replies.len() ==> m1.replies[i] == m.replies[i]
            &&& m.follow_ups <= m1.follow_ups
        }),
{
    match t.fetched {
        None => {},
        Some(rs) => {
            lemma_apply_replies_prefix(m, rs, t.now);
            lemma_apply_replies_frame(m, rs, t.now);
        },
    }
}

/// The built-in action. Its verified core folds one tick's collaborator
/// results into the record; the surrounding process performs the
/// collaborator calls themselves and hands their results in.
pub struct FollowUp;

impl FollowUp {
    /// One tick of the follow-up action over the given collaborator
    /// results: harvest every reply in order, then nudge if the backoff
    /// rule says so. A collaborator failure ends the tick at the point it
    /// struck, keeping all mutations made up to there.
    pub fn run_tick(&self, mem: &mut ProspectMem, t: &TickInput) -> (r: Result<
        TickStats,
        AgentError,
    >)
        requires
            old(mem)@.wf(),
            valid_time(t@.now),
            old(mem)@.follow_ups < u8::MAX,
        ensures
            final(mem)@ == spec_tick_mem(old(mem)@, t@),
            final(mem)@.wf(),
            final(mem)@.follow_ups <= old(mem)@.follow_ups + 1,
            (r is Ok) == spec_tick_ok(old(mem)@, t@),
            (r matches Ok(st) ==> ({
                let rs = t@.fetched.unwrap();
                &&& st.invites as int == spec_invite_count(rs)
                &&& st.nudged == spec_nudge_due(spec_apply_replies(old(mem)@, rs, t@.now), t@.now)
            })),
            (r matches Err(e) ==> e == spec_tick_err(old(mem)@, t@)),
    {
        let ghost pre = mem@;
        let replies: &Vec<Reply> = match &t.fetched {
            None => {
                return Err(AgentError::Fetch);
            },
            Some(rs) => rs,
        };
        let ghost rviews = replies.deep_view();
        let mut invites: usize = 0;
        let mut i: usize = 0;
        while i < replies.len()
            invariant
                0 <= i <= replies.len(),
                rviews == replies.deep_view(),
                rviews.len() == replies@.len(),
                mem@ == spec_apply_replies(pre, rviews.take(i as int), t@.now),
                mem@.wf(),
                mem@.follow_ups == pre.follow_ups,
                invites <= i,
                invites as int == spec_invite_count(rviews.take(i as int)),
                pre.wf(),
                valid_time(t@.now),
            decreases replies.len() - i,
        {
            let body = replies[i].body.clone();
            let cat = replies[i].category;
            proof {
                assert(rviews.take(i as int).push(rviews[i as int]) =~= rviews.take(i + 1));
                lemma_apply_replies_snoc(pre, rviews.take(i as int), rviews[i as int], t@.now);
                lemma_invite_count_snoc(rviews.take(i as int), rviews[i as int]);
            }
            let wants = apply_reply(mem, body, cat, t.now);
            if wants {
                invites = invites + 1;
            }
            i = i + 1;
        }
        proof {
            assert(rviews.take(replies@.len() as int) =~= rviews);
        }
        let due = nudge_due(mem, t.now);
        if due {
            let body: String = match &t.draft {
                None => {
                    return Err(AgentError::Draft);
                },
                Some(b) => b.clone(),
            };
            note_draft(mem, body);
            if !t.send_ok {
                return Err(AgentError::Send);
            }
            note_sent(mem, t.now);
        }
        Ok(TickStats { invites, nudged: due })
    }
}

/// Law: on a tick whose harvest leaves the contact Waiting with the backoff
/// window elapsed, and whose draft and send both succeed, exactly one nudge
/// goes out: the counter rises by exactly one, the stamp becomes the tick's
/// clock, and the draft is kept as the last message.
pub proof fn lemma_nudge_fires(m: MemModel, t: TickModel, body: Seq<char>)
    requires
        m.wf(),
        valid_time(t.now),
        t.fetched is Some,
        t.draft == Some(body),
        t.send_ok,
        spec_apply_replies(m, t.fetched.unwrap(), t.now).status == Status::Waiting,
        spec_elapsed(spec_apply_replies(m, t.fetched.unwrap(), t.now).last_stamp, t.now)
            > NUDGE_WINDOW_SECS,
    ensures
        spec_tick_mem(m, t).follow_ups == m.follow_ups + 1,
        spec_tick_mem(m, t).last_stamp == Some(t.now),
        spec_tick_mem(m, t).last_msg == Some(body),
        spec_tick_ok(m, t),
{
    let rs = t.fetched.unwrap();
    lemma_apply_replies_frame(m, rs, t.now);
}

/// Law: a "not now" reply defers re-engagement. The stamp moves a deferral
/// past the tick's clock, the status leaves Waiting, and any check before
/// the deferred stamp ages past the nudge window computes an elapsed time
/// under the window, so no nudge goes out.
pub proof fn lemma_not_now_defers(m: MemModel, body: Seq<char>, now: int, later: int)
    requires
        later < now + DEFER_SECS + NUDGE_WINDOW_SECS,
    ensures
        ({
            let m2 = spec_apply_reply(m, body, Category::NotNow, now);
            &&& m2.last_stamp == Some(now + DEFER_SECS)
            &&& m2.status == Status::NotNow
            &&& m2.status != Status::Waiting
            &&& spec_elapsed(m2.last_stamp, later) < NUDGE_WINDOW_SECS
            &&& !spec_nudge_due(m2, later)
        }),
{
}

} // verus!
