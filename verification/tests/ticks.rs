use goal_agent::classify::Category;
use goal_agent::email_agent::{AgentError, FollowUp, InviteAccepted, Reply, Target, TickInput};
use goal_agent::engine::run_goal;
use goal_agent::memory::{ProspectMem, Status};

fn waiting_mem() -> ProspectMem {
    let mut m = ProspectMem::new(
        "Ada".to_string(),
        "ada@example.com".to_string(),
        "Analytical Engines".to_string(),
        "CTO".to_string(),
    );
    m.status = Status::Waiting;
    m
}

fn quiet_tick(now: i64) -> TickInput {
    TickInput {
        now,
        fetched: Some(Vec::new()),
        draft: Some("following up on my last note".to_string()),
        send_ok: true,
    }
}

fn reply_tick(now: i64, body: &str, category: Category) -> TickInput {
    TickInput {
        now,
        fetched: Some(vec![Reply { body: body.to_string(), category }]),
        draft: Some("following up on my last note".to_string()),
        send_ok: true,
    }
}

#[test]
fn first_tick_nudges_second_tick_waits() {
    // A fresh Waiting contact with no stamp: the first tick sends one nudge,
    // a tick one second later sends none.
    let mut m = waiting_mem();
    let t0 = 1_700_000_000;
    let st = FollowUp.run_tick(&mut m, &quiet_tick(t0)).expect("tick runs");
    assert!(st.nudged);
    assert_eq!(st.invites, 0);
    assert_eq!(m.follow_ups, 1);
    assert_eq!(m.last_stamp, Some(t0));
    assert_eq!(m.last_msg, Some("following up on my last note".to_string()));

    let st2 = FollowUp.run_tick(&mut m, &quiet_tick(t0 + 1)).expect("tick runs");
    assert!(!st2.nudged);
    assert_eq!(m.follow_ups, 1);
    assert_eq!(m.last_stamp, Some(t0));
}

#[test]
fn accepted_reply_requests_invite_and_suppresses_nudge() {
    let mut m = waiting_mem();
    let t0 = 1_700_000_000;
    let st = FollowUp
        .run_tick(&mut m, &reply_tick(t0, "sounds great, book it", Category::Accepted))
        .expect("tick runs");
    assert_eq!(st.invites, 1);
    assert!(!st.nudged);
    assert_eq!(m.status, Status::InviteAccepted);
    assert_eq!(m.prospect_replies, vec!["sounds great, book it".to_string()]);
    assert_eq!(m.follow_ups, 0);
    assert!(InviteAccepted.met(&m));
}

#[test]
fn not_now_reply_keeps_later_ticks_quiet() {
    let mut m = waiting_mem();
    let t0 = 1_700_000_000;
    let st = FollowUp
        .run_tick(&mut m, &reply_tick(t0, "try me next quarter", Category::NotNow))
        .expect("tick runs");
    assert!(!st.nudged);
    assert_eq!(m.status, Status::NotNow);
    assert_eq!(m.last_stamp, Some(t0 + 1_209_600));

    // An hour later: still no nudge, and no counter movement.
    let st2 = FollowUp.run_tick(&mut m, &quiet_tick(t0 + 3_600)).expect("tick runs");
    assert!(!st2.nudged);
    assert_eq!(m.follow_ups, 0);
    assert_eq!(m.last_stamp, Some(t0 + 1_209_600));
}

#[test]
fn failed_fetch_leaves_record_untouched() {
    let mut m = waiting_mem();
    let tick = TickInput { now: 1_700_000_000, fetched: None, draft: None, send_ok: false };
    let r = FollowUp.run_tick(&mut m, &tick);
    assert_eq!(r, Err(AgentError::Fetch));
    assert_eq!(m.follow_ups, 0);
    assert_eq!(m.last_msg, None);
    assert_eq!(m.last_stamp, None);
    assert!(m.prospect_replies.is_empty());
}

#[test]
fn failed_draft_keeps_harvest_progress() {
    let mut m = waiting_mem();
    let t0 = 1_700_000_000;
    let tick = TickInput {
        now: t0,
        fetched: Some(vec![Reply { body: "??".to_string(), category: Category::Other }]),
        draft: None,
        send_ok: true,
    };
    let r = FollowUp.run_tick(&mut m, &tick);
    assert_eq!(r, Err(AgentError::Draft));
    // The harvested reply stays; nothing of the nudge happened.
    assert_eq!(m.prospect_replies, vec!["??".to_string()]);
    assert_eq!(m.last_msg, None);
    assert_eq!(m.follow_ups, 0);
}

#[test]
fn failed_send_keeps_draft_but_not_stamp() {
    let mut m = waiting_mem();
    let t0 = 1_700_000_000;
    let tick = TickInput {
        now: t0,
        fetched: Some(Vec::new()),
        draft: Some("hello again".to_string()),
        send_ok: false,
    };
    let r = FollowUp.run_tick(&mut m, &tick);
    assert_eq!(r, Err(AgentError::Send));
    assert_eq!(m.last_msg, Some("hello again".to_string()));
    assert_eq!(m.last_stamp, None);
    assert_eq!(m.follow_ups, 0);
}

#[test]
fn goal_runs_until_acceptance_and_not_after() {
    // Interval-driven end-to-end shape: first tick nudges, second tick sees
    // an accepted reply, and the scheduler stops on the following check.
    let mut m = waiting_mem();
    let t0 = 1_700_000_000;
    let ticks = vec![
        quiet_tick(t0),
        reply_tick(t0 + 1, "yes, send the invite", Category::Accepted),
        quiet_tick(t0 + 2),
        quiet_tick(t0 + 3),
    ];
    let run = run_goal(&FollowUp, &InviteAccepted, &mut m, &ticks);
    assert!(run.completed);
    // Two ticks ran; the two after the acceptance never did.
    assert_eq!(run.ticks_run, 2);
    assert_eq!(m.status, Status::InviteAccepted);
    assert_eq!(m.follow_ups, 1);
    assert_eq!(m.prospect_replies, vec!["yes, send the invite".to_string()]);

    // A completed goal runs nothing further, whatever the script offers.
    let before = m.clone();
    let run2 = run_goal(&FollowUp, &InviteAccepted, &mut m, &ticks);
    assert!(run2.completed);
    assert_eq!(run2.ticks_run, 0);
    assert_eq!(m.follow_ups, before.follow_ups);
    assert_eq!(m.prospect_replies, before.prospect_replies);
}

#[test]
fn acceptance_stops_goal_even_if_invite_failed() {
    // The meeting call's outcome is not part of the record: the goal
    // completes on acceptance regardless.
    let mut m = waiting_mem();
    let t0 = 1_700_000_000;
    let ticks = vec![reply_tick(t0, "ok let's talk", Category::Accepted)];
    let run = run_goal(&FollowUp, &InviteAccepted, &mut m, &ticks);
    assert!(run.completed);
    assert_eq!(run.ticks_run, 1);
    assert_eq!(m.status, Status::InviteAccepted);
}

#[test]
fn declined_goal_keeps_looping() {
    let mut m = waiting_mem();
    let t0 = 1_700_000_000;
    let ticks = vec![
        reply_tick(t0, "not interested", Category::Declined),
        quiet_tick(t0 + 1),
        quiet_tick(t0 + 2),
    ];
    let run = run_goal(&FollowUp, &InviteAccepted, &mut m, &ticks);
    assert!(!run.completed);
    assert_eq!(run.ticks_run, 3);
    assert_eq!(m.status, Status::Declined);
    // Declined suppresses nudges, so the counter never moved.
    assert_eq!(m.follow_ups, 0);
}

#[test]
fn action_errors_do_not_stop_the_goal() {
    let mut m = waiting_mem();
    let t0 = 1_700_000_000;
    let failing = TickInput { now: t0, fetched: None, draft: None, send_ok: false };
    let ticks = vec![
        failing.clone(),
        failing,
        reply_tick(t0 + 2, "yes", Category::Accepted),
    ];
    let run = run_goal(&FollowUp, &InviteAccepted, &mut m, &ticks);
    assert!(run.completed);
    assert_eq!(run.ticks_run, 3);
    assert_eq!(m.status, Status::InviteAccepted);
}
