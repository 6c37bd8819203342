use goal_agent::classify::{classification_prompt, classify_reply, parse_category, status_for, Category};
use goal_agent::memory::{ProspectMem, Status, DEFER_SECS};
use goal_agent::email_agent::{apply_reply, harvest_after, nudge_due, note_draft, note_sent};
use goal_agent::registry::Registry;
use goal_agent::routes::{GoalSpec, ProspectInfo};

fn waiting_mem() -> ProspectMem {
    let mut m = ProspectMem::new(
        "Ada".to_string(),
        "ada@example.com".to_string(),
        "Analytical Engines".to_string(),
        "CTO".to_string(),
    );
    m.status = Status::Waiting;
    m
}

#[test]
fn category_table_maps_all_five() {
    assert_eq!(status_for(Category::Accepted), Status::InviteAccepted);
    assert_eq!(status_for(Category::Declined), Status::Declined);
    assert_eq!(status_for(Category::Bounce), Status::Bounce);
    assert_eq!(status_for(Category::NotNow), Status::NotNow);
    assert_eq!(status_for(Category::Other), Status::Waiting);
}

#[test]
fn labels_resolve_to_categories() {
    assert_eq!(parse_category("ACCEPTED"), Category::Accepted);
    assert_eq!(parse_category("YES"), Category::Accepted);
    assert_eq!(parse_category("SURE"), Category::Accepted);
    assert_eq!(parse_category("DECLINED"), Category::Declined);
    assert_eq!(parse_category("NO"), Category::Declined);
    assert_eq!(parse_category("BOUNCE"), Category::Bounce);
    assert_eq!(parse_category("NOT_NOW"), Category::NotNow);
}

#[test]
fn unrecognized_labels_are_other() {
    assert_eq!(parse_category(""), Category::Other);
    assert_eq!(parse_category("MAYBE"), Category::Other);
    assert_eq!(parse_category("accepted?"), Category::Other);
    assert_eq!(status_for(parse_category("GIBBERISH")), Status::Waiting);
}

#[test]
fn classifier_output_is_normalized_before_matching() {
    assert_eq!(classify_reply("  accepted \n"), Category::Accepted);
    assert_eq!(classify_reply("not_now"), Category::NotNow);
    assert_eq!(classify_reply("No"), Category::Declined);
    assert_eq!(classify_reply("never heard of it"), Category::Other);
}

#[test]
fn prompt_has_exact_shape() {
    assert_eq!(
        classification_prompt("see you then"),
        "Classify this email strictly as one of ACCEPTED, DECLINED, NOT_NOW, BOUNCE, OTHER:\n\nsee you then"
    );
}

#[test]
fn apply_reply_appends_and_moves_status() {
    let mut m = waiting_mem();
    let invite = apply_reply(&mut m, "sounds great".to_string(), Category::Accepted, 1_000_000);
    assert!(invite);
    assert_eq!(m.status, Status::InviteAccepted);
    assert_eq!(m.prospect_replies, vec!["sounds great".to_string()]);
    assert_eq!(m.last_stamp, None);
    assert_eq!(m.follow_ups, 0);
}

#[test]
fn not_now_reply_defers_the_stamp() {
    let mut m = waiting_mem();
    let now = 1_000_000;
    let invite = apply_reply(&mut m, "ping me later".to_string(), Category::NotNow, now);
    assert!(!invite);
    assert_eq!(m.status, Status::NotNow);
    assert_eq!(m.last_stamp, Some(now + DEFER_SECS));
    assert_eq!(m.last_stamp, Some(now + 14 * 24 * 3600));
}

#[test]
fn nudge_due_respects_window_and_status() {
    let now = 10_000_000;
    let mut m = waiting_mem();
    // Unset stamp: the two-day fallback makes the nudge due at once.
    assert!(nudge_due(&m, now));
    m.last_stamp = Some(now - 1);
    assert!(!nudge_due(&m, now));
    m.last_stamp = Some(now - 172_800);
    assert!(nudge_due(&m, now));
    m.last_stamp = Some(now - 172_801);
    assert!(nudge_due(&m, now));
    // A deferred (future) stamp suppresses the nudge.
    m.last_stamp = Some(now + 5);
    assert!(!nudge_due(&m, now));
    // A status other than Waiting never nudges.
    m.last_stamp = None;
    m.status = Status::Declined;
    assert!(!nudge_due(&m, now));
    m.status = Status::NotNow;
    assert!(!nudge_due(&m, now));
}

#[test]
fn recording_a_nudge_bumps_counter_and_stamp() {
    let mut m = waiting_mem();
    let now = 2_000_000;
    note_draft(&mut m, "just checking in".to_string());
    assert_eq!(m.last_msg, Some("just checking in".to_string()));
    assert_eq!(m.follow_ups, 0);
    note_sent(&mut m, now);
    assert_eq!(m.last_stamp, Some(now));
    assert_eq!(m.follow_ups, 1);
}

#[test]
fn harvest_window_defaults_to_thirty_days() {
    let now = 5_000_000;
    let mut m = waiting_mem();
    assert_eq!(harvest_after(&m, now), now - 2_592_000);
    m.last_stamp = Some(123_456);
    assert_eq!(harvest_after(&m, now), 123_456);
}

#[test]
fn registry_keeps_submission_order_with_duplicates() {
    let mut reg = Registry::new();
    assert_eq!(reg.snapshot(), Vec::<String>::new());
    reg.register("email_followup".to_string());
    reg.register("other_goal".to_string());
    reg.register("email_followup".to_string());
    assert_eq!(
        reg.snapshot(),
        vec![
            "email_followup".to_string(),
            "other_goal".to_string(),
            "email_followup".to_string(),
        ]
    );
}

#[test]
fn recognized_submission_builds_waiting_record() {
    let goal = GoalSpec {
        name: "email_followup".to_string(),
        interval: 1,
        prospect: ProspectInfo {
            name: "Ada".to_string(),
            email: "ada@example.com".to_string(),
            company: "Analytical Engines".to_string(),
            role: "CTO".to_string(),
        },
    };
    let mem = goal_agent::routes::plan_goal(&goal).expect("recognized goal");
    assert_eq!(mem.status, Status::Waiting);
    assert_eq!(mem.name, "Ada");
    assert_eq!(mem.email, "ada@example.com");
    assert_eq!(mem.company, "Analytical Engines");
    assert_eq!(mem.role, "CTO");
    assert_eq!(mem.last_msg, None);
    assert_eq!(mem.last_stamp, None);
    assert!(mem.prospect_replies.is_empty());
    assert_eq!(mem.follow_ups, 0);
}

#[test]
fn unrecognized_submission_schedules_nothing() {
    let goal = GoalSpec {
        name: "world_domination".to_string(),
        interval: 1,
        prospect: ProspectInfo {
            name: "X".to_string(),
            email: "x@example.com".to_string(),
            company: String::new(),
            role: String::new(),
        },
    };
    assert!(goal_agent::routes::plan_goal(&goal).is_none());
}

#[test]
fn default_record_is_new_and_empty() {
    let m = ProspectMem::default();
    assert_eq!(m.status, Status::New);
    assert_eq!(m.follow_ups, 0);
    assert!(m.prospect_replies.is_empty());
    assert_eq!(Status::default(), Status::New);
}
