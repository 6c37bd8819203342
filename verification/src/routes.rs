//! The control surface's decisions: what a goal submission contains, and
//! which submissions start a follow-up goal. Registering the name and
//! spawning the scheduler task happen in the surrounding process.

use vstd::prelude::*;
use crate::memory::{MemModel, ProspectMem, Status};

verus! {

/// The identity a submission carries for the contact to follow up with.
#[derive(Clone, Debug)]
pub struct ProspectInfo {
    pub name: String,
    pub email: String,
    pub company: String,
    pub role: String,
}

/// One goal submission: the goal's name, the poll interval in seconds, and
/// the contact's identity.
#[derive(Clone, Debug)]
pub struct GoalSpec {
    pub name: String,
    pub interval: u64,
    pub prospect: ProspectInfo,
}

/// Decide what a submission starts. Exactly the one recognized goal name
/// yields a contact record, built from the submitted identity with status
/// Waiting and an empty history; any other name yields nothing — it is
/// still registered and answered as accepted, just never scheduled.
pub fn plan_goal(goal: &GoalSpec) -> (r: Option<ProspectMem>)
    ensures
        (r is Some) == (goal.name@ == "email_followup"@),
        (r matches Some(m) ==> m@ == (MemModel {
            name: goal.prospect.name@,
            email: goal.prospect.email@,
            company: goal.prospect.company@,
            role: goal.prospect.role@,
            last_msg: None,
            last_stamp: None,
            replies: Seq::empty(),
            status: Status::Waiting,
            follow_ups: 0,
        })),
        (r matches Some(m) ==> m@.wf()),
{
    if crate::classify::str_eq(goal.name.as_str(), "email_followup") {
        Some(ProspectMem::new(
            goal.prospect.name.clone(),
            goal.prospect.email.clone(),
            goal.prospect.company.clone(),
            goal.prospect.role.clone(),
        ))
    } else {
        None
    }
}

} // verus!
