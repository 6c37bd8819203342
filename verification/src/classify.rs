//! The contact state machine: resolving a classifier's output to a reply
//! category, and mapping a category to the contact's next status.

use vstd::prelude::*;
use vstd::string::StringExecFns;
use crate::memory::Status;

verus! {

/// What the classification collaborator resolves a reply to.
#[derive(Clone, Copy, PartialEq, Eq, Structural, Debug)]
pub enum Category {
    Accepted,
    Declined,
    NotNow,
    Bounce,
    Other,
}

/// The status a classified reply moves a contact to. Total: every category,
/// including the unrecognized one, yields a status.
pub open spec fn spec_status_for(c: Category) -> Status {
    match c {
        Category::Accepted => Status::InviteAccepted,
        Category::Declined => Status::Declined,
        Category::Bounce => Status::Bounce,
        Category::NotNow => Status::NotNow,
        Category::Other => Status::Waiting,
    }
}

/// Map a reply category to the contact's next status.
pub fn status_for(c: Category) -> (s: Status)
    ensures
        s == spec_status_for(c),
{
    match c {
        Category::Accepted => Status::InviteAccepted,
        Category::Declined => Status::Declined,
        Category::Bounce => Status::Bounce,
        Category::NotNow => Status::NotNow,
        Category::Other => Status::Waiting,
    }
}

/// The category a normalized (trimmed, upper-case) classifier label denotes;
/// anything unrecognized is Other.
pub open spec fn spec_category_of(label: Seq<char>) -> Category {
    if label == "ACCEPTED"@ || label == "YES"@ || label == "SURE"@ {
        Category::Accepted
    } else if label == "DECLINED"@ || label == "NO"@ {
        Category::Declined
    } else if label == "BOUNCE"@ {
        Category::Bounce
    } else if label == "NOT_NOW"@ {
        Category::NotNow
    } else {
        Category::Other
    }
}

/// String equality over the character views.
pub(crate) fn str_eq(a: &str, b: &str) -> (r: bool)
    ensures
        r == (a@ == b@),
{
    let sa: String = a.to_owned();
    let sb: String = b.to_owned();
    sa == sb
}

/// Match a normalized classifier label against the recognized labels.
pub fn parse_category(label: &str) -> (c: Category)
    ensures
        c == spec_category_of(label@),
{
    if str_eq(label, "ACCEPTED") || str_eq(label, "YES") || str_eq(label, "SURE") {
        Category::Accepted
    } else if str_eq(label, "DECLINED") || str_eq(label, "NO") {
        Category::Declined
    } else if str_eq(label, "BOUNCE") {
        Category::Bounce
    } else if str_eq(label, "NOT_NOW") {
        Category::NotNow
    } else {
        Category::Other
    }
}

/// What `str::trim` leaves of a string.
pub uninterp spec fn trimmed_of(s: Seq<char>) -> Seq<char>;

/// Relies on `str::trim`: the result depends on the characters alone.
#[verifier::external_body]
fn trim_str(s: &str) -> (r: &str)
    ensures
        r@ == trimmed_of(s@),
{
    s.trim()
}

/// What `str::to_uppercase` makes of a string.
pub uninterp spec fn upper_of(s: Seq<char>) -> Seq<char>;

/// Relies on `str::to_uppercase`: the result depends on the characters alone.
#[verifier::external_body]
fn upper_str(s: &str) -> (r: String)
    ensures
        r@ == upper_of(s@),
{
    s.to_uppercase()
}

/// Resolve a raw classifier output to a category: the output is trimmed,
/// upper-cased, and matched against the recognized labels.
pub fn classify_reply(raw: &str) -> (c: Category)
    ensures
        c == spec_category_of(upper_of(trimmed_of(raw@))),
{
    let t = trim_str(raw);
    let u = upper_str(t);
    parse_category(u.as_str())
}

/// The instruction sent to the classification collaborator ahead of the
/// reply text.
pub fn classification_prompt(txt: &str) -> (r: String)
    ensures
        r@ == "Classify this email strictly as one of ACCEPTED, DECLINED, NOT_NOW, BOUNCE, OTHER:\n\n"@
            + txt@,
{
    let mut s: String =
        "Classify this email strictly as one of ACCEPTED, DECLINED, NOT_NOW, BOUNCE, OTHER:\n\n".to_owned();
    s.append(txt);
    s
}

/// Law: the five reply categories map to statuses exactly as the follow-up
/// table prescribes, and the unrecognized category keeps the contact
/// Waiting.
pub proof fn lemma_classification_table()
    ensures
        spec_status_for(Category::Accepted) == Status::InviteAccepted,
        spec_status_for(Category::Declined) == Status::Declined,
        spec_status_for(Category::Bounce) == Status::Bounce,
        spec_status_for(Category::NotNow) == Status::NotNow,
        spec_status_for(Category::Other) == Status::Waiting,
{
}

/// Law: a label that matches none of the recognized classifier outputs
/// resolves to Other, and so leaves the contact Waiting.
pub proof fn lemma_unrecognized_label_waits(label: Seq<char>)
    requires
        label != "ACCEPTED"@,
        label != "YES"@,
        label != "SURE"@,
        label != "DECLINED"@,
        label != "NO"@,
        label != "BOUNCE"@,
        label != "NOT_NOW"@,
    ensures
        spec_category_of(label) == Category::Other,
        spec_status_for(spec_category_of(label)) == Status::Waiting,
{
}

} // verus!
