use vstd::prelude::*;
use crate::books::opt_after;
use crate::sms::opt_view;
use crate::transport::or_old;

verus! {

/// The fields of a library membership that its screens change.
#[derive(Debug)]
pub struct MemberRow {
    pub name: String,
    pub class: Option<String>,
    pub phone: Option<String>,
    pub status: String,
}

/// A partial change of a library membership.
#[derive(Debug)]
pub struct UpdateMemberPayload {
    pub name: Option<String>,
    pub class: Option<String>,
    pub phone: Option<String>,
    pub status: Option<String>,
}

/// Whether a membership is the stored one with an update's given fields
/// put in.
pub open spec fn member_merged(old: MemberRow, u: UpdateMemberPayload, x: MemberRow) -> bool {
    &&& x.name@ == or_old(u.name, old.name@)
    &&& opt_view(x.class) == opt_after(u.class, old.class)
    &&& opt_view(x.phone) == opt_after(u.phone, old.phone)
    &&& x.status@ == or_old(u.status, old.status@)
}

/// Puts an update's given fields into a stored membership.
pub fn member_update(old: MemberRow, u: &UpdateMemberPayload) -> (r: MemberRow)
    ensures
        member_merged(old, *u, r),
{
    let mut x = old;
    if let Some(t) = &u.name {
        x.name = t.clone();
    }
    if let Some(t) = &u.class {
        x.class = Some(t.clone());
    }
    if let Some(t) = &u.phone {
        x.phone = Some(t.clone());
    }
    if let Some(t) = &u.status {
        x.status = t.clone();
    }
    x
}

/// An update that gives no field leaves a membership as it was.
pub proof fn law_empty_member_update_keeps_member(old: MemberRow, x: MemberRow)
    requires
        member_merged(
            old,
            (UpdateMemberPayload { name: None, class: None, phone: None, status: None }),
            x,
        ),
    ensures
        x.name@ == old.name@,
        opt_view(x.class) == opt_view(old.class),
        opt_view(x.phone) == opt_view(old.phone),
        x.status@ == old.status@,
{
}

/// Repeating a membership update changes nothing more.
pub proof fn law_member_update_idempotent(old: MemberRow, u: UpdateMemberPayload, x: MemberRow, y: MemberRow)
    requires
        member_merged(old, u, x),
        member_merged(x, u, y),
    ensures
        y.name@ == x.name@,
        opt_view(y.class) == opt_view(x.class),
        opt_view(y.phone) == opt_view(x.phone),
        y.status@ == x.status@,
{
}

/// Each field that a membership update gives replaces the stored one, and
/// each it leaves out stays.
pub proof fn law_member_update_replaces_given(old: MemberRow, u: UpdateMemberPayload, x: MemberRow)
    requires
        member_merged(old, u, x),
    ensures
        u.name matches Some(t) ==> x.name@ == t@,
        u.name is None ==> x.name@ == old.name@,
        u.class matches Some(t) ==> opt_view(x.class) == Some(t@),
        u.class is None ==> opt_view(x.class) == opt_view(old.class),
        u.phone matches Some(t) ==> opt_view(x.phone) == Some(t@),
        u.phone is None ==> opt_view(x.phone) == opt_view(old.phone),
        u.status matches Some(t) ==> x.status@ == t@,
        u.status is None ==> x.status@ == old.status@,
{
}

} // verus!
