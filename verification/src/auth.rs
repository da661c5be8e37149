//! The authorization check: may the caller switch identity at all?

use vstd::prelude::*;
use crate::identity::{Membership, MembershipView};

verus! {

/// The name of the group whose members may switch identity.
pub const AUTHORIZATION_GROUP: &'static str = "suexrs";

/// Whether the enumeration of the caller's groups shows the caller to be a
/// member of the group `gid`. A caller without an account record has no
/// enumeration and is a member of nothing.
pub open spec fn member(gid: u32, membership: Option<MembershipView>) -> bool {
    match membership {
        Some(m) => m.considered().contains(gid),
        None => false,
    }
}

/// The authorization predicate. `group` is the identifier of the
/// authorization group, where the group database has that group; `uid` is the
/// caller's real user identifier; `membership` is the enumeration of the
/// caller's groups, where the caller has an account record.
///
/// Without the authorization group nobody is authorized. With it, the
/// superuser is, and so is every member of the group.
pub open spec fn authorized(
    group: Option<u32>,
    uid: u32,
    membership: Option<MembershipView>,
) -> bool {
    match group {
        None => false,
        Some(gid) => uid == 0 || member(gid, membership),
    }
}

/// Who may enter the identity transition: the superuser in any case, and
/// whoever the authorization check accepts.
pub open spec fn permitted(group: Option<u32>, uid: u32, membership: Option<MembershipView>) -> bool {
    uid == 0 || authorized(group, uid, membership)
}

/// The view of an enumeration that may be absent.
pub open spec fn membership_view(membership: Option<&Membership>) -> Option<MembershipView> {
    match membership {
        Some(m) => Some(m@),
        None => None,
    }
}

/// Decides the authorization check from what the lookups returned.
pub fn is_authorized(group: Option<u32>, uid: u32, membership: Option<&Membership>) -> (yes: bool)
    ensures
        yes == authorized(group, uid, membership_view(membership)),
{
    match group {
        None => false,
        Some(gid) => {
            if uid == 0 {
                true
            } else {
                match membership {
                    Some(m) => m.holds(gid),
                    None => false,
                }
            }
        },
    }
}

/// The superuser is authorized whatever groups the caller is in, wherever
/// the authorization group exists.
pub proof fn lemma_superuser_authorized(gid: u32, membership: Option<MembershipView>)
    ensures
        authorized(Some(gid), 0, membership),
{
}

/// The superuser may enter the identity transition in any case.
pub proof fn lemma_superuser_permitted(group: Option<u32>, membership: Option<MembershipView>)
    ensures
        permitted(group, 0, membership),
{
}

/// A caller other than the superuser who is not a member of the
/// authorization group is not authorized, and may not enter the transition.
pub proof fn lemma_outsider_refused(group: Option<u32>, uid: u32, membership: Option<MembershipView>)
    requires
        uid != 0,
        group is Some ==> !member(group->0, membership),
    ensures
        !authorized(group, uid, membership),
        !permitted(group, uid, membership),
{
}

/// For a caller other than the superuser the check is membership itself.
pub proof fn lemma_authorized_iff_member(gid: u32, uid: u32, membership: Option<MembershipView>)
    requires
        uid != 0,
    ensures
        authorized(Some(gid), uid, membership) <==> member(gid, membership),
{
}

} // verus!
