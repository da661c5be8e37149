//! What holds of every invocation, whatever the system answers.

use vstd::prelude::*;
use crate::auth::{authorized, permitted};
use crate::identity::{AccountView, MembershipView, MAX_GROUPS};
use crate::session::{
    lemma_next_consistent, lemma_started_consistent, started, Outcome, Phase, ReplyView,
    RequestView, SessionView,
};
use crate::target::numeric_id;

verus! {

/// Whether the phase belongs to the authorization check.
pub open spec fn authorizing(phase: Phase) -> bool {
    phase is AuthorizationGroup || phase is CallerAccount || phase is CallerGroups
}

/// Whether the request is one of the lookups of the authorization check for
/// the caller `caller_uid`.
pub open spec fn authorization_lookup(request: RequestView, caller_uid: u32) -> bool {
    request is GroupByName || request == RequestView::AccountByUid(caller_uid)
        || request is Groups
}

/// Whether the request changes the identity of the process.
pub open spec fn changes_identity(request: RequestView) -> bool {
    request is SetGroups || request is SetGid || request is SetUid
}

/// Whether, in the run of `replies` from `start`, the answer at place `k`
/// is an enumeration of the caller's groups that holds the authorization
/// group.
pub open spec fn shows_membership(start: SessionView, replies: Seq<ReplyView>, k: int) -> bool {
    &&& 0 <= k < replies.len()
    &&& start.after(replies.take(k)).phase is CallerGroups
    &&& replies[k] is Membership
    &&& replies[k]->Membership_0.considered().contains(
        start.after(replies.take(k)).phase->CallerGroups_auth_gid,
    )
}

/// One more answer extends a run by one step.
pub proof fn lemma_after_take(start: SessionView, replies: Seq<ReplyView>, k: int)
    requires
        0 <= k < replies.len(),
    ensures
        start.after(replies.take(k + 1)) == start.after(replies.take(k)).next(replies[k]),
{
    assert(replies.take(k + 1).drop_last() =~= replies.take(k));
}

/// A run of any length keeps what the invocation was asked for, and leaves
/// pending the request that its last phase waits on.
pub proof fn lemma_after_consistent(s: SessionView, replies: Seq<ReplyView>)
    requires
        s.consistent(),
    ensures
        s.after(replies).consistent(),
        s.after(replies).caller_uid == s.caller_uid,
        s.after(replies).user == s.user,
        s.after(replies).group == s.group,
        s.after(replies).command == s.command,
    decreases replies.len(),
{
    if replies.len() > 0 {
        lemma_after_consistent(s, replies.drop_last());
        lemma_next_consistent(s.after(replies.drop_last()), replies.last());
    }
}

/// An invocation that has ended stays as it is, whatever is handed in: the
/// only request it ever has is to exit with its outcome.
pub proof fn lemma_finished_stays(s: SessionView, replies: Seq<ReplyView>)
    requires
        s.phase is Finished,
    ensures
        s.after(replies) == s,
    decreases replies.len(),
{
    if replies.len() > 0 {
        lemma_finished_stays(s, replies.drop_last());
    }
}

/// The one order of the transition, step by step. A request to set the
/// supplementary groups answers a complete enumeration of the target's
/// groups, and asks for exactly the groups reported; a request to set the
/// group identifier answers the success of setting the groups; a request to
/// set the user identifier answers the success of setting the group
/// identifier; and the command is launched on the success of setting the
/// user identifier, and on nothing else.
pub proof fn lemma_step_order(s: SessionView, reply: ReplyView)
    requires
        s.consistent(),
    ensures
        s.next(reply).pending is SetGroups ==> s.phase is TargetGroups && reply is Membership
            && !reply->Membership_0.truncated() && s.next(reply).pending
            == RequestView::SetGroups(reply->Membership_0.reported()),
        s.next(reply).pending is SetGid ==> s.pending is SetGroups && reply is Applied,
        s.next(reply).pending is SetUid ==> s.pending is SetGid && reply is Applied,
        s.next(reply).pending is Spawn ==> s.pending is SetUid && reply is Applied,
{
}

/// The one order of the transition, over whole runs. Wherever a run from
/// the beginning of an invocation asks to set the user identifier, the
/// request before it was to set the group identifier and succeeded, and the
/// one before that was to set the supplementary groups and succeeded.
pub proof fn lemma_uid_after_gid_after_groups(
    args: Seq<Seq<char>>,
    caller_uid: u32,
    replies: Seq<ReplyView>,
)
    requires
        started(args, caller_uid).after(replies).pending is SetUid,
    ensures
        replies.len() >= 2,
        started(args, caller_uid).after(replies.take(replies.len() - 1)).pending is SetGid,
        replies[replies.len() - 1] is Applied,
        started(args, caller_uid).after(replies.take(replies.len() - 2)).pending is SetGroups,
        replies[replies.len() - 2] is Applied,
{
    let start = started(args, caller_uid);
    let n = replies.len() as int;
    lemma_started_consistent(args, caller_uid);
    assert(replies.take(n) =~= replies);
    if n == 0 {
        assert(start.after(replies) == start);
    } else {
        let before = start.after(replies.take(n - 1));
        lemma_after_consistent(start, replies.take(n - 1));
        lemma_after_take(start, replies, n - 1);
        lemma_step_order(before, replies[n - 1]);
        if n == 1 {
            assert(replies.take(0) =~= Seq::<ReplyView>::empty());
            assert(before == start);
        } else {
            let earlier = start.after(replies.take(n - 2));
            lemma_after_consistent(start, replies.take(n - 2));
            lemma_after_take(start, replies, n - 2);
            lemma_step_order(earlier, replies[n - 2]);
        }
    }
}

/// The command is launched under the new identity only: wherever a run asks
/// for it, the three requests before were to set the supplementary groups,
/// the group identifier and the user identifier, in that order, and each
/// succeeded.
pub proof fn lemma_command_after_transition(
    args: Seq<Seq<char>>,
    caller_uid: u32,
    replies: Seq<ReplyView>,
)
    requires
        started(args, caller_uid).after(replies).pending is Spawn,
    ensures
        replies.len() >= 3,
        started(args, caller_uid).after(replies.take(replies.len() - 3)).pending is SetGroups,
        replies[replies.len() - 3] is Applied,
        started(args, caller_uid).after(replies.take(replies.len() - 2)).pending is SetGid,
        replies[replies.len() - 2] is Applied,
        started(args, caller_uid).after(replies.take(replies.len() - 1)).pending is SetUid,
        replies[replies.len() - 1] is Applied,
{
    let start = started(args, caller_uid);
    let n = replies.len() as int;
    lemma_started_consistent(args, caller_uid);
    assert(replies.take(n) =~= replies);
    if n == 0 {
        assert(start.after(replies) == start);
    } else {
        let shorter = replies.take(n - 1);
        lemma_after_consistent(start, shorter);
        lemma_after_take(start, replies, n - 1);
        lemma_step_order(start.after(shorter), replies[n - 1]);
        lemma_uid_after_gid_after_groups(args, caller_uid, shorter);
        assert(shorter.take(n - 2) =~= replies.take(n - 2));
        assert(shorter.take(n - 3) =~= replies.take(n - 3));
    }
}

/// The same for the group identifier alone: wherever a run asks to set it,
/// the request before was to set the supplementary groups and succeeded.
pub proof fn lemma_gid_after_groups(args: Seq<Seq<char>>, caller_uid: u32, replies: Seq<ReplyView>)
    requires
        started(args, caller_uid).after(replies).pending is SetGid,
    ensures
        replies.len() >= 1,
        started(args, caller_uid).after(replies.take(replies.len() - 1)).pending is SetGroups,
        replies[replies.len() - 1] is Applied,
{
    let start = started(args, caller_uid);
    let n = replies.len() as int;
    lemma_started_consistent(args, caller_uid);
    assert(replies.take(n) =~= replies);
    if n == 0 {
        assert(start.after(replies) == start);
    } else {
        lemma_after_consistent(start, replies.take(n - 1));
        lemma_after_take(start, replies, n - 1);
        lemma_step_order(start.after(replies.take(n - 1)), replies[n - 1]);
    }
}

/// The identity that is applied is the identity that was resolved: the
/// group and user identifiers asked for are those that the invocation held
/// when the target's groups were enumerated.
pub proof fn lemma_applies_resolved_identity(s: SessionView, groups: MembershipView)
    requires
        s.phase is TargetGroups,
        !groups.truncated(),
    ensures
        s.next(ReplyView::Membership(groups)).pending == RequestView::SetGroups(groups.reported()),
        s.next(ReplyView::Membership(groups)).next(ReplyView::Applied).pending
            == RequestView::SetGid(s.phase->TargetGroups_gid),
        s.next(ReplyView::Membership(groups)).next(ReplyView::Applied).next(
            ReplyView::Applied,
        ).pending == RequestView::SetUid(s.phase->TargetGroups_uid),
        s.next(ReplyView::Membership(groups)).next(ReplyView::Applied).next(
            ReplyView::Applied,
        ).next(ReplyView::Applied).pending == RequestView::Spawn,
{
}

/// A step of the transition that the system refuses ends the invocation at
/// once: nothing further is asked of the system.
pub proof fn lemma_refusal_ends(s: SessionView, errno: i32, rest: Seq<ReplyView>)
    requires
        s.consistent(),
        changes_identity(s.pending),
    ensures
        s.next(ReplyView::Refused(errno)).phase is Finished,
        s.next(ReplyView::Refused(errno)).phase->Finished_0 is TransitionFailure,
        s.next(ReplyView::Refused(errno)).phase->Finished_0.code() == 1,
        s.next(ReplyView::Refused(errno)).after(rest) == s.next(ReplyView::Refused(errno)),
{
    lemma_finished_stays(s.next(ReplyView::Refused(errno)), rest);
}

/// A numeric user is never looked up by name to find the user identifier,
/// and a numeric group is never looked up by name to find the group
/// identifier. With both numeric, the only lookups by name in a run are
/// that of the authorization group and that of the account whose groups
/// are enumerated.
pub proof fn lemma_numeric_target_lookups(
    args: Seq<Seq<char>>,
    caller_uid: u32,
    replies: Seq<ReplyView>,
)
    ensures
        ({
            let start = started(args, caller_uid);
            let s = start.after(replies);
            &&& numeric_id(start.user) is Some ==> !(s.phase is TargetUser)
            &&& start.group is Some && numeric_id(start.group->0) is Some ==> !(s.phase
                is TargetGroup)
            &&& numeric_id(start.user) is Some && start.group is Some && numeric_id(
                start.group->0,
            ) is Some ==> {
                &&& s.pending is GroupByName ==> s.phase is AuthorizationGroup
                &&& s.pending is AccountByName ==> s.phase is TargetAccount
            }
        }),
    decreases replies.len(),
{
    let start = started(args, caller_uid);
    lemma_started_consistent(args, caller_uid);
    lemma_after_consistent(start, replies);
    if replies.len() > 0 {
        lemma_numeric_target_lookups(args, caller_uid, replies.drop_last());
        lemma_after_consistent(start, replies.drop_last());
    }
}

/// A target user without an account record ends the invocation with
/// `UnknownUser` wherever the record is asked for, and nothing is asked of
/// the system afterwards: no step of the transition is ever requested.
pub proof fn lemma_unknown_user_ends(s: SessionView, rest: Seq<ReplyView>)
    requires
        s.phase is TargetUser || s.phase is PrimaryGroup || s.phase is TargetName || s.phase
            is TargetAccount,
    ensures
        s.next(ReplyView::Account(None)) == s.finish(Outcome::UnknownUser),
        s.next(ReplyView::Account(None)).after(rest) == s.finish(Outcome::UnknownUser),
        Outcome::UnknownUser.code() == 1,
{
    lemma_finished_stays(s.finish(Outcome::UnknownUser), rest);
}

/// A group name that the group database lacks ends the invocation with
/// `UnknownGroup`, and nothing is asked of the system afterwards.
pub proof fn lemma_unknown_group_ends(s: SessionView, rest: Seq<ReplyView>)
    requires
        s.phase is TargetGroup,
    ensures
        s.next(ReplyView::Group(None)).after(rest) == s.finish(Outcome::UnknownGroup),
        Outcome::UnknownGroup.code() == 1,
{
    lemma_finished_stays(s.finish(Outcome::UnknownGroup), rest);
}

/// The bound on the target's groups is a hard one. An enumeration that is
/// truncated, or longer than the bound, always ends the invocation with
/// `GroupListFailure`; any other is applied whole, in the order reported.
pub proof fn lemma_group_bound(s: SessionView, groups: MembershipView)
    requires
        s.phase is TargetGroups,
    ensures
        groups.truncated() ==> s.next(ReplyView::Membership(groups)) == s.finish(
            Outcome::GroupListFailure,
        ),
        !groups.truncated() ==> s.next(ReplyView::Membership(groups)).pending
            == RequestView::SetGroups(groups.reported()) && groups.reported().len() <= MAX_GROUPS,
{
}

/// A caller other than the superuser gets past the authorization check
/// only on an enumeration of the caller's own groups that holds the
/// authorization group. In a run without one, nothing is ever asked of the
/// system but the lookups of the check, and where the run has ended, the
/// exit status is one.
pub proof fn lemma_outsider_stopped(args: Seq<Seq<char>>, caller_uid: u32, replies: Seq<ReplyView>)
    requires
        caller_uid != 0,
        forall|k: int| !shows_membership(started(args, caller_uid), replies, k),
    ensures
        ({
            let s = started(args, caller_uid).after(replies);
            &&& authorizing(s.phase) || s.phase is Finished
            &&& !changes_identity(s.pending) && !(s.pending is Spawn)
            &&& authorizing(s.phase) ==> authorization_lookup(s.pending, caller_uid)
            &&& s.phase is Finished ==> s.pending == RequestView::Exit(s.phase->Finished_0)
                && s.phase->Finished_0.code() == 1
        }),
    decreases replies.len(),
{
    let start = started(args, caller_uid);
    lemma_started_consistent(args, caller_uid);
    lemma_after_consistent(start, replies);
    if replies.len() > 0 {
        let n = replies.len() as int;
        let shorter = replies.drop_last();
        assert forall|k: int| !shows_membership(start, shorter, k) by {
            if 0 <= k < shorter.len() {
                assert(shorter.take(k) =~= replies.take(k));
                assert(!shows_membership(start, replies, k));
            }
        }
        lemma_outsider_stopped(args, caller_uid, shorter);
        lemma_after_consistent(start, shorter);
        assert(replies.take(n - 1) =~= shorter);
        assert(!shows_membership(start, replies, n - 1));
    }
}

/// The check that the machine makes is the authorization predicate. For a
/// caller other than the superuser, the three answers of the check (the
/// authorization group, the caller's account, the caller's groups) end the
/// invocation with `AuthorizationDenied` exactly when the predicate is
/// false of them; the superuser is let through on the first.
pub proof fn lemma_check_is_predicate(
    s: SessionView,
    group: Option<u32>,
    account: Option<AccountView>,
    groups: MembershipView,
)
    requires
        s.phase is AuthorizationGroup,
    ensures
        ({
            let replies = seq![
                ReplyView::Group(group),
                ReplyView::Account(account),
                ReplyView::Membership(groups),
            ];
            let membership = if account is Some {
                Some(groups)
            } else {
                None
            };
            &&& s.caller_uid != 0 ==> (s.after(replies).phase == Phase::Finished(
                Outcome::AuthorizationDenied,
            ) <==> !authorized(group, s.caller_uid, membership))
            &&& s.caller_uid != 0 && authorized(group, s.caller_uid, membership) ==> s.after(
                replies,
            ) == (SessionView { partial_check: groups.truncated(), ..s }).resolve_user()
            &&& s.caller_uid == 0 ==> permitted(group, s.caller_uid, membership) && s.next(
                ReplyView::Group(group),
            ) == s.resolve_user()
        }),
{
    let replies = seq![
        ReplyView::Group(group),
        ReplyView::Account(account),
        ReplyView::Membership(groups),
    ];
    let first = s.next(ReplyView::Group(group));
    let second = first.next(ReplyView::Account(account));
    let third = second.next(ReplyView::Membership(groups));
    assert(replies.take(0) =~= Seq::<ReplyView>::empty());
    assert(s.after(replies.take(0)) == s);
    lemma_after_take(s, replies, 0);
    lemma_after_take(s, replies, 1);
    lemma_after_take(s, replies, 2);
    assert(replies.take(3) =~= replies);
    assert(s.after(replies) == third);
}

} // verus!
