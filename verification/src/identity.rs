//! What the system's identity databases report: account records and the
//! bounded enumeration of an account's groups.

use vstd::prelude::*;

verus! {

/// The largest number of groups that one enumeration may report.
pub const MAX_GROUPS: usize = 100;

/// An account record: the account's name, its user identifier and its
/// primary group.
#[derive(Clone, Debug, PartialEq, Eq)]
pub struct Account {
    pub name: String,
    pub uid: u32,
    pub gid: u32,
}

/// An account record over characters.
pub struct AccountView {
    pub name: Seq<char>,
    pub uid: u32,
    pub gid: u32,
}

impl View for Account {
    type V = AccountView;

    open spec fn view(&self) -> AccountView {
        AccountView { name: self.name@, uid: self.uid, gid: self.gid }
    }
}

/// What an enumeration of an account's groups, bounded to `MAX_GROUPS`
/// entries, reported.
#[derive(Clone, Debug, PartialEq, Eq)]
pub enum Membership {
    /// Every group of the account.
    Complete(Vec<u32>),
    /// The account has more groups than the bound allows: those that fit.
    Truncated(Vec<u32>),
}

/// An enumeration over a sequence of group identifiers.
pub enum MembershipView {
    Complete(Seq<u32>),
    Truncated(Seq<u32>),
}

impl View for Membership {
    type V = MembershipView;

    open spec fn view(&self) -> MembershipView {
        match self {
            Membership::Complete(groups) => MembershipView::Complete(groups@),
            Membership::Truncated(groups) => MembershipView::Truncated(groups@),
        }
    }
}

impl MembershipView {
    /// The groups that the enumeration handed over, in its order.
    pub open spec fn reported(self) -> Seq<u32> {
        match self {
            MembershipView::Complete(groups) => groups,
            MembershipView::Truncated(groups) => groups,
        }
    }

    /// Whether the enumeration may lack groups of the account: it said so,
    /// or it handed over more than the bound, of which the rest is ignored.
    pub open spec fn truncated(self) -> bool {
        self is Truncated || self.reported().len() > MAX_GROUPS
    }

    /// The groups that count: the reported ones up to the bound.
    pub open spec fn considered(self) -> Seq<u32> {
        if self.reported().len() > MAX_GROUPS {
            self.reported().take(MAX_GROUPS as int)
        } else {
            self.reported()
        }
    }
}

impl Membership {
    /// The groups that the enumeration handed over.
    pub fn reported(&self) -> (groups: &Vec<u32>)
        ensures
            groups@ == self@.reported(),
    {
        match self {
            Membership::Complete(groups) => groups,
            Membership::Truncated(groups) => groups,
        }
    }

    /// Whether the enumeration may lack groups of the account.
    pub fn truncated(&self) -> (t: bool)
        ensures
            t == self@.truncated(),
    {
        match self {
            Membership::Complete(groups) => groups.len() > MAX_GROUPS,
            Membership::Truncated(_) => true,
        }
    }

    /// Whether `gid` is among the groups that count.
    pub fn holds(&self, gid: u32) -> (found: bool)
        ensures
            found == self@.considered().contains(gid),
    {
        let groups: &Vec<u32> = self.reported();
        let n: usize = if groups.len() > MAX_GROUPS {
            MAX_GROUPS
        } else {
            groups.len()
        };
        let ghost counted = self@.considered();
        let mut i: usize = 0;
        while i < n
            invariant
                i <= n,
                n == counted.len(),
                n <= groups.len(),
                counted == self@.considered(),
                forall|k: int| 0 <= k < n ==> counted[k] == groups[k],
                forall|k: int| 0 <= k < i ==> counted[k] != gid,
            decreases n - i,
        {
            if groups[i] == gid {
                assert(counted[i as int] == gid);
                return true;
            }
            i = i + 1;
        }
        false
    }
}

} // verus!
