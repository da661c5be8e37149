//! One invocation of the launcher as a state machine. The machine decides;
//! whoever drives it performs each request against the system and hands the
//! answer back.

use vstd::prelude::*;
use crate::auth::AUTHORIZATION_GROUP;
use crate::identity::{Account, AccountView, Membership, MembershipView, MAX_GROUPS};
use crate::target::{numeric_id, parse_id, parse_user_group, target_parts, ParseError};

verus! {

/// One of the three privileged operations of the identity transition.
#[derive(Clone, Copy, Debug, PartialEq, Eq, Structural)]
pub enum Step {
    /// Replacing the supplementary groups.
    Groups,
    /// Setting the group identifier to this one.
    Gid(u32),
    /// Setting the user identifier to this one.
    Uid(u32),
}

/// What is wrong with a command line.
#[derive(Clone, Copy, Debug, PartialEq, Eq, Structural)]
pub enum UsageError {
    /// No target specification was given.
    MissingTarget,
    /// The target specification holds more than one separator.
    InvalidFormat,
    /// No command follows the target specification.
    MissingCommand,
}

/// How an invocation ended.
#[derive(Clone, Copy, Debug, PartialEq, Eq, Structural)]
pub enum Outcome {
    /// The command ran under the target identity and succeeded.
    Completed,
    /// The command line is malformed.
    Usage(UsageError),
    /// The caller is neither the superuser nor a member of the
    /// authorization group.
    AuthorizationDenied,
    /// No account record for the target user.
    UnknownUser,
    /// No group of the name given.
    UnknownGroup,
    /// The target's groups do not fit the bound.
    GroupListFailure,
    /// The system refused a step of the transition, with its error number.
    TransitionFailure(Step, i32),
    /// The command could not be launched.
    SpawnFailure,
    /// The command ran and did not succeed; its exit code, unless a signal
    /// ended it.
    ChildNonZeroExit(Option<i32>),
    /// An answer was handed in that does not answer the pending request.
    UnexpectedReply,
}

impl Outcome {
    /// The exit status that an outcome stands for: zero for success, the
    /// command's own code where it ran and failed with one, and one for
    /// everything else.
    pub open spec fn code(self) -> i32 {
        match self {
            Outcome::Completed => 0,
            Outcome::ChildNonZeroExit(Some(code)) => code,
            _ => 1,
        }
    }

    /// The exit status to end the process with.
    pub fn exit_code(&self) -> (code: i32)
        ensures
            code == self.code(),
    {
        match self {
            Outcome::Completed => 0,
            Outcome::ChildNonZeroExit(Some(code)) => *code,
            _ => 1,
        }
    }
}

/// How the launched command ended.
#[derive(Clone, Copy, Debug, PartialEq, Eq, Structural)]
pub enum ChildStatus {
    /// It exited with this code.
    Exited(i32),
    /// A signal ended it, so there is no code.
    Signaled,
    /// It could not be launched.
    NotStarted,
}

impl ChildStatus {
    /// The outcome of the invocation, given how the command ended.
    pub open spec fn outcome(self) -> Outcome {
        match self {
            ChildStatus::Exited(code) => if code == 0 {
                Outcome::Completed
            } else {
                Outcome::ChildNonZeroExit(Some(code))
            },
            ChildStatus::Signaled => Outcome::ChildNonZeroExit(None),
            ChildStatus::NotStarted => Outcome::SpawnFailure,
        }
    }
}

/// What the machine asks its driver to do next.
#[derive(Clone, Debug, PartialEq, Eq)]
pub enum Request {
    /// Look a group up by name in the group database.
    GroupByName(String),
    /// Look an account up by user identifier.
    AccountByUid(u32),
    /// Look an account up by name.
    AccountByName(String),
    /// Enumerate the groups of the account `name`, whose primary group is
    /// `gid`, up to `MAX_GROUPS` entries.
    Groups { name: String, gid: u32 },
    /// Make these the process's supplementary groups, in place of all it had.
    SetGroups(Vec<u32>),
    /// Set the process's group identifier.
    SetGid(u32),
    /// Set the process's user identifier.
    SetUid(u32),
    /// Launch the session's command and wait for it.
    Spawn,
    /// End the process. Nothing follows.
    Exit(Outcome),
}

/// A request over characters and sequences.
pub enum RequestView {
    GroupByName(Seq<char>),
    AccountByUid(u32),
    AccountByName(Seq<char>),
    Groups { name: Seq<char>, gid: u32 },
    SetGroups(Seq<u32>),
    SetGid(u32),
    SetUid(u32),
    Spawn,
    Exit(Outcome),
}

impl View for Request {
    type V = RequestView;

    open spec fn view(&self) -> RequestView {
        match self {
            Request::GroupByName(name) => RequestView::GroupByName(name@),
            Request::AccountByUid(uid) => RequestView::AccountByUid(*uid),
            Request::AccountByName(name) => RequestView::AccountByName(name@),
            Request::Groups { name, gid } => RequestView::Groups { name: name@, gid: *gid },
            Request::SetGroups(groups) => RequestView::SetGroups(groups@),
            Request::SetGid(gid) => RequestView::SetGid(*gid),
            Request::SetUid(uid) => RequestView::SetUid(*uid),
            Request::Spawn => RequestView::Spawn,
            Request::Exit(outcome) => RequestView::Exit(*outcome),
        }
    }
}

/// The driver's answer to a request.
#[derive(Clone, Debug, PartialEq, Eq)]
pub enum Reply {
    /// To `GroupByName`: the group's identifier, if the group exists.
    Group(Option<u32>),
    /// To `AccountByUid` and `AccountByName`: the record, if there is one.
    Account(Option<Account>),
    /// To `Groups`: what the enumeration reported.
    Membership(Membership),
    /// To `SetGroups`, `SetGid` and `SetUid`: the system did it.
    Applied,
    /// To `SetGroups`, `SetGid` and `SetUid`: the system refused, with its
    /// error number.
    Refused(i32),
    /// To `Spawn`: how the command ended.
    Child(ChildStatus),
}

/// An answer over characters and sequences.
pub enum ReplyView {
    Group(Option<u32>),
    Account(Option<AccountView>),
    Membership(MembershipView),
    Applied,
    Refused(i32),
    Child(ChildStatus),
}

impl View for Reply {
    type V = ReplyView;

    open spec fn view(&self) -> ReplyView {
        match self {
            Reply::Group(group) => ReplyView::Group(*group),
            Reply::Account(Some(account)) => ReplyView::Account(Some(account@)),
            Reply::Account(None) => ReplyView::Account(None),
            Reply::Membership(membership) => ReplyView::Membership(membership@),
            Reply::Applied => ReplyView::Applied,
            Reply::Refused(errno) => ReplyView::Refused(*errno),
            Reply::Child(status) => ReplyView::Child(*status),
        }
    }
}

/// Where an invocation stands: which answer it waits for, and what it has
/// settled so far.
#[derive(Clone, Copy, Debug, PartialEq, Eq, Structural)]
pub enum Phase {
    /// Waiting for the authorization group's record.
    AuthorizationGroup,
    /// Waiting for the caller's account record.
    CallerAccount { auth_gid: u32 },
    /// Waiting for the enumeration of the caller's groups.
    CallerGroups { auth_gid: u32 },
    /// Waiting for the account that the target's user name denotes.
    TargetUser,
    /// Waiting for the group that the target's group name denotes.
    TargetGroup { uid: u32 },
    /// Waiting for the target user's account record, for its primary group.
    PrimaryGroup { uid: u32 },
    /// Waiting for the target user's account record, for its name.
    TargetName { uid: u32, gid: u32 },
    /// Waiting for the account record under the target's user name, from
    /// which the enumeration starts.
    TargetAccount { uid: u32, gid: u32 },
    /// Waiting for the enumeration of the target's groups.
    TargetGroups { uid: u32, gid: u32 },
    /// Waiting for the supplementary groups to be set.
    SettingGroups { uid: u32, gid: u32 },
    /// Groups set; waiting for the group identifier to be set.
    SettingGid { uid: u32, gid: u32 },
    /// Group identifier set; waiting for the user identifier to be set.
    SettingUid { uid: u32 },
    /// Identity adopted; waiting for the command to end.
    Running,
    /// Ended.
    Finished(Outcome),
}

/// The state of an invocation, over characters and sequences.
pub struct SessionView {
    /// The caller's real user identifier.
    pub caller_uid: u32,
    /// The user part of the target specification.
    pub user: Seq<char>,
    /// The group part of the target specification, where it has one.
    pub group: Option<Seq<char>>,
    /// The command and its arguments.
    pub command: Seq<Seq<char>>,
    /// Where the invocation stands.
    pub phase: Phase,
    /// The request that waits for its answer.
    pub pending: RequestView,
    /// Whether the caller's groups were enumerated only in part, so that
    /// the authorization check may have missed a membership.
    pub partial_check: bool,
}

impl SessionView {
    /// The state with `request` pending in `phase`.
    pub open spec fn ask(self, phase: Phase, request: RequestView) -> SessionView {
        SessionView { phase: phase, pending: request, ..self }
    }

    /// The state ended with `outcome`.
    pub open spec fn finish(self, outcome: Outcome) -> SessionView {
        self.ask(Phase::Finished(outcome), RequestView::Exit(outcome))
    }

    /// The caller may proceed: settle the target's user identifier, from the
    /// token itself where it is numeric, else through the account database.
    pub open spec fn resolve_user(self) -> SessionView {
        match numeric_id(self.user) {
            Some(uid) => self.resolve_group(uid),
            None => self.ask(Phase::TargetUser, RequestView::AccountByName(self.user)),
        }
    }

    /// The user identifier is `uid`: settle the group identifier. A group
    /// token gives it, by itself where it is numeric, else through the group
    /// database; without one it is the primary group of the account `uid`.
    pub open spec fn resolve_group(self, uid: u32) -> SessionView {
        match self.group {
            Some(token) => match numeric_id(token) {
                Some(gid) => self.resolve_name(uid, gid),
                None => self.ask(Phase::TargetGroup { uid }, RequestView::GroupByName(token)),
            },
            None => self.ask(Phase::PrimaryGroup { uid }, RequestView::AccountByUid(uid)),
        }
    }

    /// User and group identifier are settled: find the user name under which
    /// the groups are enumerated. A numeric user token is first turned into
    /// the name of its account.
    pub open spec fn resolve_name(self, uid: u32, gid: u32) -> SessionView {
        if numeric_id(self.user) is Some {
            self.ask(Phase::TargetName { uid, gid }, RequestView::AccountByUid(uid))
        } else {
            self.ask(Phase::TargetAccount { uid, gid }, RequestView::AccountByName(self.user))
        }
    }

    /// The name under which the target's groups are enumerated, given the
    /// account record of the target's user identifier.
    pub open spec fn enumeration_name(self, account: AccountView) -> Seq<char> {
        if numeric_id(self.user) is Some {
            account.name
        } else {
            self.user
        }
    }

    /// The state after `reply` has answered the pending request.
    pub open spec fn next(self, reply: ReplyView) -> SessionView {
        match (self.phase, reply) {
            (Phase::Finished(_), _) => self,
            (Phase::AuthorizationGroup, ReplyView::Group(group)) => {
                if self.caller_uid == 0 {
                    self.resolve_user()
                } else {
                    match group {
                        Some(auth_gid) => self.ask(
                            Phase::CallerAccount { auth_gid },
                            RequestView::AccountByUid(self.caller_uid),
                        ),
                        None => self.finish(Outcome::AuthorizationDenied),
                    }
                }
            },
            (Phase::CallerAccount { auth_gid }, ReplyView::Account(account)) => match account {
                Some(a) => self.ask(
                    Phase::CallerGroups { auth_gid },
                    RequestView::Groups { name: a.name, gid: a.gid },
                ),
                None => self.finish(Outcome::AuthorizationDenied),
            },
            (Phase::CallerGroups { auth_gid }, ReplyView::Membership(m)) => {
                let noted = SessionView { partial_check: m.truncated(), ..self };
                if m.considered().contains(auth_gid) {
                    noted.resolve_user()
                } else {
                    noted.finish(Outcome::AuthorizationDenied)
                }
            },
            (Phase::TargetUser, ReplyView::Account(account)) => match account {
                Some(a) => self.resolve_group(a.uid),
                None => self.finish(Outcome::UnknownUser),
            },
            (Phase::TargetGroup { uid }, ReplyView::Group(group)) => match group {
                Some(gid) => self.resolve_name(uid, gid),
                None => self.finish(Outcome::UnknownGroup),
            },
            (Phase::PrimaryGroup { uid }, ReplyView::Account(account)) => match account {
                Some(a) => self.ask(
                    Phase::TargetAccount { uid, gid: a.gid },
                    RequestView::AccountByName(self.enumeration_name(a)),
                ),
                None => self.finish(Outcome::UnknownUser),
            },
            (Phase::TargetName { uid, gid }, ReplyView::Account(account)) => match account {
                Some(a) => self.ask(
                    Phase::TargetAccount { uid, gid },
                    RequestView::AccountByName(a.name),
                ),
                None => self.finish(Outcome::UnknownUser),
            },
            (Phase::TargetAccount { uid, gid }, ReplyView::Account(account)) => match account {
                Some(a) => self.ask(
                    Phase::TargetGroups { uid, gid },
                    RequestView::Groups { name: a.name, gid: a.gid },
                ),
                None => self.finish(Outcome::UnknownUser),
            },
            (Phase::TargetGroups { uid, gid }, ReplyView::Membership(m)) => {
                if m.truncated() {
                    self.finish(Outcome::GroupListFailure)
                } else {
                    self.ask(Phase::SettingGroups { uid, gid }, RequestView::SetGroups(m.reported()))
                }
            },
            (Phase::SettingGroups { uid, gid }, ReplyView::Applied) => self.ask(
                Phase::SettingGid { uid, gid },
                RequestView::SetGid(gid),
            ),
            (Phase::SettingGroups { uid, gid }, ReplyView::Refused(errno)) => self.finish(
                Outcome::TransitionFailure(Step::Groups, errno),
            ),
            (Phase::SettingGid { uid, gid }, ReplyView::Applied) => self.ask(
                Phase::SettingUid { uid },
                RequestView::SetUid(uid),
            ),
            (Phase::SettingGid { uid, gid }, ReplyView::Refused(errno)) => self.finish(
                Outcome::TransitionFailure(Step::Gid(gid), errno),
            ),
            (Phase::SettingUid { uid }, ReplyView::Applied) => self.ask(
                Phase::Running,
                RequestView::Spawn,
            ),
            (Phase::SettingUid { uid }, ReplyView::Refused(errno)) => self.finish(
                Outcome::TransitionFailure(Step::Uid(uid), errno),
            ),
            (Phase::Running, ReplyView::Child(status)) => self.finish(status.outcome()),
            _ => self.finish(Outcome::UnexpectedReply),
        }
    }

    /// The state after each of `replies` in turn has answered the request
    /// that was pending when it came.
    pub open spec fn after(self, replies: Seq<ReplyView>) -> SessionView
        decreases replies.len(),
    {
        if replies.len() == 0 {
            self
        } else {
            self.after(replies.drop_last()).next(replies.last())
        }
    }

    /// Whether the pending request is the one that the phase waits on.
    pub open spec fn consistent(self) -> bool {
        match self.phase {
            Phase::AuthorizationGroup => self.pending == RequestView::GroupByName(
                AUTHORIZATION_GROUP@,
            ),
            Phase::CallerAccount { .. } => self.pending == RequestView::AccountByUid(
                self.caller_uid,
            ),
            Phase::CallerGroups { .. } => self.pending is Groups,
            Phase::TargetUser => self.pending == RequestView::AccountByName(self.user),
            Phase::TargetGroup { .. } => self.group is Some && self.pending
                == RequestView::GroupByName(self.group->0),
            Phase::PrimaryGroup { uid } => self.pending == RequestView::AccountByUid(uid),
            Phase::TargetName { uid, .. } => self.pending == RequestView::AccountByUid(uid),
            Phase::TargetAccount { .. } => self.pending is AccountByName,
            Phase::TargetGroups { .. } => self.pending is Groups,
            Phase::SettingGroups { .. } => self.pending is SetGroups && self.pending->SetGroups_0.len()
                <= MAX_GROUPS,
            Phase::SettingGid { gid, .. } => self.pending == RequestView::SetGid(gid),
            Phase::SettingUid { uid } => self.pending == RequestView::SetUid(uid),
            Phase::Running => self.pending == RequestView::Spawn,
            Phase::Finished(outcome) => self.pending == RequestView::Exit(outcome),
        }
    }
}

/// The characters of each of a sequence of strings.
pub open spec fn words(strings: Seq<String>) -> Seq<Seq<char>> {
    Seq::new(strings.len(), |i: int| strings[i]@)
}

/// An invocation that ended before it began, with nothing to its name.
pub open spec fn rejected(caller_uid: u32, error: UsageError) -> SessionView {
    SessionView {
        caller_uid: caller_uid,
        user: Seq::empty(),
        group: None,
        command: Seq::empty(),
        phase: Phase::Finished(Outcome::Usage(error)),
        pending: RequestView::Exit(Outcome::Usage(error)),
        partial_check: false,
    }
}

/// The state in which an invocation begins. `args` is the command line: the
/// program's name, the target specification, then the command and its
/// arguments. A command line that lacks the target specification, holds a
/// malformed one, or lacks the command, ends at once; any other begins with
/// the lookup of the authorization group.
pub open spec fn started(args: Seq<Seq<char>>, caller_uid: u32) -> SessionView {
    if args.len() < 2 {
        rejected(caller_uid, UsageError::MissingTarget)
    } else {
        match target_parts(args[1]) {
            Err(_) => rejected(caller_uid, UsageError::InvalidFormat),
            Ok((user, group)) => if args.len() < 3 {
                rejected(caller_uid, UsageError::MissingCommand)
            } else {
                SessionView {
                    caller_uid: caller_uid,
                    user: user,
                    group: group,
                    command: args.skip(2),
                    phase: Phase::AuthorizationGroup,
                    pending: RequestView::GroupByName(AUTHORIZATION_GROUP@),
                    partial_check: false,
                }
            },
        }
    }
}

/// An invocation begins with the request that its phase waits on.
pub proof fn lemma_started_consistent(args: Seq<Seq<char>>, caller_uid: u32)
    ensures
        started(args, caller_uid).consistent(),
{
}

/// A step keeps what the invocation was asked for, and leaves pending the
/// request that the new phase waits on.
pub proof fn lemma_next_consistent(s: SessionView, reply: ReplyView)
    requires
        s.consistent(),
    ensures
        s.next(reply).consistent(),
        s.next(reply).caller_uid == s.caller_uid,
        s.next(reply).user == s.user,
        s.next(reply).group == s.group,
        s.next(reply).command == s.command,
{
}

/// One invocation of the launcher: what it was asked for, where it stands,
/// and the request that waits for its answer.
#[derive(Debug)]
pub struct Session {
    caller_uid: u32,
    user: String,
    group: Option<String>,
    command: Vec<String>,
    phase: Phase,
    pending: Request,
    partial_check: bool,
}

impl View for Session {
    type V = SessionView;

    closed spec fn view(&self) -> SessionView {
        SessionView {
            caller_uid: self.caller_uid,
            user: self.user@,
            group: match self.group {
                Some(token) => Some(token@),
                None => None,
            },
            command: words(self.command@),
            phase: self.phase,
            pending: self.pending@,
            partial_check: self.partial_check,
        }
    }
}

/// A copy of the strings of `args` from the place `from` on.
fn tail(args: &Vec<String>, from: usize) -> (rest: Vec<String>)
    requires
        from <= args.len(),
    ensures
        words(rest@) == words(args@).skip(from as int),
{
    let mut rest: Vec<String> = Vec::new();
    let mut i: usize = from;
    while i < args.len()
        invariant
            from <= i <= args.len(),
            rest.len() == i - from,
            forall|k: int| 0 <= k < rest.len() ==> rest[k]@ == args[from + k]@,
        decreases args.len() - i,
    {
        rest.push(args[i].clone());
        i = i + 1;
    }
    assert(words(rest@) =~= words(args@).skip(from as int));
    rest
}

impl Session {
    /// An invocation that ended on its command line.
    fn rejected(caller_uid: u32, error: UsageError) -> (session: Session)
        ensures
            session@ == rejected(caller_uid, error),
    {
        let session = Session {
            caller_uid: caller_uid,
            user: String::new(),
            group: None,
            command: Vec::new(),
            phase: Phase::Finished(Outcome::Usage(error)),
            pending: Request::Exit(Outcome::Usage(error)),
            partial_check: false,
        };
        assert(session.user@ =~= Seq::empty());
        assert(words(session.command@) =~= Seq::empty());
        session
    }

    /// Begins an invocation for the caller `caller_uid` with the command
    /// line `args`: the program's name, the target specification, then the
    /// command and its arguments.
    pub fn begin(args: &Vec<String>, caller_uid: u32) -> (session: Session)
        ensures
            session@ == started(words(args@), caller_uid),
            session@.consistent(),
    {
        proof {
            lemma_started_consistent(words(args@), caller_uid);
        }
        if args.len() < 2 {
            return Session::rejected(caller_uid, UsageError::MissingTarget);
        }
        assert(words(args@)[1] == args[1]@);
        match parse_user_group(args[1].as_str()) {
            Err(_) => Session::rejected(caller_uid, UsageError::InvalidFormat),
            Ok((user, group)) => {
                if args.len() < 3 {
                    return Session::rejected(caller_uid, UsageError::MissingCommand);
                }
                Session {
                    caller_uid: caller_uid,
                    user: user,
                    group: group,
                    command: tail(args, 2),
                    phase: Phase::AuthorizationGroup,
                    pending: Request::GroupByName(String::from_str(AUTHORIZATION_GROUP)),
                    partial_check: false,
                }
            },
        }
    }

    /// The request that waits for its answer.
    pub fn request(&self) -> (request: &Request)
        ensures
            request@ == self@.pending,
    {
        &self.pending
    }

    /// Where the invocation stands.
    pub fn phase(&self) -> (phase: Phase)
        ensures
            phase == self@.phase,
    {
        self.phase
    }

    /// The user part of the target specification.
    pub fn user(&self) -> (user: &String)
        ensures
            user@ == self@.user,
    {
        &self.user
    }

    /// The group part of the target specification, where it has one.
    pub fn group(&self) -> (group: Option<&String>)
        ensures
            match group {
                Some(token) => self@.group == Some(token@),
                None => self@.group is None,
            },
    {
        match &self.group {
            Some(token) => Some(token),
            None => None,
        }
    }

    /// The command to launch, and its arguments.
    pub fn command(&self) -> (command: &Vec<String>)
        ensures
            words(command@) == self@.command,
    {
        &self.command
    }

    /// Whether the caller's groups were enumerated only in part, so that
    /// the authorization check may have missed a membership.
    pub fn partial_check(&self) -> (partial: bool)
        ensures
            partial == self@.partial_check,
    {
        self.partial_check
    }

    fn ask(&mut self, phase: Phase, request: Request)
        ensures
            final(self)@ == old(self)@.ask(phase, request@),
    {
        self.phase = phase;
        self.pending = request;
    }

    fn finish(&mut self, outcome: Outcome)
        ensures
            final(self)@ == old(self)@.finish(outcome),
    {
        self.ask(Phase::Finished(outcome), Request::Exit(outcome));
    }

    fn resolve_user(&mut self)
        ensures
            final(self)@ == old(self)@.resolve_user(),
    {
        match parse_id(self.user.as_str()) {
            Some(uid) => self.resolve_group(uid),
            None => {
                let name: String = self.user.clone();
                self.ask(Phase::TargetUser, Request::AccountByName(name));
            },
        }
    }

    fn resolve_group(&mut self, uid: u32)
        ensures
            final(self)@ == old(self)@.resolve_group(uid),
    {
        match &self.group {
            Some(token) => match parse_id(token.as_str()) {
                Some(gid) => self.resolve_name(uid, gid),
                None => {
                    let name: String = token.clone();
                    self.ask(Phase::TargetGroup { uid }, Request::GroupByName(name));
                },
            },
            None => self.ask(Phase::PrimaryGroup { uid }, Request::AccountByUid(uid)),
        }
    }

    fn resolve_name(&mut self, uid: u32, gid: u32)
        ensures
            final(self)@ == old(self)@.resolve_name(uid, gid),
    {
        if parse_id(self.user.as_str()).is_some() {
            self.ask(Phase::TargetName { uid, gid }, Request::AccountByUid(uid));
        } else {
            let name: String = self.user.clone();
            self.ask(Phase::TargetAccount { uid, gid }, Request::AccountByName(name));
        }
    }

    /// Takes the answer to the pending request and decides what comes next:
    /// afterwards `request` gives the next thing to do. An invocation that
    /// has ended stays as it is; an answer of the wrong kind ends it.
    pub fn step(&mut self, reply: Reply)
        ensures
            final(self)@ == old(self)@.next(reply@),
            old(self)@.consistent() ==> final(self)@.consistent(),
    {
        proof {
            if self@.consistent() {
                lemma_next_consistent(self@, reply@);
            }
        }
        let phase: Phase = self.phase;
        match (phase, reply) {
            (Phase::Finished(_), _) => {},
            (Phase::AuthorizationGroup, Reply::Group(group)) => {
                if self.caller_uid == 0 {
                    self.resolve_user();
                } else {
                    match group {
                        Some(auth_gid) => {
                            let uid: u32 = self.caller_uid;
                            self.ask(Phase::CallerAccount { auth_gid }, Request::AccountByUid(uid));
                        },
                        None => self.finish(Outcome::AuthorizationDenied),
                    }
                }
            },
            (Phase::CallerAccount { auth_gid }, Reply::Account(account)) => match account {
                Some(a) => self.ask(
                    Phase::CallerGroups { auth_gid },
                    Request::Groups { name: a.name, gid: a.gid },
                ),
                None => self.finish(Outcome::AuthorizationDenied),
            },
            (Phase::CallerGroups { auth_gid }, Reply::Membership(m)) => {
                self.partial_check = m.truncated();
                if m.holds(auth_gid) {
                    self.resolve_user();
                } else {
                    self.finish(Outcome::AuthorizationDenied);
                }
            },
            (Phase::TargetUser, Reply::Account(account)) => match account {
                Some(a) => self.resolve_group(a.uid),
                None => self.finish(Outcome::UnknownUser),
            },
            (Phase::TargetGroup { uid }, Reply::Group(group)) => match group {
                Some(gid) => self.resolve_name(uid, gid),
                None => self.finish(Outcome::UnknownGroup),
            },
            (Phase::PrimaryGroup { uid }, Reply::Account(account)) => match account {
                Some(a) => {
                    let name: String = if parse_id(self.user.as_str()).is_some() {
                        a.name
                    } else {
                        self.user.clone()
                    };
                    self.ask(Phase::TargetAccount { uid, gid: a.gid }, Request::AccountByName(name));
                },
                None => self.finish(Outcome::UnknownUser),
            },
            (Phase::TargetName { uid, gid }, Reply::Account(account)) => match account {
                Some(a) => self.ask(Phase::TargetAccount { uid, gid }, Request::AccountByName(a.name)),
                None => self.finish(Outcome::UnknownUser),
            },
            (Phase::TargetAccount { uid, gid }, Reply::Account(account)) => match account {
                Some(a) => self.ask(
                    Phase::TargetGroups { uid, gid },
                    Request::Groups { name: a.name, gid: a.gid },
                ),
                None => self.finish(Outcome::UnknownUser),
            },
            (Phase::TargetGroups { uid, gid }, Reply::Membership(Membership::Complete(groups))) => {
                if groups.len() > MAX_GROUPS {
                    self.finish(Outcome::GroupListFailure);
                } else {
                    self.ask(Phase::SettingGroups { uid, gid }, Request::SetGroups(groups));
                }
            },
            (Phase::TargetGroups { .. }, Reply::Membership(Membership::Truncated(_))) => self.finish(
                Outcome::GroupListFailure,
            ),
            (Phase::SettingGroups { uid, gid }, Reply::Applied) => self.ask(
                Phase::SettingGid { uid, gid },
                Request::SetGid(gid),
            ),
            (Phase::SettingGroups { uid, gid }, Reply::Refused(errno)) => self.finish(
                Outcome::TransitionFailure(Step::Groups, errno),
            ),
            (Phase::SettingGid { uid, gid }, Reply::Applied) => self.ask(
                Phase::SettingUid { uid },
                Request::SetUid(uid),
            ),
            (Phase::SettingGid { uid, gid }, Reply::Refused(errno)) => self.finish(
                Outcome::TransitionFailure(Step::Gid(gid), errno),
            ),
            (Phase::SettingUid { uid }, Reply::Applied) => self.ask(Phase::Running, Request::Spawn),
            (Phase::SettingUid { uid }, Reply::Refused(errno)) => self.finish(
                Outcome::TransitionFailure(Step::Uid(uid), errno),
            ),
            (Phase::Running, Reply::Child(status)) => {
                let outcome: Outcome = match status {
                    ChildStatus::Exited(code) => if code == 0 {
                        Outcome::Completed
                    } else {
                        Outcome::ChildNonZeroExit(Some(code))
                    },
                    ChildStatus::Signaled => Outcome::ChildNonZeroExit(None),
                    ChildStatus::NotStarted => Outcome::SpawnFailure,
                };
                self.finish(outcome);
            },
            _ => self.finish(Outcome::UnexpectedReply),
        }
    }
}

} // verus!
