//! The commands that the bot carries out, each as a step function: given what has happened
//! so far and what came back from the outside, it says what must be done next.
//!
//! Nothing here talks to the backend or to the gateway. The caller performs each action and
//! reports its result as the next event.

pub mod api;
pub mod guild_setup;

use crate::commands::api::check_outcome;
use crate::commands::api::get_role_id;
use crate::commands::api::is_verified;
use crate::commands::api::role_outcome;
use crate::commands::api::CheckError;
use crate::commands::api::ErrorKind;
use crate::commands::api::ClientView;
use crate::commands::api::Guild;
use crate::commands::api::Reply;
use crate::commands::api::RoleError;
use crate::commands::api::VerificationClient;
use crate::commands::api::Verified;
use crate::scheduler::VerificationRequest;
use vstd::prelude::*;

verus! {

/// Whether a check found a user verified. This is what the scheduler books: a verified user
/// is settled, whether or not the role could be added.
#[derive(Clone, Copy, Debug, PartialEq, Eq, Structural)]
pub struct IsVerified {
    pub guild_id: u64,
    pub user_id: u64,
    pub verified: bool,
}

/// How a silent check-and-grant pass for one user ended: whether the user was found
/// verified, and whether the gateway then added the role.
#[derive(Clone, Copy, Debug, PartialEq, Eq, Structural)]
pub struct PassResult {
    pub guild_id: u64,
    pub user_id: u64,
    pub verified: bool,
    pub granted: bool,
}

impl PassResult {
    /// What the scheduler is told of the pass.
    pub open spec fn checked(self) -> IsVerified {
        IsVerified { guild_id: self.guild_id, user_id: self.user_id, verified: self.verified }
    }

    /// What the scheduler is told of the pass.
    pub fn is_verified(&self) -> (result: IsVerified)
        ensures
            result == self.checked(),
    {
        IsVerified { guild_id: self.guild_id, user_id: self.user_id, verified: self.verified }
    }
}

/// What the bot says to the person who ran a command.
#[derive(Clone, Copy, Debug, PartialEq, Eq, Structural)]
pub enum Message {
    /// The guild has no usable verified role; its admins should run the setup.
    GuildUnsupported,
    /// The user is not verified yet and is told where to go.
    PleaseVerify,
    /// The user now holds the verified role.
    NowVerified,
    /// The gateway refused to add the verified role.
    UnableToAddRole,
    /// The guild has no usable verified role; said to the one who asked for a bulk pass.
    GuildUnsupportedForAll,
    /// The bulk pass is over, and this many members were granted the role.
    ReverificationDone { num_granted: usize },
}

/// What came back from the outside, for a pass over one user.
#[derive(Clone, Debug, PartialEq, Eq)]
pub enum Event {
    /// The pass is asked to start.
    Begin,
    /// The backend answered about the user.
    UserAnswered(Reply<Verified>),
    /// The backend answered about the guild.
    GuildAnswered(Reply<Guild>),
    /// The gateway was asked to add the role; `true` if it did.
    RoleAdded(bool),
}

/// What must be done next, in a pass over one user.
#[derive(Clone, Copy, Debug, PartialEq, Eq, Structural)]
pub enum Action {
    /// The event did not fit the state of the pass and was dropped.
    Nothing,
    /// Ask the backend whether the user is verified.
    AskUser { user_id: u64, guild_id: u64 },
    /// Ask the backend for the guild's verified role.
    AskGuild { guild_id: u64 },
    /// Ask the gateway to add the role to the member.
    AddRole { guild_id: u64, user_id: u64, role_id: u64 },
    /// The silent pass is over.
    Report(PassResult),
    /// The interactive pass is over: answer the user, and hand `enqueue`, if any, to the
    /// scheduler.
    Respond { message: Message, ephemeral: bool, enqueue: Option<VerificationRequest> },
}

/// How far a silent pass has come.
#[derive(Clone, Copy, Debug, PartialEq, Eq, Structural)]
pub enum SilentStage {
    /// Not started.
    Start,
    /// The backend was asked about the user.
    CheckingUser,
    /// The backend was asked about the guild.
    ResolvingRole,
    /// The gateway was asked to add the role.
    AddingRole,
    /// Over: whether the user was found verified, and whether the role was added.
    Done { verified: bool, granted: bool },
}

/// A silent check-and-grant pass for one user: failures are reported to nobody.
#[derive(Clone, Copy, Debug, PartialEq, Eq, Structural)]
pub struct SilentVerify {
    pub user_id: u64,
    pub guild_id: u64,
    pub stage: SilentStage,
}

/// One step of a pass: where the pass stands afterwards, what must be done, and what the
/// client then remembers.
pub struct Step<F> {
    pub flow: F,
    pub action: Action,
    pub client: ClientView,
}

impl SilentVerify {
    /// The pass with its stage replaced.
    pub open spec fn at(self, stage: SilentStage) -> SilentVerify {
        SilentVerify { stage, ..self }
    }

    /// The result that a finished pass reports.
    pub open spec fn report(self, verified: bool, granted: bool) -> PassResult {
        PassResult { guild_id: self.guild_id, user_id: self.user_id, verified, granted }
    }

    /// The user counts as verified: go on to the guild's role. A cached role is used at
    /// once; otherwise the backend is asked.
    pub open spec fn resolve(self, client: ClientView, now: u64) -> Step<SilentVerify> {
        match client.roles.lookup(self.guild_id, now) {
            Some(role_id) => Step {
                flow: self.at(SilentStage::AddingRole),
                action: Action::AddRole {
                    guild_id: self.guild_id,
                    user_id: self.user_id,
                    role_id,
                },
                client,
            },
            None => Step {
                flow: self.at(SilentStage::ResolvingRole),
                action: Action::AskGuild { guild_id: self.guild_id },
                client,
            },
        }
    }

    /// The pass ends.
    pub open spec fn finish(self, client: ClientView, verified: bool, granted: bool) -> Step<
        SilentVerify,
    > {
        Step {
            flow: self.at(SilentStage::Done { verified, granted }),
            action: Action::Report(self.report(verified, granted)),
            client,
        }
    }

    /// What `event`, arriving at time `now`, leads to.
    ///
    /// The user is checked first, from the cache where a fresh confirmation is held. A
    /// confirmed user gets the guild's role, which is resolved from the cache or the
    /// backend; the gateway is always asked to add it. The pass then ends as verified, and
    /// as granted if the gateway added the role. A user who is not confirmed, and a guild
    /// without a usable role, end the pass as neither.
    pub open spec fn step(self, client: ClientView, event: Event, now: u64) -> Step<SilentVerify> {
        match (self.stage, event) {
            (SilentStage::Start, Event::Begin) => {
                if client.verified.lookup(self.user_id, now) is Some {
                    self.resolve(client, now)
                } else {
                    Step {
                        flow: self.at(SilentStage::CheckingUser),
                        action: Action::AskUser { user_id: self.user_id, guild_id: self.guild_id },
                        client,
                    }
                }
            },
            (SilentStage::CheckingUser, Event::UserAnswered(reply)) => {
                match check_outcome(reply) {
                    Ok(role_id) => self.resolve(
                        ClientView {
                            verified: client.verified.set(self.user_id, role_id, now),
                            ..client
                        },
                        now,
                    ),
                    Err(_) => self.finish(client, false, false),
                }
            },
            (SilentStage::ResolvingRole, Event::GuildAnswered(reply)) => {
                match role_outcome(reply) {
                    Ok(role_id) => Step {
                        flow: self.at(SilentStage::AddingRole),
                        action: Action::AddRole {
                            guild_id: self.guild_id,
                            user_id: self.user_id,
                            role_id,
                        },
                        client: ClientView {
                            roles: client.roles.set(self.guild_id, role_id, now),
                            ..client
                        },
                    },
                    Err(_) => self.finish(client, false, false),
                }
            },
            (SilentStage::AddingRole, Event::RoleAdded(added)) => self.finish(client, true, added),
            _ => Step { flow: self, action: Action::Nothing, client },
        }
    }

    /// A pass for `user_id` in `guild_id` that has not started.
    pub fn new(user_id: u64, guild_id: u64) -> (flow: SilentVerify)
        ensures
            flow == (SilentVerify { user_id, guild_id, stage: SilentStage::Start }),
    {
        SilentVerify { user_id, guild_id, stage: SilentStage::Start }
    }

    /// The result of the pass, once it is over.
    pub fn result(&self) -> (result: Option<PassResult>)
        ensures
            result == match self.stage {
                SilentStage::Done { verified, granted } => Some(self.report(verified, granted)),
                _ => None,
            },
    {
        match self.stage {
            SilentStage::Done { verified, granted } => Some(
                PassResult { guild_id: self.guild_id, user_id: self.user_id, verified, granted },
            ),
            _ => None,
        }
    }

    fn resolve_role(self, client: &mut VerificationClient, now: u64) -> (next: (
        SilentVerify,
        Action,
    ))
        ensures
            next.0 == self.resolve(old(client)@, now).flow,
            next.1 == self.resolve(old(client)@, now).action,
            final(client)@ == old(client)@,
    {
        match client.cached_role(self.guild_id, now) {
            Some(role_id) => (
                SilentVerify { stage: SilentStage::AddingRole, ..self },
                Action::AddRole { guild_id: self.guild_id, user_id: self.user_id, role_id },
            ),
            None => (
                SilentVerify { stage: SilentStage::ResolvingRole, ..self },
                Action::AskGuild { guild_id: self.guild_id },
            ),
        }
    }

    fn finished(self, verified: bool, granted: bool) -> (next: (SilentVerify, Action))
        ensures
            forall|client: ClientView|
                next.0 == (#[trigger] self.finish(client, verified, granted)).flow && next.1
                    == self.finish(client, verified, granted).action,
    {
        (
            SilentVerify { stage: SilentStage::Done { verified, granted }, ..self },
            Action::Report(
                PassResult { guild_id: self.guild_id, user_id: self.user_id, verified, granted },
            ),
        )
    }
}

/// One step of a silent check-and-grant pass: books `event`, which arrived at time `now`,
/// and says what must be done next.
pub fn silent_verify(
    client: &mut VerificationClient,
    flow: SilentVerify,
    event: Event,
    now: u64,
) -> (next: (SilentVerify, Action))
    ensures
        next.0 == flow.step(old(client)@, event, now).flow,
        next.1 == flow.step(old(client)@, event, now).action,
        final(client)@ == flow.step(old(client)@, event, now).client,
{
    match (flow.stage, event) {
        (SilentStage::Start, Event::Begin) => {
            match client.cached_verification(flow.user_id, now) {
                Some(_) => flow.resolve_role(client, now),
                None => (
                    SilentVerify { stage: SilentStage::CheckingUser, ..flow },
                    Action::AskUser { user_id: flow.user_id, guild_id: flow.guild_id },
                ),
            }
        },
        (SilentStage::CheckingUser, Event::UserAnswered(reply)) => {
            match is_verified(client, flow.user_id, reply, now) {
                Ok(_) => flow.resolve_role(client, now),
                Err(_) => flow.finished(false, false),
            }
        },
        (SilentStage::ResolvingRole, Event::GuildAnswered(reply)) => {
            match get_role_id(client, flow.guild_id, reply, now) {
                Ok(role_id) => (
                    SilentVerify { stage: SilentStage::AddingRole, ..flow },
                    Action::AddRole { guild_id: flow.guild_id, user_id: flow.user_id, role_id },
                ),
                Err(_) => flow.finished(false, false),
            }
        },
        (SilentStage::AddingRole, Event::RoleAdded(added)) => flow.finished(true, added),
        _ => (flow, Action::Nothing),
    }
}

/// How an interactive check-and-grant pass ended.
#[derive(Clone, Debug, PartialEq, Eq)]
pub enum VerifyOutcome {
    /// The user holds the verified role.
    Verified,
    /// The guild has no usable verified role.
    Unsupported(RoleError),
    /// The user is not confirmed; they were handed to the scheduler.
    NotVerified(CheckError),
    /// The user is confirmed, but the gateway refused to add the role.
    RoleNotAdded,
}

/// How far an interactive pass has come.
#[derive(Clone, Debug, PartialEq, Eq)]
pub enum VerifyStage {
    /// Not started.
    Start,
    /// The backend was asked about the guild.
    ResolvingRole,
    /// The guild's role is known; the backend was asked about the user.
    CheckingUser { role_id: u64 },
    /// The gateway was asked to add the role.
    AddingRole,
    /// Over.
    Done(VerifyOutcome),
}

/// An interactive check-and-grant pass, run for a user who asked to be verified.
#[derive(Clone, Debug, PartialEq, Eq)]
pub struct Verify {
    pub user_id: u64,
    pub guild_id: u64,
    pub stage: VerifyStage,
}

impl Verify {
    /// The pass with its stage replaced.
    pub open spec fn at(self, stage: VerifyStage) -> Verify {
        Verify { stage, ..self }
    }

    /// The request that hands the user to the scheduler.
    pub open spec fn request(self) -> VerificationRequest {
        VerificationRequest { user_id: self.user_id, guild_id: self.guild_id }
    }

    /// The guild's role is known: go on to the user. A fresh cached confirmation saves the
    /// call to the backend, never the call to the gateway.
    pub open spec fn check_user(self, client: ClientView, role_id: u64, now: u64) -> Step<Verify> {
        if client.verified.lookup(self.user_id, now) is Some {
            Step {
                flow: self.at(VerifyStage::AddingRole),
                action: Action::AddRole { guild_id: self.guild_id, user_id: self.user_id, role_id },
                client,
            }
        } else {
            Step {
                flow: self.at(VerifyStage::CheckingUser { role_id }),
                action: Action::AskUser { user_id: self.user_id, guild_id: self.guild_id },
                client,
            }
        }
    }

    /// The pass ends with an answer to the user.
    pub open spec fn finish(
        self,
        client: ClientView,
        outcome: VerifyOutcome,
        message: Message,
        ephemeral: bool,
        enqueue: Option<VerificationRequest>,
    ) -> Step<Verify> {
        Step {
            flow: self.at(VerifyStage::Done(outcome)),
            action: Action::Respond { message, ephemeral, enqueue },
            client,
        }
    }

    /// What `event`, arriving at time `now`, leads to.
    ///
    /// The guild's role is resolved first; without one the user is told that the guild is
    /// not set up. Then the user is checked; one who is not confirmed is told where to
    /// verify and is handed to the scheduler. A confirmed user gets the role, and is told
    /// whether the gateway added it.
    pub open spec fn step(self, client: ClientView, event: Event, now: u64) -> Step<Verify> {
        match (self.stage, event) {
            (VerifyStage::Start, Event::Begin) => {
                match client.roles.lookup(self.guild_id, now) {
                    Some(role_id) => self.check_user(client, role_id, now),
                    None => Step {
                        flow: self.at(VerifyStage::ResolvingRole),
                        action: Action::AskGuild { guild_id: self.guild_id },
                        client,
                    },
                }
            },
            (VerifyStage::ResolvingRole, Event::GuildAnswered(reply)) => {
                match role_outcome(reply) {
                    Ok(role_id) => self.check_user(
                        ClientView {
                            roles: client.roles.set(self.guild_id, role_id, now),
                            ..client
                        },
                        role_id,
                        now,
                    ),
                    Err(e) => self.finish(
                        client,
                        VerifyOutcome::Unsupported(e),
                        Message::GuildUnsupported,
                        false,
                        None,
                    ),
                }
            },
            (VerifyStage::CheckingUser { role_id }, Event::UserAnswered(reply)) => {
                match check_outcome(reply) {
                    Ok(confirmed) => Step {
                        flow: self.at(VerifyStage::AddingRole),
                        action: Action::AddRole {
                            guild_id: self.guild_id,
                            user_id: self.user_id,
                            role_id,
                        },
                        client: ClientView {
                            verified: client.verified.set(self.user_id, confirmed, now),
                            ..client
                        },
                    },
                    Err(e) => self.finish(
                        client,
                        VerifyOutcome::NotVerified(e),
                        Message::PleaseVerify,
                        true,
                        Some(self.request()),
                    ),
                }
            },
            (VerifyStage::AddingRole, Event::RoleAdded(added)) => {
                if added {
                    self.finish(client, VerifyOutcome::Verified, Message::NowVerified, true, None)
                } else {
                    self.finish(
                        client,
                        VerifyOutcome::RoleNotAdded,
                        Message::UnableToAddRole,
                        false,
                        None,
                    )
                }
            },
            _ => Step { flow: self, action: Action::Nothing, client },
        }
    }

    /// A pass for `user_id` in `guild_id` that has not started.
    pub fn new(user_id: u64, guild_id: u64) -> (flow: Verify)
        ensures
            flow == (Verify { user_id, guild_id, stage: VerifyStage::Start }),
    {
        Verify { user_id, guild_id, stage: VerifyStage::Start }
    }

    fn to_user(self, client: &mut VerificationClient, role_id: u64, now: u64) -> (next: (
        Verify,
        Action,
    ))
        ensures
            next.0 == self.check_user(old(client)@, role_id, now).flow,
            next.1 == self.check_user(old(client)@, role_id, now).action,
            final(client)@ == old(client)@,
    {
        let user_id = self.user_id;
        let guild_id = self.guild_id;
        match client.cached_verification(user_id, now) {
            Some(_) => (
                Verify { user_id, guild_id, stage: VerifyStage::AddingRole },
                Action::AddRole { guild_id, user_id, role_id },
            ),
            None => (
                Verify { user_id, guild_id, stage: VerifyStage::CheckingUser { role_id } },
                Action::AskUser { user_id, guild_id },
            ),
        }
    }
}

/// One step of an interactive check-and-grant pass: books `event`, which arrived at time
/// `now`, and says what must be done next.
pub fn verify(client: &mut VerificationClient, flow: Verify, event: Event, now: u64) -> (next: (
    Verify,
    Action,
))
    ensures
        next.0 == flow.step(old(client)@, event, now).flow,
        next.1 == flow.step(old(client)@, event, now).action,
        final(client)@ == flow.step(old(client)@, event, now).client,
{
    let user_id = flow.user_id;
    let guild_id = flow.guild_id;
    match (flow.stage, event) {
        (VerifyStage::Start, Event::Begin) => {
            let flow = Verify { user_id, guild_id, stage: VerifyStage::Start };
            match client.cached_role(guild_id, now) {
                Some(role_id) => flow.to_user(client, role_id, now),
                None => (
                    Verify { user_id, guild_id, stage: VerifyStage::ResolvingRole },
                    Action::AskGuild { guild_id },
                ),
            }
        },
        (VerifyStage::ResolvingRole, Event::GuildAnswered(reply)) => {
            let flow = Verify { user_id, guild_id, stage: VerifyStage::ResolvingRole };
            match get_role_id(client, guild_id, reply, now) {
                Ok(role_id) => flow.to_user(client, role_id, now),
                Err(e) => (
                    Verify { user_id, guild_id, stage: VerifyStage::Done(VerifyOutcome::Unsupported(e)) },
                    Action::Respond {
                        message: Message::GuildUnsupported,
                        ephemeral: false,
                        enqueue: None,
                    },
                ),
            }
        },
        (VerifyStage::CheckingUser { role_id }, Event::UserAnswered(reply)) => {
            match is_verified(client, user_id, reply, now) {
                Ok(_) => (
                    Verify { user_id, guild_id, stage: VerifyStage::AddingRole },
                    Action::AddRole { guild_id, user_id, role_id },
                ),
                Err(e) => (
                    Verify { user_id, guild_id, stage: VerifyStage::Done(VerifyOutcome::NotVerified(e)) },
                    Action::Respond {
                        message: Message::PleaseVerify,
                        ephemeral: true,
                        enqueue: Some(VerificationRequest { user_id, guild_id }),
                    },
                ),
            }
        },
        (VerifyStage::AddingRole, Event::RoleAdded(added)) => {
            if added {
                (
                    Verify { user_id, guild_id, stage: VerifyStage::Done(VerifyOutcome::Verified) },
                    Action::Respond {
                        message: Message::NowVerified,
                        ephemeral: true,
                        enqueue: None,
                    },
                )
            } else {
                (
                    Verify { user_id, guild_id, stage: VerifyStage::Done(VerifyOutcome::RoleNotAdded) },
                    Action::Respond {
                        message: Message::UnableToAddRole,
                        ephemeral: false,
                        enqueue: None,
                    },
                )
            }
        },
        (stage, _) => (Verify { user_id, guild_id, stage }, Action::Nothing),
    }
}

/// A member of a guild, as far as a bulk pass looks at one.
#[derive(Clone, Debug, PartialEq, Eq)]
pub struct Member {
    pub user_id: u64,
    pub guild_id: u64,
    pub bot: bool,
    pub roles: Vec<u64>,
}

/// Whether a bulk pass checks `member`: bots are left out, and so is whoever holds the
/// verified role already.
pub open spec fn is_candidate(member: Member, role_id: u64) -> bool {
    !member.bot && !member.roles@.contains(role_id)
}

/// [`is_candidate`] for a fixed role, as a predicate on members.
pub open spec fn candidate_of(role_id: u64) -> spec_fn(Member) -> bool {
    |member: Member| is_candidate(member, role_id)
}

/// The request that checks `member`.
pub open spec fn request_for(member: Member) -> VerificationRequest {
    VerificationRequest { user_id: member.user_id, guild_id: member.guild_id }
}

/// The checks of a bulk pass: one for each member that is a candidate, in the order of the
/// members.
pub open spec fn candidates(members: Seq<Member>, role_id: u64) -> Seq<VerificationRequest> {
    members.filter(candidate_of(role_id)).map_values(|member: Member| request_for(member))
}

/// Whether `results` tells of a pass for the user of `request` that ended with the user
/// verified and the role added.
pub open spec fn granted_in(results: Seq<PassResult>, request: VerificationRequest) -> bool {
    exists|i: int|
        0 <= i < results.len() && (#[trigger] results[i]).user_id == request.user_id
            && results[i].guild_id == request.guild_id && results[i].verified && results[i].granted
}

/// [`granted_in`] for fixed results, as a predicate on requests.
pub open spec fn granted_among(results: Seq<PassResult>) -> spec_fn(VerificationRequest) -> bool {
    |request: VerificationRequest| granted_in(results, request)
}

/// How many of the checks of `batch` ended, by `results`, with the role granted. A result
/// that answers to no check of the batch counts for nothing.
pub open spec fn count_granted(batch: Seq<VerificationRequest>, results: Seq<PassResult>) -> nat {
    batch.filter(granted_among(results)).len()
}

/// What came back from the outside, for a bulk pass.
#[derive(Clone, Debug, PartialEq, Eq)]
pub enum BulkEvent {
    /// The pass is asked to start.
    Begin,
    /// The backend answered about the guild.
    GuildAnswered(Reply<Guild>),
    /// The gateway listed the members of the guild.
    Members(Vec<Member>),
    /// Every dispatched check has ended; these are the results.
    Checked(Vec<PassResult>),
}

/// What must be done next, in a bulk pass.
#[derive(Clone, Debug, PartialEq, Eq)]
pub enum BulkAction {
    /// The event did not fit the state of the pass and was dropped.
    Nothing,
    /// Ask the backend for the guild's verified role.
    AskGuild { guild_id: u64 },
    /// Ask the gateway for the members of the guild.
    ListMembers { guild_id: u64 },
    /// Run one silent pass for each of these requests, all at once, and report the results.
    CheckEach(Vec<VerificationRequest>),
    /// The pass is over: answer the one who asked.
    Respond { message: Message },
}

/// The mathematical content of a [`BulkAction`].
pub enum BulkActionView {
    Nothing,
    AskGuild { guild_id: u64 },
    ListMembers { guild_id: u64 },
    CheckEach(Seq<VerificationRequest>),
    Respond { message: Message },
}

impl View for BulkAction {
    type V = BulkActionView;

    open spec fn view(&self) -> BulkActionView {
        match *self {
            BulkAction::Nothing => BulkActionView::Nothing,
            BulkAction::AskGuild { guild_id } => BulkActionView::AskGuild { guild_id },
            BulkAction::ListMembers { guild_id } => BulkActionView::ListMembers { guild_id },
            BulkAction::CheckEach(batch) => BulkActionView::CheckEach(batch@),
            BulkAction::Respond { message } => BulkActionView::Respond { message },
        }
    }
}

/// How far a bulk pass has come.
#[derive(Debug, PartialEq, Eq)]
pub enum VerifyAllStage {
    /// Not started.
    Start,
    /// The backend was asked about the guild.
    ResolvingRole,
    /// The guild's role is known; the gateway was asked for the members.
    ListingMembers { role_id: u64 },
    /// The checks for the candidates among `members` were dispatched.
    Checking { role_id: u64, members: Vec<Member> },
    /// Over: the number of members granted the role, or why the pass could not run.
    Done(Result<usize, RoleError>),
}

/// A pass over all members of a guild.
#[derive(Debug, PartialEq, Eq)]
pub struct VerifyAll {
    pub guild_id: u64,
    pub stage: VerifyAllStage,
}

/// One step of a bulk pass: where the pass stands afterwards, what must be done, and what
/// the client then remembers.
pub struct BulkStep {
    pub flow: VerifyAll,
    pub action: BulkActionView,
    pub client: ClientView,
}

impl VerifyAll {
    /// The pass with its stage replaced.
    pub open spec fn at(self, stage: VerifyAllStage) -> VerifyAll {
        VerifyAll { stage, ..self }
    }

    /// What `event`, arriving at time `now`, leads to.
    ///
    /// The pass first forgets the guild's cached role, so that the backend is asked anew.
    /// With the fresh role it has the members listed, dispatches one check for each
    /// candidate, and reports how many of the candidates were granted the role: found
    /// verified, with the role added by the gateway.
    pub open spec fn step(self, client: ClientView, event: BulkEvent, now: u64) -> BulkStep {
        match (self.stage, event) {
            (VerifyAllStage::Start, BulkEvent::Begin) => BulkStep {
                flow: self.at(VerifyAllStage::ResolvingRole),
                action: BulkActionView::AskGuild { guild_id: self.guild_id },
                client: ClientView { roles: client.roles.invalidate(self.guild_id), ..client },
            },
            (VerifyAllStage::ResolvingRole, BulkEvent::GuildAnswered(reply)) => {
                match role_outcome(reply) {
                    Ok(role_id) => BulkStep {
                        flow: self.at(VerifyAllStage::ListingMembers { role_id }),
                        action: BulkActionView::ListMembers { guild_id: self.guild_id },
                        client: ClientView {
                            roles: client.roles.set(self.guild_id, role_id, now),
                            ..client
                        },
                    },
                    Err(e) => BulkStep {
                        flow: self.at(VerifyAllStage::Done(Err(e))),
                        action: BulkActionView::Respond { message: Message::GuildUnsupportedForAll },
                        client,
                    },
                }
            },
            (VerifyAllStage::ListingMembers { role_id }, BulkEvent::Members(members)) => BulkStep {
                flow: self.at(VerifyAllStage::Checking { role_id, members }),
                action: BulkActionView::CheckEach(candidates(members@, role_id)),
                client,
            },
            (VerifyAllStage::Checking { role_id, members }, BulkEvent::Checked(results)) => {
                let granted = count_granted(candidates(members@, role_id), results@);
                BulkStep {
                    flow: self.at(VerifyAllStage::Done(Ok(granted as usize))),
                    action: BulkActionView::Respond {
                        message: Message::ReverificationDone { num_granted: granted as usize },
                    },
                    client,
                }
            },
            _ => BulkStep { flow: self, action: BulkActionView::Nothing, client },
        }
    }

    /// A pass over `guild_id` that has not started.
    pub fn new(guild_id: u64) -> (flow: VerifyAll)
        ensures
            flow == (VerifyAll { guild_id, stage: VerifyAllStage::Start }),
    {
        VerifyAll { guild_id, stage: VerifyAllStage::Start }
    }
}

/// Whether `role_id` is among the roles `held`.
pub fn has_role(held: &Vec<u64>, role_id: u64) -> (found: bool)
    ensures
        found == held@.contains(role_id),
{
    let mut i: usize = 0;
    while i < held.len()
        invariant
            i <= held.len(),
            forall|j: int| 0 <= j < i ==> held@[j] != role_id,
        decreases held.len() - i,
    {
        if held[i] == role_id {
            return true;
        }
        i += 1;
    }
    false
}

/// The checks that a bulk pass dispatches for `members`, given the guild's verified role.
pub fn bulk_candidates(members: &Vec<Member>, role_id: u64) -> (batch: Vec<VerificationRequest>)
    ensures
        batch@ == candidates(members@, role_id),
{
    let mut batch: Vec<VerificationRequest> = Vec::new();
    let mut i: usize = 0;
    proof {
        reveal(Seq::filter);
        assert(members@.take(0).filter(candidate_of(role_id)) =~= Seq::<Member>::empty());
    }
    while i < members.len()
        invariant
            i <= members.len(),
            batch@ == candidates(members@.take(i as int), role_id),
        decreases members.len() - i,
    {
        let member = &members[i];
        let ghost seen = members@.take(i as int);
        proof {
            assert(members@.take(i + 1) =~= seen.push(*member));
            seen.lemma_filter_push(*member, candidate_of(role_id));
        }
        if !member.bot && !has_role(&member.roles, role_id) {
            batch.push(VerificationRequest { user_id: member.user_id, guild_id: member.guild_id });
            assert(batch@ =~= candidates(members@.take(i + 1), role_id));
        }
        i += 1;
    }
    assert(members@.take(i as int) =~= members@);
    batch
}

/// Whether `results` tells of a pass for the user of `request` that ended with the role
/// granted.
pub fn was_granted(results: &Vec<PassResult>, request: VerificationRequest) -> (granted: bool)
    ensures
        granted == granted_in(results@, request),
{
    let mut i: usize = 0;
    while i < results.len()
        invariant
            i <= results.len(),
            forall|j: int|
                0 <= j < i ==> !((#[trigger] results@[j]).user_id == request.user_id
                    && results@[j].guild_id == request.guild_id && results@[j].verified
                    && results@[j].granted),
        decreases results.len() - i,
    {
        let result = results[i];
        if result.user_id == request.user_id && result.guild_id == request.guild_id
            && result.verified && result.granted {
            return true;
        }
        i += 1;
    }
    false
}

/// How many of the checks of `batch` ended, by `results`, with the role granted.
pub fn num_granted(batch: &Vec<VerificationRequest>, results: &Vec<PassResult>) -> (count: usize)
    ensures
        count == count_granted(batch@, results@),
        count <= batch.len(),
{
    let mut count: usize = 0;
    let mut i: usize = 0;
    proof {
        reveal(Seq::filter);
        assert(batch@.take(0).filter(granted_among(results@)) =~= Seq::<
            VerificationRequest,
        >::empty());
    }
    while i < batch.len()
        invariant
            i <= batch.len(),
            count <= i,
            count == count_granted(batch@.take(i as int), results@),
        decreases batch.len() - i,
    {
        let ghost seen = batch@.take(i as int);
        proof {
            assert(batch@.take(i + 1) =~= seen.push(batch@[i as int]));
            seen.lemma_filter_push(batch@[i as int], granted_among(results@));
        }
        if was_granted(results, batch[i]) {
            count += 1;
        }
        i += 1;
    }
    assert(batch@.take(i as int) =~= batch@);
    count
}

/// A bulk pass never reports more members than it had checked, nor more than the guild
/// has: the count is bounded by the number of candidates, which is bounded by the number of
/// members.
pub proof fn lemma_count_is_bounded(members: Seq<Member>, role_id: u64, results: Seq<PassResult>)
    ensures
        count_granted(candidates(members, role_id), results) <= candidates(members, role_id).len()
            <= members.len(),
{
    members.lemma_filter_len(candidate_of(role_id));
    candidates(members, role_id).lemma_filter_len(granted_among(results));
}

/// A member who was found verified but whose role the gateway did not add is not counted,
/// and neither is one who was not found verified.
pub proof fn lemma_only_granted_members_count(
    batch: Seq<VerificationRequest>,
    results: Seq<PassResult>,
)
    requires
        forall|i: int| 0 <= i < results.len() ==> !((#[trigger] results[i]).verified && results[i].granted),
    ensures
        count_granted(batch, results) == 0,
{
    batch.lemma_all_neg_filter_empty(granted_among(results));
}

/// One step of a pass over all members of a guild: books `event`, which arrived at time
/// `now`, and says what must be done next.
pub fn verify_all(
    client: &mut VerificationClient,
    flow: VerifyAll,
    event: BulkEvent,
    now: u64,
) -> (next: (VerifyAll, BulkAction))
    ensures
        next.0 == flow.step(old(client)@, event, now).flow,
        next.1@ == flow.step(old(client)@, event, now).action,
        final(client)@ == flow.step(old(client)@, event, now).client,
{
    let guild_id = flow.guild_id;
    match (flow.stage, event) {
        (VerifyAllStage::Start, BulkEvent::Begin) => {
            client.forget_role(guild_id);
            (
                VerifyAll { guild_id, stage: VerifyAllStage::ResolvingRole },
                BulkAction::AskGuild { guild_id },
            )
        },
        (VerifyAllStage::ResolvingRole, BulkEvent::GuildAnswered(reply)) => {
            match get_role_id(client, guild_id, reply, now) {
                Ok(role_id) => (
                    VerifyAll { guild_id, stage: VerifyAllStage::ListingMembers { role_id } },
                    BulkAction::ListMembers { guild_id },
                ),
                Err(e) => (
                    VerifyAll { guild_id, stage: VerifyAllStage::Done(Err(e)) },
                    BulkAction::Respond { message: Message::GuildUnsupportedForAll },
                ),
            }
        },
        (VerifyAllStage::ListingMembers { role_id }, BulkEvent::Members(members)) => {
            let batch = bulk_candidates(&members, role_id);
            (
                VerifyAll { guild_id, stage: VerifyAllStage::Checking { role_id, members } },
                BulkAction::CheckEach(batch),
            )
        },
        (VerifyAllStage::Checking { role_id, members }, BulkEvent::Checked(results)) => {
            let batch = bulk_candidates(&members, role_id);
            let count = num_granted(&batch, &results);
            (
                VerifyAll { guild_id, stage: VerifyAllStage::Done(Ok(count)) },
                BulkAction::Respond { message: Message::ReverificationDone { num_granted: count } },
            )
        },
        (stage, _) => (VerifyAll { guild_id, stage }, BulkAction::Nothing),
    }
}

impl VerifyOutcome {
    /// The class of the failure that ended the pass, if one did.
    pub open spec fn spec_error_kind(self) -> Option<ErrorKind> {
        match self {
            VerifyOutcome::Verified => None,
            VerifyOutcome::Unsupported(e) => Some(e.spec_kind()),
            VerifyOutcome::NotVerified(e) => Some(e.spec_kind()),
            VerifyOutcome::RoleNotAdded => Some(ErrorKind::GatewayMutationError),
        }
    }

    /// The class of the failure that ended the pass, if one did.
    pub fn error_kind(&self) -> (kind: Option<ErrorKind>)
        ensures
            kind == self.spec_error_kind(),
    {
        match self {
            VerifyOutcome::Verified => None,
            VerifyOutcome::Unsupported(e) => Some(e.kind()),
            VerifyOutcome::NotVerified(e) => Some(e.kind()),
            VerifyOutcome::RoleNotAdded => Some(ErrorKind::GatewayMutationError),
        }
    }
}

/// The word for `count` members.
pub fn noun(count: usize) -> (word: &'static str)
    ensures
        word@ == if count == 1 {
            "member"@
        } else {
            "members"@
        },
{
    if count == 1 {
        "member"
    } else {
        "members"
    }
}

/// Whether two texts are the same.
pub(crate) fn same_text(a: &str, b: &str) -> (same: bool)
    ensures
        same == (a@ == b@),
{
    a.to_owned() == b.to_owned()
}

/// The commands that the bot knows.
#[derive(Clone, Copy, Debug, PartialEq, Eq, Structural)]
pub enum Command {
    /// A user asks to be verified.
    Verify,
    /// An administrator asks for a pass over all members.
    VerifyAll,
    /// An administrator sets the guild up.
    Setup,
    /// The setup form was submitted; it is read where the setup waits for it.
    SetupModal,
}

/// The command that goes by `name`.
pub open spec fn command_named(name: Seq<char>) -> Option<Command> {
    if name == "verify"@ {
        Some(Command::Verify)
    } else if name == "verify-all"@ {
        Some(Command::VerifyAll)
    } else if name == "setup"@ {
        Some(Command::Setup)
    } else if name == "setup-modal"@ {
        Some(Command::SetupModal)
    } else {
        None
    }
}

/// Finds the command that an interaction names. `None` means that no such command is
/// implemented.
pub fn dispatch_commands(name: &str) -> (command: Option<Command>)
    ensures
        command == command_named(name@),
{
    if same_text(name, "verify") {
        Some(Command::Verify)
    } else if same_text(name, "verify-all") {
        Some(Command::VerifyAll)
    } else if same_text(name, "setup") {
        Some(Command::Setup)
    } else if same_text(name, "setup-modal") {
        Some(Command::SetupModal)
    } else {
        None
    }
}

/// A silent pass reports a user as verified only after the gateway was asked to add the
/// role: a cached confirmation never stands in for the call. It reports the role as granted
/// only where the gateway added it.
pub proof fn lemma_silent_pass_always_asks_the_gateway(
    flow: SilentVerify,
    client: ClientView,
    event: Event,
    now: u64,
)
    ensures
        ({
            let next = flow.step(client, event, now);
            flow.stage != next.flow.stage ==> match next.flow.stage {
                SilentStage::Done { verified, granted } => if verified {
                    flow.stage == SilentStage::AddingRole && event == Event::RoleAdded(granted)
                } else {
                    !granted
                },
                SilentStage::AddingRole => next.action is AddRole,
                _ => true,
            }
        }),
{
}

/// An interactive pass tells a user that they are verified only after the gateway has
/// added the role.
pub proof fn lemma_interactive_pass_always_asks_the_gateway(
    flow: Verify,
    client: ClientView,
    event: Event,
    now: u64,
)
    ensures
        ({
            let next = flow.step(client, event, now);
            &&& next.flow.stage == VerifyStage::Done(VerifyOutcome::Verified) && flow.stage
                != next.flow.stage ==> flow.stage == VerifyStage::AddingRole && event
                == Event::RoleAdded(true)
            &&& next.flow.stage == VerifyStage::AddingRole && flow.stage != next.flow.stage
                ==> next.action is AddRole
        }),
{
}

/// Once a bulk pass over a guild has begun, the guild's role is no longer cached: a pass
/// that starts afterwards asks the backend for it, at whatever time it starts and however
/// fresh the forgotten entry was.
pub proof fn lemma_bulk_pass_forces_fresh_lookup(
    client: ClientView,
    guild_id: u64,
    user_id: u64,
    begun_at: u64,
    now: u64,
)
    ensures
        ({
            let bulk = VerifyAll { guild_id, stage: VerifyAllStage::Start };
            let after = bulk.step(client, BulkEvent::Begin, begun_at).client;
            let pass = Verify { user_id, guild_id, stage: VerifyStage::Start };
            &&& after.roles.lookup(guild_id, now) is None
            &&& pass.step(after, Event::Begin, now).action == Action::AskGuild { guild_id }
        }),
{
}

/// A guild's role is asked for again once the cached one has expired, and the role that
/// the backend then names is the one used from there on, without another call, for as long
/// as it is fresh.
pub proof fn lemma_expired_role_is_fetched_again(
    client: ClientView,
    guild_id: u64,
    user_id: u64,
    role_id: u64,
    text: String,
    asked_at: u64,
    answered_at: u64,
    now: u64,
)
    requires
        client.roles.lookup(guild_id, asked_at) is None,
    ensures
        ({
            let pass = Verify { user_id, guild_id, stage: VerifyStage::Start };
            let asked = pass.step(client, Event::Begin, asked_at);
            let reply = Reply::Answered {
                status: 200,
                body: Some(Guild { role_id, approved: true }),
                text,
            };
            let answered = asked.flow.step(asked.client, Event::GuildAnswered(reply), answered_at);
            &&& asked.action == Action::AskGuild { guild_id }
            &&& now - answered_at <= client.roles.lifespan ==> answered.client.roles.lookup(
                guild_id,
                now,
            ) == Some(role_id)
            &&& now - answered_at > client.roles.lifespan ==> answered.client.roles.lookup(
                guild_id,
                now,
            ) is None
        }),
{
}

} // verus!
