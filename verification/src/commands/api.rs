//! The verification client: what the backend's answers mean, and what is remembered of them.
//!
//! The requests themselves are made elsewhere. This module is handed each answer as a status
//! code with the decoded body, decides the outcome, and keeps the two caches that save calls
//! to the backend: guild to verified role, and user to the role they were last confirmed for.

use crate::cache::CacheView;
use crate::cache::ExpiringCache;
use vstd::prelude::*;

verus! {

/// The body of the backend's answer about a user.
#[derive(Clone, Copy, Debug, PartialEq, Eq, Structural)]
pub struct Verified {
    pub verified: bool,
    pub role_id: u64,
}

/// The body of the backend's answer about a guild.
#[derive(Clone, Copy, Debug, PartialEq, Eq, Structural)]
pub struct Guild {
    pub role_id: u64,
    pub approved: bool,
}

/// The body of the backend's answer to a guild registration.
#[derive(Clone, Copy, Debug, PartialEq, Eq, Structural)]
pub struct Register {
    pub registered: bool,
    pub approved: bool,
}

/// What came back for one request to the backend.
#[derive(Clone, Debug, PartialEq, Eq)]
pub enum Reply<B> {
    /// No answer arrived: the network failed or the call timed out.
    Unreachable,
    /// An answer arrived. `body` is the decoded body of a `200`, where it could be decoded;
    /// `text` is the body as text, for the log.
    Answered { status: u16, body: Option<B>, text: String },
}

/// A failure of the backend, or of the way it was called.
#[derive(Clone, Debug, PartialEq, Eq)]
pub enum BackendError {
    /// No answer arrived.
    Unreachable,
    /// Status `401`: the authorization header was refused.
    IncorrectAuth,
    /// Status `400`: the parameters were refused.
    InvalidParams { text: String },
    /// Status `200` with a body that could not be decoded.
    Malformed { text: String },
    /// Any other status.
    Unknown { status: u16, text: String },
}

/// The classes of failure, by how they are treated.
#[derive(Clone, Copy, Debug, PartialEq, Eq, Structural)]
pub enum ErrorKind {
    /// A normal outcome: not verified yet, guild not configured or not approved.
    ExpectedNegative,
    /// The backend could not be reached or failed; worth another try.
    TransientBackendError,
    /// The bot is deployed with bad credentials or sends bad parameters.
    ConfigurationError,
    /// The gateway refused to change a member's roles.
    GatewayMutationError,
}

/// Why a user's verification check did not succeed.
#[derive(Clone, Debug, PartialEq, Eq)]
pub enum CheckError {
    /// The backend does not know the user, or knows them as not verified.
    NotVerified,
    /// The check itself failed.
    Backend(BackendError),
}

/// Why a guild's verified role could not be resolved.
#[derive(Clone, Debug, PartialEq, Eq)]
pub enum RoleError {
    /// The backend does not know the guild.
    NotConfigured,
    /// The guild is registered, but its registration has not been approved.
    NotApproved,
    /// The lookup itself failed.
    Backend(BackendError),
}

/// Why a guild could not be registered.
#[derive(Clone, Debug, PartialEq, Eq)]
pub enum RegisterError {
    /// Status `409`: the guild is registered already.
    AlreadyRegistered,
    /// The registration itself failed.
    Backend(BackendError),
}

/// The failure that a status other than `200` stands for, where the endpoint gives the
/// status no meaning of its own.
pub open spec fn failure_of(status: u16, text: String) -> BackendError {
    if status == 401 {
        BackendError::IncorrectAuth
    } else if status == 400 {
        BackendError::InvalidParams { text }
    } else {
        BackendError::Unknown { status, text }
    }
}

/// What the answer about a user means: the role they are confirmed for, or why not.
pub open spec fn check_outcome(reply: Reply<Verified>) -> Result<u64, CheckError> {
    match reply {
        Reply::Unreachable => Err(CheckError::Backend(BackendError::Unreachable)),
        Reply::Answered { status, body, text } => if status == 200 {
            match body {
                Some(answer) => if answer.verified {
                    Ok(answer.role_id)
                } else {
                    Err(CheckError::NotVerified)
                },
                None => Err(CheckError::Backend(BackendError::Malformed { text })),
            }
        } else if status == 404 {
            Err(CheckError::NotVerified)
        } else {
            Err(CheckError::Backend(failure_of(status, text)))
        },
    }
}

/// What the answer about a guild means: its verified role, or why none can be used.
pub open spec fn role_outcome(reply: Reply<Guild>) -> Result<u64, RoleError> {
    match reply {
        Reply::Unreachable => Err(RoleError::Backend(BackendError::Unreachable)),
        Reply::Answered { status, body, text } => if status == 200 {
            match body {
                Some(answer) => if answer.approved {
                    Ok(answer.role_id)
                } else {
                    Err(RoleError::NotApproved)
                },
                None => Err(RoleError::Backend(BackendError::Malformed { text })),
            }
        } else if status == 404 {
            Err(RoleError::NotConfigured)
        } else {
            Err(RoleError::Backend(failure_of(status, text)))
        },
    }
}

/// What the answer to a registration means.
pub open spec fn register_outcome(reply: Reply<Register>) -> Result<Register, RegisterError> {
    match reply {
        Reply::Unreachable => Err(RegisterError::Backend(BackendError::Unreachable)),
        Reply::Answered { status, body, text } => if status == 200 {
            match body {
                Some(answer) => Ok(answer),
                None => Err(RegisterError::Backend(BackendError::Malformed { text })),
            }
        } else if status == 409 {
            Err(RegisterError::AlreadyRegistered)
        } else {
            Err(RegisterError::Backend(failure_of(status, text)))
        },
    }
}

impl BackendError {
    /// The class of the failure: refused credentials and refused parameters are defects of
    /// the deployment, everything else may pass.
    pub open spec fn spec_kind(self) -> ErrorKind {
        match self {
            BackendError::IncorrectAuth | BackendError::InvalidParams { .. } => ErrorKind::ConfigurationError,
            _ => ErrorKind::TransientBackendError,
        }
    }

    /// The class of the failure.
    pub fn kind(&self) -> (kind: ErrorKind)
        ensures
            kind == self.spec_kind(),
    {
        match self {
            BackendError::IncorrectAuth => ErrorKind::ConfigurationError,
            BackendError::InvalidParams { .. } => ErrorKind::ConfigurationError,
            _ => ErrorKind::TransientBackendError,
        }
    }
}

impl CheckError {
    /// The class of the failure.
    pub open spec fn spec_kind(self) -> ErrorKind {
        match self {
            CheckError::NotVerified => ErrorKind::ExpectedNegative,
            CheckError::Backend(e) => e.spec_kind(),
        }
    }

    /// The class of the failure.
    pub fn kind(&self) -> (kind: ErrorKind)
        ensures
            kind == self.spec_kind(),
    {
        match self {
            CheckError::NotVerified => ErrorKind::ExpectedNegative,
            CheckError::Backend(e) => e.kind(),
        }
    }
}

impl RoleError {
    /// The class of the failure.
    pub open spec fn spec_kind(self) -> ErrorKind {
        match self {
            RoleError::NotConfigured | RoleError::NotApproved => ErrorKind::ExpectedNegative,
            RoleError::Backend(e) => e.spec_kind(),
        }
    }

    /// The class of the failure.
    pub fn kind(&self) -> (kind: ErrorKind)
        ensures
            kind == self.spec_kind(),
    {
        match self {
            RoleError::NotConfigured => ErrorKind::ExpectedNegative,
            RoleError::NotApproved => ErrorKind::ExpectedNegative,
            RoleError::Backend(e) => e.kind(),
        }
    }
}

impl ErrorKind {
    /// Whether a failure of this class is written to the log. Expected negatives are not.
    pub fn is_logged(&self) -> (logged: bool)
        ensures
            logged == !(*self == ErrorKind::ExpectedNegative),
    {
        match self {
            ErrorKind::ExpectedNegative => false,
            _ => true,
        }
    }
}

/// The failure that a status other than `200` stands for.
fn failure(status: u16, text: String) -> (error: BackendError)
    ensures
        error == failure_of(status, text),
{
    if status == 401 {
        BackendError::IncorrectAuth
    } else if status == 400 {
        BackendError::InvalidParams { text }
    } else {
        BackendError::Unknown { status, text }
    }
}

/// The mathematical content of a [`VerificationClient`].
pub struct ClientView {
    /// Guild to verified role.
    pub roles: CacheView,
    /// User to the role they were last confirmed for.
    pub verified: CacheView,
}

/// The two caches of the verification client.
pub struct VerificationClient {
    roles: ExpiringCache,
    verified: ExpiringCache,
}

impl View for VerificationClient {
    type V = ClientView;

    closed spec fn view(&self) -> ClientView {
        ClientView { roles: self.roles@, verified: self.verified@ }
    }
}

impl VerificationClient {
    /// A client that remembers nothing yet. A guild's role stays cached for `role_lifespan`
    /// time units, a user's confirmation for `verified_lifespan`.
    pub fn new(role_lifespan: u64, verified_lifespan: u64) -> (client: VerificationClient)
        ensures
            client@.roles == CacheView::empty(role_lifespan),
            client@.verified == CacheView::empty(verified_lifespan),
    {
        VerificationClient {
            roles: ExpiringCache::new(role_lifespan),
            verified: ExpiringCache::new(verified_lifespan),
        }
    }

    /// The verified role of `guild_id`, if a fresh one is cached at time `now`. `None` means
    /// that the backend must be asked.
    pub fn cached_role(&mut self, guild_id: u64, now: u64) -> (role: Option<u64>)
        ensures
            role == old(self)@.roles.lookup(guild_id, now),
            final(self)@ == old(self)@,
    {
        self.roles.get(guild_id, now)
    }

    /// The role that `user_id` was confirmed for, if a fresh confirmation is cached at time
    /// `now`. `None` means that the backend must be asked.
    pub fn cached_verification(&mut self, user_id: u64, now: u64) -> (role: Option<u64>)
        ensures
            role == old(self)@.verified.lookup(user_id, now),
            final(self)@ == old(self)@,
    {
        self.verified.get(user_id, now)
    }

    /// Forgets the cached role of `guild_id`, so that the next lookup asks the backend.
    pub fn forget_role(&mut self, guild_id: u64)
        ensures
            final(self)@.roles == old(self)@.roles.invalidate(guild_id),
            final(self)@.verified == old(self)@.verified,
    {
        self.roles.invalidate(guild_id);
    }
}

/// Reads the backend's answer about `user_id`, received at time `now`.
///
/// A confirmation is remembered for the user and the confirmed role is returned. Any other
/// answer leaves the caches as they are.
pub fn is_verified(
    client: &mut VerificationClient,
    user_id: u64,
    reply: Reply<Verified>,
    now: u64,
) -> (outcome: Result<u64, CheckError>)
    ensures
        outcome == check_outcome(reply),
        final(client)@.roles == old(client)@.roles,
        final(client)@.verified == match outcome {
            Ok(role_id) => old(client)@.verified.set(user_id, role_id, now),
            Err(_) => old(client)@.verified,
        },
{
    match reply {
        Reply::Unreachable => Err(CheckError::Backend(BackendError::Unreachable)),
        Reply::Answered { status, body, text } => {
            if status == 200 {
                match body {
                    Some(answer) => {
                        if answer.verified {
                            client.verified.set(user_id, answer.role_id, now);
                            Ok(answer.role_id)
                        } else {
                            Err(CheckError::NotVerified)
                        }
                    },
                    None => Err(CheckError::Backend(BackendError::Malformed { text })),
                }
            } else if status == 404 {
                Err(CheckError::NotVerified)
            } else {
                Err(CheckError::Backend(failure(status, text)))
            }
        },
    }
}

/// Reads the backend's answer about `guild_id`, received at time `now`.
///
/// The role of an approved guild is cached and returned. Any other answer leaves the caches
/// as they are: a guild that is unknown or not approved gets no role.
pub fn get_role_id(
    client: &mut VerificationClient,
    guild_id: u64,
    reply: Reply<Guild>,
    now: u64,
) -> (outcome: Result<u64, RoleError>)
    ensures
        outcome == role_outcome(reply),
        final(client)@.verified == old(client)@.verified,
        final(client)@.roles == match outcome {
            Ok(role_id) => old(client)@.roles.set(guild_id, role_id, now),
            Err(_) => old(client)@.roles,
        },
{
    match reply {
        Reply::Unreachable => Err(RoleError::Backend(BackendError::Unreachable)),
        Reply::Answered { status, body, text } => {
            if status == 200 {
                match body {
                    Some(answer) => {
                        if answer.approved {
                            client.roles.set(guild_id, answer.role_id, now);
                            Ok(answer.role_id)
                        } else {
                            Err(RoleError::NotApproved)
                        }
                    },
                    None => Err(RoleError::Backend(BackendError::Malformed { text })),
                }
            } else if status == 404 {
                Err(RoleError::NotConfigured)
            } else {
                Err(RoleError::Backend(failure(status, text)))
            }
        },
    }
}

/// Reads the backend's answer to a guild registration.
pub fn register_guild(reply: Reply<Register>) -> (outcome: Result<Register, RegisterError>)
    ensures
        outcome == register_outcome(reply),
{
    match reply {
        Reply::Unreachable => Err(RegisterError::Backend(BackendError::Unreachable)),
        Reply::Answered { status, body, text } => {
            if status == 200 {
                match body {
                    Some(answer) => Ok(answer),
                    None => Err(RegisterError::Backend(BackendError::Malformed { text })),
                }
            } else if status == 409 {
                Err(RegisterError::AlreadyRegistered)
            } else {
                Err(RegisterError::Backend(failure(status, text)))
            }
        },
    }
}

/// What is sent to the backend to register a guild.
#[derive(Debug, PartialEq, Eq)]
pub struct RegisterParams {
    pub guild_id: u64,
    pub name: String,
    pub icon: Option<String>,
    pub created_at: String,
    pub owner_id: u64,
    pub susu_link: Option<String>,
    pub invite_link: String,
    pub role_id: u64,
    pub role_name: String,
    pub role_colour: u32,
}

/// The mathematical content of [`RegisterParams`].
pub struct RegisterParamsView {
    pub guild_id: u64,
    pub name: Seq<char>,
    pub icon: Option<Seq<char>>,
    pub created_at: Seq<char>,
    pub owner_id: u64,
    pub susu_link: Option<Seq<char>>,
    pub invite_link: Seq<char>,
    pub role_id: u64,
    pub role_name: Seq<char>,
    pub role_colour: u32,
}

/// The text of an optional string.
pub open spec fn text_of(value: Option<String>) -> Option<Seq<char>> {
    match value {
        Some(text) => Some(text@),
        None => None,
    }
}

impl View for RegisterParams {
    type V = RegisterParamsView;

    open spec fn view(&self) -> RegisterParamsView {
        RegisterParamsView {
            guild_id: self.guild_id,
            name: self.name@,
            icon: text_of(self.icon),
            created_at: self.created_at@,
            owner_id: self.owner_id,
            susu_link: text_of(self.susu_link),
            invite_link: self.invite_link@,
            role_id: self.role_id,
            role_name: self.role_name@,
            role_colour: self.role_colour,
        }
    }
}

} // verus!
