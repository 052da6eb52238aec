//! Setting a guild up: which role may mark verified members, what the setup form must hold,
//! and what the backend's answer to the registration means for the one who ran the setup.

use crate::commands::api::Register;
use crate::commands::api::RegisterError;
use crate::commands::api::RegisterParams;
use crate::commands::api::text_of;
use crate::commands::api::RegisterParamsView;
use crate::commands::api::VerificationClient;
use crate::commands::has_role;
use crate::commands::same_text;
use reqwest::Url;
use serenity::model::Permissions;
use vstd::prelude::*;

verus! {

/// A role of a guild.
#[derive(Debug, PartialEq, Eq)]
pub struct Role {
    pub id: u64,
    pub name: String,
    pub position: u16,
    pub colour: u32,
}

/// The bot's own membership in a guild.
#[derive(Debug, PartialEq, Eq)]
pub struct BotMember {
    /// The bits of the bot's permissions in the guild, where the gateway gave them.
    pub permissions: Option<u64>,
    /// The roles that the bot holds.
    pub roles: Vec<u64>,
}

/// What is sent on about the guild itself.
#[derive(Debug, PartialEq, Eq)]
pub struct GuildProfile {
    pub id: u64,
    pub name: String,
    pub icon: Option<String>,
    pub created_at: String,
    pub owner_id: u64,
}

/// The first component of one row of the submitted setup form.
#[derive(Debug, PartialEq, Eq)]
pub enum ModalField {
    /// A text input with its identifier and what was typed into it.
    Text { custom_id: String, value: Option<String> },
    /// Anything else.
    Other,
}

/// Why a setup did not go through.
#[derive(Debug, PartialEq, Eq)]
pub enum SetupError {
    /// The bot may not manage roles.
    NeedManageRoles,
    /// The command did not name a role.
    NoRoleChosen,
    /// The guild has no role with the chosen identifier.
    UnknownRole,
    /// The chosen role stands above every role of the bot.
    RoleAboveBot,
    /// The chosen role is the one that every member holds.
    RoleIsEveryone,
    /// The form held a component that is not one of its three text inputs.
    UnrecognizedField,
    /// The form came without a server name.
    NameMissing,
    /// The link to the society's page is no URL.
    BadSusuLink,
    /// The form came without an invite link.
    InviteMissing,
    /// The invite link is no URL.
    BadInviteLink,
    /// The backend did not take the registration.
    NotRegistered(RegisterError),
    /// The backend took the registration but did not store it.
    NotSaved,
}

/// What the one who ran the setup is told at its end.
#[derive(Clone, Copy, Debug, PartialEq, Eq, Structural)]
pub enum SetupMessage {
    /// The guild is set up and approved.
    Ready,
    /// The guild is set up; its registration awaits approval.
    AwaitingApproval,
}

/// The text of the URL that `reqwest::Url::parse` makes of `text`, or `None` where it takes
/// `text` for no absolute URL.
pub uninterp spec fn parsed_url(text: Seq<char>) -> Option<Seq<char>>;

/// `reqwest::Url::parse`, which is the parser of the `url` crate, followed by `String::from`
/// on the parsed URL: the URL written out in its normal form, or `None` where the parser
/// refuses the input. Nothing is claimed of which texts are URLs or what their normal form
/// is, only that the answer depends on the text alone.
#[verifier::external_body]
fn parse_url(text: &str) -> (url: Option<String>)
    ensures
        match url {
            Some(normal) => parsed_url(text@) == Some(normal@),
            None => parsed_url(text@) is None,
        },
{
    Url::parse(text).ok().map(String::from)
}

/// Whether permissions with the bits `bits` allow to manage roles: whether the bit for it
/// is set.
pub open spec fn may_manage_roles(bits: u64) -> bool {
    bits & 0x1000_0000 != 0
}

/// `Permissions::manage_roles` of `serenity`, on the permissions that
/// `Permissions::from_bits_retain` makes of `bits`: whether they contain
/// `Permissions::MANAGE_ROLES`, which is bit 28.
#[verifier::external_body]
fn manage_roles(bits: u64) -> (allowed: bool)
    ensures
        allowed == may_manage_roles(bits),
{
    Permissions::from_bits_retain(bits).manage_roles()
}

/// Whether `c` is white space: one of the characters that Unicode gives the property
/// `White_Space`.
pub open spec fn is_white_space(c: char) -> bool {
    let code: u32 = c as u32;
    ||| 0x09 <= code <= 0x0d
    ||| code == 0x20
    ||| code == 0x85
    ||| code == 0xa0
    ||| code == 0x1680
    ||| 0x2000 <= code <= 0x200a
    ||| code == 0x2028
    ||| code == 0x2029
    ||| code == 0x202f
    ||| code == 0x205f
    ||| code == 0x3000
}

/// Whether `text` is made of white space only, so that nothing is left of it once the
/// white space at its ends is trimmed away.
pub open spec fn is_blank(text: Seq<char>) -> bool {
    forall|i: int| 0 <= i < text.len() ==> is_white_space(#[trigger] text[i])
}

/// Whether `c` is white space.
fn white_space(c: char) -> (white: bool)
    ensures
        white == is_white_space(c),
{
    let code: u32 = c as u32;
    (0x09 <= code && code <= 0x0d) || code == 0x20 || code == 0x85 || code == 0xa0 || code
        == 0x1680 || (0x2000 <= code && code <= 0x200a) || code == 0x2028 || code == 0x2029
        || code == 0x202f || code == 0x205f || code == 0x3000
}

/// Whether `text` is made of white space only.
fn blank(text: &str) -> (blank: bool)
    ensures
        blank == is_blank(text@),
{
    let length: usize = text.unicode_len();
    let mut i: usize = 0;
    while i < length
        invariant
            i <= length,
            length == text@.len(),
            forall|j: int| 0 <= j < i ==> is_white_space(#[trigger] text@[j]),
        decreases length - i,
    {
        if !white_space(text.get_char(i)) {
            return false;
        }
        i += 1;
    }
    true
}

/// Whether some role of `roles` is held by the bot.
pub open spec fn bot_has_rank(bot_roles: Seq<u64>, roles: Seq<Role>) -> bool {
    exists|i: int| 0 <= i < roles.len() && bot_roles.contains((#[trigger] roles[i]).id)
}

/// Whether a role at `position` stands above the bot: the bot holds roles of the guild, and
/// every one of them stands lower.
pub open spec fn above_bot(bot_roles: Seq<u64>, roles: Seq<Role>, position: u16) -> bool {
    &&& bot_has_rank(bot_roles, roles)
    &&& forall|i: int|
        0 <= i < roles.len() && bot_roles.contains((#[trigger] roles[i]).id) ==> roles[i].position
            < position
}

/// The first role of `roles` with identifier `id`.
pub open spec fn find_role(roles: Seq<Role>, id: u64) -> Option<Role>
    decreases roles.len(),
{
    if roles.len() == 0 {
        None
    } else if roles[0].id == id {
        Some(roles[0])
    } else {
        find_role(roles.drop_first(), id)
    }
}

/// The role that marks verified members, or why the chosen one cannot be used.
///
/// The bot must be able to manage roles, as far as its permissions are known. The chosen role must be
/// a role of the guild, must not stand above the bot's own roles, and must not be the role
/// of everyone, whose identifier is the guild's own.
pub open spec fn verified_role(
    guild_id: u64,
    bot: BotMember,
    roles: Seq<Role>,
    chosen: Option<u64>,
) -> Result<Role, SetupError> {
    if bot.permissions is Some && !may_manage_roles(bot.permissions->0) {
        Err(SetupError::NeedManageRoles)
    } else {
        match chosen {
            None => Err(SetupError::NoRoleChosen),
            Some(id) => match find_role(roles, id) {
                None => Err(SetupError::UnknownRole),
                Some(role) => if above_bot(bot.roles@, roles, role.position) {
                    Err(SetupError::RoleAboveBot)
                } else if role.id == guild_id {
                    Err(SetupError::RoleIsEveryone)
                } else {
                    Ok(role)
                },
            },
        }
    }
}

/// Whether a role at `position` stands above the bot.
fn stands_above_bot(bot_roles: &Vec<u64>, roles: &Vec<Role>, position: u16) -> (above: bool)
    ensures
        above == above_bot(bot_roles@, roles@, position),
{
    let mut ranked = false;
    let mut i: usize = 0;
    while i < roles.len()
        invariant
            i <= roles.len(),
            ranked == bot_has_rank(bot_roles@, roles@.take(i as int)),
            forall|j: int|
                0 <= j < i && bot_roles@.contains((#[trigger] roles@[j]).id) ==> roles@[j].position
                    < position,
        decreases roles.len() - i,
    {
        if has_role(bot_roles, roles[i].id) {
            if roles[i].position >= position {
                return false;
            }
            ranked = true;
            assert(roles@.take(i + 1)[i as int] == roles@[i as int]);
        } else {
            proof {
                let longer = roles@.take(i + 1);
                let shorter = roles@.take(i as int);
                if bot_has_rank(bot_roles@, longer) {
                    let k = choose|k: int|
                        0 <= k < longer.len() && bot_roles@.contains((#[trigger] longer[k]).id);
                    assert(shorter[k] == longer[k]);
                }
            }
        }
        proof {
            let longer = roles@.take(i + 1);
            let shorter = roles@.take(i as int);
            if bot_has_rank(bot_roles@, shorter) {
                let k = choose|k: int|
                    0 <= k < shorter.len() && bot_roles@.contains((#[trigger] shorter[k]).id);
                assert(longer[k] == shorter[k]);
            }
        }
        i += 1;
    }
    assert(roles@.take(i as int) =~= roles@);
    ranked
}

/// The first role of `roles` with identifier `id`, as its place in `roles`.
fn position_of(roles: &Vec<Role>, id: u64) -> (place: Option<usize>)
    ensures
        match place {
            Some(i) => i < roles.len() && find_role(roles@, id) == Some(roles@[i as int]),
            None => find_role(roles@, id) is None,
        },
{
    let mut i: usize = 0;
    assert(roles@.skip(0) =~= roles@);
    while i < roles.len()
        invariant
            i <= roles.len(),
            find_role(roles@, id) == find_role(roles@.skip(i as int), id),
        decreases roles.len() - i,
    {
        assert(roles@.skip(i as int)[0] == roles@[i as int]);
        if roles[i].id == id {
            return Some(i);
        }
        assert(roles@.skip(i as int).drop_first() =~= roles@.skip(i + 1));
        i += 1;
    }
    None
}

/// Decides which role marks the verified members of guild `guild_id`: the one chosen with
/// the command, if the bot is able to hand it out.
pub fn get_verified_role(
    guild_id: u64,
    bot: &BotMember,
    roles: &Vec<Role>,
    chosen: Option<u64>,
) -> (outcome: Result<Role, SetupError>)
    ensures
        outcome == verified_role(guild_id, *bot, roles@, chosen),
{
    match bot.permissions {
        Some(bits) => {
            if !manage_roles(bits) {
                return Err(SetupError::NeedManageRoles);
            }
        },
        None => {},
    }
    let id = match chosen {
        Some(id) => id,
        None => {
            return Err(SetupError::NoRoleChosen);
        },
    };
    let place = match position_of(roles, id) {
        Some(place) => place,
        None => {
            return Err(SetupError::UnknownRole);
        },
    };
    let role = &roles[place];
    if stands_above_bot(&bot.roles, roles, role.position) {
        Err(SetupError::RoleAboveBot)
    } else if role.id == guild_id {
        Err(SetupError::RoleIsEveryone)
    } else {
        Ok(Role { id: role.id, name: role.name.clone(), position: role.position, colour: role.colour })
    }
}

/// Whether `field` is the text input with identifier `id`.
pub open spec fn is_input(field: ModalField, id: Seq<char>) -> bool {
    match field {
        ModalField::Text { custom_id, value } => custom_id@ == id,
        ModalField::Other => false,
    }
}

/// Whether `field` is one of the three inputs of the setup form.
pub open spec fn is_recognized(field: ModalField) -> bool {
    is_input(field, "name"@) || is_input(field, "susu"@) || is_input(field, "invite"@)
}

/// What was typed into the input `id`: the value of the last such input of the form.
pub open spec fn typed_into(fields: Seq<ModalField>, id: Seq<char>) -> Option<String>
    decreases fields.len(),
{
    if fields.len() == 0 {
        None
    } else if is_input(fields.last(), id) {
        match fields.last() {
            ModalField::Text { custom_id, value } => value,
            ModalField::Other => None,
        }
    } else {
        typed_into(fields.drop_last(), id)
    }
}

/// A link of the setup form, read.
#[derive(Debug, PartialEq, Eq)]
pub enum Link {
    /// Nothing was given.
    Absent,
    /// What was given is no URL.
    Malformed,
    /// The URL that was given, in its normal form.
    Url(String),
}

/// The mathematical content of a [`Link`].
pub enum LinkView {
    Absent,
    Malformed,
    Url(Seq<char>),
}

impl View for Link {
    type V = LinkView;

    open spec fn view(&self) -> LinkView {
        match *self {
            Link::Absent => LinkView::Absent,
            Link::Malformed => LinkView::Malformed,
            Link::Url(url) => LinkView::Url(url@),
        }
    }
}

/// The link that `typed` stands for.
pub open spec fn link_of(typed: Option<Seq<char>>) -> LinkView {
    match typed {
        None => LinkView::Absent,
        Some(text) => match parsed_url(text) {
            Some(url) => LinkView::Url(url),
            None => LinkView::Malformed,
        },
    }
}

/// What was typed into an optional input, where it is more than white space.
pub open spec fn unless_blank(typed: Option<String>) -> Option<Seq<char>> {
    match typed {
        Some(text) => if is_blank(text@) {
            None
        } else {
            Some(text@)
        },
        None => None,
    }
}

/// The registration that the values of a form make, or what is wrong with them.
///
/// The server name and the invite link are required, and the invite link must be a URL. The
/// link to the society's page may be left out; where it is given, it must be a URL.
pub open spec fn registration(
    name: Option<String>,
    susu: LinkView,
    invite: LinkView,
    verified: Role,
    guild: GuildProfile,
) -> Result<RegisterParamsView, SetupError> {
    match name {
        None => Err(SetupError::NameMissing),
        Some(name) => if susu is Malformed {
            Err(SetupError::BadSusuLink)
        } else {
            match invite {
                LinkView::Absent => Err(SetupError::InviteMissing),
                LinkView::Malformed => Err(SetupError::BadInviteLink),
                LinkView::Url(invite_link) => Ok(
                    RegisterParamsView {
                        guild_id: guild.id,
                        name: name@,
                        icon: text_of(guild.icon),
                        created_at: guild.created_at@,
                        owner_id: guild.owner_id,
                        susu_link: match susu {
                            LinkView::Url(url) => Some(url),
                            _ => None,
                        },
                        invite_link,
                        role_id: verified.id,
                        role_name: verified.name@,
                        role_colour: verified.colour,
                    },
                ),
            }
        },
    }
}

/// What the submitted form amounts to: the registration to send, or what is wrong with the
/// form.
///
/// Every component must be one of the three inputs. A link to the society's page that is
/// blank counts as left out. Links are sent in their normal form.
pub open spec fn form_outcome(fields: Seq<ModalField>, verified: Role, guild: GuildProfile) -> Result<
    RegisterParamsView,
    SetupError,
> {
    if exists|i: int| 0 <= i < fields.len() && !is_recognized(#[trigger] fields[i]) {
        Err(SetupError::UnrecognizedField)
    } else {
        registration(
            typed_into(fields, "name"@),
            link_of(unless_blank(typed_into(fields, "susu"@))),
            link_of(text_of(typed_into(fields, "invite"@))),
            verified,
            guild,
        )
    }
}

/// A copy of what was typed into an input.
fn copy_of(value: &Option<String>) -> (copy: Option<String>)
    ensures
        copy == *value,
{
    match value {
        Some(text) => Some(text.clone()),
        None => None,
    }
}

/// Reads a link.
fn read_link(text: &str) -> (link: Link)
    ensures
        link@ == link_of(Some(text@)),
{
    match parse_url(text) {
        Some(url) => Link::Url(url),
        None => Link::Malformed,
    }
}

/// Puts a registration together from the values of the setup form, the links already read.
pub fn assemble(
    name: Option<String>,
    susu: Link,
    invite: Link,
    verified: Role,
    guild: GuildProfile,
) -> (outcome: Result<RegisterParams, SetupError>)
    ensures
        match outcome {
            Ok(params) => registration(name, susu@, invite@, verified, guild) == Ok::<
                RegisterParamsView,
                SetupError,
            >(params@),
            Err(e) => registration(name, susu@, invite@, verified, guild) == Err::<
                RegisterParamsView,
                SetupError,
            >(e),
        },
{
    let name = match name {
        Some(name) => name,
        None => {
            return Err(SetupError::NameMissing);
        },
    };
    let susu_link = match susu {
        Link::Malformed => {
            return Err(SetupError::BadSusuLink);
        },
        Link::Url(url) => Some(url),
        Link::Absent => None,
    };
    let invite_link = match invite {
        Link::Absent => {
            return Err(SetupError::InviteMissing);
        },
        Link::Malformed => {
            return Err(SetupError::BadInviteLink);
        },
        Link::Url(url) => url,
    };
    Ok(
        RegisterParams {
            guild_id: guild.id,
            name,
            icon: guild.icon,
            created_at: guild.created_at,
            owner_id: guild.owner_id,
            susu_link,
            invite_link,
            role_id: verified.id,
            role_name: verified.name,
            role_colour: verified.colour,
        },
    )
}

/// Reads the submitted setup form and puts the registration together.
pub fn modal_response(fields: &Vec<ModalField>, verified: Role, guild: GuildProfile) -> (outcome:
    Result<RegisterParams, SetupError>)
    ensures
        match outcome {
            Ok(params) => form_outcome(fields@, verified, guild) == Ok::<
                RegisterParamsView,
                SetupError,
            >(params@),
            Err(e) => form_outcome(fields@, verified, guild) == Err::<RegisterParamsView, SetupError>(e),
        },
{
    let mut name: Option<String> = None;
    let mut susu: Option<String> = None;
    let mut invite: Option<String> = None;
    let mut i: usize = 0;
    while i < fields.len()
        invariant
            i <= fields.len(),
            forall|j: int| 0 <= j < i ==> is_recognized(#[trigger] fields@[j]),
            name == typed_into(fields@.take(i as int), "name"@),
            susu == typed_into(fields@.take(i as int), "susu"@),
            invite == typed_into(fields@.take(i as int), "invite"@),
        decreases fields.len() - i,
    {
        proof {
            reveal_strlit("name");
            reveal_strlit("susu");
            reveal_strlit("invite");
            assert(fields@.take(i + 1).drop_last() =~= fields@.take(i as int));
            assert(fields@.take(i + 1).last() == fields@[i as int]);
            assert("name"@ != "susu"@) by {
                assert("name"@[0] != "susu"@[0]);
            }
            assert("name"@ != "invite"@) by {
                assert("name"@.len() != "invite"@.len());
            }
            assert("susu"@ != "invite"@) by {
                assert("susu"@.len() != "invite"@.len());
            }
        }
        match &fields[i] {
            ModalField::Text { custom_id, value } => {
                if same_text(custom_id.as_str(), "name") {
                    name = copy_of(value);
                } else if same_text(custom_id.as_str(), "susu") {
                    susu = copy_of(value);
                } else if same_text(custom_id.as_str(), "invite") {
                    invite = copy_of(value);
                } else {
                    assert(!is_recognized(fields@[i as int]));
                    return Err(SetupError::UnrecognizedField);
                }
            },
            ModalField::Other => {
                assert(!is_recognized(fields@[i as int]));
                return Err(SetupError::UnrecognizedField);
            },
        }
        i += 1;
    }
    assert(fields@.take(i as int) =~= fields@);
    let susu = match &susu {
        Some(text) => if blank(text.as_str()) {
            Link::Absent
        } else {
            read_link(text.as_str())
        },
        None => Link::Absent,
    };
    let invite = match &invite {
        Some(text) => read_link(text.as_str()),
        None => Link::Absent,
    };
    assemble(name, susu, invite, verified, guild)
}

/// What the backend's answer to the registration means for the one who ran the setup.
pub open spec fn setup_outcome(registration: Result<Register, RegisterError>) -> Result<
    SetupMessage,
    SetupError,
> {
    match registration {
        Err(e) => Err(SetupError::NotRegistered(e)),
        Ok(answer) => if !answer.registered {
            Err(SetupError::NotSaved)
        } else if answer.approved {
            Ok(SetupMessage::Ready)
        } else {
            Ok(SetupMessage::AwaitingApproval)
        },
    }
}

/// Ends a setup: decides what the one who ran it is told, and, where the guild is now set
/// up, forgets the guild's cached role, which the setup may have changed.
pub fn setup(
    client: &mut VerificationClient,
    guild_id: u64,
    registration: Result<Register, RegisterError>,
) -> (outcome: Result<SetupMessage, SetupError>)
    ensures
        outcome == setup_outcome(registration),
        final(client)@.verified == old(client)@.verified,
        final(client)@.roles == if outcome is Ok {
            old(client)@.roles.invalidate(guild_id)
        } else {
            old(client)@.roles
        },
{
    match registration {
        Err(e) => Err(SetupError::NotRegistered(e)),
        Ok(answer) => {
            if !answer.registered {
                Err(SetupError::NotSaved)
            } else {
                client.forget_role(guild_id);
                if answer.approved {
                    Ok(SetupMessage::Ready)
                } else {
                    Ok(SetupMessage::AwaitingApproval)
                }
            }
        },
    }
}

} // verus!
