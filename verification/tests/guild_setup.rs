use verify_bot::commands::api::{
    BackendError, Register, RegisterError, RegisterParams, VerificationClient, Guild, Reply, get_role_id,
};
use verify_bot::commands::guild_setup::{
    assemble, get_verified_role, modal_response, setup, BotMember, GuildProfile, Link, ModalField,
    Role, SetupError, SetupMessage,
};

const GUILD: u64 = 500;

fn role(id: u64, position: u16) -> Role {
    Role { id, name: format!("role-{}", id), position, colour: 0x00ff00 }
}

fn roles() -> Vec<Role> {
    vec![role(GUILD, 0), role(1, 1), role(2, 5), role(3, 9), role(4, 5)]
}

const MANAGE_ROLES: u64 = 1 << 28;
const ADMINISTRATOR: u64 = 1 << 3;

fn bot(can_manage_roles: Option<bool>, held: Vec<u64>) -> BotMember {
    let permissions = can_manage_roles.map(|can| if can { MANAGE_ROLES | 1 } else { ADMINISTRATOR });
    BotMember { permissions, roles: held }
}

fn profile() -> GuildProfile {
    GuildProfile {
        id: GUILD,
        name: "Guild".to_string(),
        icon: Some("abc".to_string()),
        created_at: "2020-01-01T00:00:00.000Z".to_string(),
        owner_id: 42,
    }
}

fn text(custom_id: &str, value: Option<&str>) -> ModalField {
    ModalField::Text { custom_id: custom_id.to_string(), value: value.map(|v| v.to_string()) }
}

#[test]
fn usable_role_is_accepted() {
    let chosen = get_verified_role(GUILD, &bot(Some(true), vec![2]), &roles(), Some(1));
    assert_eq!(chosen, Ok(role(1, 1)));
}

#[test]
fn role_at_the_height_of_the_bot_is_accepted() {
    let chosen = get_verified_role(GUILD, &bot(Some(true), vec![1, 2]), &roles(), Some(4));
    assert_eq!(chosen, Ok(role(4, 5)));
}

#[test]
fn unknown_permissions_do_not_stop_the_setup() {
    let chosen = get_verified_role(GUILD, &bot(None, vec![2]), &roles(), Some(1));
    assert_eq!(chosen, Ok(role(1, 1)));
}

#[test]
fn bot_without_ranked_roles_may_use_any_role() {
    let chosen = get_verified_role(GUILD, &bot(Some(true), vec![]), &roles(), Some(3));
    assert_eq!(chosen, Ok(role(3, 9)));
    let chosen = get_verified_role(GUILD, &bot(Some(true), vec![77]), &roles(), Some(3));
    assert_eq!(chosen, Ok(role(3, 9)));
}

#[test]
fn bot_that_may_not_manage_roles_is_refused_first() {
    let chosen = get_verified_role(GUILD, &bot(Some(false), vec![2]), &roles(), None);
    assert_eq!(chosen, Err(SetupError::NeedManageRoles));
}

#[test]
fn missing_choice_is_refused() {
    let chosen = get_verified_role(GUILD, &bot(Some(true), vec![2]), &roles(), None);
    assert_eq!(chosen, Err(SetupError::NoRoleChosen));
}

#[test]
fn role_that_the_guild_lacks_is_refused() {
    let chosen = get_verified_role(GUILD, &bot(Some(true), vec![2]), &roles(), Some(99));
    assert_eq!(chosen, Err(SetupError::UnknownRole));
}

#[test]
fn role_above_the_bot_is_refused() {
    let chosen = get_verified_role(GUILD, &bot(Some(true), vec![1, 2]), &roles(), Some(3));
    assert_eq!(chosen, Err(SetupError::RoleAboveBot));
}

#[test]
fn role_of_everyone_is_refused() {
    let chosen = get_verified_role(GUILD, &bot(Some(true), vec![2]), &roles(), Some(GUILD));
    assert_eq!(chosen, Err(SetupError::RoleIsEveryone));
}

#[test]
fn first_role_with_the_chosen_identifier_is_taken() {
    let mut listed = roles();
    listed.push(role(1, 8));
    let chosen = get_verified_role(GUILD, &bot(Some(true), vec![2]), &listed, Some(1));
    assert_eq!(chosen, Ok(role(1, 1)));
}

#[test]
fn complete_form_becomes_a_registration() {
    let fields = vec![
        text("name", Some("My Guild")),
        text("invite", Some("HTTPS://Discord.GG/abc")),
        text("susu", Some("https://www.susu.org/groups/ecss")),
    ];
    let params = modal_response(&fields, role(1, 1), profile());
    assert_eq!(
        params,
        Ok(RegisterParams {
            guild_id: GUILD,
            name: "My Guild".to_string(),
            icon: Some("abc".to_string()),
            created_at: "2020-01-01T00:00:00.000Z".to_string(),
            owner_id: 42,
            susu_link: Some("https://www.susu.org/groups/ecss".to_string()),
            invite_link: "https://discord.gg/abc".to_string(),
            role_id: 1,
            role_name: "role-1".to_string(),
            role_colour: 0x00ff00,
        })
    );
}

#[test]
fn links_are_sent_in_their_normal_form() {
    let fields = vec![
        text("name", Some("n")),
        text("invite", Some("https://example.com")),
        text("susu", Some("http://EXAMPLE.org:80/a/../b")),
    ];
    let params = modal_response(&fields, role(1, 1), profile()).unwrap();
    assert_eq!(params.invite_link, "https://example.com/");
    assert_eq!(params.susu_link, Some("http://example.org/b".to_string()));
}

#[test]
fn blank_or_absent_society_link_is_left_out() {
    for susu in [Some("   "), Some(""), Some(" \t\n"), None] {
        let fields = vec![
            text("name", Some("n")),
            text("susu", susu),
            text("invite", Some("https://discord.gg/abc")),
        ];
        let params = modal_response(&fields, role(1, 1), profile()).unwrap();
        assert_eq!(params.susu_link, None);
    }
    let fields = vec![text("name", Some("n")), text("invite", Some("https://discord.gg/abc"))];
    let params = modal_response(&fields, role(1, 1), profile()).unwrap();
    assert_eq!(params.susu_link, None);
}

#[test]
fn society_link_that_is_no_url_is_refused() {
    let fields = vec![
        text("name", Some("n")),
        text("susu", Some("not a url")),
        text("invite", Some("https://discord.gg/abc")),
    ];
    assert_eq!(modal_response(&fields, role(1, 1), profile()), Err(SetupError::BadSusuLink));
    let fields = vec![text("name", Some("n")), text("susu", Some(" x "))];
    assert_eq!(modal_response(&fields, role(1, 1), profile()), Err(SetupError::BadSusuLink));
}

#[test]
fn form_without_a_name_is_refused() {
    let fields = vec![text("invite", Some("https://discord.gg/abc"))];
    assert_eq!(modal_response(&fields, role(1, 1), profile()), Err(SetupError::NameMissing));
    let fields = vec![text("name", None), text("invite", Some("https://discord.gg/abc"))];
    assert_eq!(modal_response(&fields, role(1, 1), profile()), Err(SetupError::NameMissing));
    assert_eq!(modal_response(&vec![], role(1, 1), profile()), Err(SetupError::NameMissing));
}

#[test]
fn form_without_an_invite_is_refused() {
    let fields = vec![text("name", Some("n"))];
    assert_eq!(modal_response(&fields, role(1, 1), profile()), Err(SetupError::InviteMissing));
}

#[test]
fn invite_that_is_no_url_is_refused() {
    let fields = vec![text("name", Some("n")), text("invite", Some("discord.gg/abc"))];
    assert_eq!(modal_response(&fields, role(1, 1), profile()), Err(SetupError::BadInviteLink));
    let fields = vec![text("name", Some("n")), text("invite", Some(""))];
    assert_eq!(modal_response(&fields, role(1, 1), profile()), Err(SetupError::BadInviteLink));
}

#[test]
fn unrecognized_component_is_refused_before_anything_else() {
    let fields = vec![text("invite", Some("nonsense")), text("colour", Some("red"))];
    assert_eq!(modal_response(&fields, role(1, 1), profile()), Err(SetupError::UnrecognizedField));
    let fields = vec![text("name", Some("n")), ModalField::Other];
    assert_eq!(modal_response(&fields, role(1, 1), profile()), Err(SetupError::UnrecognizedField));
    let fields = vec![text("Name", Some("n"))];
    assert_eq!(modal_response(&fields, role(1, 1), profile()), Err(SetupError::UnrecognizedField));
}

#[test]
fn last_input_of_a_kind_wins() {
    let fields = vec![
        text("name", Some("first")),
        text("invite", Some("https://discord.gg/abc")),
        text("name", Some("second")),
    ];
    let params = modal_response(&fields, role(1, 1), profile()).unwrap();
    assert_eq!(params.name, "second");
    let fields = vec![
        text("name", Some("first")),
        text("invite", Some("https://discord.gg/abc")),
        text("name", None),
    ];
    assert_eq!(modal_response(&fields, role(1, 1), profile()), Err(SetupError::NameMissing));
}

#[test]
fn setup_ends_by_what_the_backend_stored() {
    let mut client = VerificationClient::new(1000, 1000);
    assert_eq!(
        setup(&mut client, GUILD, Ok(Register { registered: true, approved: true })),
        Ok(SetupMessage::Ready)
    );
    assert_eq!(
        setup(&mut client, GUILD, Ok(Register { registered: true, approved: false })),
        Ok(SetupMessage::AwaitingApproval)
    );
    assert_eq!(
        setup(&mut client, GUILD, Ok(Register { registered: false, approved: true })),
        Err(SetupError::NotSaved)
    );
    assert_eq!(
        setup(&mut client, GUILD, Err(RegisterError::AlreadyRegistered)),
        Err(SetupError::NotRegistered(RegisterError::AlreadyRegistered))
    );
    assert_eq!(
        setup(&mut client, GUILD, Err(RegisterError::Backend(BackendError::Unreachable))),
        Err(SetupError::NotRegistered(RegisterError::Backend(BackendError::Unreachable)))
    );
}

#[test]
fn finished_setup_forgets_the_cached_role() {
    let mut client = VerificationClient::new(1000, 1000);
    let reply = Reply::Answered {
        status: 200,
        body: Some(Guild { role_id: 9, approved: true }),
        text: String::new(),
    };
    assert_eq!(get_role_id(&mut client, GUILD, reply.clone(), 0), Ok(9));
    assert_eq!(setup(&mut client, GUILD, Err(RegisterError::AlreadyRegistered)).is_err(), true);
    assert_eq!(client.cached_role(GUILD, 1), Some(9));
    assert_eq!(
        setup(&mut client, GUILD, Ok(Register { registered: false, approved: false })),
        Err(SetupError::NotSaved)
    );
    assert_eq!(client.cached_role(GUILD, 1), Some(9));
    assert_eq!(
        setup(&mut client, GUILD, Ok(Register { registered: true, approved: false })),
        Ok(SetupMessage::AwaitingApproval)
    );
    assert_eq!(client.cached_role(GUILD, 1), None);
}

#[test]
fn blank_means_white_space_as_the_standard_library_knows_it() {
    for code in 0..0x3100u32 {
        let c = match char::from_u32(code) {
            Some(c) => c,
            None => panic!("no character {}", code),
        };
        let typed = c.to_string();
        let fields = vec![
            text("name", Some("n")),
            text("susu", Some(&typed)),
            text("invite", Some("https://discord.gg/abc")),
        ];
        let outcome = modal_response(&fields, role(1, 1), profile());
        let left_out = matches!(&outcome, Ok(params) if params.susu_link.is_none());
        assert_eq!(left_out, c.is_whitespace(), "character {:#x}", code);
    }
}

#[test]
fn wide_and_unbroken_spaces_are_blank() {
    let fields = vec![
        text("name", Some("n")),
        text("susu", Some("\u{3000}\u{a0} \u{2003}\u{85}\r\n")),
        text("invite", Some("https://discord.gg/abc")),
    ];
    assert_eq!(modal_response(&fields, role(1, 1), profile()).unwrap().susu_link, None);
    let fields = vec![
        text("name", Some("n")),
        text("susu", Some("\u{200b}")),
        text("invite", Some("https://discord.gg/abc")),
    ];
    assert_eq!(modal_response(&fields, role(1, 1), profile()), Err(SetupError::BadSusuLink));
}

#[test]
fn registration_is_assembled_from_read_links() {
    let params = assemble(
        Some("n".to_string()),
        Link::Absent,
        Link::Url("https://discord.gg/abc".to_string()),
        role(2, 5),
        profile(),
    );
    assert_eq!(
        params,
        Ok(RegisterParams {
            guild_id: GUILD,
            name: "n".to_string(),
            icon: Some("abc".to_string()),
            created_at: "2020-01-01T00:00:00.000Z".to_string(),
            owner_id: 42,
            susu_link: None,
            invite_link: "https://discord.gg/abc".to_string(),
            role_id: 2,
            role_name: "role-2".to_string(),
            role_colour: 0x00ff00,
        })
    );
    let params = assemble(
        Some("n".to_string()),
        Link::Url("https://susu.org/".to_string()),
        Link::Url("https://discord.gg/abc".to_string()),
        role(2, 5),
        profile(),
    );
    assert_eq!(params.unwrap().susu_link, Some("https://susu.org/".to_string()));
}

#[test]
fn faults_of_a_form_are_named_in_order() {
    let url = || Link::Url("https://discord.gg/abc".to_string());
    assert_eq!(
        assemble(None, Link::Malformed, Link::Malformed, role(2, 5), profile()),
        Err(SetupError::NameMissing)
    );
    assert_eq!(
        assemble(Some("n".to_string()), Link::Malformed, Link::Absent, role(2, 5), profile()),
        Err(SetupError::BadSusuLink)
    );
    assert_eq!(
        assemble(Some("n".to_string()), url(), Link::Absent, role(2, 5), profile()),
        Err(SetupError::InviteMissing)
    );
    assert_eq!(
        assemble(Some("n".to_string()), Link::Absent, Link::Malformed, role(2, 5), profile()),
        Err(SetupError::BadInviteLink)
    );
}

#[test]
fn only_the_bit_for_managing_roles_counts() {
    for bits in [MANAGE_ROLES, u64::MAX, MANAGE_ROLES | ADMINISTRATOR, MANAGE_ROLES | (1 << 60)] {
        let member = BotMember { permissions: Some(bits), roles: vec![2] };
        assert_eq!(get_verified_role(GUILD, &member, &roles(), Some(1)), Ok(role(1, 1)));
    }
    for bits in [0, ADMINISTRATOR, !MANAGE_ROLES, 1 << 27, 1 << 29] {
        let member = BotMember { permissions: Some(bits), roles: vec![2] };
        assert_eq!(
            get_verified_role(GUILD, &member, &roles(), Some(1)),
            Err(SetupError::NeedManageRoles)
        );
    }
}
