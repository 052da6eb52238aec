use verify_bot::commands::api::{
    get_role_id, is_verified, register_guild, BackendError, CheckError, ErrorKind, Guild, Register,
    RegisterError, Reply, RoleError, VerificationClient, Verified,
};

fn answered<B>(status: u16, body: Option<B>, text: &str) -> Reply<B> {
    Reply::Answered { status, body, text: text.to_string() }
}

#[test]
fn confirmed_user_is_verified_and_remembered() {
    let mut client = VerificationClient::new(10, 10);
    let reply = answered(200, Some(Verified { verified: true, role_id: 5 }), "");
    assert_eq!(is_verified(&mut client, 1, reply, 100), Ok(5));
    assert_eq!(client.cached_verification(1, 105), Some(5));
    assert_eq!(client.cached_verification(1, 111), None);
    assert_eq!(client.cached_role(2, 105), None);
}

#[test]
fn unconfirmed_user_is_not_verified() {
    let mut client = VerificationClient::new(10, 10);
    let reply = answered(200, Some(Verified { verified: false, role_id: 5 }), "");
    assert_eq!(is_verified(&mut client, 1, reply, 100), Err(CheckError::NotVerified));
    assert_eq!(client.cached_verification(1, 100), None);
}

#[test]
fn unknown_user_is_not_verified() {
    let mut client = VerificationClient::new(10, 10);
    assert_eq!(
        is_verified(&mut client, 1, answered(404, None, "nope"), 100),
        Err(CheckError::NotVerified)
    );
    assert_eq!(client.cached_verification(1, 100), None);
}

#[test]
fn check_failures_carry_status_and_body() {
    let mut client = VerificationClient::new(10, 10);
    assert_eq!(
        is_verified(&mut client, 1, answered(401, None, "x"), 100),
        Err(CheckError::Backend(BackendError::IncorrectAuth))
    );
    assert_eq!(
        is_verified(&mut client, 1, answered(400, None, "bad user"), 100),
        Err(CheckError::Backend(BackendError::InvalidParams { text: "bad user".to_string() }))
    );
    assert_eq!(
        is_verified(&mut client, 1, answered(503, None, "down"), 100),
        Err(CheckError::Backend(BackendError::Unknown { status: 503, text: "down".to_string() }))
    );
    assert_eq!(
        is_verified(&mut client, 1, answered(204, None, ""), 100),
        Err(CheckError::Backend(BackendError::Unknown { status: 204, text: String::new() }))
    );
    assert_eq!(
        is_verified(&mut client, 1, answered(200, None, "{"), 100),
        Err(CheckError::Backend(BackendError::Malformed { text: "{".to_string() }))
    );
    assert_eq!(
        is_verified(&mut client, 1, Reply::Unreachable, 100),
        Err(CheckError::Backend(BackendError::Unreachable))
    );
    assert_eq!(client.cached_verification(1, 100), None);
}

#[test]
fn body_of_another_status_is_not_read() {
    let mut client = VerificationClient::new(10, 10);
    let reply = answered(404, Some(Verified { verified: true, role_id: 5 }), "");
    assert_eq!(is_verified(&mut client, 1, reply, 100), Err(CheckError::NotVerified));
    let reply = answered(500, Some(Guild { role_id: 5, approved: true }), "");
    assert_eq!(
        get_role_id(&mut client, 2, reply, 100),
        Err(RoleError::Backend(BackendError::Unknown { status: 500, text: String::new() }))
    );
    assert_eq!(client.cached_role(2, 100), None);
}

#[test]
fn approved_guild_yields_its_role_and_is_cached() {
    let mut client = VerificationClient::new(10, 20);
    let reply = answered(200, Some(Guild { role_id: 9, approved: true }), "");
    assert_eq!(get_role_id(&mut client, 2, reply, 100), Ok(9));
    assert_eq!(client.cached_role(2, 110), Some(9));
    assert_eq!(client.cached_role(2, 111), None);
    assert_eq!(client.cached_role(3, 100), None);
    assert_eq!(client.cached_verification(2, 100), None);
}

#[test]
fn unapproved_guild_gets_no_role() {
    let mut client = VerificationClient::new(10, 10);
    let reply = answered(200, Some(Guild { role_id: 9, approved: false }), "");
    assert_eq!(get_role_id(&mut client, 2, reply, 100), Err(RoleError::NotApproved));
    assert_eq!(client.cached_role(2, 100), None);
}

#[test]
fn unknown_guild_is_not_configured() {
    let mut client = VerificationClient::new(10, 10);
    assert_eq!(
        get_role_id(&mut client, 2, answered(404, None, ""), 100),
        Err(RoleError::NotConfigured)
    );
}

#[test]
fn role_failures_carry_status_and_body() {
    let mut client = VerificationClient::new(10, 10);
    assert_eq!(
        get_role_id(&mut client, 2, answered(401, None, ""), 100),
        Err(RoleError::Backend(BackendError::IncorrectAuth))
    );
    assert_eq!(
        get_role_id(&mut client, 2, answered(400, None, "bad"), 100),
        Err(RoleError::Backend(BackendError::InvalidParams { text: "bad".to_string() }))
    );
    assert_eq!(
        get_role_id(&mut client, 2, answered(200, None, "?"), 100),
        Err(RoleError::Backend(BackendError::Malformed { text: "?".to_string() }))
    );
    assert_eq!(
        get_role_id(&mut client, 2, Reply::Unreachable, 100),
        Err(RoleError::Backend(BackendError::Unreachable))
    );
}

#[test]
fn failed_lookup_keeps_the_cached_role() {
    let mut client = VerificationClient::new(10, 10);
    let reply = answered(200, Some(Guild { role_id: 9, approved: true }), "");
    assert_eq!(get_role_id(&mut client, 2, reply, 100), Ok(9));
    assert_eq!(
        get_role_id(&mut client, 2, answered(404, None, ""), 101),
        Err(RoleError::NotConfigured)
    );
    assert_eq!(client.cached_role(2, 105), Some(9));
}

#[test]
fn forgotten_role_must_be_asked_for_again() {
    let mut client = VerificationClient::new(1000, 10);
    let reply = answered(200, Some(Guild { role_id: 9, approved: true }), "");
    assert_eq!(get_role_id(&mut client, 2, reply, 100), Ok(9));
    client.forget_role(2);
    assert_eq!(client.cached_role(2, 100), None);
}

#[test]
fn registration_answers() {
    let taken = Register { registered: true, approved: false };
    assert_eq!(register_guild(answered(200, Some(taken), "")), Ok(taken));
    assert_eq!(
        register_guild(answered(409, None, "")),
        Err(RegisterError::AlreadyRegistered)
    );
    assert_eq!(
        register_guild(answered(401, None, "")),
        Err(RegisterError::Backend(BackendError::IncorrectAuth))
    );
    assert_eq!(
        register_guild(answered(400, None, "no name")),
        Err(RegisterError::Backend(BackendError::InvalidParams { text: "no name".to_string() }))
    );
    assert_eq!(
        register_guild(answered(404, None, "")),
        Err(RegisterError::Backend(BackendError::Unknown { status: 404, text: String::new() }))
    );
    assert_eq!(
        register_guild(answered(200, None, "x")),
        Err(RegisterError::Backend(BackendError::Malformed { text: "x".to_string() }))
    );
    assert_eq!(
        register_guild(Reply::Unreachable),
        Err(RegisterError::Backend(BackendError::Unreachable))
    );
}

#[test]
fn failures_fall_into_their_classes() {
    assert_eq!(BackendError::IncorrectAuth.kind(), ErrorKind::ConfigurationError);
    assert_eq!(
        BackendError::InvalidParams { text: String::new() }.kind(),
        ErrorKind::ConfigurationError
    );
    assert_eq!(BackendError::Unreachable.kind(), ErrorKind::TransientBackendError);
    assert_eq!(
        BackendError::Unknown { status: 500, text: String::new() }.kind(),
        ErrorKind::TransientBackendError
    );
    assert_eq!(
        BackendError::Malformed { text: String::new() }.kind(),
        ErrorKind::TransientBackendError
    );
    assert_eq!(CheckError::NotVerified.kind(), ErrorKind::ExpectedNegative);
    assert_eq!(
        CheckError::Backend(BackendError::IncorrectAuth).kind(),
        ErrorKind::ConfigurationError
    );
    assert_eq!(RoleError::NotConfigured.kind(), ErrorKind::ExpectedNegative);
    assert_eq!(RoleError::NotApproved.kind(), ErrorKind::ExpectedNegative);
    assert_eq!(
        RoleError::Backend(BackendError::Unreachable).kind(),
        ErrorKind::TransientBackendError
    );
}

#[test]
fn expected_negatives_are_not_logged() {
    assert!(!ErrorKind::ExpectedNegative.is_logged());
    assert!(ErrorKind::TransientBackendError.is_logged());
    assert!(ErrorKind::ConfigurationError.is_logged());
    assert!(ErrorKind::GatewayMutationError.is_logged());
}
