use arke::command::{ArkeCommand, ArkeHello, CommandError};
use arke::connection::{
    check_incoming, outgoing_frame, Connection, ConnectionAction, ConnectionEvent,
    ConnectionFault, DecodeError, Phase,
};
use arke::crypto::{check_bundle, PrivateKey, PublicKey};
use arke::handler::{
    create_user, decide_registration, goodbye, hello, registration_reply, CommandHandler,
    Handler, HandlerOutcome, HandlerRegistry, NoHandler,
};
use arke::state::State;
use arke::user::{NewUser, User};
use openssl::ec::{EcGroup, EcKey};
use openssl::ecdsa::EcdsaSig;
use openssl::nid::Nid;

fn server_error(msg: &str) -> CommandError {
    CommandError::ServerError { msg: msg.to_string() }
}

fn invalid_command() -> HandlerOutcome {
    HandlerOutcome::Reply(ArkeCommand::Goodbye(Some(server_error("Invalid command"))))
}

fn signature_rejected() -> ArkeCommand {
    ArkeCommand::Error(CommandError::InvalidSignature { msg: "Prekey signature is invalid".to_string() })
}

/// A bundle whose prekey is signed by its identity key.
fn signed_bundle(username: &str) -> NewUser {
    let group = EcGroup::from_curve_name(Nid::X9_62_PRIME256V1).unwrap();
    let identity = EcKey::generate(&group).unwrap();
    let prekey = EcKey::generate(&group).unwrap();
    let prekey_pem = prekey.public_key_to_pem().unwrap();
    let signature = EcdsaSig::sign(&prekey_pem, &identity).unwrap();
    NewUser {
        username: username.to_string(),
        identity_key: PublicKey::from_bytes(identity.public_key_to_pem().unwrap()),
        signed_prekey: PublicKey::from_bytes(prekey_pem),
        prekey_signature: signature.to_der().unwrap(),
    }
}

fn persisted(bundle: &NewUser) -> HandlerOutcome {
    HandlerOutcome::Persist(User::from(bundle.clone()))
}

#[test]
fn hello_with_matching_version_completes_handshake() {
    let mut state = State::new("localhost");
    let out = hello(&mut state, ArkeCommand::Hello(ArkeHello { version: (0, 1, 7) }));
    assert_eq!(out, HandlerOutcome::Reply(ArkeCommand::Hello(ArkeHello { version: (0, 1, 0) })));
    assert!(state.handshake);
    assert_eq!(state.hostname, "localhost");
}

#[test]
fn hello_with_other_major_or_minor_is_refused() {
    let mismatch = HandlerOutcome::Reply(ArkeCommand::Goodbye(Some(server_error(
        "Server and client have a version mismatch!",
    ))));
    for version in [(1, 1, 0), (0, 2, 0), (0, 0, 0), (9, 9, 9)] {
        let mut state = State::new("localhost");
        let out = hello(&mut state, ArkeCommand::Hello(ArkeHello { version }));
        assert_eq!(out, mismatch);
        assert!(!state.handshake);
    }
}

#[test]
fn handlers_refuse_commands_they_do_not_serve() {
    let mut state = State::new("localhost");
    assert_eq!(hello(&mut state, ArkeCommand::Success), invalid_command());
    assert_eq!(goodbye(&mut state, ArkeCommand::Success), invalid_command());
    assert_eq!(create_user(&mut state, ArkeCommand::Goodbye(None)), invalid_command());
    assert!(!state.handshake);
}

#[test]
fn goodbye_is_answered_with_goodbye() {
    let mut state = State::new("localhost");
    let out = goodbye(&mut state, ArkeCommand::Goodbye(Some(CommandError::InvalidKey)));
    assert_eq!(out, HandlerOutcome::Reply(ArkeCommand::Goodbye(None)));
}

#[test]
fn unparsable_identity_key_is_invalid_key() {
    let mut bundle = signed_bundle("bob");
    bundle.identity_key = PublicKey::from_bytes(b"not a key".to_vec());
    assert_eq!(check_bundle(&bundle), (false, false));
    let mut state = State::new("localhost");
    let out = create_user(&mut state, ArkeCommand::CreateUser(bundle));
    assert_eq!(out, HandlerOutcome::Reply(ArkeCommand::Error(CommandError::InvalidKey)));
}

#[test]
fn bad_signature_is_invalid_signature() {
    let mut garbled = signed_bundle("carol");
    garbled.prekey_signature = vec![1, 2, 3];
    assert_eq!(check_bundle(&garbled), (true, false));
    let mut state = State::new("localhost");
    let out = create_user(&mut state, ArkeCommand::CreateUser(garbled));
    assert_eq!(out, HandlerOutcome::Reply(signature_rejected()));

    let other = signed_bundle("mallory");
    let mut forged = signed_bundle("carol");
    forged.prekey_signature = other.prekey_signature;
    assert_eq!(check_bundle(&forged), (true, false));
    let out = create_user(&mut state, ArkeCommand::CreateUser(forged));
    assert_eq!(out, HandlerOutcome::Reply(signature_rejected()));
}

#[test]
fn valid_bundle_is_handed_on_to_be_stored() {
    let bundle = signed_bundle("dave");
    assert_eq!(check_bundle(&bundle), (true, true));
    assert!(bundle.identity_key.ec_key().is_ok());
    let mut state = State::new("localhost");
    let out = create_user(&mut state, ArkeCommand::CreateUser(bundle.clone()));
    assert_eq!(out, persisted(&bundle));
    assert!(!state.handshake);
}

#[test]
fn registration_decision_follows_check_order() {
    let bundle = signed_bundle("erin");
    assert_eq!(
        decide_registration(bundle.clone(), false, true),
        HandlerOutcome::Reply(ArkeCommand::Error(CommandError::InvalidKey))
    );
    assert_eq!(
        decide_registration(bundle.clone(), false, false),
        HandlerOutcome::Reply(ArkeCommand::Error(CommandError::InvalidKey))
    );
    assert_eq!(
        decide_registration(bundle.clone(), true, false),
        HandlerOutcome::Reply(signature_rejected())
    );
    assert_eq!(decide_registration(bundle.clone(), true, true), persisted(&bundle));
}

#[test]
fn registration_reply_hides_storage_details() {
    assert_eq!(registration_reply(true), ArkeCommand::Success);
    assert_eq!(
        registration_reply(false),
        ArkeCommand::Error(server_error("Couldn't create new user!"))
    );
}

#[test]
fn standard_registry_routes_hello_create_user_goodbye() {
    let registry = HandlerRegistry::standard();
    let served: Vec<u8> = (0u8..8).filter(|d| registry.contains(*d)).collect();
    assert_eq!(served, vec![0, 1, 3]);
    assert_eq!(Handler::Hello.discriminant(), 0);
    assert_eq!(Handler::CreateUser.discriminant(), 1);
    assert_eq!(Handler::Goodbye.discriminant(), 3);
}

#[test]
fn dispatch_reaches_the_registered_handler() {
    let registry = HandlerRegistry::standard();
    let mut state = State::new("localhost");
    let out = registry.dispatch(&mut state, ArkeCommand::Hello(ArkeHello { version: (0, 1, 0) }));
    assert_eq!(out, Ok(HandlerOutcome::Reply(ArkeCommand::Hello(ArkeHello::default()))));
    assert!(state.handshake);
    let out = registry.dispatch(&mut state, ArkeCommand::Goodbye(None));
    assert_eq!(out, Ok(HandlerOutcome::Reply(ArkeCommand::Goodbye(None))));
}

#[test]
fn dispatch_without_handler_reports_it() {
    let registry = HandlerRegistry::standard();
    let mut state = State::new("localhost");
    for (command, d) in [
        (ArkeCommand::Success, 2u8),
        (ArkeCommand::Error(CommandError::InvalidKey), 4),
        (ArkeCommand::InsertPrekeys(vec![]), 5),
    ] {
        assert_eq!(registry.dispatch(&mut state, command), Err(NoHandler { discriminant: d }));
    }
    let empty = HandlerRegistry::new();
    let out = empty.dispatch(&mut state, ArkeCommand::Hello(ArkeHello::default()));
    assert_eq!(out, Err(NoHandler { discriminant: 0 }));
    assert!(!state.handshake);
}

#[test]
fn registering_files_a_handler_under_its_discriminant() {
    let mut registry = HandlerRegistry::new();
    assert!(!registry.contains(3));
    registry.register(Handler::Goodbye);
    assert!(registry.contains(3));
    assert!(!registry.contains(0));
    let mut state = State::new("localhost");
    assert_eq!(
        registry.dispatch(&mut state, ArkeCommand::Goodbye(None)),
        Ok(HandlerOutcome::Reply(ArkeCommand::Goodbye(None)))
    );
}

#[test]
fn undecodable_message_gets_goodbye_then_close() {
    let registry = HandlerRegistry::standard();
    for error in [DecodeError::Empty, DecodeError::Malformed] {
        let mut conn = Connection::new("localhost");
        let action = conn.step(&registry, ConnectionEvent::Received(Err(error)));
        assert_eq!(action, ConnectionAction::SendAndClose(ArkeCommand::Goodbye(None)));
        assert_eq!(conn.phase, Phase::Closed);
    }
}

#[test]
fn empty_read_is_a_decode_error() {
    assert_eq!(check_incoming(&[]), Err(DecodeError::Empty));
    assert_eq!(check_incoming(b"{}"), Ok(()));
}

#[test]
fn outgoing_frames_end_with_newline() {
    assert_eq!(outgoing_frame(b"{\"type\":\"Success\"}".to_vec()), b"{\"type\":\"Success\"}\n".to_vec());
    assert_eq!(outgoing_frame(vec![]), vec![10]);
}

#[test]
fn connection_handshake_then_goodbye() {
    let registry = HandlerRegistry::standard();
    let mut conn = Connection::new("localhost");
    assert_eq!(conn.phase, Phase::Reading);
    let action = conn.step(
        &registry,
        ConnectionEvent::Received(Ok(ArkeCommand::Hello(ArkeHello { version: (0, 1, 3) }))),
    );
    assert_eq!(action, ConnectionAction::Send(ArkeCommand::Hello(ArkeHello::default())));
    assert!(conn.state.handshake);
    assert_eq!(conn.phase, Phase::Reading);
    let action = conn.step(&registry, ConnectionEvent::Received(Ok(ArkeCommand::Goodbye(None))));
    assert_eq!(action, ConnectionAction::SendAndClose(ArkeCommand::Goodbye(None)));
    assert_eq!(conn.phase, Phase::Closed);
}

#[test]
fn version_mismatch_closes_the_connection() {
    let registry = HandlerRegistry::standard();
    let mut conn = Connection::new("localhost");
    let action = conn.step(
        &registry,
        ConnectionEvent::Received(Ok(ArkeCommand::Hello(ArkeHello { version: (2, 0, 0) }))),
    );
    assert_eq!(
        action,
        ConnectionAction::SendAndClose(ArkeCommand::Goodbye(Some(server_error(
            "Server and client have a version mismatch!"
        ))))
    );
    assert!(!conn.state.handshake);
    assert_eq!(conn.phase, Phase::Closed);
}

#[test]
fn command_without_handler_aborts_the_connection() {
    let registry = HandlerRegistry::standard();
    let mut conn = Connection::new("localhost");
    let action = conn.step(&registry, ConnectionEvent::Received(Ok(ArkeCommand::Success)));
    assert_eq!(action, ConnectionAction::Abort(ConnectionFault::NoHandler(2)));
    assert_eq!(conn.phase, Phase::Closed);
}

#[test]
fn registration_stores_once_then_succeeds() {
    let registry = HandlerRegistry::standard();
    let mut conn = Connection::new("localhost");
    let bundle = signed_bundle("frank");
    let action =
        conn.step(&registry, ConnectionEvent::Received(Ok(ArkeCommand::CreateUser(bundle.clone()))));
    assert_eq!(action, ConnectionAction::Store(User::from(bundle)));
    assert_eq!(conn.phase, Phase::Storing);
    let action = conn.step(&registry, ConnectionEvent::Stored(true));
    assert_eq!(action, ConnectionAction::Send(ArkeCommand::Success));
    assert_eq!(conn.phase, Phase::Reading);
}

#[test]
fn storage_failure_is_a_generic_server_error() {
    let registry = HandlerRegistry::standard();
    let mut conn = Connection::new("localhost");
    let bundle = signed_bundle("grace");
    conn.step(&registry, ConnectionEvent::Received(Ok(ArkeCommand::CreateUser(bundle))));
    let action = conn.step(&registry, ConnectionEvent::Stored(false));
    assert_eq!(
        action,
        ConnectionAction::Send(ArkeCommand::Error(server_error("Couldn't create new user!")))
    );
    assert_eq!(conn.phase, Phase::Reading);
}

#[test]
fn rejected_registration_is_never_stored() {
    let registry = HandlerRegistry::standard();
    let mut conn = Connection::new("localhost");
    let mut bundle = signed_bundle("heidi");
    bundle.identity_key = PublicKey::from_bytes(vec![]);
    let action = conn.step(&registry, ConnectionEvent::Received(Ok(ArkeCommand::CreateUser(bundle))));
    assert_eq!(action, ConnectionAction::Send(ArkeCommand::Error(CommandError::InvalidKey)));
    assert_eq!(conn.phase, Phase::Reading);

    let mut bundle = signed_bundle("heidi");
    bundle.prekey_signature.reverse();
    let action = conn.step(&registry, ConnectionEvent::Received(Ok(ArkeCommand::CreateUser(bundle))));
    assert_eq!(action, ConnectionAction::Send(signature_rejected()));
    assert_eq!(conn.phase, Phase::Reading);
}

#[test]
fn events_out_of_turn_abort() {
    let registry = HandlerRegistry::standard();
    let mut conn = Connection::new("localhost");
    assert_eq!(
        conn.step(&registry, ConnectionEvent::Stored(true)),
        ConnectionAction::Abort(ConnectionFault::OutOfTurn)
    );
    assert_eq!(conn.phase, Phase::Closed);
    assert_eq!(
        conn.step(&registry, ConnectionEvent::Received(Ok(ArkeCommand::Goodbye(None)))),
        ConnectionAction::Abort(ConnectionFault::OutOfTurn)
    );
}

#[test]
fn transport_failure_aborts() {
    let registry = HandlerRegistry::standard();
    let mut conn = Connection::new("localhost");
    assert_eq!(
        conn.step(&registry, ConnectionEvent::TransportFailed),
        ConnectionAction::Abort(ConnectionFault::Transport)
    );
    assert_eq!(conn.phase, Phase::Closed);
}

#[test]
fn generating_a_key_pair_reports_openssl_failure() {
    // An Ed25519 key is not an elliptic-curve key in openssl's sense, so
    // taking it as one fails and the failure is returned.
    assert!(PrivateKey::generate().is_err());
}

#[test]
fn private_key_keeps_its_pem_bytes() {
    let k = PrivateKey::from_pem(vec![1, 2]);
    assert_eq!(k.as_bytes(), &[1, 2]);
}

#[test]
fn user_from_bundle_keeps_its_fields() {
    let bundle = signed_bundle("ivan");
    let user = User::from(bundle.clone());
    assert_eq!(user.username, bundle.username);
    assert_eq!(user.identity_key, bundle.identity_key);
    assert_eq!(user.signed_prekey, bundle.signed_prekey);
    assert_eq!(user.prekey_signature, bundle.prekey_signature);
    assert!(user.one_time_prekeys().is_empty());
}
