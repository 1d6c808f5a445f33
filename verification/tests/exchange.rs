use opaque_ke::ciphersuite::CipherSuite;
use opaque_ke::keypair::KeyPair;
use opaque_ke::{
    CredentialFinalization, CredentialRequest, RegistrationRequest, RegistrationUpload,
    ServerLogin, ServerLoginStartParameters, ServerRegistration,
};
use pake_registration::error::{Error, Expected, Received};
use pake_registration::messages::{
    OutboundMessage, PakeLoginResponse, PakeLoginResponseData, RegistrationResponseData,
    RegistrationResponseMessage, SessionInitializationInfo,
};
use pake_registration::primitives::{
    pake_login_finish, pake_login_start, pake_registration_finish, pake_registration_start,
    PUBLIC_KEY_LEN,
};
use pake_registration::protocol::{
    handle_registration_credential_response, handle_registration_response, RegistrationSession,
    Stage, Step,
};
use rand::rngs::OsRng;
use std::collections::HashMap;

struct Cipher;

impl CipherSuite for Cipher {
    type Group = curve25519_dalek::ristretto::RistrettoPoint;
    type KeyExchange = opaque_ke::key_exchange::tripledh::TripleDH;
    type Hash = sha2::Sha512;
    type SlowHash = opaque_ke::slow_hash::NoOpHash;
}

const PASSWORD: &str = "correct horse";

/// The service's side of the exchange, played with the real primitive.
struct Server {
    keypair: KeyPair<curve25519_dalek::ristretto::RistrettoPoint>,
    registration: Option<ServerRegistration<Cipher>>,
    login: Option<ServerLogin<Cipher>>,
}

impl Server {
    fn new() -> Self {
        Server { keypair: Cipher::generate_random_keypair(&mut OsRng), registration: None, login: None }
    }

    fn answer_registration_start(&mut self, request: &[u8]) -> Vec<u8> {
        let request = RegistrationRequest::<Cipher>::deserialize(request).unwrap();
        let started =
            ServerRegistration::<Cipher>::start(&mut OsRng, request, self.keypair.public()).unwrap();
        self.registration = Some(started.state);
        started.message.serialize()
    }

    fn answer_upload_and_credential_request(&mut self, upload: &[u8], request: &[u8]) -> Vec<u8> {
        let upload = RegistrationUpload::<Cipher>::deserialize(upload).unwrap();
        let password_file = self.registration.take().unwrap().finish(upload).unwrap();
        let request = CredentialRequest::<Cipher>::deserialize(request).unwrap();
        let started = ServerLogin::start(
            &mut OsRng,
            password_file,
            self.keypair.private(),
            request,
            ServerLoginStartParameters::default(),
        )
        .unwrap();
        self.login = Some(started.state);
        started.message.serialize().unwrap()
    }

    fn accept_finalization(&mut self, finalization: &[u8]) {
        let finalization = CredentialFinalization::<Cipher>::deserialize(finalization).unwrap();
        self.login.take().unwrap().finish(finalization).unwrap();
    }
}

fn info() -> SessionInitializationInfo {
    let mut info = HashMap::new();
    info.insert("device".to_string(), "ios".to_string());
    SessionInitializationInfo { info }
}

fn registration_response(bytes: Vec<u8>) -> Option<RegistrationResponseMessage> {
    Some(RegistrationResponseMessage {
        data: Some(RegistrationResponseData::PakeRegistrationResponse(bytes)),
    })
}

fn credential_response(bytes: Vec<u8>) -> Option<RegistrationResponseMessage> {
    Some(RegistrationResponseMessage {
        data: Some(RegistrationResponseData::PakeLoginResponse(PakeLoginResponse {
            data: Some(PakeLoginResponseData::PakeCredentialResponse(bytes)),
        })),
    })
}

fn access_token(token: &str) -> Option<RegistrationResponseMessage> {
    Some(RegistrationResponseMessage {
        data: Some(RegistrationResponseData::PakeLoginResponse(PakeLoginResponse {
            data: Some(PakeLoginResponseData::AccessToken(token.to_string())),
        })),
    })
}

fn unexpected(expected: Expected, received: Received) -> Step {
    Step::Fail(Error::UnexpectedResponse { expected, received })
}

fn begin(session: &mut RegistrationSession<Cipher>, password: &str) -> Step {
    session.begin(
        &mut OsRng,
        "u1".to_string(),
        "spk1".to_string(),
        password.to_string(),
        "alice".to_string(),
        info(),
    )
}

/// A session that has sent its first message, and the server's answer to it.
fn at_registration_response(server: &mut Server) -> (RegistrationSession<Cipher>, Vec<u8>) {
    let mut session = RegistrationSession::<Cipher>::new();
    match begin(&mut session, PASSWORD) {
        Step::Send(OutboundMessage::RegistrationStart { pake_registration_request, .. }) => {
            let answer = server.answer_registration_start(&pake_registration_request);
            (session, answer)
        }
        other => panic!("no registration start: {:?}", other),
    }
}

/// A session that has sent the combined message, and the server's answer to it.
fn at_login_response(server: &mut Server) -> (RegistrationSession<Cipher>, Vec<u8>) {
    let (mut session, answer) = at_registration_response(server);
    match session.on_message(registration_response(answer), &mut OsRng) {
        Step::Send(OutboundMessage::RegistrationUploadAndCredentialRequest {
            pake_registration_upload,
            pake_credential_request,
        }) => {
            let answer = server
                .answer_upload_and_credential_request(&pake_registration_upload, &pake_credential_request);
            (session, answer)
        }
        other => panic!("no combined message: {:?}", other),
    }
}

/// A session that has sent its finalization, which the server has accepted.
fn at_access_token(server: &mut Server) -> RegistrationSession<Cipher> {
    let (mut session, answer) = at_login_response(server);
    match session.on_message(credential_response(answer), &mut OsRng) {
        Step::Send(OutboundMessage::CredentialFinalization { pake_credential_finalization }) => {
            server.accept_finalization(&pake_credential_finalization);
            session
        }
        other => panic!("no finalization: {:?}", other),
    }
}

#[test]
fn full_exchange_yields_the_access_token() {
    let mut server = Server::new();
    let mut session = RegistrationSession::<Cipher>::new();
    assert_eq!(session.stage(), Stage::Start);
    assert_eq!((session.messages_sent(), session.messages_received()), (0, 0));

    let first = match begin(&mut session, PASSWORD) {
        Step::Send(OutboundMessage::RegistrationStart {
            user_id,
            signing_public_key,
            username,
            session_initialization_info,
            pake_registration_request,
        }) => {
            assert_eq!(user_id, "u1");
            assert_eq!(signing_public_key, "spk1");
            assert_eq!(username, "alice");
            assert_eq!(session_initialization_info, info());
            server.answer_registration_start(&pake_registration_request)
        }
        other => panic!("no registration start: {:?}", other),
    };
    assert_eq!(session.stage(), Stage::AwaitingRegistrationResponse);
    assert_eq!((session.messages_sent(), session.messages_received()), (1, 0));

    let second = match session.on_message(registration_response(first), &mut OsRng) {
        Step::Send(OutboundMessage::RegistrationUploadAndCredentialRequest {
            pake_registration_upload,
            pake_credential_request,
        }) => server
            .answer_upload_and_credential_request(&pake_registration_upload, &pake_credential_request),
        other => panic!("no combined message: {:?}", other),
    };
    assert_eq!(session.stage(), Stage::AwaitingLoginResponse);
    assert_eq!((session.messages_sent(), session.messages_received()), (2, 1));

    match session.on_message(credential_response(second), &mut OsRng) {
        Step::Send(OutboundMessage::CredentialFinalization { pake_credential_finalization }) => {
            server.accept_finalization(&pake_credential_finalization)
        }
        other => panic!("no finalization: {:?}", other),
    }
    assert_eq!(session.stage(), Stage::AwaitingAccessToken);
    assert_eq!((session.messages_sent(), session.messages_received()), (3, 2));

    let last = session.on_message(access_token("tok-abc"), &mut OsRng);
    assert_eq!(last, Step::Done("tok-abc".to_string()));
    assert_eq!(session.stage(), Stage::Succeeded);
    assert_eq!((session.messages_sent(), session.messages_received()), (3, 3));
}

#[test]
fn empty_password_fails_before_anything_is_sent() {
    let mut session = RegistrationSession::<Cipher>::new();
    assert_eq!(begin(&mut session, ""), Step::Fail(Error::CryptoFailure));
    assert_eq!(session.stage(), Stage::Failed);
    assert_eq!((session.messages_sent(), session.messages_received()), (0, 0));

    let started = pake_registration_start::<Cipher>(
        &mut OsRng,
        "u1".to_string(),
        "spk1".to_string(),
        "",
        "alice".to_string(),
        info(),
    );
    assert_eq!(started.err(), Some(Error::CryptoFailure));
    assert_eq!(pake_login_start::<Cipher>(&mut OsRng, "").err(), Some(Error::CryptoFailure));
}

#[test]
fn corrupt_registration_response_is_a_deserialization_failure() {
    let mut server = Server::new();
    let (mut session, _) = at_registration_response(&mut server);
    let step = session.on_message(registration_response(vec![1, 2, 3]), &mut OsRng);
    assert_eq!(step, Step::Fail(Error::DeserializationFailure));
    assert_eq!(session.stage(), Stage::Failed);
    assert_eq!((session.messages_sent(), session.messages_received()), (1, 1));
}

#[test]
fn corrupt_credential_response_is_a_deserialization_failure() {
    let mut server = Server::new();
    let (mut session, _) = at_login_response(&mut server);
    let step = session.on_message(credential_response(vec![0xff; 5]), &mut OsRng);
    assert_eq!(step, Step::Fail(Error::DeserializationFailure));
    assert_eq!(session.stage(), Stage::Failed);
    assert_eq!((session.messages_sent(), session.messages_received()), (2, 2));
}

#[test]
fn reflected_registration_request_is_a_crypto_failure() {
    let server = Server::new();
    let (_, state) = pake_registration_start::<Cipher>(
        &mut OsRng,
        "u1".to_string(),
        "spk1".to_string(),
        PASSWORD,
        "alice".to_string(),
        info(),
    )
    .unwrap();
    let (request, reflected_state) = match pake_registration_start::<Cipher>(
        &mut OsRng,
        "u1".to_string(),
        "spk1".to_string(),
        PASSWORD,
        "alice".to_string(),
        info(),
    ) {
        Ok((OutboundMessage::RegistrationStart { pake_registration_request, .. }, state)) => {
            (pake_registration_request, state)
        }
        _ => panic!("no registration start"),
    };
    let mut reflected = request.clone();
    reflected.extend_from_slice(server.keypair.public());
    assert_eq!(
        pake_registration_finish(&mut OsRng, &reflected, reflected_state),
        Err(Error::CryptoFailure)
    );
    assert!(pake_registration_finish(&mut OsRng, &reflected, state).is_ok());
}

#[test]
fn credential_response_for_another_login_is_a_crypto_failure() {
    let mut server = Server::new();
    let (_, answer) = at_login_response(&mut server);
    let (_, other_login) = pake_login_start::<Cipher>(&mut OsRng, PASSWORD).unwrap();
    assert_eq!(pake_login_finish(&answer, other_login), Err(Error::CryptoFailure));
}

#[test]
fn out_of_order_arrivals_are_rejected_at_every_stage() {
    let mut server = Server::new();
    let (mut session, _) = at_registration_response(&mut server);
    assert_eq!(
        session.on_message(access_token("tok-abc"), &mut OsRng),
        unexpected(Expected::RegistrationResponse, Received::AccessToken)
    );
    assert_eq!(session.stage(), Stage::Failed);
    assert_eq!((session.messages_sent(), session.messages_received()), (1, 1));

    let (mut session, answer) = at_registration_response(&mut server);
    assert_eq!(
        session.on_message(credential_response(answer), &mut OsRng),
        unexpected(Expected::RegistrationResponse, Received::LoginResponse)
    );

    let (mut session, _) = at_login_response(&mut server);
    assert_eq!(
        session.on_message(registration_response(vec![1]), &mut OsRng),
        unexpected(Expected::LoginResponse, Received::RegistrationResponse)
    );
    assert_eq!((session.messages_sent(), session.messages_received()), (2, 2));

    let (mut session, _) = at_login_response(&mut server);
    assert_eq!(
        session.on_message(access_token("tok-abc"), &mut OsRng),
        unexpected(Expected::LoginResponse, Received::AccessToken)
    );

    let mut session = at_access_token(&mut server);
    assert_eq!(
        session.on_message(credential_response(vec![1]), &mut OsRng),
        unexpected(Expected::AccessToken, Received::LoginResponse)
    );
    assert_eq!(session.stage(), Stage::Failed);
    assert_eq!((session.messages_sent(), session.messages_received()), (3, 3));
}

#[test]
fn closed_stream_is_unexpected_at_every_awaiting_stage() {
    let mut server = Server::new();
    let (mut session, _) = at_registration_response(&mut server);
    assert_eq!(
        session.on_message(None, &mut OsRng),
        unexpected(Expected::RegistrationResponse, Received::Nothing)
    );
    assert_eq!(session.stage(), Stage::Failed);
    assert_eq!((session.messages_sent(), session.messages_received()), (1, 0));

    let (mut session, _) = at_login_response(&mut server);
    assert_eq!(
        session.on_message(None, &mut OsRng),
        unexpected(Expected::LoginResponse, Received::Nothing)
    );
    assert_eq!((session.messages_sent(), session.messages_received()), (2, 1));

    let mut session = at_access_token(&mut server);
    assert_eq!(
        session.on_message(None, &mut OsRng),
        unexpected(Expected::AccessToken, Received::Nothing)
    );
    assert_eq!((session.messages_sent(), session.messages_received()), (3, 2));
}

#[test]
fn empty_payloads_are_unexpected() {
    let mut server = Server::new();
    let (mut session, _) = at_registration_response(&mut server);
    assert_eq!(
        session.on_message(Some(RegistrationResponseMessage { data: None }), &mut OsRng),
        unexpected(Expected::RegistrationResponse, Received::Empty)
    );
    let mut session = at_access_token(&mut server);
    let empty_login = Some(RegistrationResponseMessage {
        data: Some(RegistrationResponseData::PakeLoginResponse(PakeLoginResponse { data: None })),
    });
    assert_eq!(
        session.on_message(empty_login, &mut OsRng),
        unexpected(Expected::AccessToken, Received::Empty)
    );
}

#[test]
fn finished_session_takes_no_further_step() {
    let mut server = Server::new();
    let mut session = at_access_token(&mut server);
    assert_eq!(begin(&mut session, PASSWORD), Step::Idle);
    assert_eq!(session.stage(), Stage::AwaitingAccessToken);
    assert_eq!(session.on_message(access_token("tok-abc"), &mut OsRng), Step::Done("tok-abc".to_string()));
    assert_eq!(session.on_message(access_token("tok-abc"), &mut OsRng), Step::Idle);
    assert_eq!(session.on_message(None, &mut OsRng), Step::Idle);
    assert_eq!(session.stage(), Stage::Succeeded);
    assert_eq!((session.messages_sent(), session.messages_received()), (3, 3));

    let (mut failed, _) = at_registration_response(&mut server);
    assert_eq!(failed.on_message(None, &mut OsRng), unexpected(Expected::RegistrationResponse, Received::Nothing));
    assert_eq!(failed.on_message(registration_response(vec![1]), &mut OsRng), Step::Idle);
    assert_eq!((failed.messages_sent(), failed.messages_received()), (1, 0));
}

#[test]
fn fresh_session_waits_for_nothing() {
    let mut session = RegistrationSession::<Cipher>::new();
    assert_eq!(session.on_message(access_token("tok-abc"), &mut OsRng), Step::Idle);
    assert_eq!(session.stage(), Stage::Start);
    assert_eq!((session.messages_sent(), session.messages_received()), (0, 0));
}

#[test]
fn closed_transport_fails_the_attempt() {
    let mut server = Server::new();
    let (mut session, answer) = at_login_response(&mut server);
    assert_eq!(session.on_transport_closed(), Error::TransportClosed);
    assert_eq!(session.stage(), Stage::Failed);
    assert_eq!((session.messages_sent(), session.messages_received()), (2, 1));
    assert_eq!(session.on_message(credential_response(answer), &mut OsRng), Step::Idle);

    let mut done = at_access_token(&mut server);
    assert_eq!(done.on_message(access_token("t"), &mut OsRng), Step::Done("t".to_string()));
    assert_eq!(done.on_transport_closed(), Error::TransportClosed);
    assert_eq!(done.stage(), Stage::Succeeded);
}

#[test]
fn handlers_consume_state_and_produce_the_next_message() {
    let mut server = Server::new();
    let (request, state) = match pake_registration_start::<Cipher>(
        &mut OsRng,
        "u1".to_string(),
        "spk1".to_string(),
        PASSWORD,
        "alice".to_string(),
        info(),
    ) {
        Ok((OutboundMessage::RegistrationStart { pake_registration_request, .. }, state)) => {
            (pake_registration_request, state)
        }
        _ => panic!("no registration start"),
    };
    let answer = server.answer_registration_start(&request);
    let (message, login) =
        handle_registration_response(registration_response(answer), &mut OsRng, state, PASSWORD).unwrap();
    let answer = match message {
        OutboundMessage::RegistrationUploadAndCredentialRequest {
            pake_registration_upload,
            pake_credential_request,
        } => server
            .answer_upload_and_credential_request(&pake_registration_upload, &pake_credential_request),
        other => panic!("no combined message: {:?}", other),
    };
    match handle_registration_credential_response(credential_response(answer), login).unwrap() {
        OutboundMessage::CredentialFinalization { pake_credential_finalization } => {
            server.accept_finalization(&pake_credential_finalization)
        }
        other => panic!("no finalization: {:?}", other),
    }
}

#[test]
fn handlers_reject_what_their_stage_does_not_await() {
    let (_, state) = pake_registration_start::<Cipher>(
        &mut OsRng,
        "u1".to_string(),
        "spk1".to_string(),
        PASSWORD,
        "alice".to_string(),
        info(),
    )
    .unwrap();
    let rejected = handle_registration_response(access_token("tok-abc"), &mut OsRng, state, PASSWORD);
    assert_eq!(
        rejected.err(),
        Some(Error::UnexpectedResponse {
            expected: Expected::RegistrationResponse,
            received: Received::AccessToken,
        })
    );
    let (_, login) = pake_login_start::<Cipher>(&mut OsRng, PASSWORD).unwrap();
    assert_eq!(
        handle_registration_credential_response(None, login),
        Err(Error::UnexpectedResponse {
            expected: Expected::LoginResponse,
            received: Received::Nothing,
        })
    );
}

#[test]
fn empty_password_at_login_start_fails_the_combined_step() {
    let mut server = Server::new();
    let (request, state) = match pake_registration_start::<Cipher>(
        &mut OsRng,
        "u1".to_string(),
        "spk1".to_string(),
        PASSWORD,
        "alice".to_string(),
        info(),
    ) {
        Ok((OutboundMessage::RegistrationStart { pake_registration_request, .. }, state)) => {
            (pake_registration_request, state)
        }
        _ => panic!("no registration start"),
    };
    let answer = server.answer_registration_start(&request);
    let failed = handle_registration_response(registration_response(answer), &mut OsRng, state, "");
    assert_eq!(failed.err(), Some(Error::CryptoFailure));
}

#[test]
fn malformed_server_bytes_never_pass_for_a_response() {
    for len in 0usize..130 {
        for fill in [0x00u8, 0x5a, 0xff] {
            let bytes = vec![fill; len];
            let (_, state) = pake_registration_start::<Cipher>(
                &mut OsRng,
                "u1".to_string(),
                "spk1".to_string(),
                PASSWORD,
                "alice".to_string(),
                info(),
            )
            .unwrap();
            let finished = pake_registration_finish(&mut OsRng, &bytes, state);
            if len != 64 {
                assert_eq!(finished, Err(Error::DeserializationFailure));
            } else if let Err(e) = finished {
                assert!(e == Error::DeserializationFailure || e == Error::CryptoFailure);
            }

            let (_, login) = pake_login_start::<Cipher>(&mut OsRng, PASSWORD).unwrap();
            let finished = pake_login_finish(&bytes, login);
            if len < 64 {
                assert_eq!(finished, Err(Error::DeserializationFailure));
            } else {
                assert!(
                    finished == Err(Error::DeserializationFailure)
                        || finished == Err(Error::CryptoFailure)
                );
            }
        }
    }
}

#[test]
fn each_start_draws_fresh_randomness() {
    let first = pake_login_start::<Cipher>(&mut OsRng, PASSWORD).unwrap().0;
    let second = pake_login_start::<Cipher>(&mut OsRng, PASSWORD).unwrap().0;
    assert!(!first.is_empty());
    assert_ne!(first, second);
    assert_ne!(first, PASSWORD.as_bytes().to_vec());
}

#[test]
fn public_key_length_is_that_of_the_primitive() {
    let server = Server::new();
    assert_eq!(PUBLIC_KEY_LEN, 32);
    assert_eq!(server.keypair.public().len(), PUBLIC_KEY_LEN);
}

#[test]
fn bytes_shorter_than_a_public_key_are_no_response() {
    for len in [0usize, 1, 31] {
        let bytes = vec![7u8; len];
        let (_, state) = pake_registration_start::<Cipher>(
            &mut OsRng,
            "u1".to_string(),
            "spk1".to_string(),
            PASSWORD,
            "alice".to_string(),
            info(),
        )
        .unwrap();
        assert_eq!(
            pake_registration_finish(&mut OsRng, &bytes, state),
            Err(Error::DeserializationFailure)
        );
        let (_, login) = pake_login_start::<Cipher>(&mut OsRng, PASSWORD).unwrap();
        assert_eq!(pake_login_finish(&bytes, login), Err(Error::DeserializationFailure));
    }
}

#[test]
fn finish_steps_hand_out_what_the_server_accepts() {
    let mut server = Server::new();
    let (request, state) = match pake_registration_start::<Cipher>(
        &mut OsRng,
        "u1".to_string(),
        "spk1".to_string(),
        PASSWORD,
        "alice".to_string(),
        info(),
    ) {
        Ok((OutboundMessage::RegistrationStart { pake_registration_request, .. }, state)) => {
            (pake_registration_request, state)
        }
        _ => panic!("no registration start"),
    };
    let answer = server.answer_registration_start(&request);
    assert!(answer.len() >= PUBLIC_KEY_LEN);
    let upload = pake_registration_finish(&mut OsRng, &answer, state).unwrap();
    let (credential_request, login) = pake_login_start::<Cipher>(&mut OsRng, PASSWORD).unwrap();
    let answer = server.answer_upload_and_credential_request(&upload, &credential_request);
    assert!(answer.len() >= PUBLIC_KEY_LEN);
    let finalization = pake_login_finish(&answer, login).unwrap();
    server.accept_finalization(&finalization);
}
