//! The state machine of the exchange.
//!
//! The machine is strictly lock-step: it hands out one outbound message,
//! then waits for the one inbound message that answers it. Whoever drives
//! it sends what a step hands out and feeds back what the stream delivers;
//! `None` stands for a stream that has ended.

use vstd::prelude::*;
use opaque_ke::ciphersuite::CipherSuite;
use rand::rngs::OsRng;
use crate::error::{answers, Error, Expected, Received};
use crate::messages::{access_token_of, shape_of, unexpected};
use crate::messages::{expect_credential_response, expect_registration_response};
use crate::messages::{handle_registration_token_response, handle_unexpected_response};
use crate::messages::{introduces, wrap_credential_finalization};
use crate::messages::{wrap_upload_and_credential_request, OutboundMessage};
use crate::messages::{RegistrationResponseMessage, SessionInitializationInfo};
use crate::primitives::{pake_login_finish, pake_login_start};
use crate::primitives::{pake_registration_finish, pake_registration_start};
use crate::primitives::{LoginState, RegistrationState};

verus! {

/// Where an attempt stands.
#[derive(Clone, Copy, Debug, PartialEq, Eq, Structural)]
pub enum Stage {
    Start,
    AwaitingRegistrationResponse,
    AwaitingLoginResponse,
    AwaitingAccessToken,
    Succeeded,
    Failed,
}

/// What the driver of the machine has to do after a step.
#[derive(Debug, PartialEq, Eq)]
pub enum Step {
    /// Send this message, then feed back the next inbound message.
    Send(OutboundMessage),
    /// The exchange is complete: this is the access token.
    Done(String),
    /// The attempt is over; close the session.
    Fail(Error),
    /// The machine was not in a stage that the call applies to and has not moved.
    Idle,
}

/// What a session is, to its contracts.
pub struct SessionView {
    pub stage: Stage,
    /// Outbound messages handed out so far.
    pub sent: nat,
    /// Inbound messages taken in so far; a closed stream is not a message.
    pub received: nat,
    pub holds_registration_state: bool,
    pub holds_login_state: bool,
}

/// One registration attempt.
pub struct RegistrationSession<CS> {
    stage: Stage,
    sent: u8,
    received: u8,
    password: String,
    client_registration: Option<RegistrationState<CS>>,
    client_login: Option<LoginState<CS>>,
}

/// Whether the machine waits for an inbound message at `stage`.
pub open spec fn is_awaiting(stage: Stage) -> bool {
    stage == Stage::AwaitingRegistrationResponse || stage == Stage::AwaitingLoginResponse || stage
        == Stage::AwaitingAccessToken
}

/// The inbound variant that an awaiting stage waits for.
pub open spec fn expected_at(stage: Stage) -> Expected
    recommends
        is_awaiting(stage),
{
    match stage {
        Stage::AwaitingRegistrationResponse => Expected::RegistrationResponse,
        Stage::AwaitingLoginResponse => Expected::LoginResponse,
        _ => Expected::AccessToken,
    }
}

/// The stage that follows an awaiting stage once its answer has been handled.
pub open spec fn stage_after(stage: Stage) -> Stage
    recommends
        is_awaiting(stage),
{
    match stage {
        Stage::AwaitingRegistrationResponse => Stage::AwaitingLoginResponse,
        Stage::AwaitingLoginResponse => Stage::AwaitingAccessToken,
        _ => Stage::Succeeded,
    }
}

/// Whether `message` is the outbound message that leads into `stage`.
pub open spec fn leads_into(message: OutboundMessage, stage: Stage) -> bool {
    match stage {
        Stage::AwaitingRegistrationResponse => message is RegistrationStart,
        Stage::AwaitingLoginResponse => message is RegistrationUploadAndCredentialRequest,
        Stage::AwaitingAccessToken => message is CredentialFinalization,
        _ => false,
    }
}

/// The invariant of a session: the stage fixes how many messages have gone
/// each way and which cryptographic state, if any, is pending.
pub open spec fn well_formed(v: SessionView) -> bool {
    match v.stage {
        Stage::Start => v.sent == 0 && v.received == 0 && !v.holds_registration_state
            && !v.holds_login_state,
        Stage::AwaitingRegistrationResponse => v.sent == 1 && v.received == 0
            && v.holds_registration_state && !v.holds_login_state,
        Stage::AwaitingLoginResponse => v.sent == 2 && v.received == 1
            && !v.holds_registration_state && v.holds_login_state,
        Stage::AwaitingAccessToken => v.sent == 3 && v.received == 2 && !v.holds_registration_state
            && !v.holds_login_state,
        Stage::Succeeded => v.sent == 3 && v.received == 3 && !v.holds_registration_state
            && !v.holds_login_state,
        Stage::Failed => v.received <= v.sent <= 3 && !v.holds_registration_state
            && !v.holds_login_state,
    }
}

/// Handles what arrives while a registration response is awaited.
///
/// Anything but a registration response, a closed stream included, is
/// rejected as unexpected before the primitive is asked. On a registration
/// response, registration is finished and login begun back to back; what
/// comes out is the combined message with the login state, or the failure
/// of the step that failed first. The registration state is consumed
/// either way.
pub fn handle_registration_response<CS: CipherSuite>(
    message: Option<RegistrationResponseMessage>,
    client_rng: &mut OsRng,
    client_registration: RegistrationState<CS>,
    password: &str,
) -> (result: Result<(OutboundMessage, LoginState<CS>), Error>)
    ensures
        !answers(Expected::RegistrationResponse, shape_of(message)) ==> result is Err
            && result->Err_0 == unexpected(Expected::RegistrationResponse, message),
        answers(Expected::RegistrationResponse, shape_of(message)) ==> match result {
            Ok((request, _)) => request is RegistrationUploadAndCredentialRequest && password@.len()
                != 0,
            Err(e) => e == Error::DeserializationFailure || e == Error::CryptoFailure,
        },
{
    let registration_response_bytes = match expect_registration_response(message) {
        Ok(bytes) => bytes,
        Err(e) => {
            return Err(e);
        },
    };
    let pake_registration_upload = match pake_registration_finish(
        client_rng,
        &registration_response_bytes,
        client_registration,
    ) {
        Ok(bytes) => bytes,
        Err(e) => {
            return Err(e);
        },
    };
    match pake_login_start::<CS>(client_rng, password) {
        Ok((pake_credential_request, client_login)) => Ok(
            (
                wrap_upload_and_credential_request(pake_registration_upload, pake_credential_request),
                client_login,
            ),
        ),
        Err(e) => Err(e),
    }
}

/// Handles what arrives while a login response is awaited.
///
/// Anything but a credential response, a closed stream included, is
/// rejected as unexpected before the primitive is asked. On a credential
/// response, login is finished; what comes out is the finalization message
/// or the failure of the primitive. The login state is consumed either way.
pub fn handle_registration_credential_response<CS: CipherSuite>(
    message: Option<RegistrationResponseMessage>,
    client_login: LoginState<CS>,
) -> (result: Result<OutboundMessage, Error>)
    ensures
        !answers(Expected::LoginResponse, shape_of(message)) ==> result == Err::<
            OutboundMessage,
            Error,
        >(unexpected(Expected::LoginResponse, message)),
        answers(Expected::LoginResponse, shape_of(message)) ==> match result {
            Ok(request) => request is CredentialFinalization,
            Err(e) => e == Error::DeserializationFailure || e == Error::CryptoFailure,
        },
{
    let credential_response_bytes = match expect_credential_response(message) {
        Ok(bytes) => bytes,
        Err(e) => {
            return Err(e);
        },
    };
    match pake_login_finish(&credential_response_bytes, client_login) {
        Ok(bytes) => Ok(wrap_credential_finalization(bytes)),
        Err(e) => Err(e),
    }
}

/// The session that a failure at `pre` leaves behind: nothing more is
/// handed out, no cryptographic state is kept, and the arrival, if there
/// was one, has been taken in.
pub open spec fn failed_from(pre: SessionView, message: Option<RegistrationResponseMessage>) -> SessionView {
    SessionView {
        stage: Stage::Failed,
        sent: pre.sent,
        received: pre.received + arrivals(message),
        holds_registration_state: false,
        holds_login_state: false,
    }
}

/// How many messages an arrival is: a closed stream is none.
pub open spec fn arrivals(message: Option<RegistrationResponseMessage>) -> nat {
    if message is Some {
        1
    } else {
        0
    }
}

/// The first transition: from `pre`, asked to begin with this identity and
/// a password that is empty or not, the machine may answer `step` and
/// become `post`.
pub open spec fn begins(
    pre: SessionView,
    user_id: String,
    signing_public_key: String,
    username: String,
    session_initialization_info: SessionInitializationInfo,
    password_is_empty: bool,
    step: Step,
    post: SessionView,
) -> bool {
    if pre.stage != Stage::Start {
        step == Step::Idle && post == pre
    } else {
        match step {
            Step::Send(request) => !password_is_empty && introduces(
                request,
                user_id,
                signing_public_key,
                username,
                session_initialization_info,
            ) && post == (SessionView {
                stage: Stage::AwaitingRegistrationResponse,
                sent: pre.sent + 1,
                received: pre.received,
                holds_registration_state: true,
                holds_login_state: false,
            }),
            Step::Fail(e) => e == Error::CryptoFailure && post == failed_from(pre, None),
            _ => false,
        }
    }
}

/// The transitions on an arrival: from `pre`, given `message`, the machine
/// may answer `step` and become `post`.
///
/// Outside the awaiting stages nothing moves. An arrival that does not
/// answer the stage fails the attempt as unexpected. One that does leads to
/// the next outbound message and the next stage, or at the last stage to
/// the token it carries; at the two stages that ask the primitive, the
/// attempt may instead fail with `DeserializationFailure` or `CryptoFailure`.
pub open spec fn advances(
    pre: SessionView,
    message: Option<RegistrationResponseMessage>,
    step: Step,
    post: SessionView,
) -> bool {
    if !is_awaiting(pre.stage) {
        step == Step::Idle && post == pre
    } else if !answers(expected_at(pre.stage), shape_of(message)) {
        step == Step::Fail(unexpected(expected_at(pre.stage), message)) && post == failed_from(
            pre,
            message,
        )
    } else {
        match step {
            Step::Send(request) => pre.stage != Stage::AwaitingAccessToken && leads_into(
                request,
                stage_after(pre.stage),
            ) && post == (SessionView {
                stage: stage_after(pre.stage),
                sent: pre.sent + 1,
                received: pre.received + 1,
                holds_registration_state: false,
                holds_login_state: pre.stage == Stage::AwaitingRegistrationResponse,
            }),
            Step::Done(token) => pre.stage == Stage::AwaitingAccessToken && access_token_of(message)
                == Ok::<String, Error>(token) && post == (SessionView {
                stage: Stage::Succeeded,
                sent: pre.sent,
                received: pre.received + 1,
                holds_registration_state: false,
                holds_login_state: false,
            }),
            Step::Fail(e) => pre.stage != Stage::AwaitingAccessToken && (e
                == Error::DeserializationFailure || e == Error::CryptoFailure) && post
                == failed_from(pre, message),
            Step::Idle => false,
        }
    }
}

impl<CS: CipherSuite> RegistrationSession<CS> {
    /// The session as its contracts see it.
    pub closed spec fn view(&self) -> SessionView {
        SessionView {
            stage: self.stage,
            sent: self.sent as nat,
            received: self.received as nat,
            holds_registration_state: self.client_registration is Some,
            holds_login_state: self.client_login is Some,
        }
    }

    /// A fresh attempt: nothing sent, nothing received, no state pending.
    pub fn new() -> (session: Self)
        ensures
            session@.stage == Stage::Start,
            well_formed(session@),
    {
        RegistrationSession {
            stage: Stage::Start,
            sent: 0,
            received: 0,
            password: String::new(),
            client_registration: None,
            client_login: None,
        }
    }

    pub fn stage(&self) -> (stage: Stage)
        ensures
            stage == self@.stage,
    {
        self.stage
    }

    pub fn messages_sent(&self) -> (sent: u8)
        ensures
            sent == self@.sent,
    {
        self.sent
    }

    pub fn messages_received(&self) -> (received: u8)
        ensures
            received == self@.received,
    {
        self.received
    }

    /// Leaves `Start`: begins PAKE registration and hands out the first message.
    ///
    /// Outside `Start` nothing happens. From `Start`, an empty password
    /// fails the attempt with `CryptoFailure` and nothing is handed out;
    /// otherwise the primitive decides between the first message, which
    /// carries the identity and the session information as given, and
    /// `CryptoFailure`.
    pub fn begin(
        &mut self,
        client_rng: &mut OsRng,
        user_id: String,
        signing_public_key: String,
        password: String,
        username: String,
        session_initialization_info: SessionInitializationInfo,
    ) -> (step: Step)
        requires
            well_formed(old(self)@),
        ensures
            well_formed(final(self)@),
            begins(
                old(self)@,
                user_id,
                signing_public_key,
                username,
                session_initialization_info,
                password@.len() == 0,
                step,
                final(self)@,
            ),
    {
        if self.stage != Stage::Start {
            return Step::Idle;
        }
        match pake_registration_start::<CS>(
            client_rng,
            user_id,
            signing_public_key,
            password.as_str(),
            username,
            session_initialization_info,
        ) {
            Ok((request, client_registration)) => {
                self.stage = Stage::AwaitingRegistrationResponse;
                self.sent = 1;
                self.password = password;
                self.client_registration = Some(client_registration);
                Step::Send(request)
            },
            Err(e) => {
                self.stage = Stage::Failed;
                Step::Fail(e)
            },
        }
    }

    /// Takes in what the inbound stream delivered and moves the machine on.
    ///
    /// Outside the awaiting stages nothing happens. At an awaiting stage, an
    /// arrival that is not the awaited variant (a closed stream included)
    /// fails the attempt as unexpected, with what was awaited and what
    /// came, and nothing more is handed out. The awaited variant leads to one
    /// more outbound message and the next stage, or, at the last stage, to
    /// the access token it carries; where the primitive refuses, the
    /// attempt fails with `DeserializationFailure` or `CryptoFailure`.
    /// The pending cryptographic state is consumed in every case.
    pub fn on_message(
        &mut self,
        message: Option<RegistrationResponseMessage>,
        client_rng: &mut OsRng,
    ) -> (step: Step)
        requires
            well_formed(old(self)@),
        ensures
            well_formed(final(self)@),
            advances(old(self)@, message, step, final(self)@),
    {
        if self.stage != Stage::AwaitingRegistrationResponse && self.stage
            != Stage::AwaitingLoginResponse && self.stage != Stage::AwaitingAccessToken {
            return Step::Idle;
        }
        if message.is_some() {
            self.received = self.received + 1;
        }
        let client_registration = self.client_registration.take();
        let client_login = self.client_login.take();
        let handled = match self.stage {
            Stage::AwaitingRegistrationResponse => match client_registration {
                Some(state) => match handle_registration_response(
                    message,
                    client_rng,
                    state,
                    self.password.as_str(),
                ) {
                    Ok((request, client_login)) => {
                        self.client_login = Some(client_login);
                        Ok(Step::Send(request))
                    },
                    Err(e) => Err(e),
                },
                None => Err(handle_unexpected_response(Expected::RegistrationResponse, &message)),
            },
            Stage::AwaitingLoginResponse => match client_login {
                Some(state) => match handle_registration_credential_response(message, state) {
                    Ok(request) => Ok(Step::Send(request)),
                    Err(e) => Err(e),
                },
                None => Err(handle_unexpected_response(Expected::LoginResponse, &message)),
            },
            _ => match handle_registration_token_response(message) {
                Ok(token) => Ok(Step::Done(token)),
                Err(e) => Err(e),
            },
        };
        match handled {
            Ok(step) => {
                self.stage = Self::next_stage(self.stage);
                if self.stage != Stage::Succeeded {
                    self.sent = self.sent + 1;
                }
                step
            },
            Err(e) => {
                self.stage = Stage::Failed;
                Step::Fail(e)
            },
        }
    }

    /// Records that the transport no longer takes outbound messages: the
    /// attempt is over, whatever stage it was in, and any pending
    /// cryptographic state is dropped. A session that had already succeeded
    /// stays so.
    pub fn on_transport_closed(&mut self) -> (error: Error)
        requires
            well_formed(old(self)@),
        ensures
            well_formed(final(self)@),
            error == Error::TransportClosed,
            final(self)@.stage == (if old(self)@.stage == Stage::Succeeded {
                Stage::Succeeded
            } else {
                Stage::Failed
            }),
            final(self)@.sent == old(self)@.sent,
            final(self)@.received == old(self)@.received,
    {
        if self.stage != Stage::Succeeded {
            self.stage = Stage::Failed;
            self.client_registration = None;
            self.client_login = None;
        }
        Error::TransportClosed
    }

    fn next_stage(stage: Stage) -> (next: Stage)
        ensures
            next == stage_after(stage),
    {
        match stage {
            Stage::AwaitingRegistrationResponse => Stage::AwaitingLoginResponse,
            Stage::AwaitingLoginResponse => Stage::AwaitingAccessToken,
            _ => Stage::Succeeded,
        }
    }
}

/// Every transition keeps the invariant.
pub proof fn lemma_transitions_keep_well_formed(
    pre: SessionView,
    message: Option<RegistrationResponseMessage>,
    step: Step,
    post: SessionView,
)
    requires
        well_formed(pre),
        advances(pre, message, step, post),
    ensures
        well_formed(post),
{
}

/// A successful run has handed out exactly three outbound messages and
/// taken in exactly three inbound messages.
pub proof fn lemma_success_takes_three_round_trips(v: SessionView)
    requires
        well_formed(v),
        v.stage == Stage::Succeeded,
    ensures
        v.sent == 3,
        v.received == 3,
{
}

/// A token comes out only of the last stage, fed the access-token response
/// that carries it, and with it the run is complete: three messages out,
/// three in.
pub proof fn lemma_token_ends_a_complete_run(
    pre: SessionView,
    message: Option<RegistrationResponseMessage>,
    token: String,
    post: SessionView,
)
    requires
        well_formed(pre),
        advances(pre, message, Step::Done(token), post),
    ensures
        pre.stage == Stage::AwaitingAccessToken,
        shape_of(message) == Received::AccessToken,
        access_token_of(message) == Ok::<String, Error>(token),
        post.stage == Stage::Succeeded,
        post.sent == 3,
        post.received == 3,
{
}

/// Every successful run is the one exchange in order. Take any sequence of
/// arrivals fed to a session that has handed out its first message, each
/// answered by a step that moved the machine: if the run ends in success,
/// then exactly three arrivals were fed, they were the registration
/// response, the login response and the access-token response in this
/// order, the first two were answered with the next outbound message and
/// the third with the token, and three messages have gone each way.
pub proof fn lemma_successful_run_is_in_order(
    states: Seq<SessionView>,
    messages: Seq<Option<RegistrationResponseMessage>>,
    steps: Seq<Step>,
)
    requires
        states.len() == messages.len() + 1,
        steps.len() == messages.len(),
        well_formed(states[0]),
        states[0].stage == Stage::AwaitingRegistrationResponse,
        forall|i: int|
            #![trigger messages[i]]
            0 <= i < messages.len() ==> steps[i] != Step::Idle && advances(
                states[i],
                messages[i],
                steps[i],
                states[i + 1],
            ),
        states.last().stage == Stage::Succeeded,
    ensures
        messages.len() == 3,
        shape_of(messages[0]) == Received::RegistrationResponse,
        shape_of(messages[1]) == Received::LoginResponse,
        shape_of(messages[2]) == Received::AccessToken,
        steps[0] is Send,
        steps[1] is Send,
        steps[2] is Done,
        states.last().sent == 3,
        states.last().received == 3,
{
    let n = messages.len() as int;
    assert(n >= 1);
    assert(advances(states[0], messages[0], steps[0], states[1]));
    if states[1].stage == Stage::Failed && n > 1 {
        assert(advances(states[1], messages[1], steps[1], states[2]));
    }
    assert(states[1].stage == Stage::AwaitingLoginResponse && n >= 2);
    assert(advances(states[1], messages[1], steps[1], states[2]));
    if states[2].stage == Stage::Failed && n > 2 {
        assert(advances(states[2], messages[2], steps[2], states[3]));
    }
    assert(states[2].stage == Stage::AwaitingAccessToken && n >= 3);
    assert(advances(states[2], messages[2], steps[2], states[3]));
    if n > 3 {
        assert(advances(states[3], messages[3], steps[3], states[4]));
    }
}

/// Success and failure are final: a session that has ended takes no
/// further step and hands out nothing more, whatever arrives.
pub proof fn lemma_ended_session_stays_ended(
    pre: SessionView,
    message: Option<RegistrationResponseMessage>,
    step: Step,
    post: SessionView,
)
    requires
        pre.stage == Stage::Succeeded || pre.stage == Stage::Failed,
        advances(pre, message, step, post),
    ensures
        step == Step::Idle,
        post == pre,
{
}

/// The exchange is lock-step: while an answer is awaited exactly one
/// outbound message is unanswered, and at no time has more come in than
/// has gone out.
pub proof fn lemma_lock_step(v: SessionView)
    requires
        well_formed(v),
    ensures
        v.received <= v.sent,
        is_awaiting(v.stage) ==> v.sent == v.received + 1,
{
}

/// At most one cryptographic state is pending at any time, and only at
/// the stage whose answer it finishes.
pub proof fn lemma_pending_state_belongs_to_stage(v: SessionView)
    requires
        well_formed(v),
    ensures
        !(v.holds_registration_state && v.holds_login_state),
        v.holds_registration_state <==> v.stage == Stage::AwaitingRegistrationResponse,
        v.holds_login_state <==> v.stage == Stage::AwaitingLoginResponse,
{
}

/// A pending cryptographic state is used once: whatever arrives at an
/// awaiting stage and however the step ends, the state that was pending
/// before is pending no more.
pub proof fn lemma_pending_state_is_used_once(
    pre: SessionView,
    message: Option<RegistrationResponseMessage>,
    step: Step,
    post: SessionView,
)
    requires
        well_formed(pre),
        is_awaiting(pre.stage),
        advances(pre, message, step, post),
    ensures
        !post.holds_registration_state,
        pre.holds_login_state ==> !post.holds_login_state,
{
}

/// An arrival that does not answer the current stage is rejected, however
/// well-formed it is: the attempt fails as unexpected, with what was
/// awaited and what came, and nothing more is handed out.
pub proof fn lemma_out_of_order_is_rejected(
    pre: SessionView,
    message: Option<RegistrationResponseMessage>,
    step: Step,
    post: SessionView,
)
    requires
        is_awaiting(pre.stage),
        !answers(expected_at(pre.stage), shape_of(message)),
        advances(pre, message, step, post),
    ensures
        step == Step::Fail(
            Error::UnexpectedResponse { expected: expected_at(pre.stage), received: shape_of(message) },
        ),
        post.stage == Stage::Failed,
        post.sent == pre.sent,
{
}

/// A stream that ends at an awaiting stage fails the attempt as
/// unexpected: the machine answers, and counts no message.
pub proof fn lemma_closed_stream_is_rejected(pre: SessionView, step: Step, post: SessionView)
    requires
        is_awaiting(pre.stage),
        advances(pre, None, step, post),
    ensures
        step == Step::Fail(
            Error::UnexpectedResponse { expected: expected_at(pre.stage), received: Received::Nothing },
        ),
        post.stage == Stage::Failed,
        post.sent == pre.sent,
        post.received == pre.received,
{
}

/// An empty password fails the attempt at its first step, before anything
/// is handed out.
pub proof fn lemma_empty_password_sends_nothing(
    pre: SessionView,
    user_id: String,
    signing_public_key: String,
    username: String,
    session_initialization_info: SessionInitializationInfo,
    step: Step,
    post: SessionView,
)
    requires
        well_formed(pre),
        pre.stage == Stage::Start,
        begins(pre, user_id, signing_public_key, username, session_initialization_info, true, step, post),
    ensures
        step == Step::Fail(Error::CryptoFailure),
        post.stage == Stage::Failed,
        post.sent == 0,
        post.received == 0,
{
}

} // verus!
