use vstd::prelude::*;

use crate::command::ArkeCommand;
use crate::command::CommandError;
use crate::crypto::{identity_key_usable, prekey_signature_valid, signature_checkable};
use crate::handler::{
    is_server_error, is_signature_rejection, registration_reply, storage_failure_text,
    CommandHandler, Handler, HandlerOutcome, HandlerRegistry,
};
use crate::user::NewUser;
use crate::state::State;
use crate::user::User;

verus! {

/// Why the bytes of one read could not be taken as a command.
#[derive(Debug, Clone, Copy, PartialEq, Eq)]
pub enum DecodeError {
    /// The read returned no bytes.
    Empty,
    /// The bytes are not a well-formed command.
    Malformed,
}

/// Why a connection was dropped without a farewell.
#[derive(Debug, Clone, Copy, PartialEq, Eq)]
pub enum ConnectionFault {
    /// No handler is registered for this discriminant.
    NoHandler(u8),
    /// Reading or writing the transport failed.
    Transport,
    /// An event arrived that the connection was not waiting for.
    OutOfTurn,
}

/// What the connection is waiting for.
#[derive(Debug, Clone, Copy, PartialEq, Eq, Structural)]
pub enum Phase {
    /// The next message from the client.
    Reading,
    /// The outcome of storing a registered user.
    Storing,
    /// Nothing: the connection is over.
    Closed,
}

/// What the driver of a connection observed.
#[derive(Debug, PartialEq, Eq)]
pub enum ConnectionEvent {
    /// One read, decoded.
    Received(Result<ArkeCommand, DecodeError>),
    /// Whether storing the user handed out by `Store` succeeded.
    Stored(bool),
    /// Reading or writing the transport failed.
    TransportFailed,
}

/// What the driver of a connection is to do next.
#[derive(Debug, Clone, PartialEq, Eq)]
pub enum ConnectionAction {
    /// Write this command and read the next message.
    Send(ArkeCommand),
    /// Write this farewell, then shut the transport down.
    SendAndClose(ArkeCommand),
    /// Store this user, then report how it went with `Stored`.
    Store(User),
    /// Drop the transport at once, writing nothing.
    Abort(ConnectionFault),
}

/// One client connection: where it stands and its conversation state.
#[derive(Debug, Clone, Copy, PartialEq, Eq)]
pub struct Connection {
    pub phase: Phase,
    pub state: State,
}

/// The action that carries out a handler's outcome, and the phase it leads
/// to: a farewell is written once and ends the connection, another reply is
/// written and reading goes on, a record is handed out to be stored.
pub open spec fn carries_out(out: HandlerOutcome, action: ConnectionAction, phase: Phase) -> bool {
    match out {
        HandlerOutcome::Reply(c) => if c is Goodbye {
            action == ConnectionAction::SendAndClose(c) && phase == Phase::Closed
        } else {
            action == ConnectionAction::Send(c) && phase == Phase::Reading
        },
        HandlerOutcome::Persist(u) => action == ConnectionAction::Store(u) && phase == Phase::Storing,
    }
}

/// The connection is over and its state is left as it was.
pub open spec fn closes(pre: Connection, post: Connection) -> bool {
    post.phase == Phase::Closed && post.state == pre.state
}

/// How a connection in `pre` answers a decoded message, given the handlers
/// in `registry`.
pub open spec fn received_spec(
    registry: Map<u8, Handler>,
    pre: Connection,
    frame: Result<ArkeCommand, DecodeError>,
    post: Connection,
    action: ConnectionAction,
) -> bool {
    match frame {
        Err(_) => post.phase == Phase::Closed && post.state == pre.state && action
            == ConnectionAction::SendAndClose(ArkeCommand::Goodbye(None)),
        Ok(c) => if registry.contains_key(c.spec_discriminant()) {
            exists|out: HandlerOutcome|
                #[trigger] registry[c.spec_discriminant()].spec_handle(pre.state, c, post.state, out)
                    && carries_out(out, action, post.phase)
        } else {
            post.phase == Phase::Closed && post.state == pre.state && action
                == ConnectionAction::Abort(ConnectionFault::NoHandler(c.spec_discriminant()))
        },
    }
}

/// The frame written for an encoded command: the encoding followed by a
/// newline.
pub fn outgoing_frame(encoded: Vec<u8>) -> (r: Vec<u8>)
    ensures
        r@ == encoded@.push(10u8),
{
    let mut r = encoded;
    r.push(10u8);
    r
}

/// A read that returned no bytes holds no message.
pub fn check_incoming(bytes: &[u8]) -> (r: Result<(), DecodeError>)
    ensures
        r is Err <==> bytes@.len() == 0,
        r is Err ==> r == Err::<(), DecodeError>(DecodeError::Empty),
{
    if bytes.len() == 0 {
        Err(DecodeError::Empty)
    } else {
        Ok(())
    }
}

/// Turns a handler's outcome into the next action and phase.
fn carry_out(out: HandlerOutcome) -> (r: (ConnectionAction, Phase))
    ensures
        carries_out(out, r.0, r.1),
{
    match out {
        HandlerOutcome::Reply(c) => {
            if let ArkeCommand::Goodbye(_) = c {
                (ConnectionAction::SendAndClose(c), Phase::Closed)
            } else {
                (ConnectionAction::Send(c), Phase::Reading)
            }
        },
        HandlerOutcome::Persist(u) => (ConnectionAction::Store(u), Phase::Storing),
    }
}

impl Connection {
    /// A connection whose transport is up: waiting for the first message,
    /// with no handshake yet.
    pub fn new(hostname: &'static str) -> (r: Connection)
        ensures
            r.phase == Phase::Reading,
            r.state.hostname == hostname,
            !r.state.handshake,
    {
        Connection { phase: Phase::Reading, state: State::new(hostname) }
    }

    /// Advances the connection by one event and says what to do next.
    /// Messages are answered one at a time, in the order they arrive.
    pub fn step(&mut self, registry: &HandlerRegistry, event: ConnectionEvent) -> (r:
        ConnectionAction)
        requires
            registry.well_formed(),
        ensures
            match event {
                ConnectionEvent::TransportFailed => closes(*old(self), *final(self)) && r == ConnectionAction::Abort(ConnectionFault::Transport),
                ConnectionEvent::Received(frame) => if old(self).phase == Phase::Reading {
                    received_spec(registry@, *old(self), frame, *final(self), r)
                } else {
                    closes(*old(self), *final(self)) && r == ConnectionAction::Abort(
                        ConnectionFault::OutOfTurn,
                    )
                },
                ConnectionEvent::Stored(ok) => if old(self).phase == Phase::Storing {
                    &&& final(self).state == old(self).state
                    &&& final(self).phase == Phase::Reading
                    &&& ok ==> r == ConnectionAction::Send(ArkeCommand::Success)
                    &&& !ok ==> (r matches ConnectionAction::Send(c) && is_server_error(
                        c,
                        storage_failure_text(),
                    ))
                } else {
                    closes(*old(self), *final(self)) && r == ConnectionAction::Abort(
                        ConnectionFault::OutOfTurn,
                    )
                },
            },
    {
        match event {
            ConnectionEvent::TransportFailed => {
                self.phase = Phase::Closed;
                ConnectionAction::Abort(ConnectionFault::Transport)
            },
            ConnectionEvent::Received(frame) => {
                if self.phase != Phase::Reading {
                    self.phase = Phase::Closed;
                    return ConnectionAction::Abort(ConnectionFault::OutOfTurn);
                }
                match frame {
                    Err(_) => {
                        self.phase = Phase::Closed;
                        ConnectionAction::SendAndClose(ArkeCommand::Goodbye(None))
                    },
                    Ok(command) => {
                        let ghost c = command;
                        match registry.dispatch(&mut self.state, command) {
                            Ok(out) => {
                                let ghost o = out;
                                let (action, phase) = carry_out(out);
                                self.phase = phase;
                                assert(registry@[c.spec_discriminant()].spec_handle(
                                    old(self).state,
                                    c,
                                    self.state,
                                    o,
                                ));
                                action
                            },
                            Err(missing) => {
                                self.phase = Phase::Closed;
                                ConnectionAction::Abort(ConnectionFault::NoHandler(missing.discriminant))
                            },
                        }
                    },
                }
            },
            ConnectionEvent::Stored(ok) => {
                if self.phase != Phase::Storing {
                    self.phase = Phase::Closed;
                    return ConnectionAction::Abort(ConnectionFault::OutOfTurn);
                }
                self.phase = Phase::Reading;
                ConnectionAction::Send(registration_reply(ok))
            },
        }
    }
}

/// A message that cannot be decoded, empty or malformed, is answered with a
/// bare `Goodbye`, after which the connection is closed.
pub proof fn lemma_undecodable_message_ends_connection(
    registry: Map<u8, Handler>,
    pre: Connection,
    error: DecodeError,
    post: Connection,
    action: ConnectionAction,
)
    requires
        received_spec(registry, pre, Err(error), post, action),
    ensures
        action == ConnectionAction::SendAndClose(ArkeCommand::Goodbye(None)),
        post.phase == Phase::Closed,
        post.state == pre.state,
{
}

/// A command whose discriminant has a handler is always handled; only a
/// command without one is refused, and then as a missing handler, by
/// dropping the connection.
pub proof fn lemma_registered_commands_are_handled(
    registry: Map<u8, Handler>,
    pre: Connection,
    command: ArkeCommand,
    post: Connection,
    action: ConnectionAction,
)
    requires
        received_spec(registry, pre, Ok(command), post, action),
    ensures
        registry.contains_key(command.spec_discriminant()) <==> !(action is Abort),
        !registry.contains_key(command.spec_discriminant()) ==> action == ConnectionAction::Abort(
            ConnectionFault::NoHandler(command.spec_discriminant()),
        ),
{
    if registry.contains_key(command.spec_discriminant()) {
        let out = choose|out: HandlerOutcome|
            #[trigger] registry[command.spec_discriminant()].spec_handle(
                pre.state,
                command,
                post.state,
                out,
            ) && carries_out(out, action, post.phase);
        assert(carries_out(out, action, post.phase));
    }
}

/// The order of the registration checks, seen from the connection: an
/// identity key that does not parse gets `InvalidKey` and nothing is stored;
/// a signature that does not verify gets `InvalidSignature` and nothing is
/// stored; the record made from the bundle is handed out to be stored exactly
/// when the key parsed and the prekey signature verified.
pub proof fn lemma_registration_checks_before_storing(
    registry: HandlerRegistry,
    pre: Connection,
    bundle: NewUser,
    post: Connection,
    action: ConnectionAction,
)
    requires
        registry.well_formed(),
        registry@.contains_key(1u8),
        received_spec(registry@, pre, Ok(ArkeCommand::CreateUser(bundle)), post, action),
    ensures
        post.state == pre.state,
        !identity_key_usable(bundle) ==> action == ConnectionAction::Send(
            ArkeCommand::Error(CommandError::InvalidKey),
        ) && post.phase == Phase::Reading,
        identity_key_usable(bundle) && !prekey_signature_valid(bundle) ==> (action matches ConnectionAction::Send(c)
            && is_signature_rejection(c)) && post.phase == Phase::Reading,
        !signature_checkable(bundle) ==> !(action is Store),
        action is Store <==> prekey_signature_valid(bundle),
        action is Store ==> action->Store_0.registered_from(bundle) && post.phase == Phase::Storing,
{
    let command = ArkeCommand::CreateUser(bundle);
    assert(command.spec_discriminant() == 1u8);
    assert(registry@[1u8].spec_discriminant() == 1u8);
    assert(registry@[1u8] == Handler::CreateUser);
    let out = choose|out: HandlerOutcome|
        #[trigger] registry@[command.spec_discriminant()].spec_handle(
            pre.state,
            command,
            post.state,
            out,
        ) && carries_out(out, action, post.phase);
    assert(carries_out(out, action, post.phase));
}

} // verus!
