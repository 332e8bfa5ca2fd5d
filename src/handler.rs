use vstd::prelude::*;

use std::collections::HashMap;

use crate::command::{ArkeCommand, ArkeHello, CommandError};
use crate::crypto::{check_bundle, identity_key_usable, prekey_signature_valid};
use crate::state::State;
use crate::user::{NewUser, User};

verus! {

broadcast use vstd::std_specs::hash::group_hash_axioms;

/// Text of the farewell a handler sends when given a command it does not
/// serve.
pub open spec fn invalid_command_text() -> Seq<char> {
    "Invalid command"@
}

/// Text of the farewell sent when the client's protocol version differs.
pub open spec fn version_mismatch_text() -> Seq<char> {
    "Server and client have a version mismatch!"@
}

/// Text of the error sent when a prekey signature is rejected.
pub open spec fn invalid_signature_text() -> Seq<char> {
    "Prekey signature is invalid"@
}

/// Text of the error sent when a verified record could not be stored.
pub open spec fn storage_failure_text() -> Seq<char> {
    "Couldn't create new user!"@
}

/// `c` is a `Goodbye` carrying a `ServerError` with message `text`.
pub open spec fn is_farewell(c: ArkeCommand, text: Seq<char>) -> bool {
    c matches ArkeCommand::Goodbye(Some(CommandError::ServerError { msg })) && msg@ == text
}

/// `c` is an `Error` carrying a `ServerError` with message `text`.
pub open spec fn is_server_error(c: ArkeCommand, text: Seq<char>) -> bool {
    c matches ArkeCommand::Error(CommandError::ServerError { msg }) && msg@ == text
}

/// `c` is the in-band error for a rejected prekey signature.
pub open spec fn is_signature_rejection(c: ArkeCommand) -> bool {
    c matches ArkeCommand::Error(CommandError::InvalidSignature { msg })
        && msg@ == invalid_signature_text()
}

/// `out` answers with the farewell whose message is `text`.
pub open spec fn replies_farewell(out: HandlerOutcome, text: Seq<char>) -> bool {
    out matches HandlerOutcome::Reply(c) && is_farewell(c, text)
}

/// `out` answers with the rejection of a prekey signature.
pub open spec fn rejects_signature(out: HandlerOutcome) -> bool {
    out matches HandlerOutcome::Reply(c) && is_signature_rejection(c)
}

/// `out` hands on the record registered from `bundle` to be stored.
pub open spec fn persists(out: HandlerOutcome, bundle: NewUser) -> bool {
    out matches HandlerOutcome::Persist(u) && u.registered_from(bundle)
}

/// What a handler asks for after looking at one command.
#[derive(Debug, Clone, PartialEq, Eq)]
pub enum HandlerOutcome {
    /// Answer the client with this command.
    Reply(ArkeCommand),
    /// Store this verified record, then answer according to how storing
    /// went (see `registration_reply`).
    Persist(User),
}

/// The farewell for a command the handler does not serve.
fn invalid_command() -> (r: HandlerOutcome)
    ensures
        replies_farewell(r, invalid_command_text()),
{
    HandlerOutcome::Reply(ArkeCommand::from(CommandError::ServerError { msg: "Invalid command".to_string() }))
}

/// What the hello handler does with `command` in state `pre`.
pub open spec fn hello_spec(pre: State, command: ArkeCommand, post: State, out: HandlerOutcome) -> bool {
    match command {
        ArkeCommand::Hello(h) => if ArkeHello::compatible(h.version) {
            &&& post.hostname == pre.hostname
            &&& post.handshake
            &&& out == HandlerOutcome::Reply(
                ArkeCommand::Hello(ArkeHello { version: ArkeHello::server_version() }),
            )
        } else {
            &&& post == pre
            &&& replies_farewell(out, version_mismatch_text())
        },
        _ => post == pre && replies_farewell(out, invalid_command_text()),
    }
}

/// The handshake: a `Hello` whose major and minor version equal the
/// server's completes the handshake and is answered with the server's own
/// `Hello`; any other version is refused with a farewell and leaves the
/// state as it was.
pub fn hello(state: &mut State, command: ArkeCommand) -> (r: HandlerOutcome)
    ensures
        hello_spec(*old(state), command, *final(state), r),
{
    match command {
        ArkeCommand::Hello(client) => {
            let server = ArkeHello::default();
            let (client_major, client_minor, _) = client.version;
            let (server_major, server_minor, _) = server.version;
            if server_major != client_major || server_minor != client_minor {
                HandlerOutcome::Reply(
                    ArkeCommand::from(
                        CommandError::ServerError {
                            msg: "Server and client have a version mismatch!".to_string(),
                        },
                    ),
                )
            } else {
                state.handshake = true;
                HandlerOutcome::Reply(ArkeCommand::Hello(server))
            }
        },
        _ => invalid_command(),
    }
}

/// The order of the registration checks: an identity key that does not
/// parse is reported as such and nothing else is looked at; a signature
/// that does not verify is reported next; only a bundle that passed both is
/// handed on to be stored.
pub open spec fn registration_spec(
    bundle: NewUser,
    key_parsed: bool,
    signature_verified: bool,
    out: HandlerOutcome,
) -> bool {
    if !key_parsed {
        out == HandlerOutcome::Reply(ArkeCommand::Error(CommandError::InvalidKey))
    } else if !signature_verified {
        rejects_signature(out)
    } else {
        persists(out, bundle)
    }
}

/// Decides a registration from the outcome of its two checks: whether the
/// identity key parsed, and whether the prekey signature verified against
/// it.
pub fn decide_registration(bundle: NewUser, key_parsed: bool, signature_verified: bool) -> (r:
    HandlerOutcome)
    ensures
        registration_spec(bundle, key_parsed, signature_verified, r),
{
    if !key_parsed {
        HandlerOutcome::Reply(ArkeCommand::Error(CommandError::InvalidKey))
    } else if !signature_verified {
        HandlerOutcome::Reply(
            ArkeCommand::Error(
                CommandError::InvalidSignature { msg: "Prekey signature is invalid".to_string() },
            ),
        )
    } else {
        HandlerOutcome::Persist(User::register(bundle))
    }
}

/// What the registration handler does with `command`: the identity key is
/// checked first, the prekey signature second, and the record is handed on
/// to be stored exactly when both passed.
pub open spec fn create_user_spec(pre: State, command: ArkeCommand, post: State, out: HandlerOutcome) -> bool {
    &&& post == pre
    &&& match command {
        ArkeCommand::CreateUser(bundle) => registration_spec(
            bundle,
            identity_key_usable(bundle),
            prekey_signature_valid(bundle),
            out,
        ),
        _ => replies_farewell(out, invalid_command_text()),
    }
}

/// Registration of a key bundle: verify, then ask for the record to be
/// stored. Unverified key material is never handed on.
pub fn create_user(state: &mut State, command: ArkeCommand) -> (r: HandlerOutcome)
    ensures
        create_user_spec(*old(state), command, *final(state), r),
{
    match command {
        ArkeCommand::CreateUser(bundle) => {
            let (key_parsed, signature_verified) = check_bundle(&bundle);
            decide_registration(bundle, key_parsed, signature_verified)
        },
        _ => invalid_command(),
    }
}

/// The answer to a registration once storing was attempted: `Success`, or a
/// generic server error that does not reveal what storage reported.
pub fn registration_reply(stored: bool) -> (r: ArkeCommand)
    ensures
        stored ==> r == ArkeCommand::Success,
        !stored ==> is_server_error(r, storage_failure_text()),
{
    if stored {
        ArkeCommand::Success
    } else {
        ArkeCommand::Error(CommandError::ServerError { msg: "Couldn't create new user!".to_string() })
    }
}

/// What the goodbye handler does with `command`.
pub open spec fn goodbye_spec(pre: State, command: ArkeCommand, post: State, out: HandlerOutcome) -> bool {
    &&& post == pre
    &&& if command is Goodbye {
        out == HandlerOutcome::Reply(ArkeCommand::Goodbye(None))
    } else {
        replies_farewell(out, invalid_command_text())
    }
}

/// A client's `Goodbye` is answered with a plain `Goodbye`.
pub fn goodbye(state: &mut State, command: ArkeCommand) -> (r: HandlerOutcome)
    ensures
        goodbye_spec(*old(state), command, *final(state), r),
{
    match command {
        ArkeCommand::Goodbye(_) => HandlerOutcome::Reply(ArkeCommand::Goodbye(None)),
        _ => invalid_command(),
    }
}

/// The handler contract: given the conversation's state and one command,
/// produce exactly one outcome. Failures are answered in-band, never raised.
pub trait CommandHandler {
    /// Discriminant of the commands this handler serves.
    fn discriminant(&self) -> u8;

    /// Handles one command, possibly updating the conversation's state.
    fn handle(&self, state: &mut State, command: ArkeCommand) -> HandlerOutcome;
}

/// The handlers this server provides, one per command kind it serves.
#[derive(Debug, Clone, Copy, PartialEq, Eq)]
pub enum Handler {
    Hello,
    CreateUser,
    Goodbye,
}

impl Handler {
    /// Discriminant of the commands this handler serves.
    pub open spec fn spec_discriminant(self) -> u8 {
        match self {
            Handler::Hello => 0,
            Handler::CreateUser => 1,
            Handler::Goodbye => 3,
        }
    }

    /// What this handler may do with `command` in state `pre`.
    pub open spec fn spec_handle(
        self,
        pre: State,
        command: ArkeCommand,
        post: State,
        out: HandlerOutcome,
    ) -> bool {
        match self {
            Handler::Hello => hello_spec(pre, command, post, out),
            Handler::CreateUser => create_user_spec(pre, command, post, out),
            Handler::Goodbye => goodbye_spec(pre, command, post, out),
        }
    }
}

impl CommandHandler for Handler {
    fn discriminant(&self) -> (r: u8)
        ensures
            r == self.spec_discriminant(),
    {
        match self {
            Handler::Hello => 0,
            Handler::CreateUser => 1,
            Handler::Goodbye => 3,
        }
    }

    fn handle(&self, state: &mut State, command: ArkeCommand) -> (r: HandlerOutcome)
        ensures
            self.spec_handle(*old(state), command, *final(state), r),
    {
        match self {
            Handler::Hello => hello(state, command),
            Handler::CreateUser => create_user(state, command),
            Handler::Goodbye => goodbye(state, command),
        }
    }
}

/// A command reached the registry with no handler for its discriminant: a
/// broken contract between the catalogue and the registry, fatal to the
/// connection.
#[derive(Debug, Clone, Copy, PartialEq, Eq)]
pub struct NoHandler {
    pub discriminant: u8,
}

/// Maps a command's discriminant to the handler that serves it. Handlers are
/// filed under their own discriminant (`well_formed`), so dispatch never
/// gives a handler a command of another kind.
pub struct HandlerRegistry {
    handlers: HashMap<u8, Handler>,
}

impl View for HandlerRegistry {
    type V = Map<u8, Handler>;

    closed spec fn view(&self) -> Map<u8, Handler> {
        self.handlers@
    }
}

impl HandlerRegistry {
    /// Every handler is filed under the discriminant it serves.
    pub open spec fn well_formed(&self) -> bool {
        forall|d: u8| #[trigger]
            self@.contains_key(d) ==> self@[d].spec_discriminant() == d
    }

    /// A registry with no handler.
    pub fn new() -> (r: HandlerRegistry)
        ensures
            r@ == Map::<u8, Handler>::empty(),
            r.well_formed(),
    {
        HandlerRegistry { handlers: HashMap::new() }
    }

    /// Files `handler` under its discriminant, replacing any handler filed
    /// there before.
    pub fn register(&mut self, handler: Handler)
        requires
            old(self).well_formed(),
        ensures
            final(self)@ == old(self)@.insert(handler.spec_discriminant(), handler),
            final(self).well_formed(),
    {
        let d = handler.discriminant();
        self.handlers.insert(d, handler);
        assert forall|k: u8| #[trigger] self@.contains_key(k) implies self@[k].spec_discriminant()
            == k by {
            if k != d {
                assert(old(self)@.contains_key(k));
            }
        }
    }

    /// The server's routing table: `Hello`, `CreateUser` and `Goodbye`, each
    /// to its handler.
    pub fn standard() -> (r: HandlerRegistry)
        ensures
            r@ == map![0u8 => Handler::Hello, 1u8 => Handler::CreateUser, 3u8 => Handler::Goodbye],
            r.well_formed(),
    {
        let mut r = HandlerRegistry::new();
        r.register(Handler::Hello);
        r.register(Handler::CreateUser);
        r.register(Handler::Goodbye);
        r
    }

    /// Whether a handler is filed under `discriminant`.
    pub fn contains(&self, discriminant: u8) -> (r: bool)
        ensures
            r == self@.contains_key(discriminant),
    {
        self.handlers.contains_key(&discriminant)
    }

    /// Hands `command` to the handler filed under its discriminant. With no
    /// such handler nothing runs and the missing discriminant is reported.
    pub fn dispatch(&self, state: &mut State, command: ArkeCommand) -> (r: Result<
        HandlerOutcome,
        NoHandler,
    >)
        requires
            self.well_formed(),
        ensures
            match r {
                Ok(out) => {
                    &&& self@.contains_key(command.spec_discriminant())
                    &&& self@[command.spec_discriminant()].spec_discriminant()
                        == command.spec_discriminant()
                    &&& self@[command.spec_discriminant()].spec_handle(
                        *old(state),
                        command,
                        *final(state),
                        out,
                    )
                },
                Err(e) => {
                    &&& !self@.contains_key(command.spec_discriminant())
                    &&& e.discriminant == command.spec_discriminant()
                    &&& *final(state) == *old(state)
                },
            },
    {
        let d = command.discriminant();
        match self.handlers.get(&d) {
            Some(handler) => Ok(handler.handle(state, command)),
            None => Err(NoHandler { discriminant: d }),
        }
    }
}

} // verus!
