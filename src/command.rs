use vstd::prelude::*;

use crate::crypto::PublicKey;
use crate::user::NewUser;

verus! {

/// Major version of the protocol this server speaks.
pub const SERVER_VERSION_MAJOR: u8 = 0;

/// Minor version of the protocol this server speaks.
pub const SERVER_VERSION_MINOR: u8 = 1;

/// Patch version of the protocol this server speaks; never compared.
pub const SERVER_VERSION_PATCH: u8 = 0;

/// The capability handshake: a protocol version triple (major, minor, patch).
#[derive(Debug, Clone, Copy, PartialEq, Eq)]
pub struct ArkeHello {
    pub version: (u8, u8, u8),
}

impl ArkeHello {
    /// The version triple the server advertises.
    pub open spec fn server_version() -> (u8, u8, u8) {
        (SERVER_VERSION_MAJOR, SERVER_VERSION_MINOR, SERVER_VERSION_PATCH)
    }

    /// Whether a peer announcing `version` can talk to this server: major and
    /// minor must be equal, the patch level is ignored.
    pub open spec fn compatible(version: (u8, u8, u8)) -> bool {
        version.0 == SERVER_VERSION_MAJOR && version.1 == SERVER_VERSION_MINOR
    }
}

impl Default for ArkeHello {
    /// The server's own hello.
    fn default() -> (r: ArkeHello)
        ensures
            r.version == ArkeHello::server_version(),
    {
        ArkeHello { version: (SERVER_VERSION_MAJOR, SERVER_VERSION_MINOR, SERVER_VERSION_PATCH) }
    }
}

/// Errors carried in-band, standalone in `Error` or attached to `Goodbye`.
#[derive(Debug, PartialEq, Eq, Clone)]
pub enum CommandError {
    ServerError { msg: String },
    InvalidSignature { msg: String },
    InvalidKey,
}

/// The message catalogue shared by client and server. Each variant has a
/// stable discriminant (its position); new variants are only ever appended.
#[derive(Debug, Clone, PartialEq, Eq)]
#[non_exhaustive]
pub enum ArkeCommand {
    Hello(ArkeHello),
    CreateUser(NewUser),
    Success,
    Goodbye(Option<CommandError>),
    Error(CommandError),
    InsertPrekeys(Vec<PublicKey>),
}

impl ArkeCommand {
    /// The routing key of a command: fixed per variant, never read from the
    /// payload.
    pub open spec fn spec_discriminant(self) -> u8 {
        match self {
            ArkeCommand::Hello(_) => 0,
            ArkeCommand::CreateUser(_) => 1,
            ArkeCommand::Success => 2,
            ArkeCommand::Goodbye(_) => 3,
            ArkeCommand::Error(_) => 4,
            ArkeCommand::InsertPrekeys(_) => 5,
        }
    }

    /// Whether two commands are the same variant, whatever their payloads.
    pub open spec fn same_variant(self, other: ArkeCommand) -> bool {
        ||| self is Hello && other is Hello
        ||| self is CreateUser && other is CreateUser
        ||| self is Success && other is Success
        ||| self is Goodbye && other is Goodbye
        ||| self is Error && other is Error
        ||| self is InsertPrekeys && other is InsertPrekeys
    }

    /// The routing key of this command.
    pub fn discriminant(&self) -> (r: u8)
        ensures
            r == self.spec_discriminant(),
    {
        match self {
            ArkeCommand::Hello(_) => 0,
            ArkeCommand::CreateUser(_) => 1,
            ArkeCommand::Success => 2,
            ArkeCommand::Goodbye(_) => 3,
            ArkeCommand::Error(_) => 4,
            ArkeCommand::InsertPrekeys(_) => 5,
        }
    }
}

/// The discriminant is a function of the variant alone: two commands share a
/// discriminant exactly when they are the same variant, whatever their
/// payloads.
pub proof fn lemma_discriminant_depends_only_on_variant(a: ArkeCommand, b: ArkeCommand)
    ensures
        a.spec_discriminant() == b.spec_discriminant() <==> a.same_variant(b),
        a.spec_discriminant() <= 5,
{
}

/// An error turned into a command ends the conversation: it becomes the
/// payload of a `Goodbye`.
impl From<CommandError> for ArkeCommand {
    fn from(value: CommandError) -> (r: ArkeCommand) {
        ArkeCommand::Goodbye(Some(value))
    }
}

impl vstd::std_specs::convert::FromSpecImpl<CommandError> for ArkeCommand {
    open spec fn obeys_from_spec() -> bool {
        true
    }

    open spec fn from_spec(v: CommandError) -> ArkeCommand {
        ArkeCommand::Goodbye(Some(v))
    }
}

} // verus!
