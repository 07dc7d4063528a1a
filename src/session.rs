use vstd::prelude::*;
use vstd::string::*;

use crate::encoding::{base64_encoded, encode_base64_text, failure_response, failure_text, success_text};

verus! {

/// The slot that holds the one active wallet session, if any.
///
/// `H` is the shared handle to the engine; the slot only stores and lends it.
pub struct Session<H> {
    active: Option<H>,
}

impl<H> View for Session<H> {
    type V = Option<H>;

    closed spec fn view(&self) -> Option<H> {
        self.active
    }
}

/// The reply of an operation that needs a session when there is none.
pub open spec fn not_initialized_text() -> Seq<char> {
    "Error: Light Client is not initialized"@
}

/// The handle that an operation works on, or why it cannot run.
pub open spec fn access<H>(slot: Option<H>) -> Result<H, Seq<char>> {
    match slot {
        Some(h) => Ok(h),
        None => Err(not_initialized_text()),
    }
}

impl<H> Session<H> {
    /// An empty slot: no session yet.
    pub fn new() -> (r: Self)
        ensures
            r@ is None,
    {
        Session { active: None }
    }

    /// Makes `handle` the active session, superseding any earlier one.
    pub fn install(&mut self, handle: H)
        ensures
            final(self)@ == Some(handle),
    {
        self.active = Some(handle);
    }

    pub fn is_initialized(&self) -> (r: bool)
        ensures
            r <==> self@ is Some,
    {
        self.active.is_some()
    }

    /// Lends the active handle, or gives the not-initialized reply.
    pub fn active(&self) -> (r: Result<&H, String>)
        ensures
            r matches Ok(h) ==> access(self@) == Ok::<H, Seq<char>>(*h),
            r matches Err(m) ==> access(self@) == Err::<H, Seq<char>>(m@),
    {
        match &self.active {
            Some(h) => Ok(h),
            None => Err(String::from_str("Error: Light Client is not initialized")),
        }
    }
}

/// A reply in the plain style: `Error: <message>`.
pub open spec fn error_text(message: Seq<char>) -> Seq<char> {
    "Error: "@ + message
}

/// Builds `Error: <message>`.
pub fn error_response(message: &str) -> (r: String)
    ensures
        r@ == error_text(message@),
{
    let mut out = String::from_str("Error: ");
    out.append(message);
    out
}

/// The reply to a snapshot request, given what the engine serialized.
pub open spec fn snapshot_text(saved: Result<Seq<u8>, Seq<char>>) -> Seq<char> {
    match saved {
        Ok(bytes) => base64_encoded(bytes),
        Err(message) => error_text(message),
    }
}

/// The reply to a snapshot request: the serialized session as base64, or
/// the engine's error.
pub fn snapshot_response(saved: Result<Vec<u8>, String>) -> (r: String)
    ensures
        r@ == snapshot_text(
            match saved {
                Ok(b) => Ok::<Seq<u8>, Seq<char>>(b@),
                Err(m) => Err::<Seq<u8>, Seq<char>>(m@),
            },
        ),
        saved matches Ok(b) && b@.len() > 0 ==> r@.len() > 0,
{
    match saved {
        Ok(bytes) => encode_base64_text(bytes.as_slice()),
        Err(message) => error_response(message.as_str()),
    }
}

/// The arguments handed to the engine with a command: none for an empty
/// argument, the argument alone otherwise.
pub fn command_args(argument: &str) -> (r: Vec<&str>)
    ensures
        argument@.len() == 0 ==> r@.len() == 0,
        argument@.len() > 0 ==> r@.len() == 1 && r@[0]@ == argument@,
{
    if argument.unicode_len() == 0 {
        Vec::new()
    } else {
        let mut args: Vec<&str> = Vec::new();
        args.push(argument);
        args
    }
}

/// How a session is initialized.
#[derive(Clone, Copy, PartialEq, Eq, Structural, Debug)]
pub enum InitMode {
    /// A new wallet from fresh entropy.
    Fresh,
    /// A wallet restored from a recovery phrase and a birthday height.
    FromPhrase,
    /// A wallet read back from a base64 snapshot.
    FromSnapshot,
}

/// One piece of outside work in an initialization.
#[derive(Clone, Copy, PartialEq, Eq, Structural, Debug)]
pub enum InitStep {
    /// Resolve the server and parameters and learn the chain height.
    CreateConfig,
    /// Decode the base64 snapshot.
    DecodeSnapshot,
    /// Have the engine build, restore or read the client.
    BuildClient,
    /// Decode the proof parameter blobs and install them in the client.
    InstallParams,
    /// Ask the client for its recovery phrase.
    ReadPhrase,
}

/// What the caller does next in an initialization.
#[derive(Debug)]
pub enum InitAction {
    /// Perform this step and report its outcome.
    Run(InitStep),
    /// Install the built client as the active session, then give this reply.
    Install(String),
    /// Give this reply and leave the active session as it was.
    Reply(String),
}

/// The step after `step`, or `None` when the client is ready to install.
pub open spec fn successor(mode: InitMode, step: InitStep) -> Option<InitStep> {
    match step {
        InitStep::CreateConfig => if mode == InitMode::FromSnapshot {
            Some(InitStep::DecodeSnapshot)
        } else {
            Some(InitStep::BuildClient)
        },
        InitStep::DecodeSnapshot => Some(InitStep::BuildClient),
        InitStep::BuildClient => Some(InitStep::InstallParams),
        InitStep::InstallParams => if mode == InitMode::FromSnapshot {
            None
        } else {
            Some(InitStep::ReadPhrase)
        },
        InitStep::ReadPhrase => None,
    }
}

/// The reply to a failed step: structured for snapshots, plain otherwise.
pub open spec fn init_failure_text(mode: InitMode, message: Seq<char>) -> Seq<char> {
    if mode == InitMode::FromSnapshot {
        failure_text(message)
    } else {
        error_text(message)
    }
}

/// The reply once the client is installed: the structured success report
/// for snapshots, the recovery phrase that the last step gave otherwise.
pub open spec fn init_success_text(mode: InitMode, last: Seq<char>) -> Seq<char> {
    if mode == InitMode::FromSnapshot {
        success_text()
    } else {
        last
    }
}

/// The first step of every initialization.
pub fn init_start(mode: InitMode) -> (r: InitStep)
    ensures
        r == InitStep::CreateConfig,
{
    InitStep::CreateConfig
}

/// Decides what follows a step of an initialization, given its outcome: the
/// value it produced (the recovery phrase, for the last step of a fresh or
/// restored wallet), or the engine's error message.
pub fn init_next(mode: InitMode, step: InitStep, outcome: Result<String, String>) -> (r: InitAction)
    ensures
        outcome matches Err(m) ==> (r matches InitAction::Reply(t) && t@ == init_failure_text(
            mode,
            m@,
        )),
        outcome matches Ok(v) ==> match successor(mode, step) {
            Some(s) => r == InitAction::Run(s),
            None => r matches InitAction::Install(t) && t@ == init_success_text(mode, v@),
        },
{
    match outcome {
        Err(message) => {
            if mode == InitMode::FromSnapshot {
                InitAction::Reply(failure_response(message.as_str()))
            } else {
                InitAction::Reply(error_response(message.as_str()))
            }
        },
        Ok(value) => match step {
            InitStep::CreateConfig => if mode == InitMode::FromSnapshot {
                InitAction::Run(InitStep::DecodeSnapshot)
            } else {
                InitAction::Run(InitStep::BuildClient)
            },
            InitStep::DecodeSnapshot => InitAction::Run(InitStep::BuildClient),
            InitStep::BuildClient => InitAction::Run(InitStep::InstallParams),
            InitStep::InstallParams => if mode == InitMode::FromSnapshot {
                InitAction::Install(crate::encoding::success_response())
            } else {
                InitAction::Run(InitStep::ReadPhrase)
            },
            InitStep::ReadPhrase => if mode == InitMode::FromSnapshot {
                InitAction::Install(crate::encoding::success_response())
            } else {
                InitAction::Install(value)
            },
        },
    }
}

/// Before any session is installed, every operation that needs one is
/// refused with the not-initialized reply.
pub proof fn lemma_empty_slot_refuses<H>(slot: Session<H>)
    requires
        slot@ is None,
    ensures
        access(slot@) == Err::<H, Seq<char>>("Error: Light Client is not initialized"@),
{
}

/// A snapshot that does not decode is reported in the structured style as
/// `{"error":"Decoding Base64 ...","initalized":false}`.
pub proof fn lemma_snapshot_decode_failure(detail: Seq<char>)
    ensures
        init_failure_text(InitMode::FromSnapshot, crate::encoding::decode_failure_message(detail))
            == failure_text("Decoding Base64 "@ + detail),
{
}

} // verus!
