//! The hardware-attestation handshake: three steps in a fixed order on a
//! context that serves once.

use vstd::prelude::*;

use crate::crypto::{base64_bytes, base64_decode};
use crate::error::{AbsintheError, NacError};
use crate::http::{is_success, status_is_success};
use crate::text::{concat2, int_text, trim, trimmed};

verus! {

/// The identity of a machine as the attestation reads it.
#[derive(Debug)]
pub struct HardwareConfig {
    pub product_name: String,
    pub io_mac_address: [u8; 6],
    pub platform_serial_number: String,
    pub platform_uuid: String,
    pub root_disk_uuid: String,
    pub board_id: String,
    pub os_build_num: String,
    pub platform_serial_number_enc: Vec<u8>,
    pub platform_uuid_enc: Vec<u8>,
    pub root_disk_uuid_enc: Vec<u8>,
    pub rom: Vec<u8>,
    pub rom_enc: Vec<u8>,
    pub mlb: String,
    pub mlb_enc: Vec<u8>,
}

/// An engine that performs the steps of the attestation: the platform's own
/// service, an emulator, or a relay. Nothing is assumed of what an engine
/// returns; the handshake decides when it may be asked.
pub trait AttestationBackend {
    /// Starts an attestation against the server's certificate and yields the
    /// request for session information.
    fn init(&mut self, server_certificate: &[u8], hardware: &HardwareConfig) -> Result<
        Vec<u8>,
        AbsintheError,
    >;

    /// Derives the session keys from the server's session information.
    fn key_establishment(&mut self, session_info: &[u8]) -> Result<(), AbsintheError>;

    /// Produces the signed validation data.
    fn sign(&mut self) -> Result<Vec<u8>, AbsintheError>;
}

/// How far a handshake has come.
#[derive(Clone, Copy, Debug, PartialEq, Eq, Structural)]
pub enum Stage {
    /// The request for session information has been produced.
    Initialized,
    /// The session keys have been derived.
    KeyEstablished,
    /// The context has signed, or a step has failed: it serves no more.
    Consumed,
}

/// The text of the error that a step out of order fails with.
pub open spec fn out_of_order() -> Seq<char> {
    "attestation step out of order"@
}

/// The context of one attestation.
pub struct ValidationCtx<B: AttestationBackend> {
    backend: B,
    stage: Stage,
}

impl<B: AttestationBackend> ValidationCtx<B> {
    /// How far the handshake has come.
    pub closed spec fn stage(&self) -> Stage {
        self.stage
    }

    /// The engine behind the handshake.
    pub closed spec fn backend(&self) -> B {
        self.backend
    }

    /// Tells how far the handshake has come.
    pub fn current_stage(&self) -> (res: Stage)
        ensures
            res == self.stage(),
    {
        self.stage
    }

    /// Takes the engine's answer to the first step: a request for session
    /// information opens a handshake, a failure opens none.
    pub fn started(backend: B, answer: Result<Vec<u8>, AbsintheError>) -> (res: Result<
        (ValidationCtx<B>, Vec<u8>),
        AbsintheError,
    >)
        ensures
            match answer {
                Ok(request) => {
                    &&& res matches Ok(opened)
                    &&& opened.0.stage() == Stage::Initialized
                    &&& opened.0.backend() == backend
                    &&& opened.1 == request
                },
                Err(e) => res == Err::<(ValidationCtx<B>, Vec<u8>), AbsintheError>(e),
            },
    {
        match answer {
            Ok(request) => Ok((ValidationCtx { backend, stage: Stage::Initialized }, request)),
            Err(e) => Err(e),
        }
    }

    /// Takes the engine's answer to the second step. The answer counts only
    /// as the step after the first: then success establishes the keys and a
    /// failure ends the handshake. At any other time the step fails as out
    /// of order, whatever the answer, and the context stays as it is.
    pub fn keys_answered(&mut self, answer: Result<(), AbsintheError>) -> (res: Result<
        (),
        AbsintheError,
    >)
        ensures
            final(self).backend() == old(self).backend(),
            old(self).stage() != Stage::Initialized ==> {
                &&& res matches Err(AbsintheError::Other(message))
                &&& message@ == out_of_order()
                &&& final(self).stage() == old(self).stage()
            },
            old(self).stage() == Stage::Initialized ==> {
                &&& res == answer
                &&& final(self).stage() == (if answer is Ok {
                    Stage::KeyEstablished
                } else {
                    Stage::Consumed
                })
            },
    {
        if !matches!(self.stage, Stage::Initialized) {
            return Err(AbsintheError::Other("attestation step out of order".to_owned()));
        }
        self.stage = if answer.is_ok() {
            Stage::KeyEstablished
        } else {
            Stage::Consumed
        };
        answer
    }

    /// Takes the engine's answer to the third step. The answer counts only
    /// once the keys are established: then it is handed on and the context
    /// has served. At any other time the step fails as out of order and no
    /// data is returned, whatever the answer, and the context stays as it
    /// is.
    pub fn signed(&mut self, answer: Result<Vec<u8>, AbsintheError>) -> (res: Result<
        Vec<u8>,
        AbsintheError,
    >)
        ensures
            final(self).backend() == old(self).backend(),
            old(self).stage() != Stage::KeyEstablished ==> {
                &&& res matches Err(AbsintheError::Other(message))
                &&& message@ == out_of_order()
                &&& final(self).stage() == old(self).stage()
            },
            old(self).stage() == Stage::KeyEstablished ==> {
                &&& res == answer
                &&& final(self).stage() == Stage::Consumed
            },
    {
        if !matches!(self.stage, Stage::KeyEstablished) {
            return Err(AbsintheError::Other("attestation step out of order".to_owned()));
        }
        self.stage = Stage::Consumed;
        answer
    }

    /// The first step: starts the attestation and yields the context with
    /// the bytes to send as the request for session information.
    pub fn new(backend: B, server_certificate: &[u8], hardware: &HardwareConfig) -> (res: Result<
        (ValidationCtx<B>, Vec<u8>),
        AbsintheError,
    >)
        ensures
            res matches Ok(opened) ==> opened.0.stage() == Stage::Initialized,
    {
        let mut backend = backend;
        let answer = backend.init(server_certificate, hardware);
        ValidationCtx::started(backend, answer)
    }

    /// The second step: derives the session keys. It is accepted only as the
    /// step after the first; otherwise it fails and the engine is not
    /// asked. A failure of the engine ends the handshake.
    pub fn key_establishment(&mut self, session_info: &[u8]) -> (res: Result<(), AbsintheError>)
        ensures
            old(self).stage() != Stage::Initialized ==> {
                &&& res matches Err(AbsintheError::Other(message))
                &&& message@ == out_of_order()
                &&& *final(self) == *old(self)
            },
            old(self).stage() == Stage::Initialized ==> final(self).stage() == (if res is Ok {
                Stage::KeyEstablished
            } else {
                Stage::Consumed
            }),
    {
        if !matches!(self.stage, Stage::Initialized) {
            return Err(AbsintheError::Other("attestation step out of order".to_owned()));
        }
        let answer = self.backend.key_establishment(session_info);
        self.keys_answered(answer)
    }

    /// The third step: signs and yields the validation data. It is accepted
    /// only after the session keys have been derived; otherwise it fails,
    /// the engine is not asked, and no data is returned. Whatever the engine
    /// answers, the context has then served.
    pub fn sign(&mut self) -> (res: Result<Vec<u8>, AbsintheError>)
        ensures
            old(self).stage() != Stage::KeyEstablished ==> {
                &&& res matches Err(AbsintheError::Other(message))
                &&& message@ == out_of_order()
                &&& *final(self) == *old(self)
            },
            old(self).stage() == Stage::KeyEstablished ==> final(self).stage() == Stage::Consumed,
    {
        if !matches!(self.stage, Stage::KeyEstablished) {
            return Err(AbsintheError::Other("attestation step out of order".to_owned()));
        }
        let answer = self.backend.sign();
        self.signed(answer)
    }
}

/// Takes the server's session information through the last two steps.
pub fn finish_validation<B: AttestationBackend>(ctx: &mut ValidationCtx<B>, session_info: &[u8]) -> (res:
    Result<Vec<u8>, AbsintheError>)
    ensures
        old(ctx).stage() != Stage::Initialized ==> {
            &&& res matches Err(AbsintheError::Other(message))
            &&& message@ == out_of_order()
            &&& *final(ctx) == *old(ctx)
        },
        old(ctx).stage() == Stage::Initialized ==> final(ctx).stage() == Stage::Consumed,
{
    match ctx.key_establishment(session_info) {
        Ok(()) => {},
        Err(e) => {
            return Err(e);
        },
    }
    ctx.sign()
}

/// Why validation data could not be had.
#[derive(Debug)]
pub enum PushError {
    /// The relay answered with this status, or could not be used: status 0.
    RelayError(u16, String),
    /// The attestation failed.
    AbsintheError(AbsintheError),
    /// Another failure, with its text.
    IoError(String),
}

/// What the relay's answer stands for: the bytes that its trimmed body
/// encodes in base64 where the status reports success, and an error that
/// carries the status and the body where it does not.
pub open spec fn relay_data(status: u16, body: Seq<char>) -> Option<Seq<u8>> {
    if is_success(status) {
        base64_bytes(trimmed(body))
    } else {
        None
    }
}

/// Takes the answer of a relay that performs the attestation on the
/// caller's behalf.
pub fn relay_validation_data(status: u16, body: &str) -> (res: Result<Vec<u8>, PushError>)
    ensures
        res is Ok <==> relay_data(status, body@) is Some,
        res matches Ok(data) ==> data@ == relay_data(status, body@)->0,
        !is_success(status) ==> (res matches Err(PushError::RelayError(code, message)) && code
            == status && message@ == "NAC relay error: "@ + body@),
        is_success(status) && base64_bytes(trimmed(body@)) is None ==> (res matches Err(
            PushError::RelayError(code, message),
        ) && code == 0 && message@ == "NAC relay base64 decode error"@),
{
    if !status_is_success(status) {
        return Err(PushError::RelayError(status, concat2("NAC relay error: ", body)));
    }
    let text = trim(body);
    match base64_decode(text.as_str()) {
        Some(data) => Ok(data),
        None => Err(PushError::RelayError(0, "NAC relay base64 decode error".to_owned())),
    }
}

/// The value of the authorization header for a relay token.
pub fn bearer(token: &str) -> (res: String)
    ensures
        res@ == "Bearer "@ + token@,
{
    concat2("Bearer ", token)
}

/// Takes what the platform's own attestation returned: the data where the
/// code is zero and there is data, and otherwise the failure with the
/// platform's message, or with one that names the code.
pub fn validation_data_result(code: i32, data: Option<Vec<u8>>, message: Option<String>) -> (res:
    Result<Vec<u8>, NacError>)
    ensures
        code == 0 && data is Some ==> res == Ok::<Vec<u8>, NacError>(data->0),
        !(code == 0 && data is Some) ==> (res matches Err(NacError::NacFailed { code: c, message: m })
            && c == code && m@ == (match message {
            Some(text) => text@,
            None => "Unknown NAC error (code "@ + int_text(code as int) + ")"@,
        })),
{
    match data {
        Some(bytes) => {
            if code == 0 {
                return Ok(bytes);
            }
        },
        None => {},
    }
    Err(NacError::from_code(code, message))
}

/// The text that the failure of the platform's own attestation is reported
/// with.
pub open spec fn local_failure_text(e: NacError) -> Seq<char> {
    "NAC validation failed: "@ + e.text()
}

/// Takes the outcome of the platform's own attestation: the data as it is,
/// a failure as an error that carries its text.
pub fn local_validation_data(outcome: Result<Vec<u8>, NacError>) -> (res: Result<Vec<u8>, PushError>)
    ensures
        match outcome {
            Ok(data) => res == Ok::<Vec<u8>, PushError>(data),
            Err(e) => res matches Err(PushError::IoError(message)) && message@
                == local_failure_text(e),
        },
{
    match outcome {
        Ok(data) => Ok(data),
        Err(e) => {
            let text = e.to_string();
            Err(PushError::IoError(concat2("NAC validation failed: ", text.as_str())))
        },
    }
}

} // verus!
