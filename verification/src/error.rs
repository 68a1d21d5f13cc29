//! The errors of the library, each with the text it is reported with.

use vstd::prelude::*;

use crate::text::{concat2, i64_to_string, int_text};

verus! {

/// A failure code of the provisioning library.
#[derive(Debug)]
pub struct ClearAdiError(pub i32);

impl ClearAdiError {
    /// The text of the error: its code in decimal.
    pub open spec fn text(self) -> Seq<char> {
        int_text(self.0 as int)
    }

    /// The text the error is reported with.
    pub fn to_string(&self) -> (res: String)
        ensures
            res@ == self.text(),
    {
        i64_to_string(self.0 as i64)
    }
}

/// Why device-fingerprint headers could not be had.
#[derive(Debug)]
pub enum AnisetteError {
    /// The device is not supported.
    UnsupportedDevice,
    /// An argument was refused.
    InvalidArgument(String),
    /// The device has not been provisioned.
    AnisetteNotProvisioned,
    /// A property list could not be written or read.
    PlistError(String),
    /// A request failed in transport.
    ReqwestError(String),
    /// The provisioning socket failed.
    WsError(String),
    /// A JSON document could not be written or read.
    SerdeError(String),
    /// Input or output failed.
    IOError(String),
    /// A library has the wrong format.
    InvalidLibraryFormat,
    /// Another failure.
    Misc,
    /// The provider lacks what the operation needs.
    MissingLibraries,
    /// The provisioning library failed.
    ClearADIError(ClearAdiError),
    /// A failure that carries only its text.
    Anyhow(String),
}

impl AnisetteError {
    /// The text of the error.
    pub open spec fn text(self) -> Seq<char> {
        match self {
            AnisetteError::UnsupportedDevice => "Unsupported device"@,
            AnisetteError::InvalidArgument(m) => "Invalid argument "@ + m@,
            AnisetteError::AnisetteNotProvisioned => "Anisette not provisioned!"@,
            AnisetteError::PlistError(m) => "Plist serialization error "@ + m@,
            AnisetteError::ReqwestError(m) => "Request Error "@ + m@,
            AnisetteError::WsError(m) => "Provisioning socket error "@ + m@,
            AnisetteError::SerdeError(m) => "JSON error "@ + m@,
            AnisetteError::IOError(m) => "IO error "@ + m@,
            AnisetteError::InvalidLibraryFormat => "Invalid library format"@,
            AnisetteError::Misc => "Misc"@,
            AnisetteError::MissingLibraries => "Missing Libraries"@,
            AnisetteError::ClearADIError(e) => "ClearADI Error "@ + e.text(),
            AnisetteError::Anyhow(m) => m@,
        }
    }

    /// The text the error is reported with.
    pub fn to_string(&self) -> (res: String)
        ensures
            res@ == self.text(),
    {
        match self {
            AnisetteError::UnsupportedDevice => "Unsupported device".to_owned(),
            AnisetteError::InvalidArgument(m) => concat2("Invalid argument ", m.as_str()),
            AnisetteError::AnisetteNotProvisioned => "Anisette not provisioned!".to_owned(),
            AnisetteError::PlistError(m) => concat2("Plist serialization error ", m.as_str()),
            AnisetteError::ReqwestError(m) => concat2("Request Error ", m.as_str()),
            AnisetteError::WsError(m) => concat2("Provisioning socket error ", m.as_str()),
            AnisetteError::SerdeError(m) => concat2("JSON error ", m.as_str()),
            AnisetteError::IOError(m) => concat2("IO error ", m.as_str()),
            AnisetteError::InvalidLibraryFormat => "Invalid library format".to_owned(),
            AnisetteError::Misc => "Misc".to_owned(),
            AnisetteError::MissingLibraries => "Missing Libraries".to_owned(),
            AnisetteError::ClearADIError(e) => {
                let code = e.to_string();
                concat2("ClearADI Error ", code.as_str())
            },
            AnisetteError::Anyhow(m) => m.clone(),
        }
    }
}

/// Why a step of the login failed.
#[derive(Debug)]
pub enum Error {
    /// A response was malformed: a field is missing or has the wrong shape.
    Parse,
    /// The service refused the request, or the transport did not deliver it.
    AuthSrp,
    /// No heartbeat token could be had.
    HappyBirthdayError,
    /// The second-factor code was rejected.
    Bad2faCode,
    /// The server reported a non-zero status: its code and its message.
    AuthSrpWithMessage(i64, String),
    /// The server asks for a step that this client cannot perform.
    ExtraStep(String),
    /// A property list could not be written or read.
    PlistError(String),
    /// A request failed in transport.
    ReqwestError(String),
    /// Device-fingerprint headers could not be had.
    ErrorGettingAnisette(AnisetteError),
    /// The second-factor configuration is withheld.
    FailedGetting2FAConfig,
    /// A JSON document could not be written or read.
    SerdeError(String),
    /// The account offers no trusted phone number.
    HardwareKeyError,
    /// The server's proof of the shared key did not match.
    ProofMismatch,
    /// The operation needs provisioning data, and the session has none.
    MissingPrecondition,
}

/// The mathematical model of an `Error`.
pub ghost enum ErrorView {
    Parse,
    AuthSrp,
    HappyBirthdayError,
    Bad2faCode,
    AuthSrpWithMessage(i64, Seq<char>),
    ExtraStep(Seq<char>),
    PlistError(Seq<char>),
    ReqwestError(Seq<char>),
    ErrorGettingAnisette(AnisetteError),
    FailedGetting2FAConfig,
    SerdeError(Seq<char>),
    HardwareKeyError,
    ProofMismatch,
    MissingPrecondition,
}

impl View for Error {
    type V = ErrorView;

    open spec fn view(&self) -> ErrorView {
        match self {
            Error::Parse => ErrorView::Parse,
            Error::AuthSrp => ErrorView::AuthSrp,
            Error::HappyBirthdayError => ErrorView::HappyBirthdayError,
            Error::Bad2faCode => ErrorView::Bad2faCode,
            Error::AuthSrpWithMessage(code, message) => ErrorView::AuthSrpWithMessage(
                *code,
                message@,
            ),
            Error::ExtraStep(reason) => ErrorView::ExtraStep(reason@),
            Error::PlistError(m) => ErrorView::PlistError(m@),
            Error::ReqwestError(m) => ErrorView::ReqwestError(m@),
            Error::ErrorGettingAnisette(e) => ErrorView::ErrorGettingAnisette(*e),
            Error::FailedGetting2FAConfig => ErrorView::FailedGetting2FAConfig,
            Error::SerdeError(m) => ErrorView::SerdeError(m@),
            Error::HardwareKeyError => ErrorView::HardwareKeyError,
            Error::ProofMismatch => ErrorView::ProofMismatch,
            Error::MissingPrecondition => ErrorView::MissingPrecondition,
        }
    }
}

impl Error {
    /// The text of the error.
    pub open spec fn text(self) -> Seq<char> {
        match self {
            Error::Parse => "Failed to parse the response"@,
            Error::AuthSrp => "Failed to authenticate."@,
            Error::HappyBirthdayError => "Failed to have a happy birthday!."@,
            Error::Bad2faCode => "Bad 2fa code."@,
            Error::AuthSrpWithMessage(code, message) => message@ + " ("@ + int_text(code as int)
                + ")"@,
            Error::ExtraStep(_) => "Please login to appleid.apple.com to fix this account"@,
            Error::PlistError(m) => "Failed to parse a plist "@ + m@,
            Error::ReqwestError(m) => "Request failed "@ + m@,
            Error::ErrorGettingAnisette(e) => "Failed getting anisette data "@ + e.text(),
            Error::FailedGetting2FAConfig => "Disable Advanced Data Protection"@,
            Error::SerdeError(_) => "Serde Error"@,
            Error::HardwareKeyError => "Disable hardware authentication keys and try again!"@,
            Error::ProofMismatch => "The server's proof does not match"@,
            Error::MissingPrecondition => "No provisioning data: log in first"@,
        }
    }

    /// The text the error is reported with.
    pub fn to_string(&self) -> (res: String)
        ensures
            res@ == self.text(),
    {
        match self {
            Error::Parse => "Failed to parse the response".to_owned(),
            Error::AuthSrp => "Failed to authenticate.".to_owned(),
            Error::HappyBirthdayError => "Failed to have a happy birthday!.".to_owned(),
            Error::Bad2faCode => "Bad 2fa code.".to_owned(),
            Error::AuthSrpWithMessage(code, message) => {
                let mut out = message.clone();
                out.append(" (");
                let number = i64_to_string(*code);
                out.append(number.as_str());
                out.append(")");
                out
            },
            Error::ExtraStep(_) => "Please login to appleid.apple.com to fix this account".to_owned(),
            Error::PlistError(m) => concat2("Failed to parse a plist ", m.as_str()),
            Error::ReqwestError(m) => concat2("Request failed ", m.as_str()),
            Error::ErrorGettingAnisette(e) => {
                let inner = e.to_string();
                concat2("Failed getting anisette data ", inner.as_str())
            },
            Error::FailedGetting2FAConfig => "Disable Advanced Data Protection".to_owned(),
            Error::SerdeError(_) => "Serde Error".to_owned(),
            Error::HardwareKeyError => "Disable hardware authentication keys and try again!".to_owned(),
            Error::ProofMismatch => "The server's proof does not match".to_owned(),
            Error::MissingPrecondition => "No provisioning data: log in first".to_owned(),
        }
    }
}

/// Why an attestation step failed.
#[derive(Debug)]
pub enum AbsintheError {
    /// The attestation engine reported a code.
    NacError(i32),
    /// Another failure, with its text.
    Other(String),
}

impl AbsintheError {
    /// The text of the error.
    pub open spec fn text(self) -> Seq<char> {
        match self {
            AbsintheError::NacError(code) => "NAC error: "@ + int_text(code as int),
            AbsintheError::Other(m) => m@,
        }
    }

    /// The text the error is reported with.
    pub fn to_string(&self) -> (res: String)
        ensures
            res@ == self.text(),
    {
        match self {
            AbsintheError::NacError(code) => {
                let number = i64_to_string(*code as i64);
                concat2("NAC error: ", number.as_str())
            },
            AbsintheError::Other(m) => m.clone(),
        }
    }
}

impl From<String> for AbsintheError {
    fn from(s: String) -> (res: AbsintheError) {
        AbsintheError::Other(s)
    }
}

impl vstd::std_specs::convert::FromSpecImpl<String> for AbsintheError {
    open spec fn obeys_from_spec() -> bool {
        true
    }

    open spec fn from_spec(s: String) -> AbsintheError {
        AbsintheError::Other(s)
    }
}

/// Why the platform's own attestation failed.
#[derive(Debug)]
pub enum NacError {
    /// The platform reported a code and a message.
    NacFailed { code: i32, message: String },
}

impl NacError {
    /// The text of the error.
    pub open spec fn text(self) -> Seq<char> {
        match self {
            NacError::NacFailed { code, message } => "NAC error (code "@ + int_text(code as int)
                + "): "@ + message@,
        }
    }

    /// The text the error is reported with.
    pub fn to_string(&self) -> (res: String)
        ensures
            res@ == self.text(),
    {
        match self {
            NacError::NacFailed { code, message } => {
                let mut out = "NAC error (code ".to_owned();
                let number = i64_to_string(*code as i64);
                out.append(number.as_str());
                out.append("): ");
                out.append(message.as_str());
                out
            },
        }
    }

    /// The error for a failure code of the platform: the platform's message
    /// where it gave one, and otherwise one that names the code.
    pub fn from_code(code: i32, message: Option<String>) -> (res: NacError)
        ensures
            res matches NacError::NacFailed { code: c, message: m } && c == code && m@ == (
            match message {
                Some(text) => text@,
                None => "Unknown NAC error (code "@ + int_text(code as int) + ")"@,
            }),
    {
        let message = match message {
            Some(text) => text,
            None => {
                let mut out = "Unknown NAC error (code ".to_owned();
                let number = i64_to_string(code as i64);
                out.append(number.as_str());
                out.append(")");
                out
            },
        };
        NacError::NacFailed { code, message }
    }
}

} // verus!
