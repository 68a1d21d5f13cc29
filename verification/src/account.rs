//! The account session: the password-authenticated login with its
//! second-factor variants, and the tokens it yields.
//!
//! A step that needs the network comes in two halves. One builds what is to
//! be sent; the other takes what came back and decides. The caller carries
//! the bytes between them.

use vstd::prelude::*;
use vstd::slice::slice_to_vec;

use crate::anisette::{AnisetteClient, AnisetteProvider, LoginClientInfo};
use crate::crypto::{
    decrypt_cbc, derive_srp_password, random_bytes, spd_plaintext, srp_password,
    srp_process_reply, srp_public_ephemeral, srp_public_value, srp_transcript,
    srp_verify_server, SrpProtocol,
};
use crate::document::{
    dictionary_of, doc_get, get_data, get_dictionary, get_string, plist_xml, signed_of, string_array, unsigned_of, Dictionary, Doc, PlistValue,
};
use crate::error::{Error, ErrorView};
use crate::util::{not_writable, plist_to_buf};
use crate::text::{str_eq, views};
use crate::token::{expiry_after, expiry_from_now, FetchedToken, TokenStore, TokenView};

verus! {

/// The address of the login service.
pub fn gsa_endpoint() -> (res: &'static str)
    ensures
        res@ == "https://gsa.apple.com/grandslam/GsService2"@,
{
    "https://gsa.apple.com/grandslam/GsService2"
}

/// The header of every login request.
#[derive(Debug)]
pub struct RequestHeader {
    /// The protocol version.
    pub version: String,
}

/// The body of the request that opens a login.
#[derive(Debug)]
pub struct InitRequestBody {
    /// The client's public value of the key exchange.
    pub a_pub: Vec<u8>,
    /// The client-provided data of the device.
    pub cpd: Dictionary,
    /// The operation, "init".
    pub operation: String,
    /// The variants of the exchange that the client offers, in order.
    pub ps: Vec<String>,
    /// The account name.
    pub username: String,
}

/// The request that opens a login.
#[derive(Debug)]
pub struct InitRequest {
    pub header: RequestHeader,
    pub request: InitRequestBody,
}

/// The body of the request that proves knowledge of the password.
#[derive(Debug)]
pub struct ChallengeRequestBody {
    /// The client's proof.
    pub m: Vec<u8>,
    /// The client-provided data of the device.
    pub cpd: Dictionary,
    /// The continuation token of the server's first reply.
    pub c: String,
    /// The operation, "complete".
    pub operation: String,
    /// The account name.
    pub username: String,
}

/// The request that proves knowledge of the password.
#[derive(Debug)]
pub struct ChallengeRequest {
    pub header: RequestHeader,
    pub request: ChallengeRequestBody,
}

/// The body of a request for application tokens.
#[derive(Debug)]
pub struct AuthTokenRequestBody {
    pub app: Vec<String>,
    pub c: Vec<u8>,
    pub cpd: Dictionary,
    pub operation: String,
    pub t: String,
    pub u: String,
    pub checksum: Vec<u8>,
}

/// A request for application tokens.
#[derive(Debug)]
pub struct AuthTokenRequest {
    pub header: RequestHeader,
    pub request: AuthTokenRequestBody,
}

/// A message of the trust-circle protocol.
pub struct CircleSendMessage {
    pub atxid: String,
    pub circlestep: u32,
    pub idmsdata: Option<String>,
    pub pakedata: Option<String>,
    pub ptkn: String,
    pub ec: Option<i32>,
}

/// The answer to a message of the trust-circle protocol.
pub struct CircleResponse {
    pub sid: Option<String>,
}

/// The tokens of one application.
pub struct AppToken {
    pub app_tokens: Dictionary,
    pub auth_token: String,
    pub app: String,
}

/// A trusted phone number, by its id.
#[derive(Debug)]
pub struct PhoneNumber {
    pub id: u32,
}

/// A second-factor code as the phone endpoint takes it.
#[derive(Debug)]
pub struct VerifyCode {
    pub code: String,
}

/// The request that asks for a code by phone. The same value goes back to
/// the server with the code attached.
#[derive(Debug)]
pub struct VerifyBody {
    pub phone_number: PhoneNumber,
    pub mode: String,
    pub security_code: Option<VerifyCode>,
}

/// The mathematical model of a `VerifyBody`.
pub ghost struct VerifyBodyView {
    pub phone_id: u32,
    pub mode: Seq<char>,
    pub security_code: Option<Seq<char>>,
}

impl View for VerifyBody {
    type V = VerifyBodyView;

    open spec fn view(&self) -> VerifyBodyView {
        VerifyBodyView {
            phone_id: self.phone_number.id,
            mode: self.mode@,
            security_code: match self.security_code {
                Some(code) => Some(code.code@),
                None => None,
            },
        }
    }
}

/// Where a login stands.
#[derive(Debug)]
pub enum LoginState {
    /// The session is authenticated.
    LoggedIn,
    /// A code must be pushed to the trusted devices.
    NeedsDevice2FA,
    /// A code was pushed and must be verified.
    Needs2FAVerification,
    /// A code must be sent by phone.
    NeedsSMS2FA,
    /// A code was sent by phone and must be verified with this request.
    NeedsSMS2FAVerification(VerifyBody),
    /// The server asks for a step that this client cannot perform.
    NeedsExtraStep(String),
    /// The login must start again with the credentials.
    NeedsLogin,
}

/// The mathematical model of a `LoginState`.
pub ghost enum LoginStateView {
    LoggedIn,
    NeedsDevice2FA,
    Needs2FAVerification,
    NeedsSMS2FA,
    NeedsSMS2FAVerification(VerifyBodyView),
    NeedsExtraStep(Seq<char>),
    NeedsLogin,
}

impl View for LoginState {
    type V = LoginStateView;

    open spec fn view(&self) -> LoginStateView {
        match self {
            LoginState::LoggedIn => LoginStateView::LoggedIn,
            LoginState::NeedsDevice2FA => LoginStateView::NeedsDevice2FA,
            LoginState::Needs2FAVerification => LoginStateView::Needs2FAVerification,
            LoginState::NeedsSMS2FA => LoginStateView::NeedsSMS2FA,
            LoginState::NeedsSMS2FAVerification(body) => LoginStateView::NeedsSMS2FAVerification(
                body@,
            ),
            LoginState::NeedsExtraStep(reason) => LoginStateView::NeedsExtraStep(reason@),
            LoginState::NeedsLogin => LoginStateView::NeedsLogin,
        }
    }
}

/// A trusted phone number as the service lists it.
pub struct TrustedPhoneNumber {
    pub number_with_dial_code: String,
    pub last_two_digits: String,
    pub push_mode: String,
    pub id: u32,
}

/// What the service offers for the second factor.
pub struct AuthenticationExtras {
    pub trusted_phone_numbers: Vec<TrustedPhoneNumber>,
    pub recovery_url: Option<String>,
    pub cant_use_phone_number_url: Option<String>,
    pub dont_have_access_url: Option<String>,
    pub recovery_web_url: Option<String>,
    pub repair_phone_number_url: Option<String>,
    pub repair_phone_number_web_url: Option<String>,
    /// The state the login is in when the service has already sent a code.
    pub new_state: Option<LoginState>,
}

/// The dictionary that carries the status of a response: the one under
/// "Status", or the response itself where it has none.
pub open spec fn status_entries(response: Seq<(Seq<char>, Doc)>) -> Seq<(Seq<char>, Doc)> {
    match get_dictionary(response, "Status"@) {
        Some(status) => status,
        None => response,
    }
}

/// The status code of a response.
pub open spec fn status_code(response: Seq<(Seq<char>, Doc)>) -> Option<i64> {
    match doc_get(status_entries(response), "ec"@) {
        Some(code) => signed_of(code),
        None => None,
    }
}

/// What a response says of the request's fate: nothing where its status
/// code is zero, the server's code and message where it is not, and a parse
/// failure where the code, or the message of a failure, is missing.
pub open spec fn response_error(response: Seq<(Seq<char>, Doc)>) -> Option<ErrorView> {
    match status_code(response) {
        None => Some(ErrorView::Parse),
        Some(code) => if code == 0 {
            None
        } else {
            match get_string(status_entries(response), "em"@) {
                Some(message) => Some(ErrorView::AuthSrpWithMessage(code, message)),
                None => Some(ErrorView::Parse),
            }
        },
    }
}

/// Checks the status of a response. A non-zero status code fails with the
/// server's code and message.
pub fn check_error(response: &Dictionary) -> (res: Result<(), Error>)
    ensures
        res is Ok <==> response_error(response@) is None,
        res matches Err(e) ==> response_error(response@) == Some(e@),
{
    let status = match response.get_dict("Status") {
        Some(status) => status,
        None => response,
    };
    let code = match status.get("ec") {
        Some(value) => match value.as_signed_integer() {
            Some(code) => code,
            None => {
                return Err(Error::Parse);
            },
        },
        None => {
            return Err(Error::Parse);
        },
    };
    if code != 0 {
        match status.get_str("em") {
            Some(message) => {
                return Err(Error::AuthSrpWithMessage(code, message.to_owned()));
            },
            None => {
                return Err(Error::Parse);
            },
        }
    }
    Ok(())
}

/// Takes the dictionary under "Response" out of a reply of the login
/// service. A reply without one is malformed.
pub fn parse_response(reply: &Dictionary) -> (res: Result<&Dictionary, Error>)
    ensures
        res is Ok <==> get_dictionary(reply@, "Response"@) is Some,
        res matches Ok(response) ==> response@ == get_dictionary(reply@, "Response"@)->0,
        res matches Err(e) ==> e@ == ErrorView::Parse,
{
    match reply.get_dict("Response") {
        Some(response) => Ok(response),
        None => Err(Error::Parse),
    }
}

/// The header of a request as a document.
pub open spec fn header_doc(header: RequestHeader) -> Doc {
    Doc::Dictionary(seq![("Version"@, Doc::String(header.version@))])
}

/// The request that opens a login as a document.
pub open spec fn init_request_doc(request: InitRequest) -> Seq<(Seq<char>, Doc)> {
    seq![
        ("Header"@, header_doc(request.header)),
        (
            "Request"@,
            Doc::Dictionary(
                seq![
                    ("A2k"@, Doc::Data(request.request.a_pub@)),
                    ("cpd"@, Doc::Dictionary(request.request.cpd@)),
                    ("o"@, Doc::String(request.request.operation@)),
                    ("ps"@, string_array(views(request.request.ps@))),
                    ("u"@, Doc::String(request.request.username@)),
                ],
            ),
        ),
    ]
}

/// The request that proves knowledge of the password as a document.
pub open spec fn challenge_request_doc(request: ChallengeRequest) -> Seq<(Seq<char>, Doc)> {
    seq![
        ("Header"@, header_doc(request.header)),
        (
            "Request"@,
            Doc::Dictionary(
                seq![
                    ("M1"@, Doc::Data(request.request.m@)),
                    ("cpd"@, Doc::Dictionary(request.request.cpd@)),
                    ("c"@, Doc::String(request.request.c@)),
                    ("o"@, Doc::String(request.request.operation@)),
                    ("u"@, Doc::String(request.request.username@)),
                ],
            ),
        ),
    ]
}

fn build_header(header: RequestHeader) -> (res: PlistValue)
    ensures
        res@ == header_doc(header),
{
    let mut out = Dictionary::new();
    out.push("Version", PlistValue::String(header.version));
    assert(out@ =~= seq![("Version"@, Doc::String(header.version@))]);
    PlistValue::Dictionary(out)
}

impl InitRequest {
    /// The request as a document.
    pub fn into_document(self) -> (res: Dictionary)
        ensures
            res@ == init_request_doc(self),
    {
        let request = self.request;
        let ps = PlistValue::strings(&request.ps);
        let mut body = Dictionary::new();
        body.push("A2k", PlistValue::Data(request.a_pub));
        body.push("cpd", PlistValue::Dictionary(request.cpd));
        body.push("o", PlistValue::String(request.operation));
        body.push("ps", ps);
        body.push("u", PlistValue::String(request.username));
        let mut out = Dictionary::new();
        out.push("Header", build_header(self.header));
        out.push("Request", PlistValue::Dictionary(body));
        assert(body@ =~= init_request_doc(self)[1].1->Dictionary_0);
        assert(out@ =~= init_request_doc(self));
        out
    }

    /// The body of the request: its document as an XML property list.
    pub fn encode(self) -> (res: Result<Vec<u8>, Error>)
        ensures
            res is Ok <==> plist_xml(Doc::Dictionary(init_request_doc(self))) is Some,
            res matches Ok(bytes) ==> bytes@ == plist_xml(
                Doc::Dictionary(init_request_doc(self)),
            )->0,
            res matches Err(e) ==> e@ == ErrorView::PlistError(not_writable()),
    {
        let document = self.into_document();
        plist_to_buf(&document)
    }
}

impl ChallengeRequest {
    /// The request as a document.
    pub fn into_document(self) -> (res: Dictionary)
        ensures
            res@ == challenge_request_doc(self),
    {
        let request = self.request;
        let mut body = Dictionary::new();
        body.push("M1", PlistValue::Data(request.m));
        body.push("cpd", PlistValue::Dictionary(request.cpd));
        body.push("c", PlistValue::String(request.c));
        body.push("o", PlistValue::String(request.operation));
        body.push("u", PlistValue::String(request.username));
        let mut out = Dictionary::new();
        out.push("Header", build_header(self.header));
        out.push("Request", PlistValue::Dictionary(body));
        assert(body@ =~= challenge_request_doc(self)[1].1->Dictionary_0);
        assert(out@ =~= challenge_request_doc(self));
        out
    }

    /// The body of the request: its document as an XML property list.
    pub fn encode(self) -> (res: Result<Vec<u8>, Error>)
        ensures
            res is Ok <==> plist_xml(Doc::Dictionary(challenge_request_doc(self))) is Some,
            res matches Ok(bytes) ==> bytes@ == plist_xml(
                Doc::Dictionary(challenge_request_doc(self)),
            )->0,
            res matches Err(e) ==> e@ == ErrorView::PlistError(not_writable()),
    {
        let document = self.into_document();
        plist_to_buf(&document)
    }
}

/// The state that the status field "au" of a completed login stands for.
pub open spec fn state_for_au(au: Option<Seq<char>>) -> LoginStateView {
    match au {
        None => LoginStateView::LoggedIn,
        Some(s) => if s == "trustedDeviceSecondaryAuth"@ {
            LoginStateView::NeedsDevice2FA
        } else if s == "secondaryAuth"@ {
            LoginStateView::NeedsSMS2FA
        } else {
            LoginStateView::NeedsExtraStep(s)
        },
    }
}

/// Maps the status field "au" to the next state: none is `LoggedIn`,
/// "trustedDeviceSecondaryAuth" is `NeedsDevice2FA`, "secondaryAuth" is
/// `NeedsSMS2FA`, and any other text is `NeedsExtraStep` with that text.
pub fn login_state_for(au: Option<&str>) -> (res: LoginState)
    ensures
        res@ == state_for_au(
            match au {
                Some(s) => Some(s@),
                None => None,
            },
        ),
{
    match au {
        None => LoginState::LoggedIn,
        Some(s) => {
            if str_eq(s, "trustedDeviceSecondaryAuth") {
                LoginState::NeedsDevice2FA
            } else if str_eq(s, "secondaryAuth") {
                LoginState::NeedsSMS2FA
            } else {
                LoginState::NeedsExtraStep(s.to_owned())
            }
        },
    }
}

/// The token that one entry of the token bundle stands for at `now_ms`: its
/// "token" text, expiring at the absolute "expiry" in milliseconds where the
/// entry has one, and otherwise "duration" seconds from now. An entry that
/// lacks the token, or both times, stands for none.
pub open spec fn bundle_token(entry: Doc, now_ms: u64) -> Option<TokenView> {
    match dictionary_of(entry) {
        None => None,
        Some(fields) => match get_string(fields, "token"@) {
            None => None,
            Some(token) => match doc_get(fields, "expiry"@) {
                Some(expiry) => match unsigned_of(expiry) {
                    Some(at) => Some(TokenView { token, expiration: at as int }),
                    None => None,
                },
                None => match doc_get(fields, "duration"@) {
                    Some(duration) => match unsigned_of(duration) {
                        Some(secs) => Some(
                            TokenView { token, expiration: expiry_after(secs, now_ms) },
                        ),
                        None => None,
                    },
                    None => None,
                },
            },
        },
    }
}

/// The tokens that a token bundle stands for at `now_ms`.
pub open spec fn bundle_tokens(bundle: Seq<(Seq<char>, Doc)>, now_ms: u64) -> Map<
    Seq<char>,
    TokenView,
>
    decreases bundle.len(),
{
    if bundle.len() == 0 {
        Map::empty()
    } else {
        let earlier = bundle_tokens(bundle.drop_last(), now_ms);
        match bundle_token(bundle.last().1, now_ms) {
            Some(token) => earlier.insert(bundle.last().0, token),
            None => earlier,
        }
    }
}

/// Reads one entry of the token bundle.
pub fn read_bundle_token(entry: &PlistValue, now_ms: u64) -> (res: Option<FetchedToken>)
    ensures
        res is Some <==> bundle_token(entry@, now_ms) is Some,
        res is Some ==> res->0@ == bundle_token(entry@, now_ms)->0,
{
    let fields = entry.as_dictionary()?;
    let token = fields.get_str("token")?;
    let expiration = match fields.get("expiry") {
        Some(expiry) => expiry.as_unsigned_integer()? as u128,
        None => {
            let secs = fields.get("duration")?.as_unsigned_integer()?;
            expiry_from_now(secs, now_ms)
        },
    };
    Some(FetchedToken { token: token.to_owned(), expiration })
}

/// Reads the token bundle of the provisioning data.
pub fn read_bundle(bundle: &Dictionary, now_ms: u64) -> (res: TokenStore)
    ensures
        res@ == bundle_tokens(bundle@, now_ms),
{
    let mut store = TokenStore::new();
    let n = bundle.entries.len();
    let mut i: usize = 0;
    proof {
        assert(bundle@.take(0) =~= Seq::<(Seq<char>, Doc)>::empty());
    }
    while i < n
        invariant
            n == bundle.entries@.len(),
            i <= n,
            store@ == bundle_tokens(bundle@.take(i as int), now_ms),
        decreases n - i,
    {
        proof {
            let next = bundle@.take(i as int + 1);
            assert(next.drop_last() =~= bundle@.take(i as int));
            assert(next.last() == bundle@[i as int]);
        }
        match read_bundle_token(&bundle.entries[i].1, now_ms) {
            Some(token) => {
                store.insert(bundle.entries[i].0.clone(), token);
            },
            None => {},
        }
        i += 1;
    }
    proof {
        assert(bundle@.take(n as int) =~= bundle@);
    }
    store
}

/// The text of an optional string.
pub open spec fn opt_text(value: Option<String>) -> Option<Seq<char>> {
    match value {
        Some(text) => Some(text@),
        None => None,
    }
}

/// The bytes of an optional byte string.
pub open spec fn opt_bytes(value: Option<Vec<u8>>) -> Option<Seq<u8>> {
    match value {
        Some(bytes) => Some(bytes@),
        None => None,
    }
}

/// An account session.
pub struct AppleAccount<T: AnisetteProvider> {
    /// The source of device-fingerprint headers.
    pub anisette: AnisetteClient<T>,
    /// The description of this client.
    pub client_info: LoginClientInfo,
    /// The provisioning data of the last completed login.
    pub spd: Option<Dictionary>,
    /// The account name: as given at first, as the server spells it once a
    /// login has completed.
    pub username: Option<String>,
    /// The tokens of the last grant.
    pub tokens: TokenStore,
    /// The pre-hashed password of the last login that the server answered.
    pub hashed_password: Option<Vec<u8>>,
}

/// The mathematical model of an account session: what the login steps read
/// and change.
pub ghost struct AccountView {
    pub spd: Option<Seq<(Seq<char>, Doc)>>,
    pub username: Option<Seq<char>>,
    pub tokens: Map<Seq<char>, TokenView>,
    pub hashed_password: Option<Seq<u8>>,
}

impl<T: AnisetteProvider> View for AppleAccount<T> {
    type V = AccountView;

    open spec fn view(&self) -> AccountView {
        AccountView {
            spd: match self.spd {
                Some(spd) => Some(spd@),
                None => None,
            },
            username: opt_text(self.username),
            tokens: self.tokens@,
            hashed_password: opt_bytes(self.hashed_password),
        }
    }
}

/// What a login that has sent its first request remembers.
#[derive(Debug)]
pub struct LoginHandshake {
    /// The private exponent of the key exchange.
    pub a: Vec<u8>,
    /// The account name as it was given.
    pub username: String,
    /// The pre-hashed password.
    pub hashed_password: Vec<u8>,
}

/// What a login that has sent its proof remembers.
#[derive(Debug)]
pub struct LoginChallenge {
    /// The private exponent of the key exchange.
    pub a: Vec<u8>,
    /// The account name as it was given.
    pub username: String,
    /// The password derived for the exchange.
    pub password: Vec<u8>,
    /// The server's salt.
    pub salt: Vec<u8>,
    /// The server's public value.
    pub b_pub: Vec<u8>,
    /// The shared session key.
    pub key: Vec<u8>,
}

/// Whether `request` is the request that opens a login of `username` with
/// the private exponent `a`.
pub open spec fn is_init_request(
    request: InitRequest,
    a: Seq<u8>,
    username: Seq<char>,
    cpd: Dictionary,
) -> bool {
    &&& request.header.version@ == "1.0.1"@
    &&& request.request.a_pub@ == srp_public_value(a)
    &&& request.request.cpd == cpd
    &&& request.request.operation@ == "init"@
    &&& views(request.request.ps@) == seq!["s2k"@, "s2k_fo"@]
    &&& request.request.username@ == username
}

/// What the server's first reply holds.
pub ghost struct InitReply {
    pub salt: Seq<u8>,
    pub b_pub: Seq<u8>,
    pub iterations: u32,
    pub c: Seq<char>,
    pub protocol: SrpProtocol,
}

/// The variant of the exchange that a reply selects: "s2k_fo" where the
/// field "sp" says so, and "s2k" otherwise.
pub open spec fn selected_protocol(response: Seq<(Seq<char>, Doc)>) -> SrpProtocol {
    if get_string(response, "sp"@) == Some("s2k_fo"@) {
        SrpProtocol::S2kFo
    } else {
        SrpProtocol::S2k
    }
}

/// The iteration count of a reply, if it names one.
pub open spec fn iteration_count(response: Seq<(Seq<char>, Doc)>) -> Option<i64> {
    match doc_get(response, "i"@) {
        Some(doc) => signed_of(doc),
        None => None,
    }
}

/// What the server's first reply holds, or the error it stands for: the
/// server's own where the status is not zero, a parse failure where the salt,
/// the public value, the iteration count or the continuation token is
/// missing.
pub open spec fn init_reply(response: Seq<(Seq<char>, Doc)>) -> Result<InitReply, ErrorView> {
    match response_error(response) {
        Some(e) => Err(e),
        None => if get_data(response, "s"@) is Some && get_data(response, "B"@) is Some
            && iteration_count(response) is Some && get_string(response, "c"@) is Some {
            Ok(
                InitReply {
                    salt: get_data(response, "s"@)->0,
                    b_pub: get_data(response, "B"@)->0,
                    iterations: iteration_count(response)->0 as u32,
                    c: get_string(response, "c"@)->0,
                    protocol: selected_protocol(response),
                },
            )
        } else {
            Err(ErrorView::Parse)
        },
    }
}

/// The plaintext of the provisioning data in the server's second reply, or
/// the error the reply stands for: the server's own where the status is not
/// zero, `ProofMismatch` where the server's proof is not the expected one,
/// and a parse failure where a field is missing or the data does not
/// decrypt.
pub open spec fn challenge_reply(challenge: LoginChallenge, response: Seq<(Seq<char>, Doc)>) -> Result<
    Seq<u8>,
    ErrorView,
> {
    match response_error(response) {
        Some(e) => Err(e),
        None => match get_data(response, "M2"@) {
            None => Err(ErrorView::Parse),
            Some(m2) => {
                let transcript = srp_transcript(
                    challenge.a@,
                    vstd::utf8::encode_utf8(challenge.username@),
                    challenge.password@,
                    challenge.salt@,
                    challenge.b_pub@,
                );
                if !(transcript matches Some(t) && t.server_proof == m2) {
                    Err(ErrorView::ProofMismatch)
                } else {
                    match get_data(response, "spd"@) {
                        None => Err(ErrorView::Parse),
                        Some(spd) => match spd_plaintext(challenge.key@, spd) {
                            None => Err(ErrorView::Parse),
                            Some(plain) => Ok(plain),
                        },
                    }
                }
            },
        },
    }
}

impl LoginChallenge {
    /// Takes the server's second reply: checks its status and the server's
    /// proof, and decrypts the provisioning data it carries. The result is
    /// the encoded provisioning data.
    pub fn open(&self, response: &Dictionary) -> (res: Result<Vec<u8>, Error>)
        ensures
            res matches Ok(plain) ==> challenge_reply(*self, response@) == Ok::<
                Seq<u8>,
                ErrorView,
            >(plain@),
            res matches Err(e) ==> challenge_reply(*self, response@) == Err::<Seq<u8>, ErrorView>(
                e@,
            ),
    {
        match check_error(response) {
            Err(e) => {
                return Err(e);
            },
            Ok(()) => {},
        }
        let m2 = match response.get_bytes("M2") {
            Some(m2) => m2,
            None => {
                return Err(Error::Parse);
            },
        };
        if !srp_verify_server(
            self.a.as_slice(),
            self.username.as_str().as_bytes(),
            self.password.as_slice(),
            self.salt.as_slice(),
            self.b_pub.as_slice(),
            m2.as_slice(),
        ) {
            return Err(Error::ProofMismatch);
        }
        let spd = match response.get_bytes("spd") {
            Some(spd) => spd,
            None => {
                return Err(Error::Parse);
            },
        };
        match decrypt_cbc(self.key.as_slice(), spd.as_slice()) {
            Some(plain) => Ok(plain),
            None => Err(Error::Parse),
        }
    }
}

/// The state that a completed login is in, or `None` where the server's
/// reply lacks its status or the provisioning data lacks the account name.
pub open spec fn login_outcome(
    response: Seq<(Seq<char>, Doc)>,
    spd: Seq<(Seq<char>, Doc)>,
) -> Option<LoginStateView> {
    match get_dictionary(response, "Status"@) {
        None => None,
        Some(status) => if get_string(spd, "acname"@) is Some {
            Some(state_for_au(get_string(status, "au"@)))
        } else {
            None
        },
    }
}

/// The tokens of a session after a login that yielded `spd`: those of the
/// token bundle under "t", in place of all earlier ones. Provisioning data
/// without a bundle grants no token, and the session then holds none.
pub open spec fn provisioned_tokens(spd: Seq<(Seq<char>, Doc)>, now_ms: u64) -> Map<
    Seq<char>,
    TokenView,
> {
    match get_dictionary(spd, "t"@) {
        Some(bundle) => bundle_tokens(bundle, now_ms),
        None => Map::empty(),
    }
}

impl<T: AnisetteProvider> AppleAccount<T> {
    /// A session that has not logged in.
    pub fn new_with_anisette(client_info: LoginClientInfo, anisette: AnisetteClient<T>) -> (res:
        Result<AppleAccount<T>, Error>)
        ensures
            res matches Ok(account) && account.anisette == anisette && account.client_info
                == client_info && account.spd is None && account.username is None
                && account.hashed_password is None && account.tokens@ == Map::<
                Seq<char>,
                TokenView,
            >::empty(),
    {
        Ok(
            AppleAccount {
                anisette,
                client_info,
                spd: None,
                username: None,
                tokens: TokenStore::new(),
                hashed_password: None,
            },
        )
    }

    /// Opens a login with a given private exponent: records the account name
    /// and builds the first request.
    pub fn login_email_pass_with(
        &mut self,
        username: &str,
        hashed_password: &[u8],
        a: Vec<u8>,
        cpd: Dictionary,
    ) -> (res: (LoginHandshake, InitRequest))
        ensures
            res.0.a == a,
            res.0.username@ == username@,
            res.0.hashed_password@ == hashed_password@,
            is_init_request(res.1, a@, username@, cpd),
            final(self)@.username == Some(username@),
            final(self)@.spd == old(self)@.spd,
            final(self)@.tokens == old(self)@.tokens,
            final(self)@.hashed_password == old(self)@.hashed_password,
            final(self).anisette == old(self).anisette,
            final(self).client_info == old(self).client_info,
    {
        let a_pub = srp_public_ephemeral(a.as_slice());
        self.username = Some(username.to_owned());
        let mut ps: Vec<String> = Vec::new();
        ps.push("s2k".to_owned());
        ps.push("s2k_fo".to_owned());
        assert(views(ps@) =~= seq!["s2k"@, "s2k_fo"@]);
        let request = InitRequest {
            header: RequestHeader { version: "1.0.1".to_owned() },
            request: InitRequestBody {
                a_pub,
                cpd,
                operation: "init".to_owned(),
                ps,
                username: username.to_owned(),
            },
        };
        let handshake = LoginHandshake {
            a,
            username: username.to_owned(),
            hashed_password: slice_to_vec(hashed_password),
        };
        (handshake, request)
    }

    /// Opens a login: draws a private exponent of 32 random bytes, records
    /// the account name and builds the first request.
    pub fn login_email_pass(&mut self, username: &str, hashed_password: &[u8], cpd: Dictionary) -> (res:
        (LoginHandshake, InitRequest))
        ensures
            res.0.a@.len() == 32,
            res.0.username@ == username@,
            res.0.hashed_password@ == hashed_password@,
            is_init_request(res.1, res.0.a@, username@, cpd),
            final(self)@.username == Some(username@),
            final(self)@.spd == old(self)@.spd,
            final(self)@.tokens == old(self)@.tokens,
            final(self)@.hashed_password == old(self)@.hashed_password,
            final(self).anisette == old(self).anisette,
            final(self).client_info == old(self).client_info,
    {
        let a = random_bytes(32);
        self.login_email_pass_with(username, hashed_password, a, cpd)
    }

    /// Takes the server's first reply and builds the proof. On success the
    /// pre-hashed password is recorded. On failure the session is as it was.
    pub fn login_challenge(
        &mut self,
        handshake: &LoginHandshake,
        response: &Dictionary,
        cpd: Dictionary,
    ) -> (res: Result<(LoginChallenge, ChallengeRequest), Error>)
        ensures
            match init_reply(response@) {
                Err(e) => res matches Err(x) && x@ == e && *final(self) == *old(self),
                Ok(reply) => {
                    let password = srp_password(
                        reply.protocol,
                        handshake.hashed_password@,
                        reply.salt,
                        reply.iterations,
                    );
                    match srp_transcript(
                        handshake.a@,
                        vstd::utf8::encode_utf8(handshake.username@),
                        password,
                        reply.salt,
                        reply.b_pub,
                    ) {
                        None => res matches Err(x) && x@ == ErrorView::AuthSrp && *final(self)
                            == *old(self),
                        Some(t) => {
                            &&& res matches Ok(pair)
                            &&& pair.1.header.version@ == "1.0.1"@
                            &&& pair.1.request.m@ == t.client_proof
                            &&& pair.1.request.cpd == cpd
                            &&& pair.1.request.c@ == reply.c
                            &&& pair.1.request.operation@ == "complete"@
                            &&& pair.1.request.username@ == handshake.username@
                            &&& pair.0.a@ == handshake.a@
                            &&& pair.0.username@ == handshake.username@
                            &&& pair.0.password@ == password
                            &&& pair.0.salt@ == reply.salt
                            &&& pair.0.b_pub@ == reply.b_pub
                            &&& pair.0.key@ == t.key
                            &&& final(self)@.hashed_password == Some(handshake.hashed_password@)
                            &&& final(self)@.username == old(self)@.username
                            &&& final(self)@.spd == old(self)@.spd
                            &&& final(self)@.tokens == old(self)@.tokens
                            &&& final(self).anisette == old(self).anisette
                            &&& final(self).client_info == old(self).client_info
                        },
                    }
                },
            },
    {
        match check_error(response) {
            Err(e) => {
                return Err(e);
            },
            Ok(()) => {},
        }
        let salt = match response.get_bytes("s") {
            Some(salt) => salt,
            None => {
                return Err(Error::Parse);
            },
        };
        let b_pub = match response.get_bytes("B") {
            Some(b_pub) => b_pub,
            None => {
                return Err(Error::Parse);
            },
        };
        let iterations = match response.get("i") {
            Some(value) => match value.as_signed_integer() {
                Some(i) => i,
                None => {
                    return Err(Error::Parse);
                },
            },
            None => {
                return Err(Error::Parse);
            },
        };
        let c = match response.get_str("c") {
            Some(c) => c,
            None => {
                return Err(Error::Parse);
            },
        };
        let protocol = match response.get_str("sp") {
            Some(sp) => if str_eq(sp, "s2k_fo") {
                SrpProtocol::S2kFo
            } else {
                SrpProtocol::S2k
            },
            None => SrpProtocol::S2k,
        };
        let rounds = #[verifier::truncate]
        (iterations as u32);
        let password = derive_srp_password(
            protocol,
            handshake.hashed_password.as_slice(),
            salt.as_slice(),
            rounds,
        );
        let proof_and_key = match srp_process_reply(
            handshake.a.as_slice(),
            handshake.username.as_str().as_bytes(),
            password.as_slice(),
            salt.as_slice(),
            b_pub.as_slice(),
        ) {
            Some(found) => found,
            None => {
                return Err(Error::AuthSrp);
            },
        };
        self.hashed_password = Some(handshake.hashed_password.clone());
        let request = ChallengeRequest {
            header: RequestHeader { version: "1.0.1".to_owned() },
            request: ChallengeRequestBody {
                m: proof_and_key.proof,
                cpd,
                c: c.to_owned(),
                operation: "complete".to_owned(),
                username: handshake.username.clone(),
            },
        };
        let challenge = LoginChallenge {
            a: handshake.a.clone(),
            username: handshake.username.clone(),
            password,
            salt: salt.clone(),
            b_pub: b_pub.clone(),
            key: proof_and_key.key,
        };
        Ok((challenge, request))
    }

    /// Completes a login with the provisioning data that the caller has read
    /// from the bytes that `LoginChallenge::open` gave: the tokens of its
    /// bundle replace all earlier ones, the account name becomes the one
    /// the server spells, and the status field "au" of the server's reply
    /// decides the next state. On failure the session is as it was.
    pub fn complete_login(&mut self, response: &Dictionary, spd: Dictionary, now_ms: u64) -> (res:
        Result<LoginState, Error>)
        ensures
            match login_outcome(response@, spd@) {
                None => res matches Err(e) && e@ == ErrorView::Parse && *final(self) == *old(self),
                Some(state) => {
                    &&& res matches Ok(s)
                    &&& s@ == state
                    &&& final(self).spd == Some(spd)
                    &&& final(self)@.username == get_string(spd@, "acname"@)
                    &&& final(self)@.tokens == provisioned_tokens(spd@, now_ms)
                    &&& final(self)@.hashed_password == old(self)@.hashed_password
                    &&& final(self).anisette == old(self).anisette
                    &&& final(self).client_info == old(self).client_info
                },
            },
    {
        let status = match response.get_dict("Status") {
            Some(status) => status,
            None => {
                return Err(Error::Parse);
            },
        };
        let account_name = match spd.get_str("acname") {
            Some(name) => name.to_owned(),
            None => {
                return Err(Error::Parse);
            },
        };
        let state = login_state_for(status.get_str("au"));
        match spd.get_dict("t") {
            Some(bundle) => {
                self.tokens = read_bundle(bundle, now_ms);
            },
            None => {
                self.tokens = TokenStore::new();
            },
        }
        self.username = Some(account_name);
        self.spd = Some(spd);
        Ok(state)
    }
}

} // verus!
