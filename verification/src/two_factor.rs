//! The second-factor steps of a login, the token lookups of a session, and
//! the decision that drives a login to its end.

use vstd::prelude::*;

use crate::account::{AccountView, AppleAccount, LoginState, LoginStateView, PhoneNumber};
use crate::account::{check_error, response_error, AuthenticationExtras, VerifyBody, VerifyCode};
use crate::anisette::AnisetteProvider;
use crate::crypto::{base64_bytes, base64_decode, base64_encode, base64_text};
use crate::document::{get_string, Dictionary, Doc};
use crate::error::{Error, ErrorView};
use crate::http::{first_value, is_success, status_is_success, values_of, with_header};
use crate::http::{HeaderList, Method};
use crate::text::{concat3, string_from_utf8, views};
use crate::token::{
    parse_pet_fields, parse_token_fields, parsed_map, pet_of_fields, pet_service, token_of_fields,
    FetchedToken, ParsedToken, ParsedTokenView, TokenStore, TokenView, TtlPosition,
};

verus! {

/// A request of the second factor, ready to be sent.
#[derive(Debug)]
pub struct Request {
    /// The method.
    pub method: Method,
    /// The address.
    pub url: String,
    /// The headers, in order.
    pub headers: HeaderList,
    /// The JSON body, where the request has one.
    pub json: Option<VerifyBody>,
}

/// The identity token of a session: the base64 text of the session's
/// directory-services id, a colon and the identity-management token.
pub open spec fn identity_token(dsid: Seq<char>, idms_token: Seq<char>) -> Seq<char> {
    base64_text(vstd::utf8::encode_utf8(dsid + ":"@ + idms_token))
}

/// The identity token that provisioning data yields, if there is
/// provisioning data and it holds both identifiers. The directory-services
/// id that the login service knows a session by is the entry "adsid" of
/// the provisioning data, and the identity-management token its entry
/// "GsIdmsToken". The numeric id of the person, which the data holds under
/// "DsPrsId", is not part of the token.
pub open spec fn session_identity(spd: Option<Seq<(Seq<char>, Doc)>>) -> Option<Seq<char>> {
    match spd {
        None => None,
        Some(entries) => if get_string(entries, "adsid"@) is Some && get_string(
            entries,
            "GsIdmsToken"@,
        ) is Some {
            Some(
                identity_token(
                    get_string(entries, "adsid"@)->0,
                    get_string(entries, "GsIdmsToken"@)->0,
                ),
            )
        } else {
            None
        },
    }
}

/// The headers of a second-factor request: the device's headers, the content
/// type and what is accepted for all but the phone variant, the identity of
/// the development tool that the service expects, and the identity token.
pub open spec fn two_factor_headers(
    extra: Seq<(Seq<char>, Seq<char>)>,
    sms: bool,
    identity: Seq<char>,
) -> Seq<(Seq<char>, Seq<char>)> {
    let base = if sms {
        extra
    } else {
        with_header(
            with_header(extra, "Content-Type"@, "text/x-xml-plist"@),
            "Accept"@,
            "text/x-xml-plist"@,
        )
    };
    with_header(
        with_header(
            with_header(with_header(base, "User-Agent"@, "Xcode"@), "Accept-Language"@, "en-us"@),
            "X-Apple-App-Info"@,
            "com.apple.gs.xcode.auth"@,
        ),
        "X-Xcode-Version"@,
        "11.2 (11B41)"@,
    ).push(("X-Apple-Identity-Token"@, identity))
}

/// The token that the value of a token header stands for at `now_ms`: the
/// value is base64 of UTF-8 text of colon-separated fields.
pub open spec fn header_token(value: Seq<char>, position: TtlPosition, now_ms: u64) -> Option<
    ParsedTokenView,
> {
    match base64_bytes(value) {
        None => None,
        Some(bytes) => if vstd::utf8::valid_utf8(bytes) {
            token_of_fields(vstd::utf8::decode_utf8(bytes), position, now_ms)
        } else {
            None
        },
    }
}

/// The tokens that a list of header values stands for, or `None` where one
/// of them is malformed.
pub open spec fn header_tokens(values: Seq<Seq<char>>, position: TtlPosition, now_ms: u64) -> Option<
    Seq<ParsedTokenView>,
>
    decreases values.len(),
{
    if values.len() == 0 {
        Some(Seq::empty())
    } else {
        match header_tokens(values.drop_last(), position, now_ms) {
            None => None,
            Some(earlier) => match header_token(values.last(), position, now_ms) {
                None => None,
                Some(token) => Some(earlier.push(token)),
            },
        }
    }
}

/// The extended token that the value of its header stands for at `now_ms`.
pub open spec fn pet_token(value: Seq<char>, now_ms: u64) -> Option<TokenView> {
    match base64_bytes(value) {
        None => None,
        Some(bytes) => if vstd::utf8::valid_utf8(bytes) {
            pet_of_fields(vstd::utf8::decode_utf8(bytes), now_ms)
        } else {
            None
        },
    }
}

/// The values of the token headers of a response: those of the service
/// tokens first, then those of the heartbeat tokens.
pub open spec fn token_header_values(headers: Seq<(Seq<char>, Seq<char>)>) -> Seq<Seq<char>> {
    values_of(headers, "X-Apple-GS-Token"@) + values_of(headers, "X-Apple-HB-Token"@)
}

/// What the headers of a verified code grant: the new set of tokens and the
/// next state. The extended-token header makes the session `LoggedIn` and
/// adds its token; without it the login must start again.
pub open spec fn verification(
    headers: Seq<(Seq<char>, Seq<char>)>,
    position: TtlPosition,
    now_ms: u64,
) -> Result<(Map<Seq<char>, TokenView>, LoginStateView), ErrorView> {
    match header_tokens(token_header_values(headers), position, now_ms) {
        None => Err(ErrorView::Parse),
        Some(tokens) => match first_value(headers, "X-Apple-PE-Token"@) {
            None => Ok((parsed_map(tokens), LoginStateView::NeedsLogin)),
            Some(value) => match pet_token(value, now_ms) {
                None => Err(ErrorView::Parse),
                Some(pet) => Ok(
                    (parsed_map(tokens).insert(pet_service(), pet), LoginStateView::LoggedIn),
                ),
            },
        },
    }
}

/// Reads the value of a token header.
pub fn parse_token_header(value: &str, position: TtlPosition, now_ms: u64) -> (res: Option<
    ParsedToken,
>)
    ensures
        res is Some <==> header_token(value@, position, now_ms) is Some,
        res is Some ==> res->0@ == header_token(value@, position, now_ms)->0,
{
    let bytes = base64_decode(value)?;
    let decoded = string_from_utf8(bytes)?;
    parse_token_fields(decoded.as_str(), position, now_ms)
}

/// Reads the value of the extended-token header.
pub fn parse_pet_header(value: &str, now_ms: u64) -> (res: Option<FetchedToken>)
    ensures
        res is Some <==> pet_token(value@, now_ms) is Some,
        res is Some ==> res->0@ == pet_token(value@, now_ms)->0,
{
    let bytes = base64_decode(value)?;
    let decoded = string_from_utf8(bytes)?;
    parse_pet_fields(decoded.as_str(), now_ms)
}

fn parse_into(values: &Vec<String>, position: TtlPosition, now_ms: u64, out: &mut Vec<ParsedToken>) -> (ok:
    bool)
    ensures
        ok <==> header_tokens(views(values@), position, now_ms) is Some,
        ok ==> Seq::new(final(out)@.len(), |i: int| final(out)@[i]@) == Seq::new(
            old(out)@.len(),
            |i: int| old(out)@[i]@,
        ) + header_tokens(views(values@), position, now_ms)->0,
{
    let ghost all = views(values@);
    let ghost start = Seq::new(old(out)@.len(), |i: int| old(out)@[i]@);
    let n = values.len();
    let mut i: usize = 0;
    proof {
        assert(all.take(0) =~= Seq::<Seq<char>>::empty());
        assert(Seq::new(out@.len(), |i: int| out@[i]@) =~= start + Seq::<ParsedTokenView>::empty());
    }
    while i < n
        invariant
            n == values@.len(),
            i <= n,
            all == views(values@),
            header_tokens(all.take(i as int), position, now_ms) is Some,
            Seq::new(out@.len(), |i: int| out@[i]@) == start + header_tokens(
                all.take(i as int),
                position,
                now_ms,
            )->0,
        decreases n - i,
    {
        proof {
            let next = all.take(i as int + 1);
            assert(next.drop_last() =~= all.take(i as int));
            assert(next.last() == values@[i as int]@);
        }
        match parse_token_header(values[i].as_str(), position, now_ms) {
            Some(token) => {
                let ghost before = Seq::new(out@.len(), |i: int| out@[i]@);
                out.push(token);
                proof {
                    assert(Seq::new(out@.len(), |i: int| out@[i]@) =~= before.push(token@));
                    assert(Seq::new(out@.len(), |i: int| out@[i]@) =~= start + header_tokens(
                        all.take(i as int + 1),
                        position,
                        now_ms,
                    )->0);
                }
            },
            None => {
                proof {
                    lemma_header_tokens_prefix(all, i as int + 1, position, now_ms);
                }
                return false;
            },
        }
        i += 1;
    }
    proof {
        assert(all.take(n as int) =~= all);
    }
    true
}

proof fn lemma_header_tokens_prefix(
    values: Seq<Seq<char>>,
    i: int,
    position: TtlPosition,
    now_ms: u64,
)
    requires
        0 <= i <= values.len(),
        header_tokens(values.take(i), position, now_ms) is None,
    ensures
        header_tokens(values, position, now_ms) is None,
    decreases values.len() - i,
{
    if i < values.len() {
        let next = values.take(i + 1);
        assert(next.drop_last() =~= values.take(i));
        lemma_header_tokens_prefix(values, i + 1, position, now_ms);
    } else {
        assert(values.take(i) =~= values);
    }
}

proof fn lemma_header_tokens_concat(
    a: Seq<Seq<char>>,
    b: Seq<Seq<char>>,
    position: TtlPosition,
    now_ms: u64,
)
    ensures
        header_tokens(a + b, position, now_ms) is Some <==> header_tokens(a, position, now_ms)
            is Some && header_tokens(b, position, now_ms) is Some,
        header_tokens(a + b, position, now_ms) is Some ==> header_tokens(a + b, position, now_ms)->0
            == header_tokens(a, position, now_ms)->0 + header_tokens(b, position, now_ms)->0,
    decreases b.len(),
{
    if b.len() == 0 {
        assert(a + b =~= a);
        assert(header_tokens(a, position, now_ms) is Some ==> header_tokens(a, position, now_ms)->0
            + Seq::<ParsedTokenView>::empty() =~= header_tokens(a, position, now_ms)->0);
    } else {
        lemma_header_tokens_concat(a, b.drop_last(), position, now_ms);
        assert((a + b).drop_last() =~= a + b.drop_last());
        assert((a + b).last() == b.last());
        if header_tokens(a + b, position, now_ms) is Some {
            let x = header_tokens(a, position, now_ms)->0;
            let y = header_tokens(b.drop_last(), position, now_ms)->0;
            let t = header_token(b.last(), position, now_ms)->0;
            assert((x + y).push(t) =~= x + y.push(t));
        }
    }
}

/// Reads what the headers of a verified code grant.
pub fn read_verification(headers: &HeaderList, position: TtlPosition, now_ms: u64) -> (res: Result<
    (TokenStore, LoginState),
    Error,
>)
    ensures
        match verification(headers@, position, now_ms) {
            Err(e) => res matches Err(x) && x@ == e,
            Ok(granted) => res matches Ok(pair) && pair.0@ == granted.0 && pair.1@ == granted.1,
        },
{
    let service_values = headers.get_all("X-Apple-GS-Token");
    let heartbeat_values = headers.get_all("X-Apple-HB-Token");
    let mut parsed: Vec<ParsedToken> = Vec::new();
    proof {
        lemma_header_tokens_concat(
            views(service_values@),
            views(heartbeat_values@),
            position,
            now_ms,
        );
    }
    if !parse_into(&service_values, position, now_ms, &mut parsed) {
        return Err(Error::Parse);
    }
    if !parse_into(&heartbeat_values, position, now_ms, &mut parsed) {
        return Err(Error::Parse);
    }
    proof {
        let all = header_tokens(token_header_values(headers@), position, now_ms)->0;
        assert(Seq::new(parsed@.len(), |i: int| parsed@[i]@) =~= all);
    }
    let pet = match headers.get("X-Apple-PE-Token") {
        Some(value) => match parse_pet_header(value.as_str(), now_ms) {
            Some(pet) => Some(pet),
            None => {
                return Err(Error::Parse);
            },
        },
        None => None,
    };
    let mut store = TokenStore::from_parsed(parsed);
    match pet {
        Some(pet) => {
            store.insert("com.apple.gs.idms.pet".to_owned(), pet);
            Ok((store, LoginState::LoggedIn))
        },
        None => Ok((store, LoginState::NeedsLogin)),
    }
}

/// What a verification step makes of a session: the error it fails with,
/// or the tokens it grants and the next state. A session without
/// provisioning data cannot verify; a response with a non-zero status fails
/// with the server's code and message.
pub open spec fn verify_2fa_outcome(
    account: AccountView,
    headers: Seq<(Seq<char>, Seq<char>)>,
    body: Seq<(Seq<char>, Doc)>,
    now_ms: u64,
) -> Result<(Map<Seq<char>, TokenView>, LoginStateView), ErrorView> {
    if account.spd is None {
        Err(ErrorView::MissingPrecondition)
    } else {
        match response_error(body) {
            Some(e) => Err(e),
            None => verification(headers, TtlPosition::Third, now_ms),
        }
    }
}

/// What the phone variant of the verification makes of a session. Any
/// status but 200 means that the code was rejected.
pub open spec fn verify_sms_2fa_outcome(
    account: AccountView,
    status: u16,
    headers: Seq<(Seq<char>, Seq<char>)>,
    now_ms: u64,
) -> Result<(Map<Seq<char>, TokenView>, LoginStateView), ErrorView> {
    if account.spd is None {
        Err(ErrorView::MissingPrecondition)
    } else if status != 200 {
        Err(ErrorView::Bad2faCode)
    } else {
        verification(headers, TtlPosition::Fourth, now_ms)
    }
}

/// What a verification grants does not depend on the tokens that the
/// session held before: the new set replaces the old one whole.
pub proof fn lemma_verification_replaces_tokens(
    a: AccountView,
    b: AccountView,
    status: u16,
    headers: Seq<(Seq<char>, Seq<char>)>,
    body: Seq<(Seq<char>, Doc)>,
    now_ms: u64,
)
    requires
        a.spd is Some <==> b.spd is Some,
    ensures
        verify_2fa_outcome(a, headers, body, now_ms) == verify_2fa_outcome(
            b,
            headers,
            body,
            now_ms,
        ),
        verify_sms_2fa_outcome(a, status, headers, now_ms) == verify_sms_2fa_outcome(
            b,
            status,
            headers,
            now_ms,
        ),
{
}

/// The text of the transport failure for a status that reports no success.
pub open spec fn refused_status(status: u16) -> Seq<char> {
    "HTTP status "@ + crate::text::decimal_digits(status as nat)
}

/// The transport failure for a status that reports no success. It is told
/// apart from what the server says of a request's content, and from a
/// refused key exchange.
pub fn transport_refused(status: u16) -> (res: Error)
    ensures
        res@ == ErrorView::ReqwestError(refused_status(status)),
{
    let number = crate::text::u64_to_string(status as u64);
    Error::ReqwestError(crate::text::concat2("HTTP status ", number.as_str()))
}

/// What a lookup of a token decides.
#[derive(Debug)]
pub enum TokenLookup {
    /// The token is cached and has not expired.
    Found(String),
    /// There is no token to be had for the service.
    Missing,
    /// The cache is empty or the token has expired: one login with these
    /// credentials may renew it.
    Relogin { username: String, hashed_password: Vec<u8> },
}

/// The mathematical model of a `TokenLookup`.
pub ghost enum TokenPlan {
    Found(Seq<char>),
    Missing,
    Relogin { username: Seq<char>, hashed_password: Seq<u8> },
}

impl View for TokenLookup {
    type V = TokenPlan;

    open spec fn view(&self) -> TokenPlan {
        match self {
            TokenLookup::Found(token) => TokenPlan::Found(token@),
            TokenLookup::Missing => TokenPlan::Missing,
            TokenLookup::Relogin { username, hashed_password } => TokenPlan::Relogin {
                username: username@,
                hashed_password: hashed_password@,
            },
        }
    }
}

/// What a lookup of the token of `service` decides at `now_ms`. A cached
/// token that has not expired is the answer. Without one, a single login is
/// asked for, if the session has credentials to log in with; a session
/// without them has no token to give.
pub open spec fn token_plan(account: AccountView, service: Seq<char>, now_ms: u64) -> TokenPlan {
    if account.tokens.contains_key(service) && (now_ms as int)
        < account.tokens[service].expiration {
        TokenPlan::Found(account.tokens[service].token)
    } else if account.username is Some && account.hashed_password is Some {
        TokenPlan::Relogin {
            username: account.username->0,
            hashed_password: account.hashed_password->0,
        }
    } else {
        TokenPlan::Missing
    }
}

/// The answer of a lookup once the login it asked for has ended in
/// `outcome`: the token that the session now holds for the service if the
/// login ended `LoggedIn`, and none otherwise. There is no second login.
pub open spec fn token_after_login(
    account: AccountView,
    service: Seq<char>,
    outcome: Result<LoginStateView, ErrorView>,
) -> Option<Seq<char>> {
    if outcome == Ok::<LoginStateView, ErrorView>(LoginStateView::LoggedIn)
        && account.tokens.contains_key(service) {
        Some(account.tokens[service].token)
    } else {
        None
    }
}

/// Where a lookup of a token stands.
pub ghost enum RunState {
    /// Nothing has been asked yet.
    Start,
    /// A login has been asked for and has not ended.
    AwaitingLogin,
    /// The lookup has its answer.
    Finished(Option<Seq<char>>),
}

/// What happens to a lookup of a token.
pub ghost enum RunEvent {
    /// The token of a service is asked for, of a session as it is at a
    /// time.
    Begin { account: AccountView, service: Seq<char>, now_ms: u64 },
    /// A login has ended, and has left the session as it now is.
    LoginEnded { account: AccountView, service: Seq<char>, outcome: Result<LoginStateView, ErrorView> },
}

/// What a lookup of a token asks of its caller.
pub ghost enum RunAction {
    /// Log in with these credentials.
    Login { username: Seq<char>, hashed_password: Seq<u8> },
    /// Take the answer.
    Answer(Option<Seq<char>>),
    /// Nothing: the event does not belong to where the lookup stands.
    Ignore,
}

/// One step of a lookup: `get_token` is the step from `Start`, and
/// `get_token_after_login` the step from `AwaitingLogin`.
pub open spec fn run_step(state: RunState, event: RunEvent) -> (RunState, RunAction) {
    match (state, event) {
        (RunState::Start, RunEvent::Begin { account, service, now_ms }) => match token_plan(
            account,
            service,
            now_ms,
        ) {
            TokenPlan::Found(token) => (
                RunState::Finished(Some(token)),
                RunAction::Answer(Some(token)),
            ),
            TokenPlan::Missing => (RunState::Finished(None), RunAction::Answer(None)),
            TokenPlan::Relogin { username, hashed_password } => (
                RunState::AwaitingLogin,
                RunAction::Login { username, hashed_password },
            ),
        },
        (RunState::AwaitingLogin, RunEvent::LoginEnded { account, service, outcome }) => {
            let answer = token_after_login(account, service, outcome);
            (RunState::Finished(answer), RunAction::Answer(answer))
        },
        _ => (state, RunAction::Ignore),
    }
}

/// The number of logins that a lookup asks for while the given events
/// happen to it, one after the other.
pub open spec fn logins_in_run(state: RunState, events: Seq<RunEvent>) -> nat
    decreases events.len(),
{
    if events.len() == 0 {
        0
    } else {
        let next = run_step(state, events[0]);
        let asked: nat = if next.1 is Login {
            1
        } else {
            0
        };
        asked + logins_in_run(next.0, events.skip(1))
    }
}

proof fn lemma_no_login_after_the_first(state: RunState, events: Seq<RunEvent>)
    requires
        !(state is Start),
    ensures
        logins_in_run(state, events) == 0,
    decreases events.len(),
{
    if events.len() > 0 {
        lemma_no_login_after_the_first(run_step(state, events[0]).0, events.skip(1));
    }
}

/// Whatever happens to a lookup of a token, and however a login that it
/// asked for ends, it asks for at most one login.
pub proof fn lemma_at_most_one_login(events: Seq<RunEvent>)
    ensures
        logins_in_run(RunState::Start, events) <= 1,
    decreases events.len(),
{
    if events.len() > 0 {
        let next = run_step(RunState::Start, events[0]);
        if next.0 is Start {
            lemma_at_most_one_login(events.skip(1));
        } else {
            lemma_no_login_after_the_first(next.0, events.skip(1));
        }
    }
}

/// A lookup of a token that is missing or has expired asks for exactly one
/// login where the session has credentials, whatever happens afterwards.
pub proof fn lemma_expired_token_asks_one_login(
    account: AccountView,
    service: Seq<char>,
    now_ms: u64,
    later: Seq<RunEvent>,
)
    requires
        !account.tokens.contains_key(service) || account.tokens[service].expiration <= now_ms,
        account.username is Some,
        account.hashed_password is Some,
    ensures
        logins_in_run(
            RunState::Start,
            seq![(RunEvent::Begin { account, service, now_ms })] + later,
        ) == 1,
{
    let events = seq![(RunEvent::Begin { account, service, now_ms })] + later;
    assert(events[0] == (RunEvent::Begin { account, service, now_ms }));
    assert(events.skip(1) =~= later);
    lemma_no_login_after_the_first(RunState::AwaitingLogin, later);
}

/// What the driver of a login does next.
#[derive(Debug)]
pub enum LoginAction {
    /// Ask for the code and verify it.
    Verify2fa,
    /// Push a code to the trusted devices, then send one to the phone with
    /// this id.
    SendCodes(u32),
    /// Ask for the code and verify it with this request.
    VerifySms2fa(VerifyBody),
    /// Log in again with the credentials.
    Login,
    /// The session is authenticated.
    Done,
    /// The login has failed.
    Fail(Error),
}

/// Whether `action` is what follows `state` for a session that does or does
/// not hold an extended token. A required extra step ends the login: in
/// success where the token is there, in failure where it is not.
pub open spec fn is_next_action(state: LoginStateView, has_pet: bool, action: LoginAction) -> bool {
    match state {
        LoginStateView::Needs2FAVerification => action is Verify2fa,
        LoginStateView::NeedsSMS2FA => action == LoginAction::SendCodes(1),
        LoginStateView::NeedsDevice2FA => action == LoginAction::SendCodes(1),
        LoginStateView::NeedsSMS2FAVerification(body) => action matches LoginAction::VerifySms2fa(b)
            && b@ == body,
        LoginStateView::NeedsLogin => action is Login,
        LoginStateView::LoggedIn => action is Done,
        LoginStateView::NeedsExtraStep(step) => if has_pet {
            action is Done
        } else {
            action matches LoginAction::Fail(e) && e@ == ErrorView::ExtraStep(step)
        },
    }
}

impl<T: AnisetteProvider> AppleAccount<T> {
    /// The extended token of the session, expired or not.
    pub fn get_pet(&self) -> (res: Option<String>)
        ensures
            res is Some <==> self@.tokens.contains_key(pet_service()),
            res is Some ==> res->0@ == self@.tokens[pet_service()].token,
    {
        match self.tokens.find("com.apple.gs.idms.pet") {
            Some(token) => Some(token.token.clone()),
            None => None,
        }
    }

    /// The first and last name of the account holder. A session without
    /// provisioning data has none to give; provisioning data without both
    /// names is malformed.
    pub fn get_name(&self) -> (res: Result<(String, String), Error>)
        ensures
            match self@.spd {
                None => res matches Err(e) && e@ == ErrorView::MissingPrecondition,
                Some(spd) => if get_string(spd, "fn"@) is Some && get_string(spd, "ln"@) is Some {
                    res matches Ok(names) && names.0@ == get_string(spd, "fn"@)->0 && names.1@
                        == get_string(spd, "ln"@)->0
                } else {
                    res matches Err(e) && e@ == ErrorView::Parse
                },
            },
    {
        let spd = match &self.spd {
            Some(spd) => spd,
            None => {
                return Err(Error::MissingPrecondition);
            },
        };
        let first = match spd.get_str("fn") {
            Some(first) => first,
            None => {
                return Err(Error::Parse);
            },
        };
        let last = match spd.get_str("ln") {
            Some(last) => last,
            None => {
                return Err(Error::Parse);
            },
        };
        Ok((first.to_owned(), last.to_owned()))
    }

    /// Looks up the token of a service at `now_ms`: the cached token if it
    /// has not expired, and otherwise the request for one login.
    pub fn get_token(&self, service: &str, now_ms: u64) -> (res: TokenLookup)
        ensures
            res@ == token_plan(self@, service@, now_ms),
    {
        match self.tokens.find(service) {
            None => {},
            Some(token) => {
                if token.is_valid(now_ms) {
                    return TokenLookup::Found(token.token.clone());
                }
            },
        }
        match (&self.username, &self.hashed_password) {
            (Some(username), Some(hashed_password)) => TokenLookup::Relogin {
                username: username.clone(),
                hashed_password: hashed_password.clone(),
            },
            _ => TokenLookup::Missing,
        }
    }

    /// Answers a lookup after the login it asked for: the token that the
    /// session now holds if the login ended `LoggedIn`, and none otherwise.
    pub fn get_token_after_login(&self, service: &str, outcome: &Result<LoginState, Error>) -> (res:
        Option<String>)
        ensures
            match res {
                Some(token) => Some(token@),
                None => None,
            } == token_after_login(
                self@,
                service@,
                match outcome {
                    Ok(state) => Ok(state@),
                    Err(e) => Err(e@),
                },
            ),
    {
        match outcome {
            Ok(LoginState::LoggedIn) => match self.tokens.find(service) {
                Some(token) => Some(token.token.clone()),
                None => None,
            },
            _ => None,
        }
    }

    /// Decides what the driver of a login does after a step has ended in
    /// `state`.
    pub fn login_with_anisette(&self, state: LoginState) -> (res: LoginAction)
        ensures
            is_next_action(state@, self@.tokens.contains_key(pet_service()), res),
    {
        match state {
            LoginState::Needs2FAVerification => LoginAction::Verify2fa,
            LoginState::NeedsSMS2FA => LoginAction::SendCodes(1),
            LoginState::NeedsDevice2FA => LoginAction::SendCodes(1),
            LoginState::NeedsSMS2FAVerification(body) => LoginAction::VerifySms2fa(body),
            LoginState::NeedsLogin => LoginAction::Login,
            LoginState::LoggedIn => LoginAction::Done,
            LoginState::NeedsExtraStep(step) => {
                if self.get_pet().is_some() {
                    LoginAction::Done
                } else {
                    LoginAction::Fail(Error::ExtraStep(step))
                }
            },
        }
    }

    /// The headers of a second-factor request. `extra` are the headers of
    /// the device. A session without provisioning data, or whose
    /// provisioning data lacks the two identifiers, has no identity to send.
    pub fn build_2fa_headers(&self, sms: bool, extra: &HeaderList) -> (res: Result<HeaderList, Error>)
        ensures
            match session_identity(self@.spd) {
                None => res matches Err(e) && e@ == ErrorView::MissingPrecondition,
                Some(identity) => res matches Ok(headers) && headers@ == two_factor_headers(
                    extra@,
                    sms,
                    identity,
                ),
            },
    {
        let spd = match &self.spd {
            Some(spd) => spd,
            None => {
                return Err(Error::MissingPrecondition);
            },
        };
        let adsid = match spd.get_str("adsid") {
            Some(adsid) => adsid,
            None => {
                return Err(Error::MissingPrecondition);
            },
        };
        let token = match spd.get_str("GsIdmsToken") {
            Some(token) => token,
            None => {
                return Err(Error::MissingPrecondition);
            },
        };
        let pair = concat3(adsid, ":", token);
        let identity = base64_encode(pair.as_str().as_bytes());
        let mut headers = HeaderList::new();
        headers.extend(extra);
        assert(headers@ =~= extra@);
        if !sms {
            headers.insert("Content-Type", "text/x-xml-plist");
            headers.insert("Accept", "text/x-xml-plist");
        }
        headers.insert("User-Agent", "Xcode");
        headers.insert("Accept-Language", "en-us");
        headers.insert("X-Apple-App-Info", "com.apple.gs.xcode.auth");
        headers.insert("X-Xcode-Version", "11.2 (11B41)");
        headers.append("X-Apple-Identity-Token", identity.as_str());
        Ok(headers)
    }

    /// The request that pushes a code to the trusted devices.
    pub fn send_2fa_to_devices_request(&self, extra: &HeaderList) -> (res: Result<Request, Error>)
        ensures
            match session_identity(self@.spd) {
                None => res matches Err(e) && e@ == ErrorView::MissingPrecondition,
                Some(identity) => {
                    &&& res matches Ok(request)
                    &&& request.method == Method::Get
                    &&& request.url@ == "https://gsa.apple.com/auth/verify/trusteddevice"@
                    &&& request.headers@ == two_factor_headers(extra@, false, identity)
                    &&& request.json is None
                },
            },
    {
        let headers = self.build_2fa_headers(false, extra)?;
        Ok(
            Request {
                method: Method::Get,
                url: "https://gsa.apple.com/auth/verify/trusteddevice".to_owned(),
                headers,
                json: None,
            },
        )
    }

    /// Takes the status of the answer to the push request: success means
    /// that a code is on its way and must be verified, anything else is a
    /// failure of the transport that names the status. The session is left
    /// as it is.
    pub fn send_2fa_to_devices(&self, status: u16) -> (res: Result<LoginState, Error>)
        ensures
            self@.spd is None ==> (res matches Err(e) && e@ == ErrorView::MissingPrecondition),
            self@.spd is Some && is_success(status) ==> (res matches Ok(s) && s@
                == LoginStateView::Needs2FAVerification),
            self@.spd is Some && !is_success(status) ==> (res matches Err(e) && e@
                == ErrorView::ReqwestError(refused_status(status))),
    {
        if self.spd.is_none() {
            return Err(Error::MissingPrecondition);
        }
        if !status_is_success(status) {
            return Err(transport_refused(status));
        }
        Ok(LoginState::Needs2FAVerification)
    }

    /// The request that sends a code to the trusted phone with id
    /// `phone_id`. Its body is the pending request that the verification
    /// must echo.
    pub fn send_sms_2fa_to_devices_request(&self, phone_id: u32, extra: &HeaderList) -> (res: Result<
        Request,
        Error,
    >)
        ensures
            match session_identity(self@.spd) {
                None => res matches Err(e) && e@ == ErrorView::MissingPrecondition,
                Some(identity) => {
                    &&& res matches Ok(request)
                    &&& request.method == Method::Put
                    &&& request.url@ == "https://gsa.apple.com/auth/verify/phone"@
                    &&& request.headers@ == two_factor_headers(extra@, true, identity).push(
                        ("Accept"@, "application/json"@),
                    )
                    &&& request.json matches Some(body)
                    &&& body@.phone_id == phone_id
                    &&& body@.mode == "sms"@
                    &&& body@.security_code is None
                },
            },
    {
        let mut headers = self.build_2fa_headers(true, extra)?;
        headers.append("Accept", "application/json");
        let body = VerifyBody {
            phone_number: PhoneNumber { id: phone_id },
            mode: "sms".to_owned(),
            security_code: None,
        };
        Ok(
            Request {
                method: Method::Put,
                url: "https://gsa.apple.com/auth/verify/phone".to_owned(),
                headers,
                json: Some(body),
            },
        )
    }

    /// Takes the status of the answer to the phone request: success hands
    /// the pending request on, unchanged, for the verification to echo;
    /// anything else is a failure of the transport that names the status.
    pub fn send_sms_2fa_to_devices(&self, status: u16, body: VerifyBody) -> (res: Result<
        LoginState,
        Error,
    >)
        ensures
            self@.spd is None ==> (res matches Err(e) && e@ == ErrorView::MissingPrecondition),
            self@.spd is Some && is_success(status) ==> (res matches Ok(
                LoginState::NeedsSMS2FAVerification(pending),
            ) && pending == body),
            self@.spd is Some && !is_success(status) ==> (res matches Err(e) && e@
                == ErrorView::ReqwestError(refused_status(status))),
    {
        if self.spd.is_none() {
            return Err(Error::MissingPrecondition);
        }
        if !status_is_success(status) {
            return Err(transport_refused(status));
        }
        Ok(LoginState::NeedsSMS2FAVerification(body))
    }

    /// The request that validates a code from a trusted device.
    pub fn verify_2fa_request(&self, code: &str, extra: &HeaderList) -> (res: Result<Request, Error>)
        ensures
            match session_identity(self@.spd) {
                None => res matches Err(e) && e@ == ErrorView::MissingPrecondition,
                Some(identity) => {
                    &&& res matches Ok(request)
                    &&& request.method == Method::Get
                    &&& request.url@ == "https://gsa.apple.com/grandslam/GsService2/validate"@
                    &&& request.headers@ == two_factor_headers(extra@, false, identity).push(
                        ("security-code"@, code@),
                    )
                    &&& request.json is None
                },
            },
    {
        let mut headers = self.build_2fa_headers(false, extra)?;
        headers.append("security-code", code);
        Ok(
            Request {
                method: Method::Get,
                url: "https://gsa.apple.com/grandslam/GsService2/validate".to_owned(),
                headers,
                json: None,
            },
        )
    }

    /// Takes the answer to a validated code. The tokens of its headers
    /// replace all earlier ones; the extended-token header makes the session
    /// `LoggedIn`, and without it the login must start again. On failure
    /// the session is as it was.
    pub fn verify_2fa(&mut self, headers: &HeaderList, body: &Dictionary, now_ms: u64) -> (res: Result<
        LoginState,
        Error,
    >)
        ensures
            match verify_2fa_outcome(old(self)@, headers@, body@, now_ms) {
                Err(e) => res matches Err(x) && x@ == e && *final(self) == *old(self),
                Ok(granted) => {
                    &&& res matches Ok(s)
                    &&& s@ == granted.1
                    &&& final(self)@.tokens == granted.0
                    &&& final(self).spd == old(self).spd
                    &&& final(self).username == old(self).username
                    &&& final(self).hashed_password == old(self).hashed_password
                    &&& final(self).anisette == old(self).anisette
                    &&& final(self).client_info == old(self).client_info
                },
            },
    {
        if self.spd.is_none() {
            return Err(Error::MissingPrecondition);
        }
        match check_error(body) {
            Err(e) => {
                return Err(e);
            },
            Ok(()) => {},
        }
        let (tokens, state) = read_verification(headers, TtlPosition::Third, now_ms)?;
        self.tokens = tokens;
        Ok(state)
    }

    /// The request that validates a code from the phone. The pending
    /// request goes back as it came, with the code attached.
    pub fn verify_sms_2fa_request(&self, code: String, body: VerifyBody, extra: &HeaderList) -> (res:
        Result<Request, Error>)
        ensures
            match session_identity(self@.spd) {
                None => res matches Err(e) && e@ == ErrorView::MissingPrecondition,
                Some(identity) => {
                    &&& res matches Ok(request)
                    &&& request.method == Method::Post
                    &&& request.url@ == "https://gsa.apple.com/auth/verify/phone/securitycode"@
                    &&& request.headers@ == two_factor_headers(extra@, true, identity).push(
                        ("accept"@, "application/json"@),
                    )
                    &&& request.json matches Some(sent)
                    &&& sent.phone_number == body.phone_number
                    &&& sent.mode == body.mode
                    &&& sent@.security_code == Some(code@)
                },
            },
    {
        let mut headers = self.build_2fa_headers(true, extra)?;
        headers.append("accept", "application/json");
        let mut body = body;
        body.security_code = Some(VerifyCode { code });
        Ok(
            Request {
                method: Method::Post,
                url: "https://gsa.apple.com/auth/verify/phone/securitycode".to_owned(),
                headers,
                json: Some(body),
            },
        )
    }

    /// Takes the answer to a code from the phone. Any status but 200 means
    /// that the code was rejected. Otherwise the headers are read as after
    /// a code from a trusted device, with the time-to-live one field further
    /// right.
    pub fn verify_sms_2fa(&mut self, status: u16, headers: &HeaderList, now_ms: u64) -> (res: Result<
        LoginState,
        Error,
    >)
        ensures
            match verify_sms_2fa_outcome(old(self)@, status, headers@, now_ms) {
                Err(e) => res matches Err(x) && x@ == e && *final(self) == *old(self),
                Ok(granted) => {
                    &&& res matches Ok(s)
                    &&& s@ == granted.1
                    &&& final(self)@.tokens == granted.0
                    &&& final(self).spd == old(self).spd
                    &&& final(self).username == old(self).username
                    &&& final(self).hashed_password == old(self).hashed_password
                    &&& final(self).anisette == old(self).anisette
                    &&& final(self).client_info == old(self).client_info
                },
            },
    {
        if self.spd.is_none() {
            return Err(Error::MissingPrecondition);
        }
        if status != 200 {
            return Err(Error::Bad2faCode);
        }
        let (tokens, state) = read_verification(headers, TtlPosition::Fourth, now_ms)?;
        self.tokens = tokens;
        Ok(state)
    }

    /// The request for what the service offers for the second factor.
    pub fn get_auth_extras_request(&self, extra: &HeaderList) -> (res: Result<Request, Error>)
        ensures
            match session_identity(self@.spd) {
                None => res matches Err(e) && e@ == ErrorView::MissingPrecondition,
                Some(identity) => {
                    &&& res matches Ok(request)
                    &&& request.method == Method::Get
                    &&& request.url@ == "https://gsa.apple.com/auth"@
                    &&& request.headers@ == two_factor_headers(extra@, true, identity).push(
                        ("Accept"@, "application/json"@),
                    )
                    &&& request.json is None
                },
            },
    {
        let mut headers = self.build_2fa_headers(true, extra)?;
        headers.append("Accept", "application/json");
        Ok(
            Request {
                method: Method::Get,
                url: "https://gsa.apple.com/auth".to_owned(),
                headers,
                json: None,
            },
        )
    }
}

/// Whether the answer to the request for second-factor options can be read
/// at all: status 403 means that the configuration is withheld.
pub fn auth_extras_available(status: u16) -> (res: Result<(), Error>)
    ensures
        status == 403 ==> (res matches Err(e) && e@ == ErrorView::FailedGetting2FAConfig),
        status != 403 ==> res is Ok,
{
    if status == 403 {
        Err(Error::FailedGetting2FAConfig)
    } else {
        Ok(())
    }
}

/// Takes the decoded answer to the request for second-factor options. An
/// account without trusted phone numbers cannot go on. Status 201 means that
/// a code has already been sent to the first number: the state then carries
/// the pending request for it.
pub fn get_auth_extras(status: u16, extras: AuthenticationExtras) -> (res: Result<
    AuthenticationExtras,
    Error,
>)
    ensures
        status == 403 ==> (res matches Err(e) && e@ == ErrorView::FailedGetting2FAConfig),
        status != 403 && extras.trusted_phone_numbers@.len() == 0 ==> (res matches Err(e) && e@
            == ErrorView::HardwareKeyError),
        status != 403 && extras.trusted_phone_numbers@.len() > 0 ==> {
            &&& res matches Ok(found)
            &&& found.trusted_phone_numbers == extras.trusted_phone_numbers
            &&& found.recovery_url == extras.recovery_url
            &&& found.cant_use_phone_number_url == extras.cant_use_phone_number_url
            &&& found.dont_have_access_url == extras.dont_have_access_url
            &&& found.recovery_web_url == extras.recovery_web_url
            &&& found.repair_phone_number_url == extras.repair_phone_number_url
            &&& found.repair_phone_number_web_url == extras.repair_phone_number_web_url
            &&& status != 201 ==> found.new_state == extras.new_state
            &&& status == 201 ==> (found.new_state matches Some(
                LoginState::NeedsSMS2FAVerification(body),
            ) && body@.phone_id == extras.trusted_phone_numbers@[0].id && body@.mode == "sms"@
                && body@.security_code is None)
        },
{
    if status == 403 {
        return Err(Error::FailedGetting2FAConfig);
    }
    if extras.trusted_phone_numbers.len() == 0 {
        return Err(Error::HardwareKeyError);
    }
    let mut extras = extras;
    if status == 201 {
        let id = extras.trusted_phone_numbers[0].id;
        extras.new_state = Some(
            LoginState::NeedsSMS2FAVerification(
                VerifyBody {
                    phone_number: PhoneNumber { id },
                    mode: "sms".to_owned(),
                    security_code: None,
                },
            ),
        );
    }
    Ok(extras)
}

} // verus!
