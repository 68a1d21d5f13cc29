//! The requests a logged-in session sends to keep the account's devices in
//! step: liveness and sign-out notices, teardown, the trust circle and the
//! account page.

use vstd::prelude::*;

use crate::account::{AppleAccount, CircleResponse, LoginState, LoginStateView};
use crate::anisette::{AnisetteHeaders, AnisetteProvider};
use crate::crypto::{base64_encode, base64_text};
use crate::document::{get_string, string_array, Dictionary, Doc, PlistValue};
use crate::error::{Error, ErrorView};
use crate::http::{is_success, status_is_success, with_header, without_name, HeaderList};
use crate::text::{concat2, concat3, trim, trimmed, views};
use crate::token::pet_service;
use crate::two_factor::session_identity;

verus! {

/// A request whose body is a property list.
#[derive(Debug)]
pub struct PlistRequest {
    /// The address.
    pub url: String,
    /// The headers, in order.
    pub headers: HeaderList,
    /// The body.
    pub body: Dictionary,
}

impl PlistRequest {
    /// The body of the request as an XML property list.
    pub fn encode_body(&self) -> (res: Result<Vec<u8>, Error>)
        ensures
            res is Ok <==> crate::document::plist_xml(Doc::Dictionary(self.body@)) is Some,
            res matches Ok(bytes) ==> bytes@ == crate::document::plist_xml(
                Doc::Dictionary(self.body@),
            )->0,
            res matches Err(e) ==> e@ == ErrorView::PlistError(crate::util::not_writable()),
    {
        crate::util::plist_to_buf(&self.body)
    }
}

/// The alternate directory-services id of a session.
pub open spec fn session_adsid(spd: Option<Seq<(Seq<char>, Doc)>>) -> Option<Seq<char>> {
    match spd {
        Some(entries) => get_string(entries, "adsid"@),
        None => None,
    }
}

/// The value of a header that names the account and something of it: the
/// base64 text of the alternate directory-services id, a colon, and `what`.
pub open spec fn account_header(adsid: Seq<char>, what: Seq<char>) -> Seq<char> {
    base64_text(vstd::utf8::encode_utf8(adsid + ":"@ + what))
}

/// Builds the value of a header that names the account and something of it.
pub fn build_account_header(adsid: &str, what: &str) -> (res: String)
    ensures
        res@ == account_header(adsid@, what@),
{
    let pair = concat3(adsid, ":", what);
    base64_encode(pair.as_str().as_bytes())
}

/// The envelope of a request: an empty header and the request's data.
pub open spec fn packet(data: Seq<(Seq<char>, Doc)>) -> Seq<(Seq<char>, Doc)> {
    seq![("Header"@, Doc::Dictionary(Seq::empty())), ("Request"@, Doc::Dictionary(data))]
}

/// Wraps the data of a request in its envelope.
pub fn build_packet(data: Dictionary) -> (res: Dictionary)
    ensures
        res@ == packet(data@),
{
    let mut out = Dictionary::new();
    out.push("Header", PlistValue::dictionary(Dictionary::new()));
    out.push("Request", PlistValue::dictionary(data));
    assert(out@ =~= packet(data@));
    out
}

/// The data of a sign-out notice for `logout`, with the services that stay
/// signed in.
pub open spec fn signout_data(
    device_name: Seq<char>,
    logout: Seq<char>,
    services: Seq<Seq<char>>,
) -> Seq<(Seq<char>, Doc)> {
    seq![
        ("cdpStatus"@, Doc::Boolean(false)),
        ("circleStatus"@, Doc::Boolean(false)),
        ("dn"@, Doc::String(device_name)),
        ("event"@, Doc::String("signout-"@ + logout)),
        ("loc"@, Doc::String("en_US"@)),
        ("otStatus"@, Doc::Boolean(false)),
        ("prkgen"@, Doc::Boolean(true)),
        ("rep"@, Doc::Integer(1)),
        ("services"@, string_array(services)),
        ("ut"@, Doc::Integer(1)),
    ]
}

/// The data of a liveness notice, with the push token where the client has
/// one.
pub open spec fn liveness_data(
    device_name: Seq<char>,
    services: Seq<Seq<char>>,
    push_token: Option<Seq<char>>,
) -> Seq<(Seq<char>, Doc)> {
    let data = seq![
        ("cdpStatus"@, Doc::Boolean(true)),
        ("cfuids"@, Doc::Array(Seq::empty())),
        ("circleStatus"@, Doc::Boolean(true)),
        ("denyICloudWebAccess"@, Doc::Boolean(true)),
        ("dn"@, Doc::String(device_name)),
        ("event"@, Doc::String("liveness"@)),
        ("icloudMailEnabled"@, Doc::Boolean(false)),
        ("icscStatus"@, Doc::Boolean(true)),
        ("isLegacyContactAssignee"@, Doc::Integer(1)),
        ("isRecoveryContactAssignee"@, Doc::Integer(1)),
        ("loc"@, Doc::String("en_US"@)),
        ("otStatus"@, Doc::Boolean(true)),
        ("pkc"@, Doc::String("1"@)),
        ("prkgen"@, Doc::Boolean(true)),
        ("reason"@, Doc::Integer(5)),
        ("rep"@, Doc::Integer(1)),
        ("services"@, string_array(services)),
        ("signinPartition"@, Doc::Integer(1)),
        ("stingrayDisabledIndicator"@, Doc::Boolean(false)),
        ("usrt"@, Doc::Integer(4)),
        ("ut"@, Doc::Integer(1)),
    ];
    match push_token {
        Some(token) => data.push(("ptkn"@, Doc::String(token))),
        None => data,
    }
}

/// The data of a notice: a sign-out notice where `logout` names what is
/// signed out, and a liveness notice otherwise.
pub open spec fn postdata(
    device_name: Seq<char>,
    logout: Option<Seq<char>>,
    services: Seq<Seq<char>>,
    push_token: Option<Seq<char>>,
) -> Seq<(Seq<char>, Doc)> {
    match logout {
        Some(what) => signout_data(device_name, what, services),
        None => liveness_data(device_name, services, push_token),
    }
}

/// Builds the data of a sign-out notice.
pub fn build_signout_data(device_name: &str, logout: &str, services: &Vec<String>) -> (res:
    Dictionary)
    ensures
        res@ == signout_data(device_name@, logout@, views(services@)),
{
    let event = concat2("signout-", logout);
    let mut out = Dictionary::new();
    out.push("cdpStatus", PlistValue::Boolean(false));
    out.push("circleStatus", PlistValue::Boolean(false));
    out.push("dn", PlistValue::text(device_name));
    out.push("event", PlistValue::text(event.as_str()));
    out.push("loc", PlistValue::text("en_US"));
    out.push("otStatus", PlistValue::Boolean(false));
    out.push("prkgen", PlistValue::Boolean(true));
    out.push("rep", PlistValue::Integer(1));
    out.push("services", PlistValue::strings(services));
    out.push("ut", PlistValue::Integer(1));
    assert(out@ =~= signout_data(device_name@, logout@, views(services@)));
    out
}

/// Builds the data of a liveness notice.
pub fn build_liveness_data(device_name: &str, services: &Vec<String>, push_token: &Option<String>) -> (res:
    Dictionary)
    ensures
        res@ == liveness_data(
            device_name@,
            views(services@),
            crate::account::opt_text(*push_token),
        ),
{
    let empty: Vec<PlistValue> = Vec::new();
    let no_ids = PlistValue::Array(empty);
    assert(no_ids@->Array_0 =~= Seq::<Doc>::empty());
    let mut out = Dictionary::new();
    out.push("cdpStatus", PlistValue::Boolean(true));
    out.push("cfuids", no_ids);
    out.push("circleStatus", PlistValue::Boolean(true));
    out.push("denyICloudWebAccess", PlistValue::Boolean(true));
    out.push("dn", PlistValue::text(device_name));
    out.push("event", PlistValue::text("liveness"));
    out.push("icloudMailEnabled", PlistValue::Boolean(false));
    out.push("icscStatus", PlistValue::Boolean(true));
    out.push("isLegacyContactAssignee", PlistValue::Integer(1));
    out.push("isRecoveryContactAssignee", PlistValue::Integer(1));
    out.push("loc", PlistValue::text("en_US"));
    out.push("otStatus", PlistValue::Boolean(true));
    out.push("pkc", PlistValue::text("1"));
    out.push("prkgen", PlistValue::Boolean(true));
    out.push("reason", PlistValue::Integer(5));
    out.push("rep", PlistValue::Integer(1));
    out.push("services", PlistValue::strings(services));
    out.push("signinPartition", PlistValue::Integer(1));
    out.push("stingrayDisabledIndicator", PlistValue::Boolean(false));
    out.push("usrt", PlistValue::Integer(4));
    out.push("ut", PlistValue::Integer(1));
    assert(out@ =~= liveness_data(device_name@, views(services@), None));
    match push_token {
        Some(token) => {
            out.push("ptkn", PlistValue::text(token.as_str()));
        },
        None => {},
    }
    out
}

/// The data of a teardown request.
pub open spec fn teardown_data(action: Seq<char>, cmd: u32, txnid: Seq<char>) -> Seq<
    (Seq<char>, Doc),
> {
    seq![
        ("action"@, Doc::String(action)),
        ("cmd"@, Doc::Integer(cmd as int)),
        ("prkgen"@, Doc::Boolean(false)),
        ("txnid"@, Doc::String(txnid)),
    ]
}

/// The headers that open every request of this kind: the content type and
/// what is accepted, then the headers of the device.
pub open spec fn opening_headers(base: Seq<(Seq<char>, Seq<char>)>) -> Seq<(Seq<char>, Seq<char>)> {
    with_header(
        with_header(Seq::empty(), "Content-Type"@, "text/x-xml-plist"@),
        "Accept"@,
        "*/*"@,
    ) + base
}

/// The headers of a request that is authorised by the heartbeat token: the
/// opening headers, the name of the endpoint and the token, each tied to the
/// account.
pub open spec fn heartbeat_headers(
    base: Seq<(Seq<char>, Seq<char>)>,
    adsid: Seq<char>,
    endpoint: Seq<char>,
    token: Seq<char>,
) -> Seq<(Seq<char>, Seq<char>)> {
    with_header(
        with_header(
            opening_headers(base),
            "X-Apple-I-UrlSwitch-Info"@,
            account_header(adsid, endpoint),
        ),
        "X-Apple-HB-Token"@,
        account_header(adsid, token),
    )
}

/// The headers of a sign-out notice: those of a liveness notice without the
/// service type and the status of data recovery, and with the two statuses
/// of the trust circle set to false.
pub open spec fn signout_headers(headers: Seq<(Seq<char>, Seq<char>)>) -> Seq<
    (Seq<char>, Seq<char>),
> {
    with_header(
        with_header(
            without_name(
                without_name(
                    without_name(
                        without_name(headers, "X-Apple-I-Service-Type"@),
                        "X-Apple-AK-DataRecoveryService-Status"@,
                    ),
                    "X-Apple-I-CDP-Status"@,
                ),
                "X-Apple-I-OT-Status"@,
            ),
            "X-Apple-I-CDP-Status"@,
            "false"@,
        ),
        "X-Apple-I-OT-Status"@,
        "false"@,
    )
}

/// The headers of a notice.
pub open spec fn postdata_headers(
    base: Seq<(Seq<char>, Seq<char>)>,
    adsid: Seq<char>,
    token: Seq<char>,
    logout: bool,
) -> Seq<(Seq<char>, Seq<char>)> {
    let headers = heartbeat_headers(base, adsid, "postdata"@, token);
    if logout {
        signout_headers(headers)
    } else {
        headers
    }
}

fn build_opening_headers(base: &HeaderList) -> (res: HeaderList)
    ensures
        res@ == opening_headers(base@),
{
    let mut headers = HeaderList::new();
    headers.insert("Content-Type", "text/x-xml-plist");
    headers.insert("Accept", "*/*");
    headers.extend(base);
    headers
}

fn build_heartbeat_headers(base: &HeaderList, adsid: &str, endpoint: &str, token: &str) -> (res:
    HeaderList)
    ensures
        res@ == heartbeat_headers(base@, adsid@, endpoint@, token@),
{
    let mut headers = build_opening_headers(base);
    let switch = build_account_header(adsid, endpoint);
    headers.insert("X-Apple-I-UrlSwitch-Info", switch.as_str());
    let heartbeat = build_account_header(adsid, token);
    headers.insert("X-Apple-HB-Token", heartbeat.as_str());
    headers
}

/// One notice of a sign-out from everything: what it signs out, and the
/// services that stay signed in.
#[derive(Debug)]
pub struct LogoutStep {
    pub logout: String,
    pub services: Vec<String>,
}

/// The notices of a sign-out from everything, in order: each service with
/// those that follow it still signed in, then "all" with none left.
pub open spec fn logout_plan() -> Seq<(Seq<char>, Seq<Seq<char>>)> {
    seq![
        ("icloud"@, seq!["imessage"@, "facetime"@]),
        ("imessage"@, seq!["facetime"@]),
        ("facetime"@, Seq::<Seq<char>>::empty()),
        ("all"@, Seq::<Seq<char>>::empty()),
    ]
}

/// The notices that sign the device out of every service, in the order
/// they are sent.
pub fn logout_all() -> (res: Vec<LogoutStep>)
    ensures
        Seq::new(res@.len(), |i: int| (res@[i].logout@, views(res@[i].services@))) == logout_plan(),
{
    let mut after_icloud: Vec<String> = Vec::new();
    after_icloud.push("imessage".to_owned());
    after_icloud.push("facetime".to_owned());
    assert(views(after_icloud@) =~= seq!["imessage"@, "facetime"@]);
    let mut after_imessage: Vec<String> = Vec::new();
    after_imessage.push("facetime".to_owned());
    assert(views(after_imessage@) =~= seq!["facetime"@]);
    let after_facetime: Vec<String> = Vec::new();
    assert(views(after_facetime@) =~= Seq::<Seq<char>>::empty());
    let none_left: Vec<String> = Vec::new();
    assert(views(none_left@) =~= Seq::<Seq<char>>::empty());
    let mut plan: Vec<LogoutStep> = Vec::new();
    plan.push(LogoutStep { logout: "icloud".to_owned(), services: after_icloud });
    plan.push(LogoutStep { logout: "imessage".to_owned(), services: after_imessage });
    plan.push(LogoutStep { logout: "facetime".to_owned(), services: after_facetime });
    plan.push(LogoutStep { logout: "all".to_owned(), services: none_left });
    assert(Seq::new(plan@.len(), |i: int| (plan@[i].logout@, views(plan@[i].services@)))
        =~= logout_plan());
    plan
}

/// What the answer to a notice, a teardown or a message of the trust circle
/// stands for: the session stays `LoggedIn` on success, and anything else
/// means that the request was not accepted.
pub fn accepted(status: u16) -> (res: Result<LoginState, Error>)
    ensures
        is_success(status) ==> (res matches Ok(s) && s@ == LoginStateView::LoggedIn),
        !is_success(status) ==> (res matches Err(e) && e@ == ErrorView::AuthSrp),
{
    if status_is_success(status) {
        Ok(LoginState::LoggedIn)
    } else {
        Err(Error::AuthSrp)
    }
}

impl<T: AnisetteProvider> AppleAccount<T> {
    /// The notice that tells the service that the device is alive, or that
    /// it signs out of `logout`. `base` are the headers of the device and
    /// `hb_token` the heartbeat token, if one could be had. Without the
    /// token the request fails with `HappyBirthdayError`; without the
    /// account's id in the provisioning data, with `MissingPrecondition`.
    pub fn update_postdata_request(
        &self,
        device_name: &str,
        logout: Option<&str>,
        services: &Vec<String>,
        base: &HeaderList,
        hb_token: Option<&str>,
    ) -> (res: Result<PlistRequest, Error>)
        ensures
            hb_token is None ==> (res matches Err(e) && e@ == ErrorView::HappyBirthdayError),
            hb_token is Some && session_adsid(self@.spd) is None ==> (res matches Err(e) && e@
                == ErrorView::MissingPrecondition),
            hb_token is Some && session_adsid(self@.spd) is Some ==> {
                &&& res matches Ok(request)
                &&& request.url@ == "https://gsas.apple.com/grandslam/GsService2/postdata"@
                &&& request.headers@ == postdata_headers(
                    base@,
                    session_adsid(self@.spd)->0,
                    hb_token->0@,
                    logout is Some,
                )
                &&& request.body@ == packet(
                    postdata(
                        device_name@,
                        match logout {
                            Some(what) => Some(what@),
                            None => None,
                        },
                        views(services@),
                        crate::account::opt_text(self.client_info.push_token),
                    ),
                )
            },
    {
        let token = match hb_token {
            Some(token) => token,
            None => {
                return Err(Error::HappyBirthdayError);
            },
        };
        let adsid = match self.adsid() {
            Some(adsid) => adsid,
            None => {
                return Err(Error::MissingPrecondition);
            },
        };
        let mut headers = build_heartbeat_headers(base, adsid, "postdata", token);
        let data = match logout {
            Some(what) => {
                headers.remove("X-Apple-I-Service-Type");
                headers.remove("X-Apple-AK-DataRecoveryService-Status");
                headers.remove("X-Apple-I-CDP-Status");
                headers.remove("X-Apple-I-OT-Status");
                headers.insert("X-Apple-I-CDP-Status", "false");
                headers.insert("X-Apple-I-OT-Status", "false");
                build_signout_data(device_name, what, services)
            },
            None => build_liveness_data(device_name, services, &self.client_info.push_token),
        };
        Ok(
            PlistRequest {
                url: "https://gsas.apple.com/grandslam/GsService2/postdata".to_owned(),
                headers,
                body: build_packet(data),
            },
        )
    }

    /// Takes the status of the answer to a notice.
    pub fn update_postdata(&self, status: u16) -> (res: Result<LoginState, Error>)
        ensures
            is_success(status) ==> (res matches Ok(s) && s@ == LoginStateView::LoggedIn),
            !is_success(status) ==> (res matches Err(e) && e@ == ErrorView::AuthSrp),
    {
        accepted(status)
    }

    /// The request that tears a transaction down.
    pub fn teardown_request(
        &self,
        action: &str,
        cmd: u32,
        txnid: &str,
        base: &HeaderList,
        hb_token: Option<&str>,
    ) -> (res: Result<PlistRequest, Error>)
        ensures
            hb_token is None ==> (res matches Err(e) && e@ == ErrorView::HappyBirthdayError),
            hb_token is Some && session_adsid(self@.spd) is None ==> (res matches Err(e) && e@
                == ErrorView::MissingPrecondition),
            hb_token is Some && session_adsid(self@.spd) is Some ==> {
                &&& res matches Ok(request)
                &&& request.url@ == "https://gsas.apple.com/grandslam/GsService2/teardown"@
                &&& request.headers@ == heartbeat_headers(
                    base@,
                    session_adsid(self@.spd)->0,
                    "teardown"@,
                    hb_token->0@,
                )
                &&& request.body@ == packet(teardown_data(action@, cmd, txnid@))
            },
    {
        let token = match hb_token {
            Some(token) => token,
            None => {
                return Err(Error::HappyBirthdayError);
            },
        };
        let adsid = match self.adsid() {
            Some(adsid) => adsid,
            None => {
                return Err(Error::MissingPrecondition);
            },
        };
        let headers = build_heartbeat_headers(base, adsid, "teardown", token);
        let mut data = Dictionary::new();
        data.push("action", PlistValue::text(action));
        data.push("cmd", PlistValue::Integer(cmd as i128));
        data.push("prkgen", PlistValue::Boolean(false));
        data.push("txnid", PlistValue::text(txnid));
        assert(data@ =~= teardown_data(action@, cmd, txnid@));
        Ok(
            PlistRequest {
                url: "https://gsas.apple.com/grandslam/GsService2/teardown".to_owned(),
                headers,
                body: build_packet(data),
            },
        )
    }

    /// Takes the status of the answer to a teardown.
    pub fn teardown(&self, status: u16) -> (res: Result<LoginState, Error>)
        ensures
            is_success(status) ==> (res matches Ok(s) && s@ == LoginStateView::LoggedIn),
            !is_success(status) ==> (res matches Err(e) && e@ == ErrorView::AuthSrp),
    {
        accepted(status)
    }

    /// The alternate directory-services id of the session.
    pub fn adsid(&self) -> (res: Option<&str>)
        ensures
            res is Some <==> session_adsid(self@.spd) is Some,
            res is Some ==> res->0@ == session_adsid(self@.spd)->0,
    {
        match &self.spd {
            Some(spd) => spd.get_str("adsid"),
            None => None,
        }
    }

    /// The headers of a message of the trust circle. During a second factor
    /// the message is authorised by the identity token of the provisioning
    /// data, otherwise by the heartbeat token `hb_token`, without which the
    /// request fails with `HappyBirthdayError`.
    pub fn circle_request(&self, is_twofa: bool, base: &HeaderList, hb_token: Option<&str>) -> (res:
        Result<HeaderList, Error>)
        ensures
            is_twofa ==> match session_identity(self@.spd) {
                None => res matches Err(e) && e@ == ErrorView::MissingPrecondition,
                Some(identity) => res matches Ok(headers) && headers@ == with_header(
                    opening_headers(base@),
                    "X-Apple-Identity-Token"@,
                    identity,
                ),
            },
            !is_twofa && hb_token is None ==> (res matches Err(e) && e@
                == ErrorView::HappyBirthdayError),
            !is_twofa && hb_token is Some && session_adsid(self@.spd) is None ==> (res matches Err(
                e,
            ) && e@ == ErrorView::MissingPrecondition),
            !is_twofa && hb_token is Some && session_adsid(self@.spd) is Some ==> (res matches Ok(
                headers,
            ) && headers@ == with_header(
                opening_headers(base@),
                "X-Apple-HB-Token"@,
                account_header(session_adsid(self@.spd)->0, hb_token->0@),
            )),
    {
        let mut headers = build_opening_headers(base);
        if is_twofa {
            let spd = match &self.spd {
                Some(spd) => spd,
                None => {
                    return Err(Error::MissingPrecondition);
                },
            };
            let adsid = match spd.get_str("adsid") {
                Some(adsid) => adsid,
                None => {
                    return Err(Error::MissingPrecondition);
                },
            };
            let token = match spd.get_str("GsIdmsToken") {
                Some(token) => token,
                None => {
                    return Err(Error::MissingPrecondition);
                },
            };
            let identity = build_account_header(adsid, token);
            headers.insert("X-Apple-Identity-Token", identity.as_str());
        } else {
            let token = match hb_token {
                Some(token) => token,
                None => {
                    return Err(Error::HappyBirthdayError);
                },
            };
            let adsid = match self.adsid() {
                Some(adsid) => adsid,
                None => {
                    return Err(Error::MissingPrecondition);
                },
            };
            let heartbeat = build_account_header(adsid, token);
            headers.insert("X-Apple-HB-Token", heartbeat.as_str());
        }
        Ok(headers)
    }

    /// Takes the answer to a message of the trust circle: the decoded
    /// response on success, and anything else means that the message was
    /// not accepted.
    pub fn circle(&self, status: u16, response: CircleResponse) -> (res: Result<
        CircleResponse,
        Error,
    >)
        ensures
            is_success(status) ==> res == Ok::<CircleResponse, Error>(response),
            !is_success(status) ==> (res matches Err(e) && e@ == ErrorView::AuthSrp),
    {
        if status_is_success(status) {
            Ok(response)
        } else {
            Err(Error::AuthSrp)
        }
    }
}

/// `headers` without the entries whose name is exactly `key`.
pub open spec fn without_key(headers: Seq<(Seq<char>, Seq<char>)>, key: Seq<char>) -> Seq<
    (Seq<char>, Seq<char>),
>
    decreases headers.len(),
{
    if headers.len() == 0 {
        Seq::empty()
    } else if headers.last().0 == key {
        without_key(headers.drop_last(), key)
    } else {
        without_key(headers.drop_last(), key).push(headers.last())
    }
}

/// `headers` with `key` set to `value`, as a map with exact keys does it:
/// earlier entries of exactly that name leave, and the new one is added at
/// the end.
pub open spec fn with_key(
    headers: Seq<(Seq<char>, Seq<char>)>,
    key: Seq<char>,
    value: Seq<char>,
) -> Seq<(Seq<char>, Seq<char>)> {
    without_key(headers, key).push((key, value))
}

fn set_key(headers: &mut HeaderList, key: &str, value: &str)
    ensures
        final(headers)@ == with_key(old(headers)@, key@, value@),
{
    let mut kept = HeaderList::new();
    let n = headers.entries.len();
    let mut i: usize = 0;
    proof {
        assert(headers@.take(0) =~= Seq::<(Seq<char>, Seq<char>)>::empty());
    }
    while i < n
        invariant
            n == headers.entries@.len(),
            i <= n,
            headers == old(headers),
            kept@ == without_key(headers@.take(i as int), key@),
        decreases n - i,
    {
        let entry = &headers.entries[i];
        proof {
            let next = headers@.take(i as int + 1);
            assert(next.drop_last() =~= headers@.take(i as int));
            assert(next.last() == entry@);
        }
        if !crate::text::str_eq(entry.name.as_str(), key) {
            kept.append(entry.name.as_str(), entry.value.as_str());
        }
        i += 1;
    }
    proof {
        assert(headers@.take(n as int) =~= headers@);
    }
    kept.append(key, value);
    *headers = kept;
}

/// The browser that the account page is requested as.
pub open spec fn account_page_user_agent() -> Seq<char> {
    "Mozilla/5.0 (Macintosh; Intel Mac OS X 10_15_7) AppleWebKit/605.1.15 (KHTML, like Gecko)"@
}

/// What a request for the account page needs of a session: the account
/// name, the extended token, the alternate directory-services id, and the
/// token of the family service.
pub ghost struct AccountPageAccess {
    pub username: Seq<char>,
    pub pet: Seq<char>,
    pub adsid: Seq<char>,
    pub family_token: Seq<char>,
}

/// What a session has for a request for the account page, or `None` where
/// it lacks one of the four.
pub open spec fn account_page_access(account: crate::account::AccountView) -> Option<
    AccountPageAccess,
> {
    if session_adsid(account.spd) is Some && account.username is Some
        && account.tokens.contains_key(pet_service()) && account.tokens.contains_key(
        "com.apple.gs.icloud.family.auth"@,
    ) {
        Some(
            AccountPageAccess {
                username: account.username->0,
                pet: account.tokens[pet_service()].token,
                adsid: session_adsid(account.spd)->0,
                family_token: account.tokens["com.apple.gs.icloud.family.auth"@].token,
            },
        )
    } else {
        None
    }
}

/// The headers that authorise a request for the account page: the headers
/// of the device, with these ten set on top of them.
pub open spec fn account_page_headers(
    base: Seq<(Seq<char>, Seq<char>)>,
    access: AccountPageAccess,
    bundle_id: Seq<char>,
) -> Seq<(Seq<char>, Seq<char>)> {
    let h0 = with_key(
        base,
        "Authorization"@,
        "Basic "@ + account_header(trimmed(access.username), access.pet),
    );
    let h1 = with_key(h0, "User-Agent"@, account_page_user_agent());
    let h2 = with_key(h1, "X-Apple-ADSID"@, access.adsid);
    let h3 = with_key(h2, "X-Apple-GS-Token"@, account_header(access.adsid, access.family_token));
    let h4 = with_key(
        h3,
        "X-Apple-I-Current-Application"@,
        "com.apple.systempreferences.AppleIDSettings"@,
    );
    let h5 = with_key(h4, "X-Apple-I-Current-Application-Version"@, "1"@);
    let h6 = with_key(h5, "X-MMe-Client-Info"@, bundle_id);
    let h7 = with_key(h6, "X-MMe-Country"@, "US"@);
    let h8 = with_key(h7, "X-MMe-Language"@, "en,en-US"@);
    with_key(h8, "x-apple-i-device-type"@, "1"@)
}

impl<T: AnisetteProvider> AppleAccount<T> {
    /// The headers that authorise a request for the account page. `base`
    /// are the headers of the device. A session that lacks the account
    /// name, the extended token, the account's id or the token of the
    /// family service cannot ask.
    pub fn request_update_account(&self, base: &AnisetteHeaders) -> (res: Result<HeaderList, Error>)
        ensures
            match account_page_access(self@) {
                None => res matches Err(e) && e@ == ErrorView::MissingPrecondition,
                Some(access) => res matches Ok(headers) && headers@ == account_page_headers(
                    base@,
                    access,
                    self.client_info.update_account_bundle_id@,
                ),
            },
    {
        let adsid = match self.adsid() {
            Some(adsid) => adsid,
            None => {
                return Err(Error::MissingPrecondition);
            },
        };
        let username = match &self.username {
            Some(username) => username,
            None => {
                return Err(Error::MissingPrecondition);
            },
        };
        let pet = match self.tokens.find("com.apple.gs.idms.pet") {
            Some(pet) => pet,
            None => {
                return Err(Error::MissingPrecondition);
            },
        };
        let family = match self.tokens.find("com.apple.gs.icloud.family.auth") {
            Some(family) => family,
            None => {
                return Err(Error::MissingPrecondition);
            },
        };
        let mut headers = HeaderList::new();
        headers.extend(&base.headers);
        assert(headers@ =~= base@);
        let name = trim(username.as_str());
        let basic = build_account_header(name.as_str(), pet.token.as_str());
        let authorization = concat2("Basic ", basic.as_str());
        set_key(&mut headers, "Authorization", authorization.as_str());
        set_key(
            &mut headers,
            "User-Agent",
            "Mozilla/5.0 (Macintosh; Intel Mac OS X 10_15_7) AppleWebKit/605.1.15 (KHTML, like Gecko)",
        );
        set_key(&mut headers, "X-Apple-ADSID", adsid);
        let service = build_account_header(adsid, family.token.as_str());
        set_key(&mut headers, "X-Apple-GS-Token", service.as_str());
        set_key(
            &mut headers,
            "X-Apple-I-Current-Application",
            "com.apple.systempreferences.AppleIDSettings",
        );
        set_key(&mut headers, "X-Apple-I-Current-Application-Version", "1");
        set_key(
            &mut headers,
            "X-MMe-Client-Info",
            self.client_info.update_account_bundle_id.as_str(),
        );
        set_key(&mut headers, "X-MMe-Country", "US");
        set_key(&mut headers, "X-MMe-Language", "en,en-US");
        set_key(&mut headers, "x-apple-i-device-type", "1");
        Ok(headers)
    }
}

} // verus!
