//! What the library hands to a host application: flat records, the
//! credentials that let a session be resumed, and the decisions of the
//! host's login.

use vstd::prelude::*;

use crate::account::{AppleAccount, LoginState, LoginStateView};
use crate::anisette::{AnisetteClient, AnisetteProvider, LoginClientInfo};
use crate::attestation::HardwareConfig;
use crate::crypto::{base64_bytes, base64_decode, base64_encode, base64_text, hash_password};
use crate::crypto::sha256_digest;
use crate::document::{doc_get, get_string, plist_binary, Dictionary, Doc};
use crate::error::Error;
use crate::hex::{decode_hex, encode_hex, hex_bytes, hex_text, is_hex_text, lemma_hex_round_trip};
use crate::local_config::{aoskit_version_text, icloud_ua_text, LocalMacOSConfig};
use crate::macos::MacOSConfig;
use crate::text::{
    concat2, i64_to_string, int_text, strip_whitespace, to_uppercase, trim, trimmed, u64_to_string,
    uppercase, without_whitespace,
};
use crate::token::{expiry_after, expiry_from_now, pet_service, FetchedToken, TokenView};

verus! {

/// How long a restored extended token is taken to live, in seconds: thirty
/// days.
pub const RESTORED_PET_TTL_SECS: u64 = 60 * 60 * 24 * 30;

/// The version of the registration protocol that a configuration from a
/// hardware key speaks.
pub const HARDWARE_KEY_PROTOCOL_VERSION: u32 = 1660;

/// An error as the host sees it: its text.
#[derive(Debug)]
pub enum WrappedError {
    GenericError { msg: String },
}

impl WrappedError {
    /// The text of the error.
    pub open spec fn text(self) -> Seq<char> {
        match self {
            WrappedError::GenericError { msg } => msg@,
        }
    }

    /// The text the error is reported with.
    pub fn to_string(&self) -> (res: String)
        ensures
            res@ == self.text(),
    {
        match self {
            WrappedError::GenericError { msg } => msg.clone(),
        }
    }

    /// The error for a failed step of the login: `context`, then the text of
    /// the failure.
    pub fn from_error(context: &str, e: &Error) -> (res: WrappedError)
        ensures
            res.text() == context@ + e.text(),
    {
        let text = e.to_string();
        WrappedError::GenericError { msg: concat2(context, text.as_str()) }
    }
}

/// The state of a push connection, in its property-list form.
#[derive(Debug)]
pub struct APSState {
    pub plist: String,
}

/// The state of a push connection as the host keeps it.
#[derive(Debug)]
pub struct WrappedAPSState {
    pub inner: Option<APSState>,
}

impl WrappedAPSState {
    /// The property-list text of the state, and the empty text where there
    /// is none.
    pub fn to_string(&self) -> (res: String)
        ensures
            res@ == (match self.inner {
                Some(state) => state.plist@,
                None => Seq::<char>::empty(),
            }),
    {
        match &self.inner {
            Some(state) => state.plist.clone(),
            None => String::new(),
        }
    }
}

/// A push connection as the host keeps it.
#[derive(Debug)]
pub struct WrappedAPSConnection {
    /// The state of the connection.
    pub state: APSState,
}

impl WrappedAPSConnection {
    /// The state of the connection, to be kept by the host.
    pub fn state(&self) -> (res: WrappedAPSState)
        ensures
            res.inner is Some,
            res.inner->0.plist@ == self.state.plist@,
    {
        WrappedAPSState { inner: Some(APSState { plist: self.state.plist.clone() }) }
    }
}

/// The registration of a user for one service.
#[derive(Debug)]
pub struct IDSRegistration {
    /// The handles the user is reachable under.
    pub handles: Vec<String>,
}

/// A registered user.
#[derive(Debug)]
pub struct IDSUser {
    /// The id the user logs in with.
    pub user_id: String,
    /// The registrations of the user, by service.
    pub registration: Vec<(String, IDSRegistration)>,
}

/// The registered users as the host keeps them.
#[derive(Debug)]
pub struct WrappedIDSUsers {
    pub inner: Vec<IDSUser>,
}

/// The handles of a user for the messaging service: those of the first
/// registration under "com.apple.madrid", and none where there is no such
/// registration.
pub open spec fn user_handles(user: IDSUser) -> Seq<Seq<char>>
    decreases user.registration@.len(),
{
    registration_handles(user.registration@)
}

/// The handles of the first registration under "com.apple.madrid".
pub open spec fn registration_handles(registrations: Seq<(String, IDSRegistration)>) -> Seq<
    Seq<char>,
>
    decreases registrations.len(),
{
    if registrations.len() == 0 {
        Seq::empty()
    } else if registrations[0].0@ == "com.apple.madrid"@ {
        crate::text::views(registrations[0].1.handles@)
    } else {
        registration_handles(registrations.skip(1))
    }
}

/// The handles of all users, user by user.
pub open spec fn all_handles(users: Seq<IDSUser>) -> Seq<Seq<char>>
    decreases users.len(),
{
    if users.len() == 0 {
        Seq::empty()
    } else {
        all_handles(users.drop_last()) + user_handles(users.last())
    }
}

fn handles_of(user: &IDSUser, out: &mut Vec<String>)
    ensures
        crate::text::views(final(out)@) == crate::text::views(old(out)@) + user_handles(*user),
{
    let n = user.registration.len();
    let mut i: usize = 0;
    proof {
        assert(user.registration@.skip(0) =~= user.registration@);
    }
    while i < n
        invariant
            n == user.registration@.len(),
            i <= n,
            out@ == old(out)@,
            registration_handles(user.registration@) == registration_handles(
                user.registration@.skip(i as int),
            ),
        decreases n - i,
    {
        let entry = &user.registration[i];
        proof {
            let rest = user.registration@.skip(i as int);
            assert(rest[0] == *entry);
            assert(rest.skip(1) =~= user.registration@.skip(i as int + 1));
        }
        if crate::text::str_eq(entry.0.as_str(), "com.apple.madrid") {
            let handles = &entry.1.handles;
            let m = handles.len();
            let mut j: usize = 0;
            let ghost start = crate::text::views(out@);
            proof {
                assert(crate::text::views(handles@).take(0) =~= Seq::<Seq<char>>::empty());
                assert(crate::text::views(out@) =~= start + crate::text::views(handles@).take(0));
            }
            while j < m
                invariant
                    m == handles@.len(),
                    j <= m,
                    crate::text::views(out@) == start + crate::text::views(handles@).take(j as int),
                decreases m - j,
            {
                let ghost before = crate::text::views(out@);
                out.push(handles[j].clone());
                proof {
                    assert(crate::text::views(out@) =~= before.push(handles@[j as int]@));
                    assert(crate::text::views(handles@).take(j as int + 1) =~= crate::text::views(
                        handles@,
                    ).take(j as int).push(handles@[j as int]@));
                }
                j += 1;
            }
            proof {
                assert(crate::text::views(handles@).take(m as int) =~= crate::text::views(handles@));
            }
            return ;
        }
        i += 1;
    }
    proof {
        assert(crate::text::views(out@) =~= crate::text::views(old(out)@) + Seq::<
            Seq<char>,
        >::empty());
    }
}

impl WrappedIDSUsers {
    /// The id that the user at index `i` logs in with.
    pub fn login_id(&self, i: u64) -> (res: String)
        requires
            i < self.inner@.len(),
        ensures
            res@ == self.inner@[i as int].user_id@,
    {
        let n = self.inner.len();
        assert(i < n);
        self.inner[i as usize].user_id.clone()
    }

    /// The handles of all users for the messaging service, user by user.
    pub fn get_handles(&self) -> (res: Vec<String>)
        ensures
            crate::text::views(res@) == all_handles(self.inner@),
    {
        let mut out: Vec<String> = Vec::new();
        let n = self.inner.len();
        let mut i: usize = 0;
        proof {
            assert(self.inner@.take(0) =~= Seq::<IDSUser>::empty());
            assert(crate::text::views(out@) =~= all_handles(self.inner@.take(0)));
        }
        while i < n
            invariant
                n == self.inner@.len(),
                i <= n,
                crate::text::views(out@) == all_handles(self.inner@.take(i as int)),
            decreases n - i,
        {
            proof {
                let next = self.inner@.take(i as int + 1);
                assert(next.drop_last() =~= self.inner@.take(i as int));
                assert(next.last() == self.inner@[i as int]);
            }
            handles_of(&self.inner[i], &mut out);
            i += 1;
        }
        proof {
            assert(self.inner@.take(n as int) =~= self.inner@);
        }
        out
    }
}

/// The identity that messages are encrypted under, in its property-list
/// form.
#[derive(Debug)]
pub struct IDSNGMIdentity {
    pub plist: String,
}

/// The identity as the host keeps it.
#[derive(Debug)]
pub struct WrappedIDSNGMIdentity {
    pub inner: IDSNGMIdentity,
}

impl WrappedIDSNGMIdentity {
    /// The property-list text of the identity.
    pub fn to_string(&self) -> (res: String)
        ensures
            res@ == self.inner.plist@,
    {
        self.inner.plist.clone()
    }
}

/// The configuration of a machine, of either kind.
#[derive(Debug)]
pub enum OsConfig {
    /// A machine described by an extracted hardware key.
    HardwareKey(MacOSConfig),
    /// The machine the library runs on.
    Local(LocalMacOSConfig),
}

/// The configuration as the host keeps it.
#[derive(Debug)]
pub struct WrappedOSConfig {
    pub config: OsConfig,
}

impl WrappedOSConfig {
    /// The id of the device that the configuration describes.
    pub fn get_device_id(&self) -> (res: String)
        ensures
            res@ == (match self.config {
                OsConfig::HardwareKey(config) => config.device_id@,
                OsConfig::Local(config) => config.device_id@,
            }),
    {
        match &self.config {
            OsConfig::HardwareKey(config) => config.get_device_uuid(),
            OsConfig::Local(config) => config.get_device_uuid(),
        }
    }
}

/// What a resumed session is restored from.
#[derive(Debug)]
pub struct AccountPersistData {
    pub username: String,
    pub hashed_password_hex: String,
    pub pet: String,
    pub adsid: String,
    pub dsid: String,
    pub spd_base64: String,
}

/// A provider of service tokens: the session it draws them from.
pub struct WrappedTokenProvider<T: AnisetteProvider> {
    pub account: AppleAccount<T>,
}

/// What a finished login hands to the host.
pub struct IDSUsersWithIdentityRecord<T: AnisetteProvider> {
    pub users: WrappedIDSUsers,
    pub identity: WrappedIDSNGMIdentity,
    /// The provider of tokens for the other services of the account.
    pub token_provider: Option<WrappedTokenProvider<T>>,
    /// What the provider can be restored from.
    pub account_persist: Option<AccountPersistData>,
}

/// A message as the host sees it: one flat record for every kind.
#[derive(Debug)]
pub struct WrappedMessage {
    pub uuid: String,
    pub sender: Option<String>,
    pub text: Option<String>,
    pub subject: Option<String>,
    pub participants: Vec<String>,
    pub group_name: Option<String>,
    pub timestamp_ms: u64,
    pub is_sms: bool,
    pub is_tapback: bool,
    pub tapback_type: Option<u32>,
    pub tapback_target_uuid: Option<String>,
    pub tapback_target_part: Option<u64>,
    pub tapback_emoji: Option<String>,
    pub tapback_remove: bool,
    pub is_edit: bool,
    pub edit_target_uuid: Option<String>,
    pub edit_part: Option<u64>,
    pub edit_new_text: Option<String>,
    pub is_unsend: bool,
    pub unsend_target_uuid: Option<String>,
    pub unsend_edit_part: Option<u64>,
    pub is_rename: bool,
    pub new_chat_name: Option<String>,
    pub is_participant_change: bool,
    pub new_participants: Vec<String>,
    pub attachments: Vec<WrappedAttachment>,
    pub reply_guid: Option<String>,
    pub reply_part: Option<String>,
    pub is_typing: bool,
    pub is_read_receipt: bool,
    pub is_delivered: bool,
    pub is_error: bool,
    pub error_for_uuid: Option<String>,
    pub error_status: Option<u64>,
    pub error_status_str: Option<String>,
    pub is_peer_cache_invalidate: bool,
    pub send_delivered: bool,
}

/// An attachment as the host sees it.
#[derive(Debug)]
pub struct WrappedAttachment {
    pub mime_type: String,
    pub filename: String,
    pub uti_type: String,
    pub size: u64,
    pub is_inline: bool,
    pub inline_data: Option<Vec<u8>>,
}

/// A conversation as the host sees it.
#[derive(Debug)]
pub struct WrappedConversation {
    pub participants: Vec<String>,
    pub group_name: Option<String>,
    pub sender_guid: Option<String>,
    pub is_sms: bool,
}

/// A conversation as the messaging client sees it.
#[derive(Debug)]
pub struct ConversationData {
    pub participants: Vec<String>,
    pub cv_name: Option<String>,
    pub sender_guid: Option<String>,
    pub after_guid: Option<String>,
}

/// The host's receiver of messages.
pub trait MessageCallback {
    /// Takes a message that has arrived.
    fn on_message(&self, msg: WrappedMessage);
}

/// The host's receiver of changes to the registered users.
pub trait UpdateUsersCallback {
    /// Takes the users as they now are.
    fn update_users(&self, users: WrappedIDSUsers);
}

/// A reaction to a message.
#[derive(Debug)]
pub enum Reaction {
    Heart,
    Like,
    Dislike,
    Laugh,
    Emphasize,
    Question,
    Emoji(String),
    Sticker,
}

/// The code that the host knows a reaction by.
pub open spec fn reaction_code(reaction: Reaction) -> u32 {
    match reaction {
        Reaction::Heart => 0,
        Reaction::Like => 1,
        Reaction::Dislike => 2,
        Reaction::Laugh => 3,
        Reaction::Emphasize => 4,
        Reaction::Question => 5,
        Reaction::Emoji(_) => 6,
        Reaction::Sticker => 7,
    }
}

/// The emoji of a reaction, if it is one.
pub open spec fn reaction_emoji(reaction: Reaction) -> Option<Seq<char>> {
    match reaction {
        Reaction::Emoji(e) => Some(e@),
        _ => None,
    }
}

/// Flattens a reaction for the host: its code, its emoji if it is one, and
/// whether the reaction is being removed.
pub fn convert_reaction(reaction: &Reaction, enable: bool) -> (res: (Option<u32>, Option<String>, bool))
    ensures
        res.0 == Some(reaction_code(*reaction)),
        crate::account::opt_text(res.1) == reaction_emoji(*reaction),
        res.2 == !enable,
{
    let tapback_type: u32 = match reaction {
        Reaction::Heart => 0,
        Reaction::Like => 1,
        Reaction::Dislike => 2,
        Reaction::Laugh => 3,
        Reaction::Emphasize => 4,
        Reaction::Question => 5,
        Reaction::Emoji(_) => 6,
        Reaction::Sticker => 7,
    };
    let emoji = match reaction {
        Reaction::Emoji(e) => Some(e.clone()),
        _ => None,
    };
    (Some(tapback_type), emoji, !enable)
}

/// The mathematical model of a `Reaction`.
pub ghost enum ReactionView {
    Heart,
    Like,
    Dislike,
    Laugh,
    Emphasize,
    Question,
    Emoji(Seq<char>),
    Sticker,
}

impl View for Reaction {
    type V = ReactionView;

    open spec fn view(&self) -> ReactionView {
        match self {
            Reaction::Heart => ReactionView::Heart,
            Reaction::Like => ReactionView::Like,
            Reaction::Dislike => ReactionView::Dislike,
            Reaction::Laugh => ReactionView::Laugh,
            Reaction::Emphasize => ReactionView::Emphasize,
            Reaction::Question => ReactionView::Question,
            Reaction::Emoji(e) => ReactionView::Emoji(e@),
            Reaction::Sticker => ReactionView::Sticker,
        }
    }
}

/// The reaction that the host means by a code and an optional emoji. Code 6
/// with an emoji is that emoji; every code that is none of 0 to 6, and code
/// 6 without an emoji, is a heart.
pub open spec fn reaction_of(code: u32, emoji: Option<Seq<char>>) -> ReactionView {
    if code == 1 {
        ReactionView::Like
    } else if code == 2 {
        ReactionView::Dislike
    } else if code == 3 {
        ReactionView::Laugh
    } else if code == 4 {
        ReactionView::Emphasize
    } else if code == 5 {
        ReactionView::Question
    } else if code == 6 && emoji is Some {
        ReactionView::Emoji(emoji->0)
    } else {
        ReactionView::Heart
    }
}

/// Reads a reaction from the host's code and optional emoji.
pub fn reaction_from_code(reaction: u32, emoji: &Option<String>) -> (res: Reaction)
    ensures
        res@ == reaction_of(reaction, crate::account::opt_text(*emoji)),
{
    if reaction == 1 {
        Reaction::Like
    } else if reaction == 2 {
        Reaction::Dislike
    } else if reaction == 3 {
        Reaction::Laugh
    } else if reaction == 4 {
        Reaction::Emphasize
    } else if reaction == 5 {
        Reaction::Question
    } else if reaction == 6 {
        match emoji {
            Some(e) => Reaction::Emoji(e.clone()),
            None => Reaction::Heart,
        }
    } else {
        Reaction::Heart
    }
}

/// A reaction comes back from its code and emoji as it went in, unless it is
/// a sticker, which the host cannot name.
pub proof fn lemma_reaction_round_trip(reaction: Reaction)
    requires
        !(reaction is Sticker),
    ensures
        reaction_of(reaction_code(reaction), reaction_emoji(reaction)) == reaction@,
{
}

impl WrappedConversation {
    /// The conversation as the host sees it. It is never marked as SMS.
    pub fn from_data(c: &ConversationData) -> (res: WrappedConversation)
        ensures
            crate::text::views(res.participants@) == crate::text::views(c.participants@),
            res.group_name == c.cv_name,
            res.sender_guid == c.sender_guid,
            !res.is_sms,
    {
        WrappedConversation {
            participants: clone_strings(&c.participants),
            group_name: c.cv_name.clone(),
            sender_guid: c.sender_guid.clone(),
            is_sms: false,
        }
    }

    /// The conversation as the messaging client sees it.
    pub fn to_data(&self) -> (res: ConversationData)
        ensures
            crate::text::views(res.participants@) == crate::text::views(self.participants@),
            res.cv_name == self.group_name,
            res.sender_guid == self.sender_guid,
            res.after_guid is None,
    {
        ConversationData {
            participants: clone_strings(&self.participants),
            cv_name: self.group_name.clone(),
            sender_guid: self.sender_guid.clone(),
            after_guid: None,
        }
    }
}

pub(crate) fn clone_strings(v: &Vec<String>) -> (res: Vec<String>)
    ensures
        crate::text::views(res@) == crate::text::views(v@),
{
    let mut out: Vec<String> = Vec::new();
    let n = v.len();
    let mut i: usize = 0;
    while i < n
        invariant
            n == v@.len(),
            i <= n,
            crate::text::views(out@) == crate::text::views(v@).take(i as int),
        decreases n - i,
    {
        let ghost before = crate::text::views(out@);
        out.push(v[i].clone());
        proof {
            assert(crate::text::views(out@) =~= before.push(v@[i as int]@));
            assert(crate::text::views(v@).take(i as int + 1) =~= before.push(v@[i as int]@));
        }
        i += 1;
    }
    proof {
        assert(crate::text::views(v@).take(n as int) =~= crate::text::views(v@));
    }
    out
}

/// The text of a value that identifies an account: a string as it is, an
/// integer in decimal.
pub open spec fn id_text(doc: Doc) -> Option<Seq<char>> {
    match doc {
        Doc::String(s) => Some(s),
        Doc::Integer(i) => if i64::MIN <= i <= u64::MAX {
            Some(int_text(i))
        } else {
            None
        },
        _ => None,
    }
}

/// The directory-services id of provisioning data: the entry "DsPrsId", or
/// "dsid" where there is none, as text. It is empty where neither is there
/// or the entry is no text and no integer.
pub open spec fn persisted_dsid(spd: Seq<(Seq<char>, Doc)>) -> Seq<char> {
    let entry = match doc_get(spd, "DsPrsId"@) {
        Some(doc) => Some(doc),
        None => doc_get(spd, "dsid"@),
    };
    match entry {
        Some(doc) => match id_text(doc) {
            Some(text) => text,
            None => Seq::empty(),
        },
        None => Seq::empty(),
    }
}

fn value_text(value: &crate::document::PlistValue) -> (res: Option<String>)
    ensures
        crate::account::opt_text(res) == id_text(value@),
{
    match value.as_string() {
        Some(text) => {
            return Some(text.to_owned());
        },
        None => {},
    }
    match value.as_signed_integer() {
        Some(i) => {
            return Some(i64_to_string(i));
        },
        None => {},
    }
    match value.as_unsigned_integer() {
        Some(u) => Some(u64_to_string(u)),
        None => None,
    }
}

/// The text of the error that a capture fails with, or `None` where the
/// session has everything a resumed session needs: an extended token,
/// provisioning data that can be written as a binary property list, and in
/// it the alternate directory-services id.
pub open spec fn capture_error(account: crate::account::AccountView) -> Option<Seq<char>> {
    if !account.tokens.contains_key(pet_service()) {
        Some("No PET token available after login"@)
    } else if account.spd is None {
        Some("No SPD after login"@)
    } else if get_string(account.spd->0, "adsid"@) is None {
        Some("No adsid"@)
    } else if plist_binary(Doc::Dictionary(account.spd->0)) is None {
        Some("Failed to serialize SPD"@)
    } else {
        None
    }
}

/// The provisioning data of a session as it is persisted: its binary
/// property list.
pub open spec fn persisted_spd(account: crate::account::AccountView) -> Seq<u8> {
    plist_binary(Doc::Dictionary(account.spd->0))->0
}

impl AccountPersistData {
    /// Captures what a session can be resumed from. The pre-hashed password
    /// is kept in hexadecimal, and the provisioning data as a binary property
    /// list in base64; both read back as the bytes that went in.
    pub fn capture<T: AnisetteProvider>(account: &AppleAccount<T>, username: &str) -> (res: Result<
        AccountPersistData,
        WrappedError,
    >)
        ensures
            match capture_error(account@) {
                Some(text) => res matches Err(e) && e.text() == text,
                None => {
                    &&& res matches Ok(data)
                    &&& data.username@ == username@
                    &&& data.hashed_password_hex@ == (match account@.hashed_password {
                        Some(hashed) => hex_text(hashed),
                        None => Seq::<char>::empty(),
                    })
                    &&& account@.hashed_password is Some ==> is_hex_text(data.hashed_password_hex@)
                        && hex_bytes(data.hashed_password_hex@) == account@.hashed_password->0
                    &&& data.pet@ == account@.tokens[pet_service()].token
                    &&& data.adsid@ == get_string(account@.spd->0, "adsid"@)->0
                    &&& data.dsid@ == persisted_dsid(account@.spd->0)
                    &&& data.spd_base64@ == base64_text(persisted_spd(account@))
                    &&& base64_bytes(data.spd_base64@) == Some(persisted_spd(account@))
                },
            },
    {
        let pet = match account.get_pet() {
            Some(pet) => pet,
            None => {
                return Err(
                    WrappedError::GenericError {
                        msg: "No PET token available after login".to_owned(),
                    },
                );
            },
        };
        let spd = match &account.spd {
            Some(spd) => spd,
            None => {
                return Err(WrappedError::GenericError { msg: "No SPD after login".to_owned() });
            },
        };
        let adsid = match spd.get_str("adsid") {
            Some(adsid) => adsid.to_owned(),
            None => {
                return Err(WrappedError::GenericError { msg: "No adsid".to_owned() });
            },
        };
        let spd_bytes = match spd.encode_binary() {
            Some(bytes) => bytes,
            None => {
                return Err(WrappedError::GenericError { msg: "Failed to serialize SPD".to_owned() });
            },
        };
        let entry = match spd.get("DsPrsId") {
            Some(value) => Some(value),
            None => spd.get("dsid"),
        };
        let dsid = match entry {
            Some(value) => match value_text(value) {
                Some(text) => text,
                None => String::new(),
            },
            None => String::new(),
        };
        let hashed_password_hex = match &account.hashed_password {
            Some(hashed) => {
                proof {
                    lemma_hex_round_trip(hashed@);
                }
                encode_hex(hashed.as_slice())
            },
            None => String::new(),
        };
        Ok(
            AccountPersistData {
                username: username.to_owned(),
                hashed_password_hex,
                pet,
                adsid,
                dsid,
                spd_base64: base64_encode(spd_bytes.as_slice()),
            },
        )
    }

    /// Reads the pre-hashed password back from its hexadecimal form.
    pub fn hashed_password(&self) -> (res: Result<Vec<u8>, WrappedError>)
        ensures
            res is Ok <==> is_hex_text(self.hashed_password_hex@),
            res matches Ok(bytes) ==> bytes@ == hex_bytes(self.hashed_password_hex@),
            res matches Err(e) ==> e.text() == "Invalid hashed_password hex"@,
    {
        match decode_hex(self.hashed_password_hex.as_str()) {
            Some(bytes) => Ok(bytes),
            None => Err(WrappedError::GenericError { msg: "Invalid hashed_password hex".to_owned() }),
        }
    }

    /// Reads the encoded provisioning data back from its base64 form.
    pub fn spd_bytes(&self) -> (res: Result<Vec<u8>, WrappedError>)
        ensures
            res is Ok <==> base64_bytes(self.spd_base64@) is Some,
            res matches Ok(bytes) ==> bytes@ == base64_bytes(self.spd_base64@)->0,
            res matches Err(e) ==> e.text() == "Invalid SPD base64"@,
    {
        match base64_decode(self.spd_base64.as_str()) {
            Some(bytes) => Ok(bytes),
            None => Err(WrappedError::GenericError { msg: "Invalid SPD base64".to_owned() }),
        }
    }
}

/// Restores the provider of tokens from persisted credentials: a session
/// that holds the account name, the pre-hashed password, the provisioning
/// data, and the extended token with thirty days to live from `now_ms`.
pub fn restore_token_provider<T: AnisetteProvider>(
    client_info: LoginClientInfo,
    anisette: AnisetteClient<T>,
    username: String,
    hashed_password: Vec<u8>,
    pet: String,
    spd: Dictionary,
    now_ms: u64,
) -> (res: WrappedTokenProvider<T>)
    ensures
        res.account.anisette == anisette,
        res.account.client_info == client_info,
        res.account.username == Some(username),
        res.account.hashed_password == Some(hashed_password),
        res.account.spd == Some(spd),
        res.account@.tokens == Map::<Seq<char>, TokenView>::empty().insert(
            pet_service(),
            (TokenView { token: pet@, expiration: expiry_after(RESTORED_PET_TTL_SECS, now_ms) }),
        ),
{
    let mut tokens = crate::token::TokenStore::new();
    tokens.insert(
        "com.apple.gs.idms.pet".to_owned(),
        FetchedToken { token: pet, expiration: expiry_from_now(RESTORED_PET_TTL_SECS, now_ms) },
    );
    WrappedTokenProvider {
        account: AppleAccount {
            anisette,
            client_info,
            spd: Some(spd),
            username: Some(username),
            tokens,
            hashed_password: Some(hashed_password),
        },
    }
}

/// The credentials that a login starts with: the account name without the
/// white space around it, and the SHA-256 digest of the password without the
/// white space around it.
pub fn login_credentials(apple_id: &str, password: &str) -> (res: (String, Vec<u8>))
    ensures
        res.0@ == trimmed(apple_id@),
        res.1@ == sha256_digest(vstd::utf8::encode_utf8(trimmed(password@))),
        res.1@.len() == 32,
{
    let user = trim(apple_id);
    let secret = trim(password);
    (user, hash_password(secret.as_str()))
}

/// What the host does after the first step of a login.
pub ghost enum StartPlan {
    /// The login goes on; a second factor is or is not needed, and a code is
    /// or is not to be pushed to the trusted devices first.
    Proceed { needs_2fa: bool, push_code: bool },
    /// The login has failed with this text.
    Fail(Seq<char>),
}

/// What the host does after the first step of a login has ended in `state`,
/// for a session that does or does not hold an extended token.
pub open spec fn start_plan(state: LoginStateView, has_pet: bool) -> StartPlan {
    match state {
        LoginStateView::LoggedIn => StartPlan::Proceed { needs_2fa: false, push_code: false },
        LoginStateView::Needs2FAVerification => StartPlan::Proceed {
            needs_2fa: true,
            push_code: false,
        },
        LoginStateView::NeedsDevice2FA => StartPlan::Proceed { needs_2fa: true, push_code: true },
        LoginStateView::NeedsSMS2FA => StartPlan::Proceed { needs_2fa: true, push_code: true },
        LoginStateView::NeedsSMS2FAVerification(_) => StartPlan::Proceed {
            needs_2fa: true,
            push_code: false,
        },
        LoginStateView::NeedsExtraStep(step) => if has_pet {
            StartPlan::Proceed { needs_2fa: false, push_code: false }
        } else {
            StartPlan::Fail("Login requires extra step: "@ + step)
        },
        LoginStateView::NeedsLogin => StartPlan::Fail("Login failed - bad credentials"@),
    }
}

/// A login that the host drives step by step.
pub struct LoginSession<T: AnisetteProvider> {
    /// The session, until the login has been finished.
    pub account: Option<AppleAccount<T>>,
    /// The account name.
    pub username: String,
    /// The pre-hashed password.
    pub password_hash: Vec<u8>,
    /// Whether a second factor is needed.
    pub needs_2fa: bool,
}

/// Takes the state that the first step of a login has ended in. The result
/// is the host's login and whether a code is to be pushed to the trusted
/// devices now.
pub fn login_start<T: AnisetteProvider>(
    account: AppleAccount<T>,
    username: String,
    password_hash: Vec<u8>,
    state: LoginState,
) -> (res: Result<(LoginSession<T>, bool), WrappedError>)
    ensures
        match start_plan(state@, account@.tokens.contains_key(pet_service())) {
            StartPlan::Fail(text) => res matches Err(e) && e.text() == text,
            StartPlan::Proceed { needs_2fa, push_code } => {
                &&& res matches Ok(started)
                &&& started.0.account == Some(account)
                &&& started.0.username == username
                &&& started.0.password_hash == password_hash
                &&& started.0.needs_2fa == needs_2fa
                &&& started.1 == push_code
            },
        },
{
    let (needs_2fa, push_code) = match state {
        LoginState::LoggedIn => (false, false),
        LoginState::Needs2FAVerification => (true, false),
        LoginState::NeedsDevice2FA => (true, true),
        LoginState::NeedsSMS2FA => (true, true),
        LoginState::NeedsSMS2FAVerification(_) => (true, false),
        LoginState::NeedsExtraStep(step) => {
            if account.get_pet().is_some() {
                (false, false)
            } else {
                return Err(
                    WrappedError::GenericError {
                        msg: concat2("Login requires extra step: ", step.as_str()),
                    },
                );
            }
        },
        LoginState::NeedsLogin => {
            return Err(
                WrappedError::GenericError { msg: "Login failed - bad credentials".to_owned() },
            );
        },
    };
    Ok((LoginSession { account: Some(account), username, password_hash, needs_2fa }, push_code))
}

/// Whether a verified code has completed the login: it has where the
/// session is `LoggedIn`, and where an extra step is asked for while the
/// extended token is there.
pub open spec fn code_accepted(state: LoginStateView, has_pet: bool) -> bool {
    match state {
        LoginStateView::LoggedIn => true,
        LoginStateView::NeedsExtraStep(_) => has_pet,
        _ => false,
    }
}

impl<T: AnisetteProvider> LoginSession<T> {
    /// Whether a second factor is needed.
    pub fn needs_2fa(&self) -> (res: bool)
        ensures
            res == self.needs_2fa,
    {
        self.needs_2fa
    }

    /// Takes the state that the verification of a code has ended in, and
    /// says whether the code has completed the login. A login that has been
    /// finished has no session to ask.
    pub fn submit_2fa(&self, state: &LoginState) -> (res: Result<bool, WrappedError>)
        ensures
            match self.account {
                None => res matches Err(e) && e.text() == "No active session"@,
                Some(account) => res == Ok::<bool, WrappedError>(
                    code_accepted(state@, account@.tokens.contains_key(pet_service())),
                ),
            },
    {
        let account = match &self.account {
            Some(account) => account,
            None => {
                return Err(WrappedError::GenericError { msg: "No active session".to_owned() });
            },
        };
        match state {
            LoginState::LoggedIn => Ok(true),
            LoginState::NeedsExtraStep(_) => Ok(account.get_pet().is_some()),
            _ => Ok(false),
        }
    }

    /// Finishes the login: captures what the session can be resumed from and
    /// hands the session over as the provider of tokens. On failure the
    /// login is as it was.
    pub fn finish(&mut self) -> (res: Result<
        (WrappedTokenProvider<T>, AccountPersistData),
        WrappedError,
    >)
        ensures
            match old(self).account {
                None => res matches Err(e) && e.text() == "No active session"@ && *final(self)
                    == *old(self),
                Some(account) => match capture_error(account@) {
                    Some(text) => res matches Err(e) && e.text() == text && *final(self) == *old(
                        self,
                    ),
                    None => {
                        &&& res matches Ok(done)
                        &&& done.0.account == account
                        &&& done.1.username@ == old(self).username@
                        &&& done.1.hashed_password_hex@ == (match account@.hashed_password {
                            Some(hashed) => hex_text(hashed),
                            None => Seq::<char>::empty(),
                        })
                        &&& account@.hashed_password is Some ==> is_hex_text(
                            done.1.hashed_password_hex@,
                        ) && hex_bytes(done.1.hashed_password_hex@)
                            == account@.hashed_password->0
                        &&& done.1.pet@ == account@.tokens[pet_service()].token
                        &&& done.1.adsid@ == get_string(account@.spd->0, "adsid"@)->0
                        &&& done.1.dsid@ == persisted_dsid(account@.spd->0)
                        &&& done.1.spd_base64@ == base64_text(persisted_spd(account@))
                        &&& base64_bytes(done.1.spd_base64@) == Some(persisted_spd(account@))
                        &&& final(self).account is None
                        &&& final(self).username == old(self).username
                        &&& final(self).password_hash == old(self).password_hash
                        &&& final(self).needs_2fa == old(self).needs_2fa
                    },
                },
            },
    {
        let persist = match &self.account {
            Some(account) => AccountPersistData::capture(account, self.username.as_str())?,
            None => {
                return Err(WrappedError::GenericError { msg: "No active session".to_owned() });
            },
        };
        let account = match self.account.take() {
            Some(account) => account,
            None => {
                return Err(WrappedError::GenericError { msg: "No active session".to_owned() });
            },
        };
        Ok((WrappedTokenProvider { account }, persist))
    }
}

/// Takes a pasted hardware key: removes all white space and decodes the
/// base64 that is left.
pub fn clean_hardware_key(base64_key: &str) -> (res: Result<Vec<u8>, WrappedError>)
    ensures
        res is Ok <==> base64_bytes(without_whitespace(base64_key@)) is Some,
        res matches Ok(bytes) ==> bytes@ == base64_bytes(without_whitespace(base64_key@))->0,
        res matches Err(e) ==> e.text() == "Invalid base64"@,
{
    let clean = strip_whitespace(base64_key);
    match base64_decode(clean.as_str()) {
        Some(bytes) => Ok(bytes),
        None => Err(WrappedError::GenericError { msg: "Invalid base64".to_owned() }),
    }
}

/// The configuration of the machine that a hardware key describes. The id
/// of the device is the platform id of the hardware in upper case; the
/// fields of the protocol take known-good values.
pub fn create_config_from_hardware_key(
    hw: HardwareConfig,
    nac_relay_url: Option<String>,
    relay_token: Option<String>,
    relay_cert_fp: Option<String>,
) -> (res: WrappedOSConfig)
    ensures
        res.config matches OsConfig::HardwareKey(config),
        res.config->HardwareKey_0.inner == hw,
        res.config->HardwareKey_0.version@ == "15.3"@,
        res.config->HardwareKey_0.protocol_version == HARDWARE_KEY_PROTOCOL_VERSION,
        res.config->HardwareKey_0.device_id@ == uppercase(hw.platform_uuid@),
        res.config->HardwareKey_0.icloud_ua@ == icloud_ua_text(),
        res.config->HardwareKey_0.aoskit_version@ == aoskit_version_text(),
        res.config->HardwareKey_0.udid is None,
        res.config->HardwareKey_0.nac_relay_url == nac_relay_url,
        res.config->HardwareKey_0.relay_token == relay_token,
        res.config->HardwareKey_0.relay_cert_fp == relay_cert_fp,
{
    let device_id = to_uppercase(hw.platform_uuid.as_str());
    WrappedOSConfig {
        config: OsConfig::HardwareKey(
            MacOSConfig {
                inner: hw,
                version: "15.3".to_owned(),
                protocol_version: HARDWARE_KEY_PROTOCOL_VERSION,
                device_id,
                icloud_ua: "com.apple.iCloudHelper/282 CFNetwork/1408.0.4 Darwin/22.5.0".to_owned(),
                aoskit_version: "com.apple.AOSKit/282 (com.apple.accountsd/113)".to_owned(),
                udid: None,
                nac_relay_url,
                relay_token,
                relay_cert_fp,
            },
        ),
    }
}

/// The configuration of the machine that a hardware key describes, for a
/// host that has persisted a device id. The persisted id is not used: the
/// device is always known by the platform id of its hardware.
pub fn create_config_from_hardware_key_with_device_id(
    hw: HardwareConfig,
    nac_relay_url: Option<String>,
    relay_token: Option<String>,
    relay_cert_fp: Option<String>,
    device_id: String,
) -> (res: WrappedOSConfig)
    ensures
        res.config matches OsConfig::HardwareKey(config),
        res.config->HardwareKey_0.inner == hw,
        res.config->HardwareKey_0.version@ == "15.3"@,
        res.config->HardwareKey_0.protocol_version == HARDWARE_KEY_PROTOCOL_VERSION,
        res.config->HardwareKey_0.device_id@ == uppercase(hw.platform_uuid@),
        res.config->HardwareKey_0.icloud_ua@ == icloud_ua_text(),
        res.config->HardwareKey_0.aoskit_version@ == aoskit_version_text(),
        res.config->HardwareKey_0.udid is None,
        res.config->HardwareKey_0.nac_relay_url == nac_relay_url,
        res.config->HardwareKey_0.relay_token == relay_token,
        res.config->HardwareKey_0.relay_cert_fp == relay_cert_fp,
{
    create_config_from_hardware_key(hw, nac_relay_url, relay_token, relay_cert_fp)
}

/// The directory that session state is kept in: under the data home where
/// one is given, else under the home directory where one is given, else the
/// relative directory "state". An empty value counts as not given.
pub open spec fn data_dir(xdg_data_home: Option<Seq<char>>, home: Option<Seq<char>>) -> Seq<char> {
    if xdg_data_home is Some && xdg_data_home->0.len() > 0 {
        xdg_data_home->0 + "/mautrix-imessage"@
    } else if home is Some && home->0.len() > 0 {
        home->0 + "/.local/share/mautrix-imessage"@
    } else {
        "state"@
    }
}

/// Resolves the directory that session state is kept in.
pub fn resolve_xdg_data_dir(xdg_data_home: Option<&str>, home: Option<&str>) -> (res: String)
    ensures
        res@ == data_dir(
            match xdg_data_home {
                Some(s) => Some(s@),
                None => None,
            },
            match home {
                Some(s) => Some(s@),
                None => None,
            },
        ),
{
    match xdg_data_home {
        Some(xdg) => {
            if xdg.unicode_len() > 0 {
                return concat2(xdg, "/mautrix-imessage");
            }
        },
        None => {},
    }
    match home {
        Some(home) => {
            if home.unicode_len() > 0 {
                return concat2(home, "/.local/share/mautrix-imessage");
            }
        },
        None => {},
    }
    "state".to_owned()
}

} // verus!
