//! Device-fingerprint headers: the provider that produces them and the
//! client that caches them for a minute.

use vstd::prelude::*;

use crate::error::AnisetteError;
use crate::http::HeaderList;

verus! {

/// How long fetched headers are reused, in milliseconds.
pub const CACHE_LIFETIME_MS: u64 = 60000;

/// The age that a cache is taken to have when the clock reads earlier than
/// the time the cache was filled, in milliseconds.
pub const AGE_WHEN_CLOCK_WENT_BACK_MS: u64 = 120000;

/// The device-fingerprint headers of one moment: header names with their
/// values.
#[derive(Debug)]
pub struct AnisetteHeaders {
    /// The headers.
    pub headers: HeaderList,
}

impl View for AnisetteHeaders {
    type V = Seq<(Seq<char>, Seq<char>)>;

    open spec fn view(&self) -> Seq<(Seq<char>, Seq<char>)> {
        self.headers@
    }
}

impl AnisetteHeaders {
    /// No headers at all.
    pub fn new() -> (res: AnisetteHeaders)
        ensures
            res@ == Seq::<(Seq<char>, Seq<char>)>::empty(),
    {
        AnisetteHeaders { headers: HeaderList::new() }
    }
}

/// The static description of this client that every request carries.
#[derive(Debug)]
pub struct LoginClientInfo {
    pub ak_context_type: String,
    pub client_app_name: String,
    pub client_bundle_id: String,
    pub mme_client_info: String,
    pub mme_client_info_akd: String,
    pub akd_user_agent: String,
    pub browser_user_agent: String,
    pub hardware_headers: Vec<(String, String)>,
    pub push_token: Option<String>,
    pub update_account_bundle_id: String,
}

impl Default for LoginClientInfo {
    fn default() -> (res: LoginClientInfo)
        ensures
            res.ak_context_type@.len() == 0,
            res.client_app_name@.len() == 0,
            res.client_bundle_id@.len() == 0,
            res.mme_client_info@.len() == 0,
            res.mme_client_info_akd@.len() == 0,
            res.akd_user_agent@.len() == 0,
            res.browser_user_agent@.len() == 0,
            res.hardware_headers@.len() == 0,
            res.push_token is None,
            res.update_account_bundle_id@.len() == 0,
    {
        LoginClientInfo {
            ak_context_type: String::new(),
            client_app_name: String::new(),
            client_bundle_id: String::new(),
            mme_client_info: String::new(),
            mme_client_info_akd: String::new(),
            akd_user_agent: String::new(),
            browser_user_agent: String::new(),
            hardware_headers: Vec::new(),
            push_token: None,
            update_account_bundle_id: String::new(),
        }
    }
}

/// A source of device-fingerprint headers. Nothing is assumed of what an
/// implementation returns.
pub trait AnisetteProvider {
    /// Produces a fresh set of headers.
    fn get_anisette_headers(&mut self) -> Result<AnisetteHeaders, AnisetteError>;

    /// Produces a second-factor code on this device. A provider that does not
    /// say otherwise cannot.
    fn get_2fa_code(&mut self) -> Result<u32, AnisetteError> {
        unsupported_2fa_code()
    }
}

/// A provider of headers that were obtained beforehand: it hands out a copy
/// of them whenever it is asked, and cannot produce second-factor codes.
#[derive(Debug)]
pub struct PresetProvider {
    /// The headers to hand out.
    pub headers: AnisetteHeaders,
}

impl AnisetteProvider for PresetProvider {
    fn get_anisette_headers(&mut self) -> (res: Result<AnisetteHeaders, AnisetteError>)
        ensures
            res matches Ok(headers) && headers@ == old(self).headers@,
            final(self).headers == old(self).headers,
    {
        Ok(AnisetteHeaders { headers: self.headers.headers.duplicate() })
    }
}

/// The answer of a provider that cannot produce second-factor codes.
pub fn unsupported_2fa_code() -> (res: Result<u32, AnisetteError>)
    ensures
        res matches Err(AnisetteError::MissingLibraries),
{
    Err(AnisetteError::MissingLibraries)
}

/// The age of a cache filled at `generated_at` when the clock reads `now_ms`.
pub open spec fn cache_age(generated_at: u64, now_ms: u64) -> int {
    if now_ms >= generated_at {
        now_ms - generated_at
    } else {
        AGE_WHEN_CLOCK_WENT_BACK_MS as int
    }
}

/// Whether a cache filled at `generated_at` is too old to reuse at `now_ms`:
/// older than a minute.
pub open spec fn cache_is_stale(generated_at: u64, now_ms: u64) -> bool {
    cache_age(generated_at, now_ms) > CACHE_LIFETIME_MS
}

/// A provider with a one-minute cache of its headers.
pub struct AnisetteClient<T: AnisetteProvider> {
    /// The provider behind the cache.
    pub provider: T,
    /// The headers fetched last.
    pub cached_headers: AnisetteHeaders,
    /// When they were fetched, in milliseconds since the Unix epoch.
    pub generated_at: u64,
}

impl<T: AnisetteProvider> AnisetteClient<T> {
    /// A client whose cache is empty and as old as the epoch.
    pub fn new(p: T) -> (res: AnisetteClient<T>)
        ensures
            res.provider == p,
            res.cached_headers@ == Seq::<(Seq<char>, Seq<char>)>::empty(),
            res.generated_at == 0,
    {
        AnisetteClient { provider: p, cached_headers: AnisetteHeaders::new(), generated_at: 0 }
    }

    /// Tells whether the cache must be refilled before it is used at
    /// `now_ms`.
    pub fn needs_refresh(&self, now_ms: u64) -> (res: bool)
        ensures
            res == cache_is_stale(self.generated_at, now_ms),
    {
        let age = if now_ms >= self.generated_at {
            now_ms - self.generated_at
        } else {
            AGE_WHEN_CLOCK_WENT_BACK_MS
        };
        age > CACHE_LIFETIME_MS
    }

    /// Takes what the provider returned at `now_ms`: fresh headers replace
    /// the cache, a failure leaves it as it was and is handed on.
    pub fn store(&mut self, fetched: Result<AnisetteHeaders, AnisetteError>, now_ms: u64) -> (res:
        Result<&AnisetteHeaders, AnisetteError>)
        ensures
            final(self).provider == old(self).provider,
            match fetched {
                Ok(headers) => {
                    &&& res == Ok::<&AnisetteHeaders, AnisetteError>(&headers)
                    &&& final(self).cached_headers == headers
                    &&& final(self).generated_at == now_ms
                },
                Err(e) => {
                    &&& res == Err::<&AnisetteHeaders, AnisetteError>(e)
                    &&& final(self).cached_headers == old(self).cached_headers
                    &&& final(self).generated_at == old(self).generated_at
                },
            },
    {
        match fetched {
            Ok(headers) => {
                self.cached_headers = headers;
                self.generated_at = now_ms;
                Ok(&self.cached_headers)
            },
            Err(e) => Err(e),
        }
    }

    /// The headers to use at `now_ms`. A cache no older than a minute is
    /// handed out as it is and the provider is left alone. An older one is
    /// refilled from the provider first; if the provider fails, its error is
    /// returned and the cache stays as it was.
    pub fn get_headers(&mut self, now_ms: u64) -> (res: Result<&AnisetteHeaders, AnisetteError>)
        ensures
            !cache_is_stale(old(self).generated_at, now_ms) ==> {
                &&& *final(self) == *old(self)
                &&& res == Ok::<&AnisetteHeaders, AnisetteError>(&old(self).cached_headers)
            },
            cache_is_stale(old(self).generated_at, now_ms) ==> match res {
                Ok(headers) => {
                    &&& final(self).cached_headers == *headers
                    &&& final(self).generated_at == now_ms
                },
                Err(_) => {
                    &&& final(self).cached_headers == old(self).cached_headers
                    &&& final(self).generated_at == old(self).generated_at
                },
            },
    {
        if self.needs_refresh(now_ms) {
            let fetched = self.provider.get_anisette_headers();
            self.store(fetched, now_ms)
        } else {
            Ok(&self.cached_headers)
        }
    }
}

/// The kind of device that a provisioned machine presents itself as.
#[derive(Clone, Copy, Debug, PartialEq, Eq, Structural)]
pub enum AnisetteFlavor {
    Mac,
    IOS,
}

impl AnisetteFlavor {
    /// The number that the provisioning library knows the kind by.
    pub open spec fn code_spec(self) -> i32 {
        match self {
            AnisetteFlavor::Mac => 1,
            AnisetteFlavor::IOS => 3,
        }
    }

    /// The number that the provisioning library knows the kind by: 1 for a
    /// Mac, 3 for a phone.
    pub fn code(self) -> (res: i32)
        ensures
            res == self.code_spec(),
    {
        match self {
            AnisetteFlavor::Mac => 1,
            AnisetteFlavor::IOS => 3,
        }
    }
}

/// A machine that has been provisioned for device-fingerprint headers.
#[derive(Debug)]
pub struct ProvisionedMachine {
    pub client_secret: [u8; 32],
    pub mid: [u8; 60],
    pub metadata: Vec<u8>,
    pub flavor: AnisetteFlavor,
}

} // verus!
