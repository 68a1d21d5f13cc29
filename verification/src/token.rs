//! Tokens with their expiration, the heuristic that reads a server's
//! time-to-live field, and the store that holds the tokens of one grant.

use vstd::prelude::*;

use crate::text::{parse_u64, parse_u64_spec, split, split_on};

verus! {

/// Forty years in milliseconds. A time-to-live above this is read as an
/// absolute time in milliseconds since the Unix epoch, one up to it as a
/// duration in seconds.
pub const ABSOLUTE_TTL_THRESHOLD: u64 = 40 * 365 * 24 * 60 * 60 * 1000;

/// The time-to-live in seconds of a token whose header names none: one year.
pub const DEFAULT_TTL_SECS: u64 = 31536000;

/// The time-to-live in seconds of an extended token whose header names none.
pub const DEFAULT_PET_TTL_SECS: u64 = 300;

/// The service id under which the extended token is stored.
pub open spec fn pet_service() -> Seq<char> {
    "com.apple.gs.idms.pet"@
}

/// A token and the time at which it expires.
#[derive(Debug)]
pub struct FetchedToken {
    /// The token.
    pub token: String,
    /// The expiration, in milliseconds since the Unix epoch.
    pub expiration: u128,
}

/// The mathematical model of a `FetchedToken`.
pub ghost struct TokenView {
    pub token: Seq<char>,
    pub expiration: int,
}

impl View for FetchedToken {
    type V = TokenView;

    open spec fn view(&self) -> TokenView {
        TokenView { token: self.token@, expiration: self.expiration as int }
    }
}

impl FetchedToken {
    /// Whether the token is still valid at `now_ms`: it expires at its
    /// expiration time, not after it.
    pub open spec fn valid_at(self, now_ms: u64) -> bool {
        (now_ms as int) < self.expiration as int
    }

    /// Tells whether the token is still valid at `now_ms`.
    pub fn is_valid(&self, now_ms: u64) -> (res: bool)
        ensures
            res == self.valid_at(now_ms),
    {
        (now_ms as u128) < self.expiration
    }

    /// A copy of the token.
    pub fn duplicate(&self) -> (res: FetchedToken)
        ensures
            res@ == self@,
    {
        FetchedToken { token: self.token.clone(), expiration: self.expiration }
    }
}

/// The expiration that a time-to-live field stands for at `now_ms`.
pub open spec fn expiry_of(ttl: u64, now_ms: u64) -> int {
    if ttl > ABSOLUTE_TTL_THRESHOLD {
        ttl as int
    } else {
        now_ms + ttl * 1000
    }
}

/// The expiration of a duration in seconds that starts at `now_ms`.
pub open spec fn expiry_after(secs: u64, now_ms: u64) -> int {
    now_ms + secs * 1000
}

/// Reads a time-to-live field: above forty years of milliseconds it is an
/// absolute time, otherwise a duration in seconds from `now_ms`.
pub fn resolve_expiry(ttl: u64, now_ms: u64) -> (res: u128)
    ensures
        res == expiry_of(ttl, now_ms),
{
    if ttl > ABSOLUTE_TTL_THRESHOLD {
        ttl as u128
    } else {
        now_ms as u128 + ttl as u128 * 1000
    }
}

/// The expiration of a token that lives `secs` seconds from `now_ms`.
pub fn expiry_from_now(secs: u64, now_ms: u64) -> (res: u128)
    ensures
        res == expiry_after(secs, now_ms),
{
    now_ms as u128 + secs as u128 * 1000
}

/// A time-to-live on either side of forty years of milliseconds is read as
/// an absolute time above it and as seconds from now below it.
pub proof fn lemma_expiry_heuristic(ttl: u64, now_ms: u64)
    requires
        ttl != ABSOLUTE_TTL_THRESHOLD,
    ensures
        ttl >= ABSOLUTE_TTL_THRESHOLD ==> expiry_of(ttl, now_ms) == ttl,
        ttl < ABSOLUTE_TTL_THRESHOLD ==> expiry_of(ttl, now_ms) == now_ms + ttl * 1000,
{
}

/// A token as a header carries it: the service id and the token.
#[derive(Debug)]
pub struct ParsedToken {
    /// The service id.
    pub id: String,
    /// The token with its expiration.
    pub token: FetchedToken,
}

/// The mathematical model of a `ParsedToken`.
pub ghost struct ParsedTokenView {
    pub id: Seq<char>,
    pub token: TokenView,
}

impl View for ParsedToken {
    type V = ParsedTokenView;

    open spec fn view(&self) -> ParsedTokenView {
        ParsedTokenView { id: self.id@, token: self.token@ }
    }
}

/// Where the time-to-live sits among the fields of a token header.
#[derive(Clone, Copy, Debug, PartialEq, Eq, Structural)]
pub enum TtlPosition {
    /// `id:token[:ttl]`, as the validation endpoint sends it.
    Third,
    /// `id:token:duration:ttl`, as the phone endpoint sends it. A header
    /// with only three fields has its time-to-live in the third.
    Fourth,
}

/// The time-to-live field among the fields of a token header, if it has one.
pub open spec fn ttl_field(parts: Seq<Seq<char>>, position: TtlPosition) -> Option<Seq<char>> {
    if position == TtlPosition::Fourth && parts.len() > 3 {
        Some(parts[3])
    } else if parts.len() > 2 {
        Some(parts[2])
    } else {
        None
    }
}

/// The token that the decoded text of a header stands for at `now_ms`, or
/// `None` where the text has fewer than two fields or a time-to-live that is
/// no number.
pub open spec fn token_of_fields(
    decoded: Seq<char>,
    position: TtlPosition,
    now_ms: u64,
) -> Option<ParsedTokenView> {
    let parts = split_on(decoded, ':');
    if parts.len() < 2 {
        None
    } else {
        match ttl_field(parts, position) {
            None => Some(
                ParsedTokenView {
                    id: parts[0],
                    token: TokenView {
                        token: parts[1],
                        expiration: expiry_of(DEFAULT_TTL_SECS, now_ms),
                    },
                },
            ),
            Some(field) => match parse_u64_spec(field) {
                None => None,
                Some(ttl) => Some(
                    ParsedTokenView {
                        id: parts[0],
                        token: TokenView { token: parts[1], expiration: expiry_of(ttl, now_ms) },
                    },
                ),
            },
        }
    }
}

/// Reads the decoded text of a token header, `id:token[:ttl]` or with the
/// time-to-live one field further right. A missing time-to-live is one year;
/// a present one goes through the forty-year heuristic.
pub fn parse_token_fields(decoded: &str, position: TtlPosition, now_ms: u64) -> (res: Option<
    ParsedToken,
>)
    ensures
        res is Some <==> token_of_fields(decoded@, position, now_ms) is Some,
        res is Some ==> res->0@ == token_of_fields(decoded@, position, now_ms)->0,
{
    let parts = split(decoded, ':');
    if parts.len() < 2 {
        return None;
    }
    let ghost fields = split_on(decoded@, ':');
    assert(fields[0] == parts@[0]@);
    assert(fields[1] == parts@[1]@);
    let ttl = if matches!(position, TtlPosition::Fourth) && parts.len() > 3 {
        assert(fields[3] == parts@[3]@);
        match parse_u64(parts[3].as_str()) {
            Some(ttl) => ttl,
            None => {
                return None;
            },
        }
    } else if parts.len() > 2 {
        assert(fields[2] == parts@[2]@);
        match parse_u64(parts[2].as_str()) {
            Some(ttl) => ttl,
            None => {
                return None;
            },
        }
    } else {
        DEFAULT_TTL_SECS
    };
    Some(
        ParsedToken {
            id: parts[0].clone(),
            token: FetchedToken {
                token: parts[1].clone(),
                expiration: resolve_expiry(ttl, now_ms),
            },
        },
    )
}

/// The extended token that the decoded text of its header stands for at
/// `now_ms`: the second field, living for the seconds of the third field or
/// for 300 seconds.
pub open spec fn pet_of_fields(decoded: Seq<char>, now_ms: u64) -> Option<TokenView> {
    let parts = split_on(decoded, ':');
    if parts.len() < 2 {
        None
    } else if parts.len() > 2 {
        match parse_u64_spec(parts[2]) {
            None => None,
            Some(ttl) => Some(TokenView { token: parts[1], expiration: expiry_after(ttl, now_ms) }),
        }
    } else {
        Some(
            TokenView {
                token: parts[1],
                expiration: expiry_after(DEFAULT_PET_TTL_SECS, now_ms),
            },
        )
    }
}

/// Reads the decoded text of the extended-token header,
/// `id:token[:ttl-seconds]`.
pub fn parse_pet_fields(decoded: &str, now_ms: u64) -> (res: Option<FetchedToken>)
    ensures
        res is Some <==> pet_of_fields(decoded@, now_ms) is Some,
        res is Some ==> res->0@ == pet_of_fields(decoded@, now_ms)->0,
{
    let parts = split(decoded, ':');
    if parts.len() < 2 {
        return None;
    }
    let ghost fields = split_on(decoded@, ':');
    assert(fields[1] == parts@[1]@);
    let ttl = if parts.len() > 2 {
        assert(fields[2] == parts@[2]@);
        match parse_u64(parts[2].as_str()) {
            Some(ttl) => ttl,
            None => {
                return None;
            },
        }
    } else {
        DEFAULT_PET_TTL_SECS
    };
    Some(FetchedToken { token: parts[1].clone(), expiration: expiry_from_now(ttl, now_ms) })
}

/// One entry of a token store.
#[derive(Debug)]
pub struct TokenEntry {
    /// The service id.
    pub service: String,
    /// The token held for it.
    pub token: FetchedToken,
}

/// The map that a list of entries stands for: a later entry replaces an
/// earlier one of the same service.
pub open spec fn entries_map(entries: Seq<TokenEntry>) -> Map<Seq<char>, TokenView>
    decreases entries.len(),
{
    if entries.len() == 0 {
        Map::empty()
    } else {
        entries_map(entries.drop_last()).insert(entries.last().service@, entries.last().token@)
    }
}

/// The map that a list of parsed tokens stands for, a later token replacing
/// an earlier one of the same service.
pub open spec fn parsed_map(tokens: Seq<ParsedTokenView>) -> Map<Seq<char>, TokenView>
    decreases tokens.len(),
{
    if tokens.len() == 0 {
        Map::empty()
    } else {
        parsed_map(tokens.drop_last()).insert(tokens.last().id, tokens.last().token)
    }
}

/// The tokens of one grant, by service id.
#[derive(Debug)]
pub struct TokenStore {
    /// The entries in the order they were stored. A later entry replaces an
    /// earlier one of the same service.
    pub entries: Vec<TokenEntry>,
}

impl View for TokenStore {
    type V = Map<Seq<char>, TokenView>;

    open spec fn view(&self) -> Map<Seq<char>, TokenView> {
        entries_map(self.entries@)
    }
}

impl TokenStore {
    /// A store without tokens.
    pub fn new() -> (res: TokenStore)
        ensures
            res@ == Map::<Seq<char>, TokenView>::empty(),
    {
        TokenStore { entries: Vec::new() }
    }

    /// Tells whether the store holds no token at all.
    pub fn is_empty(&self) -> (res: bool)
        ensures
            res == (self@.dom() =~= Set::<Seq<char>>::empty()),
    {
        proof {
            if self.entries@.len() > 0 {
                let last = self.entries@.last();
                assert(self@.contains_key(last.service@));
            } else {
                assert(self@.dom() =~= Set::<Seq<char>>::empty());
            }
        }
        self.entries.len() == 0
    }

    /// Stores `token` for `service`, in place of what was stored for it.
    pub fn insert(&mut self, service: String, token: FetchedToken)
        ensures
            final(self)@ == old(self)@.insert(service@, token@),
    {
        let ghost before = self.entries@;
        self.entries.push(TokenEntry { service, token });
        proof {
            assert(self.entries@.drop_last() =~= before);
        }
    }

    /// The token stored for `service`, expired or not.
    pub fn find(&self, service: &str) -> (res: Option<&FetchedToken>)
        ensures
            res is Some <==> self@.contains_key(service@),
            res is Some ==> res->0@ == self@[service@],
    {
        let wanted = service.to_owned();
        let mut i: usize = self.entries.len();
        proof {
            assert(self.entries@.take(i as int) =~= self.entries@);
        }
        while i > 0
            invariant
                i <= self.entries@.len(),
                wanted@ == service@,
                self@.contains_key(service@) <==> entries_map(
                    self.entries@.take(i as int),
                ).contains_key(service@),
                self@.contains_key(service@) ==> self@[service@] == entries_map(
                    self.entries@.take(i as int),
                )[service@],
            decreases i,
        {
            let entry = &self.entries[i - 1];
            proof {
                let prefix = self.entries@.take(i as int);
                assert(prefix.drop_last() =~= self.entries@.take(i as int - 1));
                assert(prefix.last() == *entry);
            }
            if entry.service == wanted {
                return Some(&entry.token);
            }
            i -= 1;
        }
        None
    }

    /// The token for `service` if one is stored and has not expired at
    /// `now_ms`.
    pub fn get(&self, service: &str, now_ms: u64) -> (res: Option<String>)
        ensures
            res is Some <==> self@.contains_key(service@) && (now_ms as int)
                < self@[service@].expiration,
            res is Some ==> res->0@ == self@[service@].token,
    {
        match self.find(service) {
            Some(token) => {
                if token.is_valid(now_ms) {
                    Some(token.token.clone())
                } else {
                    None
                }
            },
            None => None,
        }
    }

    /// A store that holds the given tokens, a later one replacing an earlier
    /// one of the same service.
    pub fn from_parsed(tokens: Vec<ParsedToken>) -> (res: TokenStore)
        ensures
            res@ == parsed_map(Seq::new(tokens@.len(), |i: int| tokens@[i]@)),
    {
        let ghost all = Seq::new(tokens@.len(), |i: int| tokens@[i]@);
        let mut store = TokenStore::new();
        let n = tokens.len();
        let mut i: usize = 0;
        proof {
            assert(all.take(0) =~= Seq::<ParsedTokenView>::empty());
        }
        while i < n
            invariant
                n == tokens@.len(),
                i <= n,
                all == Seq::new(tokens@.len(), |i: int| tokens@[i]@),
                store@ == parsed_map(all.take(i as int)),
            decreases n - i,
        {
            let parsed = &tokens[i];
            proof {
                let next = all.take(i as int + 1);
                assert(next.drop_last() =~= all.take(i as int));
                assert(next.last() == parsed@);
            }
            store.insert(parsed.id.clone(), parsed.token.duplicate());
            i += 1;
        }
        proof {
            assert(all.take(n as int) =~= all);
        }
        store
    }
}

} // verus!
