//! Property-list documents as plain values.

use vstd::prelude::*;

use crate::text::str_eq;

verus! {

/// The first second that a date can hold, counted from the Unix epoch: the
/// start of the year 1601.
pub const FIRST_DATE_SECS: i64 = -11644473600;

/// The last second that a date can hold, counted from the Unix epoch: the
/// end of the year 9999.
pub const LAST_DATE_SECS: i64 = 253402300799;

/// A point in time between the years 1601 and 9999, to the nanosecond: the
/// dates that the clock type of every platform holds and that a property
/// list can hold in each of its forms.
#[derive(Debug)]
pub struct PlistDate {
    /// The whole seconds to step back from the Unix epoch.
    back: u64,
    /// The whole seconds to step forward after that.
    forward: u64,
    /// The nanoseconds to step forward after that.
    nanos: u32,
}

/// The mathematical model of a `PlistDate`: the whole seconds since the Unix
/// epoch, rounded down, and the nanoseconds after them.
pub ghost struct DateView {
    pub secs: int,
    pub nanos: int,
}

/// Whether a point in time is one that a `PlistDate` can hold.
pub open spec fn is_date(secs: int, nanos: int) -> bool {
    &&& FIRST_DATE_SECS <= secs <= LAST_DATE_SECS
    &&& 0 <= nanos < 1_000_000_000
}

impl View for PlistDate {
    type V = DateView;

    closed spec fn view(&self) -> DateView {
        DateView { secs: self.forward - self.back, nanos: self.nanos as int }
    }
}

impl PlistDate {
    #[verifier::type_invariant]
    spec fn well_formed(self) -> bool {
        &&& self.back == 0 || self.forward == 0
        &&& is_date(self.forward - self.back, self.nanos as int)
    }

    /// The date at `secs` whole seconds since the Unix epoch and `nanos`
    /// nanoseconds after them, if that is a point in time between the years
    /// 1601 and 9999.
    pub fn new(secs: i64, nanos: u32) -> (res: Option<PlistDate>)
        ensures
            res is Some <==> is_date(secs as int, nanos as int),
            res is Some ==> res->0@.secs == secs && res->0@.nanos == nanos,
    {
        if secs < FIRST_DATE_SECS || secs > LAST_DATE_SECS || nanos >= 1_000_000_000 {
            None
        } else if secs < 0 {
            Some(PlistDate { back: (-secs) as u64, forward: 0, nanos })
        } else {
            Some(PlistDate { back: 0, forward: secs as u64, nanos })
        }
    }

    /// The whole seconds since the Unix epoch, rounded down.
    pub fn secs(&self) -> (res: i64)
        ensures
            res == self@.secs,
            is_date(self@.secs, self@.nanos),
    {
        proof {
            use_type_invariant(self);
        }
        if self.back > 0 {
            -(self.back as i64)
        } else {
            self.forward as i64
        }
    }

    /// The nanoseconds after the whole seconds.
    pub fn nanos(&self) -> (res: u32)
        ensures
            res == self@.nanos,
    {
        self.nanos
    }
}

/// A property-list value.
#[derive(Debug)]
pub enum PlistValue {
    /// An ordered list of values.
    Array(Vec<PlistValue>),
    /// A dictionary.
    Dictionary(Dictionary),
    /// A truth value.
    Boolean(bool),
    /// A byte string.
    Data(Vec<u8>),
    /// A date.
    Date(PlistDate),
    /// A real number, in its shortest decimal text.
    Real(String),
    /// An integer between the least `i64` and the greatest `u64`.
    Integer(i128),
    /// A text string.
    String(String),
    /// An object identifier.
    Uid(u64),
}

/// A dictionary: keys with their values, in the order of insertion. Keys
/// are meant to be distinct; where they are not, the first entry of a key is
/// the one that is found.
#[derive(Debug)]
pub struct Dictionary {
    /// The entries, in order.
    pub entries: Vec<(String, PlistValue)>,
}

/// The mathematical model of a `PlistValue`.
pub ghost enum Doc {
    Array(Seq<Doc>),
    Dictionary(Seq<(Seq<char>, Doc)>),
    Boolean(bool),
    Data(Seq<u8>),
    Date(DateView),
    Real(Seq<char>),
    Integer(int),
    String(Seq<char>),
    Uid(u64),
}

impl View for PlistValue {
    type V = Doc;

    open spec fn view(&self) -> Doc
        decreases self,
    {
        match self {
            PlistValue::Array(items) => Doc::Array(
                Seq::new(
                    items.len() as nat,
                    |i: int|
                        if 0 <= i < items.len() {
                            items[i].view()
                        } else {
                            Doc::Boolean(false)
                        },
                ),
            ),
            PlistValue::Dictionary(dict) => Doc::Dictionary(dict.view()),
            PlistValue::Boolean(b) => Doc::Boolean(*b),
            PlistValue::Data(d) => Doc::Data(d@),
            PlistValue::Date(d) => Doc::Date(d@),
            PlistValue::Real(r) => Doc::Real(r@),
            PlistValue::Integer(i) => Doc::Integer(*i as int),
            PlistValue::String(s) => Doc::String(s@),
            PlistValue::Uid(u) => Doc::Uid(*u),
        }
    }
}

impl View for Dictionary {
    type V = Seq<(Seq<char>, Doc)>;

    open spec fn view(&self) -> Seq<(Seq<char>, Doc)>
        decreases self,
    {
        Seq::new(
            self.entries.len() as nat,
            |i: int|
                if 0 <= i < self.entries.len() {
                    (self.entries[i].0@, self.entries[i].1.view())
                } else {
                    (Seq::<char>::empty(), Doc::Boolean(false))
                },
        )
    }
}

/// The value that the first entry under `key` holds.
pub open spec fn doc_get(entries: Seq<(Seq<char>, Doc)>, key: Seq<char>) -> Option<Doc>
    decreases entries.len(),
{
    if entries.len() == 0 {
        None
    } else if entries[0].0 == key {
        Some(entries[0].1)
    } else {
        doc_get(entries.skip(1), key)
    }
}

/// `entries` with `key` set to `value`: the first entry under `key` takes
/// the value and keeps its place, or a new entry is added at the end.
pub open spec fn doc_set(entries: Seq<(Seq<char>, Doc)>, key: Seq<char>, value: Doc) -> Seq<
    (Seq<char>, Doc),
>
    decreases entries.len(),
{
    if entries.len() == 0 {
        seq![(key, value)]
    } else if entries[0].0 == key {
        entries.update(0, (key, value))
    } else {
        seq![entries[0]] + doc_set(entries.skip(1), key, value)
    }
}

proof fn lemma_get_skip(entries: Seq<(Seq<char>, Doc)>, key: Seq<char>, i: int)
    requires
        0 <= i <= entries.len(),
        forall|k: int| 0 <= k < i ==> (#[trigger] entries[k]).0 != key,
    ensures
        doc_get(entries, key) == doc_get(entries.skip(i), key),
    decreases i,
{
    if i > 0 {
        lemma_get_skip(entries.skip(1), key, i - 1);
        assert(entries.skip(1).skip(i - 1) =~= entries.skip(i));
    } else {
        assert(entries.skip(0) =~= entries);
    }
}

proof fn lemma_set_found(entries: Seq<(Seq<char>, Doc)>, key: Seq<char>, value: Doc, i: int)
    requires
        0 <= i < entries.len(),
        entries[i].0 == key,
        forall|k: int| 0 <= k < i ==> (#[trigger] entries[k]).0 != key,
    ensures
        doc_set(entries, key, value) == entries.update(i, (key, value)),
    decreases i,
{
    if i > 0 {
        lemma_set_found(entries.skip(1), key, value, i - 1);
        assert(seq![entries[0]] + entries.skip(1).update(i - 1, (key, value)) =~= entries.update(
            i,
            (key, value),
        ));
    }
}

proof fn lemma_set_missing(entries: Seq<(Seq<char>, Doc)>, key: Seq<char>, value: Doc)
    requires
        forall|k: int| 0 <= k < entries.len() ==> (#[trigger] entries[k]).0 != key,
    ensures
        doc_set(entries, key, value) == entries.push((key, value)),
    decreases entries.len(),
{
    if entries.len() > 0 {
        lemma_set_missing(entries.skip(1), key, value);
        assert(seq![entries[0]] + entries.skip(1).push((key, value)) =~= entries.push(
            (key, value),
        ));
    } else {
        assert(seq![(key, value)] =~= entries.push((key, value)));
    }
}

/// A key holds the value it was last set to.
pub proof fn lemma_get_after_set(entries: Seq<(Seq<char>, Doc)>, key: Seq<char>, value: Doc)
    ensures
        doc_get(doc_set(entries, key, value), key) == Some(value),
    decreases entries.len(),
{
    if entries.len() > 0 && entries[0].0 != key {
        lemma_get_after_set(entries.skip(1), key, value);
        let set = doc_set(entries, key, value);
        assert(set.skip(1) =~= doc_set(entries.skip(1), key, value));
    }
}

impl Dictionary {
    /// A dictionary without entries.
    pub fn new() -> (res: Dictionary)
        ensures
            res@ == Seq::<(Seq<char>, Doc)>::empty(),
    {
        let res = Dictionary { entries: Vec::new() };
        assert(res@ =~= Seq::<(Seq<char>, Doc)>::empty());
        res
    }

    /// The number of entries.
    pub fn len(&self) -> (res: usize)
        ensures
            res == self@.len(),
    {
        self.entries.len()
    }

    fn position(&self, key: &str) -> (res: Option<usize>)
        ensures
            res matches Some(i) ==> i < self@.len() && self@[i as int].0 == key@ && forall|k: int|
                0 <= k < i ==> (#[trigger] self@[k]).0 != key@,
            res is None ==> forall|k: int| 0 <= k < self@.len() ==> (#[trigger] self@[k]).0 != key@,
    {
        let n = self.entries.len();
        let mut i: usize = 0;
        while i < n
            invariant
                n == self.entries@.len(),
                i <= n,
                forall|k: int| 0 <= k < i ==> (#[trigger] self@[k]).0 != key@,
            decreases n - i,
        {
            if str_eq(self.entries[i].0.as_str(), key) {
                return Some(i);
            }
            i += 1;
        }
        None
    }

    /// The value of the first entry under `key`.
    pub fn get(&self, key: &str) -> (res: Option<&PlistValue>)
        ensures
            res is Some <==> doc_get(self@, key@) is Some,
            res is Some ==> res->0@ == doc_get(self@, key@)->0,
    {
        match self.position(key) {
            Some(i) => {
                proof {
                    lemma_get_skip(self@, key@, i as int);
                }
                Some(&self.entries[i].1)
            },
            None => {
                proof {
                    lemma_get_skip(self@, key@, self@.len() as int);
                }
                None
            },
        }
    }

    /// Adds an entry at the end, whatever the dictionary holds.
    pub fn push(&mut self, key: &str, value: PlistValue)
        ensures
            final(self)@ == old(self)@.push((key@, value@)),
    {
        self.entries.push((key.to_owned(), value));
        assert(self@ =~= old(self)@.push((key@, value@)));
    }

    /// Sets `key` to `value`: the first entry under `key` takes the value
    /// and keeps its place, or a new entry is added at the end.
    pub fn insert(&mut self, key: &str, value: PlistValue)
        ensures
            final(self)@ == doc_set(old(self)@, key@, value@),
    {
        match self.position(key) {
            Some(i) => {
                proof {
                    lemma_set_found(self@, key@, value@, i as int);
                }
                self.entries.set(i, (key.to_owned(), value));
                assert(self@ =~= old(self)@.update(i as int, (key@, value@)));
            },
            None => {
                proof {
                    lemma_set_missing(self@, key@, value@);
                }
                self.push(key, value);
            },
        }
    }
}

impl PlistValue {
    /// The text of a string value.
    pub fn as_string(&self) -> (res: Option<&str>)
        ensures
            res is Some <==> self@ is String,
            res is Some ==> Doc::String(res->0@) == self@,
    {
        match self {
            PlistValue::String(s) => Some(s.as_str()),
            _ => None,
        }
    }

    /// The bytes of a data value.
    pub fn as_data(&self) -> (res: Option<&Vec<u8>>)
        ensures
            res is Some <==> self@ is Data,
            res is Some ==> Doc::Data(res->0@) == self@,
    {
        match self {
            PlistValue::Data(d) => Some(d),
            _ => None,
        }
    }

    /// The entries of a dictionary value.
    pub fn as_dictionary(&self) -> (res: Option<&Dictionary>)
        ensures
            res is Some <==> self@ is Dictionary,
            res is Some ==> Doc::Dictionary(res->0@) == self@,
    {
        match self {
            PlistValue::Dictionary(d) => Some(d),
            _ => None,
        }
    }

    /// The truth value of a boolean value.
    pub fn as_boolean(&self) -> (res: Option<bool>)
        ensures
            res is Some <==> self@ is Boolean,
            res is Some ==> Doc::Boolean(res->0) == self@,
    {
        match self {
            PlistValue::Boolean(b) => Some(*b),
            _ => None,
        }
    }

    /// An integer value that fits a signed 64-bit number.
    pub fn as_signed_integer(&self) -> (res: Option<i64>)
        ensures
            res == signed_of(self@),
    {
        match self {
            PlistValue::Integer(i) => {
                if -9223372036854775808i128 <= *i && *i <= 9223372036854775807i128 {
                    Some(*i as i64)
                } else {
                    None
                }
            },
            _ => None,
        }
    }

    /// An integer value that fits an unsigned 64-bit number.
    pub fn as_unsigned_integer(&self) -> (res: Option<u64>)
        ensures
            res == unsigned_of(self@),
    {
        match self {
            PlistValue::Integer(i) => {
                if 0i128 <= *i && *i <= 18446744073709551615i128 {
                    Some(*i as u64)
                } else {
                    None
                }
            },
            _ => None,
        }
    }
}

/// The signed 64-bit number that a document holds, if it is an integer that
/// fits one.
pub open spec fn signed_of(doc: Doc) -> Option<i64> {
    match doc {
        Doc::Integer(i) => if i64::MIN <= i <= i64::MAX {
            Some(i as i64)
        } else {
            None
        },
        _ => None,
    }
}

/// The unsigned 64-bit number that a document holds, if it is an integer
/// that fits one.
pub open spec fn unsigned_of(doc: Doc) -> Option<u64> {
    match doc {
        Doc::Integer(i) => if 0 <= i <= u64::MAX {
            Some(i as u64)
        } else {
            None
        },
        _ => None,
    }
}

/// The text that a document holds, if it is a string.
pub open spec fn string_of(doc: Doc) -> Option<Seq<char>> {
    match doc {
        Doc::String(s) => Some(s),
        _ => None,
    }
}

/// The bytes that a document holds, if it is data.
pub open spec fn data_of(doc: Doc) -> Option<Seq<u8>> {
    match doc {
        Doc::Data(d) => Some(d),
        _ => None,
    }
}

/// The entries that a document holds, if it is a dictionary.
pub open spec fn dictionary_of(doc: Doc) -> Option<Seq<(Seq<char>, Doc)>> {
    match doc {
        Doc::Dictionary(d) => Some(d),
        _ => None,
    }
}

/// The text under `key`, if the entry is a string.
pub open spec fn get_string(entries: Seq<(Seq<char>, Doc)>, key: Seq<char>) -> Option<Seq<char>> {
    match doc_get(entries, key) {
        Some(doc) => string_of(doc),
        None => None,
    }
}

/// The bytes under `key`, if the entry is data.
pub open spec fn get_data(entries: Seq<(Seq<char>, Doc)>, key: Seq<char>) -> Option<Seq<u8>> {
    match doc_get(entries, key) {
        Some(doc) => data_of(doc),
        None => None,
    }
}

/// The dictionary under `key`, if the entry is one.
pub open spec fn get_dictionary(entries: Seq<(Seq<char>, Doc)>, key: Seq<char>) -> Option<
    Seq<(Seq<char>, Doc)>,
> {
    match doc_get(entries, key) {
        Some(doc) => dictionary_of(doc),
        None => None,
    }
}

impl Dictionary {
    /// The text under `key`, if the entry is a string.
    pub fn get_str(&self, key: &str) -> (res: Option<&str>)
        ensures
            res is Some <==> get_string(self@, key@) is Some,
            res is Some ==> res->0@ == get_string(self@, key@)->0,
    {
        match self.get(key) {
            Some(value) => value.as_string(),
            None => None,
        }
    }

    /// The bytes under `key`, if the entry is data.
    pub fn get_bytes(&self, key: &str) -> (res: Option<&Vec<u8>>)
        ensures
            res is Some <==> get_data(self@, key@) is Some,
            res is Some ==> res->0@ == get_data(self@, key@)->0,
    {
        match self.get(key) {
            Some(value) => value.as_data(),
            None => None,
        }
    }

    /// The dictionary under `key`, if the entry is one.
    pub fn get_dict(&self, key: &str) -> (res: Option<&Dictionary>)
        ensures
            res is Some <==> get_dictionary(self@, key@) is Some,
            res is Some ==> res->0@ == get_dictionary(self@, key@)->0,
    {
        match self.get(key) {
            Some(value) => value.as_dictionary(),
            None => None,
        }
    }
}

/// The document of a list of texts: an array of strings.
pub open spec fn string_array(items: Seq<Seq<char>>) -> Doc {
    Doc::Array(Seq::new(items.len(), |i: int| Doc::String(items[i])))
}

impl PlistValue {
    /// A string value with the given text.
    pub fn text(text: &str) -> (res: PlistValue)
        ensures
            res@ == Doc::String(text@),
    {
        PlistValue::String(text.to_owned())
    }

    /// An array value that holds the given texts as strings.
    pub fn strings(items: &Vec<String>) -> (res: PlistValue)
        ensures
            res@ == string_array(crate::text::views(items@)),
    {
        let mut out: Vec<PlistValue> = Vec::new();
        let n = items.len();
        let mut i: usize = 0;
        while i < n
            invariant
                n == items@.len(),
                i <= n,
                out@.len() == i,
                forall|k: int| 0 <= k < i ==> (#[trigger] out@[k])@ == Doc::String(items@[k]@),
            decreases n - i,
        {
            out.push(PlistValue::text(items[i].as_str()));
            i += 1;
        }
        let res = PlistValue::Array(out);
        proof {
            assert(res@->Array_0 =~= string_array(crate::text::views(items@))->Array_0);
        }
        res
    }

    /// A dictionary value with the given entries.
    pub fn dictionary(entries: Dictionary) -> (res: PlistValue)
        ensures
            res@ == Doc::Dictionary(entries@),
    {
        PlistValue::Dictionary(entries)
    }
}

/// `plist::Value` of the plist crate, declared so that the functions that
/// change a `PlistValue` into it can name it. Nothing is known of what a
/// value of it holds.
#[verifier::external_type_specification]
#[verifier::external_body]
pub struct ExPlistValue(plist::Value);

/// The XML property list of a document, or `None` where the document cannot
/// be written as one.
pub uninterp spec fn plist_xml(doc: Doc) -> Option<Seq<u8>>;

/// The binary property list of a document, or `None` where the document
/// cannot be written as one.
pub uninterp spec fn plist_binary(doc: Doc) -> Option<Seq<u8>>;

/// Changes a `PlistValue` into a `plist::Value` of the plist crate, kind
/// for kind. There is none where a value it holds has none.
#[verifier::external_body]
fn to_plist(value: &PlistValue) -> (res: Option<plist::Value>) {
    match value {
        PlistValue::Array(a) => a.iter().map(to_plist).collect::<Option<_>>().map(
            plist::Value::Array,
        ),
        PlistValue::Dictionary(d) => entries_to_plist(&d.entries),
        leaf => leaf_to_plist(leaf),
    }
}

/// Changes the entries of a dictionary into a `plist::Value` of the plist
/// crate that is a dictionary, entry for entry. There is none where a value
/// among them has none.
#[verifier::external_body]
fn entries_to_plist(entries: &Vec<(String, PlistValue)>) -> (res: Option<plist::Value>) {
    entries.iter().map(|(k, v)| Some((k.clone(), to_plist(v)?))).collect::<Option<_>>().map(
        plist::Value::Dictionary,
    )
}

/// Changes a `PlistValue` that holds no other values into a `plist::Value`,
/// kind for kind. There is none where a real number is no decimal text.
#[verifier::external_body]
fn leaf_to_plist(value: &PlistValue) -> (res: Option<plist::Value>) {
    Some(match value {
        PlistValue::Boolean(b) => plist::Value::Boolean(*b),
        PlistValue::Data(d) => plist::Value::Data(d.clone()),
        PlistValue::Date(d) => return date_to_plist(d),
        PlistValue::Real(r) => plist::Value::Real(r.parse().ok()?),
        PlistValue::Integer(i) => return integer_to_plist(*i),
        PlistValue::String(s) => plist::Value::String(s.clone()),
        PlistValue::Uid(u) => plist::Value::Uid(plist::Uid::new(*u)),
        _ => return None,
    })
}

/// Changes a date into a `plist::Value` of the plist crate, by way of the
/// `SystemTime` that lies its seconds and nanoseconds from the Unix epoch.
/// A `PlistDate` lies between the years 1601 and 9999 and its nanoseconds
/// are less than a second, so the steps from the epoch stay within what
/// `SystemTime` holds on every platform, and the date is one that the plist
/// crate can write in both forms.
#[verifier::external_body]
fn date_to_plist(date: &PlistDate) -> (res: Option<plist::Value>) {
    let start = std::time::UNIX_EPOCH.checked_sub(std::time::Duration::from_secs(date.back))?;
    let time = start.checked_add(std::time::Duration::new(date.forward, date.nanos))?;
    Some(plist::Value::Date(time.into()))
}

/// Changes an integer into a `plist::Value` of the plist crate, through the
/// signed 64-bit kind where it fits and the unsigned one otherwise. There
/// is none where it fits neither.
#[verifier::external_body]
fn integer_to_plist(i: i128) -> (res: Option<plist::Value>) {
    i64::try_from(i).map(plist::Value::from).or_else(
        |_| u64::try_from(i).map(plist::Value::from),
    ).ok()
}

/// `plist::Value::to_writer_xml` of the plist crate, on a dictionary: the
/// named bytes, and none exactly where the dictionary cannot be written.
/// Every date that a dictionary holds lies between the years 1601 and 9999,
/// which the writer can format.
#[verifier::external_body]
pub(crate) fn plist_to_xml(dict: &Dictionary) -> (res: Option<Vec<u8>>)
    ensures
        res is Some <==> plist_xml(Doc::Dictionary(dict@)) is Some,
        res is Some ==> res->0@ == plist_xml(Doc::Dictionary(dict@))->0,
{
    let mut out = Vec::new();
    entries_to_plist(&dict.entries)?.to_writer_xml(&mut out).ok()?;
    Some(out)
}

/// `plist::Value::to_writer_binary` of the plist crate, on a dictionary:
/// the named bytes, and none exactly where the dictionary cannot be written.
#[verifier::external_body]
pub(crate) fn plist_to_binary(dict: &Dictionary) -> (res: Option<Vec<u8>>)
    ensures
        res is Some <==> plist_binary(Doc::Dictionary(dict@)) is Some,
        res is Some ==> res->0@ == plist_binary(Doc::Dictionary(dict@))->0,
{
    let mut out = Vec::new();
    entries_to_plist(&dict.entries)?.to_writer_binary(&mut out).ok()?;
    Some(out)
}

impl PlistValue {
    /// The dictionary that the value is, if it is one.
    pub fn into_dictionary(self) -> (res: Option<Dictionary>)
        ensures
            res is Some <==> self@ is Dictionary,
            res is Some ==> Doc::Dictionary(res->0@) == self@,
    {
        match self {
            PlistValue::Dictionary(d) => Some(d),
            _ => None,
        }
    }
}

impl Dictionary {
    /// Writes the dictionary as an XML property list.
    pub fn encode_xml(&self) -> (res: Option<Vec<u8>>)
        ensures
            res is Some <==> plist_xml(Doc::Dictionary(self@)) is Some,
            res is Some ==> res->0@ == plist_xml(Doc::Dictionary(self@))->0,
    {
        plist_to_xml(self)
    }

    /// Writes the dictionary as a binary property list.
    pub fn encode_binary(&self) -> (res: Option<Vec<u8>>)
        ensures
            res is Some <==> plist_binary(Doc::Dictionary(self@)) is Some,
            res is Some ==> res->0@ == plist_binary(Doc::Dictionary(self@))->0,
    {
        plist_to_binary(self)
    }

    /// Takes the value of the first entry under `key` out of the
    /// dictionary.
    pub fn take(self, key: &str) -> (res: Option<PlistValue>)
        ensures
            res is Some <==> doc_get(self@, key@) is Some,
            res is Some ==> res->0@ == doc_get(self@, key@)->0,
    {
        match self.position(key) {
            Some(i) => {
                proof {
                    lemma_get_skip(self@, key@, i as int);
                }
                let ghost wanted = self@[i as int].1;
                let ghost before = self.entries@;
                assert(before[i as int].1@ == wanted);
                let mut entries = self.entries;
                let entry = entries.remove(i);
                assert(entry == before[i as int]);
                Some(entry.1)
            },
            None => {
                proof {
                    lemma_get_skip(self@, key@, self@.len() as int);
                }
                None
            },
        }
    }
}

} // verus!
