//! Responses to requests: the raw entries, and the records that the
//! commands of this library return.

use vstd::prelude::*;
use std::ops::Deref;
use crate::codec::Decode;
use crate::error::{agrees, DecodeError, Error, ErrorKind, SpecDecodeError, SpecError};
use crate::record::{decode_record, decoded_record, put, Record};
use crate::shared::list::{
    decode_all, lemma_decode_all_fails, lemma_decode_all_is_ok, lemma_decode_all_len,
};
use crate::shared::ApiKeyScope;
use crate::types::{ChannelId, ClientDatabaseId, ClientId, ServerId};
use crate::wire::{
    cut, head, is_word, lemma_cut_valid_utf8, lemma_split_valid_utf8, lemma_try_fold_fails,
    lemma_try_fold_next, slices, split, split_on, str_eq, tail, text_of, try_fold, word_bytes,
    EQUALS, PIPE, SPACE,
};

verus! {

/// What an entry holds: for each key that occurs, its value if it has one.
pub type Fields = Map<Seq<char>, Option<Seq<char>>>;

/// The view of a value that may be missing.
pub open spec fn value_view(value: Option<String>) -> Option<Seq<char>> {
    match value {
        Some(s) => Some(s@),
        None => None,
    }
}

/// The fields that the pairs `pairs` give, where a later pair replaces an
/// earlier one with the same key.
pub open spec fn fields_of(pairs: Seq<(String, Option<String>)>) -> Fields
    decreases pairs.len(),
{
    if pairs.len() == 0 {
        Map::empty()
    } else {
        fields_of(pairs.drop_last()).insert(pairs.last().0@, value_view(pairs.last().1))
    }
}

/// Whether no two of the pairs `pairs` have the same key.
pub open spec fn keys_distinct(pairs: Seq<(String, Option<String>)>) -> bool {
    forall|i: int, j: int| 0 <= i < j < pairs.len() ==> pairs[i].0@ != pairs[j].0@
}

/// Putting a new value in the place of a key's pair is putting the key
/// with that value into the fields.
pub proof fn lemma_fields_of_update(
    pairs: Seq<(String, Option<String>)>,
    j: int,
    pair: (String, Option<String>),
)
    requires
        keys_distinct(pairs),
        0 <= j < pairs.len(),
        pairs[j].0@ == pair.0@,
    ensures
        fields_of(pairs.update(j, pair)) == fields_of(pairs).insert(pair.0@, value_view(pair.1)),
        keys_distinct(pairs.update(j, pair)),
    decreases pairs.len(),
{
    let updated = pairs.update(j, pair);
    let rest = pairs.drop_last();
    if j == pairs.len() - 1 {
        assert(updated.drop_last() =~= rest);
        assert(fields_of(updated) =~= fields_of(pairs).insert(pair.0@, value_view(pair.1)));
    } else {
        assert(keys_distinct(rest));
        lemma_fields_of_update(rest, j, pair);
        assert(updated.drop_last() =~= rest.update(j, pair));
        assert(updated.last() == pairs.last());
        assert(pairs[j].0@ != pairs[pairs.len() - 1].0@);
        assert(fields_of(updated) =~= fields_of(pairs).insert(pair.0@, value_view(pair.1)));
    }
}

/// The last pair with a key decides what the fields hold under it.
pub proof fn lemma_fields_of_last(pairs: Seq<(String, Option<String>)>, key: Seq<char>, j: int)
    requires
        0 <= j < pairs.len(),
        pairs[j].0@ == key,
        forall|i: int| j < i < pairs.len() ==> pairs[i].0@ != key,
    ensures
        fields_of(pairs).dom().contains(key),
        fields_of(pairs)[key] == value_view(pairs[j].1),
    decreases pairs.len(),
{
    if j < pairs.len() - 1 {
        lemma_fields_of_last(pairs.drop_last(), key, j);
    }
}

/// A key that no pair has is not among the fields.
pub proof fn lemma_fields_of_absent(pairs: Seq<(String, Option<String>)>, key: Seq<char>)
    requires
        forall|i: int| 0 <= i < pairs.len() ==> pairs[i].0@ != key,
    ensures
        !fields_of(pairs).dom().contains(key),
    decreases pairs.len(),
{
    if pairs.len() > 0 {
        lemma_fields_of_absent(pairs.drop_last(), key);
    }
}

/// The key and the value that one token of an entry stands for: the key is
/// what stands before the first `=`, the value what stands behind it, and
/// a token without `=` is a key without a value. Both must be UTF-8.
pub open spec fn field_of(token: Seq<u8>) -> Result<(Seq<char>, Option<Seq<char>>), SpecError> {
    let key = head(token, EQUALS);
    if !vstd::utf8::valid_utf8(key) {
        Err(SpecError::Utf8)
    } else {
        match tail(token, EQUALS) {
            Some(value) => {
                if !vstd::utf8::valid_utf8(value) {
                    Err(SpecError::Utf8)
                } else {
                    Ok((vstd::utf8::decode_utf8(key), Some(vstd::utf8::decode_utf8(value))))
                }
            },
            None => Ok((vstd::utf8::decode_utf8(key), None)),
        }
    }
}

/// The fields `m` with what the token `token` stands for put in.
pub open spec fn field_added(m: Fields, token: Seq<u8>) -> Result<Fields, SpecError> {
    match field_of(token) {
        Ok((key, value)) => Ok(m.insert(key, value)),
        Err(e) => Err(e),
    }
}

/// The fields that the bytes `buf` stand for: the tokens between the
/// spaces, put in from the left. Values stay as they are written, escapes
/// included.
pub open spec fn decoded_entry(buf: Seq<u8>) -> Result<Fields, SpecError> {
    try_fold(split(buf, SPACE), Map::empty(), |m: Fields, token: Seq<u8>| field_added(m, token))
}

/// What reading the field `key` of `m` as a `T` gives: `NoField` where the
/// key is missing or has no value, else what `T` reads from the bytes of
/// the value.
pub open spec fn lookup<T: Decode>(m: Fields, key: Seq<char>) -> Result<T::V, SpecError> {
    if m.dom().contains(key) && m[key] is Some {
        T::decoded(vstd::utf8::encode_utf8(m[key].unwrap()))
    } else {
        Err(SpecError::NoField)
    }
}

/// A single entry of key-value pairs.
#[derive(Debug)]
pub struct Entry {
    fields: Vec<(String, Option<String>)>,
}

impl View for Entry {
    type V = Fields;

    closed spec fn view(&self) -> Fields {
        fields_of(self.fields@)
    }
}

/// Puts the key `key` with the value `value` among the pairs `fields`: in
/// the place of the pair that has the key, or behind all pairs.
fn put_field(fields: &mut Vec<(String, Option<String>)>, key: String, value: Option<String>)
    requires
        keys_distinct(old(fields)@),
    ensures
        keys_distinct(final(fields)@),
        fields_of(final(fields)@) == fields_of(old(fields)@).insert(key@, value_view(value)),
{
    let mut i: usize = 0;
    while i < fields.len()
        invariant
            i <= fields.len(),
            *fields == *old(fields),
            keys_distinct(fields@),
            forall|k: int| 0 <= k < i ==> fields[k].0@ != key@,
        decreases fields.len() - i,
    {
        if str_eq(fields[i].0.as_str(), key.as_str()) {
            proof {
                lemma_fields_of_update(fields@, i as int, (key, value));
            }
            fields[i] = (key, value);
            return ;
        }
        i = i + 1;
    }
    let ghost before = fields@;
    fields.push((key, value));
    assert(fields@.drop_last() =~= before);
}

impl Entry {
    /// No key occurs twice.
    #[verifier::type_invariant]
    spec fn no_key_twice(self) -> bool {
        keys_distinct(self.fields@)
    }

    /// The pair with the key `key` that decides, if there is one.
    fn find(&self, key: &str) -> (r: Option<usize>)
        ensures
            match r {
                Some(j) => j < self.fields.len() && self@.dom().contains(key@) && self@[key@]
                    == value_view(self.fields[j as int].1),
                None => !self@.dom().contains(key@),
            },
    {
        let mut i: usize = self.fields.len();
        while i > 0
            invariant
                i <= self.fields.len(),
                forall|k: int| i <= k < self.fields.len() ==> self.fields[k].0@ != key@,
            decreases i,
        {
            i = i - 1;
            if str_eq(self.fields[i].0.as_str(), key) {
                proof {
                    lemma_fields_of_last(self.fields@, key@, i as int);
                }
                return Some(i);
            }
        }
        proof {
            lemma_fields_of_absent(self.fields@, key@);
        }
        None
    }

    /// Returns `true` if the `Entry` contains the given `key`.
    pub fn contains(&self, key: &str) -> (r: bool)
        ensures
            r == self@.dom().contains(key@),
    {
        self.find(key).is_some()
    }

    /// The value of the given `key` as it is written, if the key has one.
    pub fn value(&self, key: &str) -> (r: Option<&str>)
        ensures
            match r {
                Some(text) => self@.dom().contains(key@) && self@[key@] == Some(text@),
                None => !(self@.dom().contains(key@) && self@[key@] is Some),
            },
    {
        match self.find(key) {
            Some(j) => match &self.fields[j].1 {
                Some(value) => Some(value.as_str()),
                None => None,
            },
            None => None,
        }
    }

    /// Parses and returns the value of a given `key` as `T`.
    ///
    /// # Errors
    ///
    /// This function returns an [`Error`] if the requested `key` does not
    /// exist, contains no value or cannot be decoded into `T`.
    pub fn get<T>(&self, key: &str) -> (r: Result<T, Error>) where T: Decode
        ensures
            agrees(r, lookup::<T>(self@, key@)),
    {
        match self.find(key) {
            Some(j) => match &self.fields[j].1 {
                Some(value) => T::decode(value.as_str().as_bytes()),
                None => Err(Error(ErrorKind::NoField)),
            },
            None => Err(Error(ErrorKind::NoField)),
        }
    }
}

impl Clone for Entry {
    fn clone(&self) -> (r: Self)
        ensures
            r@ == self@,
    {
        proof {
            use_type_invariant(self);
        }
        let mut fields: Vec<(String, Option<String>)> = Vec::new();
        let mut i: usize = 0;
        while i < self.fields.len()
            invariant
                i <= self.fields.len(),
                fields@ == self.fields@.take(i as int),
            decreases self.fields.len() - i,
        {
            let value = match &self.fields[i].1 {
                Some(text) => Some(text.clone()),
                None => None,
            };
            fields.push((self.fields[i].0.clone(), value));
            assert(fields@ =~= self.fields@.take(i + 1));
            i = i + 1;
        }
        assert(fields@ =~= self.fields@);
        Entry { fields }
    }
}

impl Decode for Entry {
    open spec fn decoded(buf: Seq<u8>) -> Result<Fields, SpecError> {
        decoded_entry(buf)
    }

    fn decode(buf: &[u8]) -> (r: Result<Self, Error>) {
        let tokens = split_on(buf, SPACE);
        let ghost step = |m: Fields, token: Seq<u8>| field_added(m, token);
        let mut fields: Vec<(String, Option<String>)> = Vec::new();
        let mut i: usize = 0;
        assert(slices(tokens@).take(0) =~= Seq::<Seq<u8>>::empty());
        while i < tokens.len()
            invariant
                i <= tokens.len(),
                slices(tokens@) == split(buf@, SPACE),
                step == |m: Fields, token: Seq<u8>| field_added(m, token),
                try_fold(slices(tokens@).take(i as int), Map::empty(), step) == Ok::<
                    Fields,
                    SpecError,
                >(fields_of(fields@)),
                keys_distinct(fields@),
            decreases tokens.len() - i,
        {
            proof {
                lemma_try_fold_next(slices(tokens@), Map::empty(), step, i as int);
            }
            let (key, value) = cut(tokens[i], EQUALS);
            let key = match text_of(key) {
                Ok(key) => key,
                Err(e) => {
                    proof {
                        lemma_try_fold_fails(slices(tokens@), Map::empty(), step, i + 1);
                    }
                    return Err(e);
                },
            };
            let value = match value {
                Some(value) => match text_of(value) {
                    Ok(value) => Some(value),
                    Err(e) => {
                        proof {
                            lemma_try_fold_fails(slices(tokens@), Map::empty(), step, i + 1);
                        }
                        return Err(e);
                    },
                },
                None => None,
            };
            put_field(&mut fields, key, value);
            i = i + 1;
        }
        assert(slices(tokens@).take(i as int) =~= slices(tokens@));
        Ok(Entry { fields })
    }
}

/// A raw response of at least one [`Entry`].
#[derive(Debug)]
pub struct Response {
    entries: Vec<Entry>,
}

impl Response {
    /// The entries of the response, in the order in which they came.
    pub closed spec fn entries(&self) -> Seq<Entry> {
        self.entries@
    }

    /// Consumes the response and returns its entries.
    pub fn into_entries(self) -> (r: Vec<Entry>)
        ensures
            r@ == self.entries(),
    {
        self.entries
    }
}

impl View for Response {
    type V = Seq<Fields>;

    open spec fn view(&self) -> Seq<Fields> {
        self.entries().map_values(|e: Entry| e@)
    }
}

impl Clone for Response {
    fn clone(&self) -> (r: Self)
        ensures
            r@ == self@,
    {
        let mut entries: Vec<Entry> = Vec::new();
        let mut i: usize = 0;
        while i < self.entries.len()
            invariant
                i <= self.entries.len(),
                entries@.map_values(|e: Entry| e@) == self.entries@.take(i as int).map_values(
                    |e: Entry| e@,
                ),
            decreases self.entries.len() - i,
        {
            let ghost done = entries@.map_values(|e: Entry| e@);
            let entry = self.entries[i].clone();
            entries.push(entry);
            proof {
                let want = self.entries@.take(i + 1).map_values(|e: Entry| e@);
                assert(entries@.map_values(|e: Entry| e@) =~= done.push(entry@));
                assert(self.entries@.take(i + 1).drop_last() =~= self.entries@.take(i as int));
                assert(want =~= done.push(self.entries@[i as int]@));
            }
            i = i + 1;
        }
        assert(self.entries@.take(i as int) =~= self.entries@);
        Response { entries }
    }
}

impl Deref for Response {
    type Target = [Entry];

    fn deref(&self) -> (r: &[Entry])
        ensures
            r@ == self.entries(),
    {
        self.entries.as_slice()
    }
}

impl Decode for Response {
    /// The entries between the pipes, each read as an [`Entry`].
    open spec fn decoded(buf: Seq<u8>) -> Result<Seq<Fields>, SpecError> {
        decode_all::<Entry>(split(buf, PIPE))
    }

    fn decode(buf: &[u8]) -> (r: Result<Self, Error>) {
        let parts = split_on(buf, PIPE);
        let mut entries: Vec<Entry> = Vec::new();
        let mut i: usize = 0;
        assert(slices(parts@).take(0) =~= Seq::<Seq<u8>>::empty());
        assert(entries@.map_values(|e: Entry| e@) =~= Seq::<Fields>::empty());
        while i < parts.len()
            invariant
                i <= parts.len(),
                slices(parts@) == split(buf@, PIPE),
                decode_all::<Entry>(slices(parts@).take(i as int)) == Ok::<Seq<Fields>, SpecError>(
                    entries@.map_values(|e: Entry| e@),
                ),
            decreases parts.len() - i,
        {
            let ghost done = entries@.map_values(|e: Entry| e@);
            let ghost prefix = slices(parts@).take(i + 1);
            assert(prefix.drop_last() =~= slices(parts@).take(i as int));
            assert(prefix.last() == parts[i as int]@);
            match Entry::decode(parts[i]) {
                Ok(entry) => {
                    entries.push(entry);
                    assert(entries@.map_values(|e: Entry| e@) =~= done.push(entry@));
                },
                Err(e) => {
                    proof {
                        assert(decode_all::<Entry>(prefix) == Err::<Seq<Fields>, SpecError>(e@));
                        lemma_decode_all_fails::<Entry>(slices(parts@), i + 1);
                    }
                    return Err(e);
                },
            }
            i = i + 1;
        }
        assert(slices(parts@).take(i as int) =~= slices(parts@));
        Ok(Response { entries })
    }
}

/// Tokens that are UTF-8 are all put in: no token fails.
pub proof fn lemma_fields_of_utf8(tokens: Seq<Seq<u8>>)
    requires
        forall|k: int| 0 <= k < tokens.len() ==> vstd::utf8::valid_utf8(#[trigger] tokens[k]),
    ensures
        try_fold(tokens, Map::empty(), |m: Fields, token: Seq<u8>| field_added(m, token)) is Ok,
    decreases tokens.len(),
{
    if tokens.len() > 0 {
        lemma_fields_of_utf8(tokens.drop_last());
        assert(vstd::utf8::valid_utf8(tokens[tokens.len() - 1]));
        lemma_cut_valid_utf8(tokens.last(), EQUALS);
    }
}

/// An entry is read from every line that is UTF-8.
pub proof fn lemma_entry_reads_utf8(buf: Seq<u8>)
    requires
        vstd::utf8::valid_utf8(buf),
    ensures
        Entry::decoded(buf) is Ok,
{
    lemma_split_valid_utf8(buf, SPACE);
    lemma_fields_of_utf8(split(buf, SPACE));
}

/// A response is read from every line that is UTF-8.
pub proof fn lemma_response_reads_utf8(buf: Seq<u8>)
    requires
        vstd::utf8::valid_utf8(buf),
    ensures
        Response::decoded(buf) is Ok,
{
    let parts = split(buf, PIPE);
    lemma_split_valid_utf8(buf, PIPE);
    assert forall|k: int| 0 <= k < parts.len() implies Entry::decoded(#[trigger] parts[k]) is Ok by {
        lemma_entry_reads_utf8(parts[k]);
    }
    lemma_decode_all_is_ok::<Entry>(parts);
}

/// A response that can be read has at least one entry.
pub proof fn lemma_response_is_not_empty(buf: Seq<u8>)
    ensures
        Response::decoded(buf) matches Ok(entries) ==> entries.len() > 0,
{
    crate::wire::lemma_split_is_not_empty(buf, PIPE);
    lemma_decode_all_len::<Entry>(split(buf, PIPE));
}

/// Whether a virtual server runs.
#[derive(Copy, Clone, Debug, PartialEq, Eq, Structural)]
pub enum VirtualServerStatus {
    Unknown,
    Online,
    Offline,
}

impl View for VirtualServerStatus {
    type V = VirtualServerStatus;

    open spec fn view(&self) -> VirtualServerStatus {
        *self
    }
}

impl Default for VirtualServerStatus {
    fn default() -> (r: Self)
        ensures
            r == VirtualServerStatus::Unknown,
    {
        Self::Unknown
    }
}

impl Decode for VirtualServerStatus {
    /// The status that the bytes name; any other bytes are `UnexpectedEof`.
    open spec fn decoded(buf: Seq<u8>) -> Result<VirtualServerStatus, SpecError> {
        if buf == word_bytes("unknown") {
            Ok(VirtualServerStatus::Unknown)
        } else if buf == word_bytes("online") {
            Ok(VirtualServerStatus::Online)
        } else if buf == word_bytes("offline") {
            Ok(VirtualServerStatus::Offline)
        } else {
            Err(SpecError::Decode(SpecDecodeError::UnexpectedEof))
        }
    }

    fn decode(buf: &[u8]) -> (r: Result<Self, Error>) {
        if is_word(buf, "unknown") {
            Ok(Self::Unknown)
        } else if is_word(buf, "online") {
            Ok(Self::Online)
        } else if is_word(buf, "offline") {
            Ok(Self::Offline)
        } else {
            Err(Error(ErrorKind::Decode(DecodeError::UnexpectedEof)))
        }
    }
}

/// Data returned from the `version` command.
#[derive(Debug)]
pub struct Version {
    pub version: String,
    pub build: u64,
    pub platform: String,
}

/// The view of a [`Version`].
pub struct SpecVersion {
    pub version: Seq<char>,
    pub build: u64,
    pub platform: Seq<char>,
}

impl View for Version {
    type V = SpecVersion;

    open spec fn view(&self) -> SpecVersion {
        SpecVersion {
            version: self.version@,
            build: self.build@,
            platform: self.platform@,
        }
    }
}

impl Default for Version {
    fn default() -> (r: Self)
        ensures
            r@ == Self::blank(),
    {
        Version {
            version: String::new(),
            build: 0,
            platform: String::new(),
        }
    }
}

impl Record for Version {
    open spec fn blank() -> SpecVersion {
        SpecVersion {
            version: Seq::empty(),
            build: 0,
            platform: Seq::empty(),
        }
    }

    open spec fn assigned(v: SpecVersion, key: Seq<u8>, value: Seq<u8>) -> Result<
        SpecVersion,
        SpecError,
    > {
        if key == word_bytes("version") {
            put(String::decoded(value), |x: Seq<char>| SpecVersion { version: x, ..v })
        } else if key == word_bytes("build") {
            put(u64::decoded(value), |x: u64| SpecVersion { build: x, ..v })
        } else if key == word_bytes("platform") {
            put(String::decoded(value), |x: Seq<char>| SpecVersion { platform: x, ..v })
        } else {
            Ok(v)
        }
    }

    fn empty() -> (r: Self) {
        Self::default()
    }

    fn assign(self, key: &[u8], value: &[u8]) -> (r: Result<Self, Error>) {
        if is_word(key, "version") {
            return Ok(Self { version: String::decode(value)?, ..self });
        }
        if is_word(key, "build") {
            return Ok(Self { build: u64::decode(value)?, ..self });
        }
        if is_word(key, "platform") {
            return Ok(Self { platform: String::decode(value)?, ..self });
        }
        Ok(self)
    }
}

impl Decode for Version {
    open spec fn decoded(buf: Seq<u8>) -> Result<SpecVersion, SpecError> {
        decoded_record::<Version>(buf)
    }

    fn decode(buf: &[u8]) -> (r: Result<Self, Error>) {
        decode_record(buf)
    }
}

/// An API key, as the `apikeyadd` and `apikeylist` commands return it.
#[derive(Debug)]
pub struct ApiKey {
    pub apikey: String,
    pub id: u64,
    pub sid: u64,
    pub cldbid: u64,
    pub scope: ApiKeyScope,
    pub time_left: u64,
}

/// The view of a [`ApiKey`].
pub struct SpecApiKey {
    pub apikey: Seq<char>,
    pub id: u64,
    pub sid: u64,
    pub cldbid: u64,
    pub scope: ApiKeyScope,
    pub time_left: u64,
}

impl View for ApiKey {
    type V = SpecApiKey;

    open spec fn view(&self) -> SpecApiKey {
        SpecApiKey {
            apikey: self.apikey@,
            id: self.id@,
            sid: self.sid@,
            cldbid: self.cldbid@,
            scope: self.scope@,
            time_left: self.time_left@,
        }
    }
}

impl Default for ApiKey {
    fn default() -> (r: Self)
        ensures
            r@ == Self::blank(),
    {
        ApiKey {
            apikey: String::new(),
            id: 0,
            sid: 0,
            cldbid: 0,
            scope: ApiKeyScope::Manage,
            time_left: 0,
        }
    }
}

impl Record for ApiKey {
    open spec fn blank() -> SpecApiKey {
        SpecApiKey {
            apikey: Seq::empty(),
            id: 0,
            sid: 0,
            cldbid: 0,
            scope: ApiKeyScope::Manage,
            time_left: 0,
        }
    }

    open spec fn assigned(v: SpecApiKey, key: Seq<u8>, value: Seq<u8>) -> Result<
        SpecApiKey,
        SpecError,
    > {
        if key == word_bytes("apikey") {
            put(String::decoded(value), |x: Seq<char>| SpecApiKey { apikey: x, ..v })
        } else if key == word_bytes("id") {
            put(u64::decoded(value), |x: u64| SpecApiKey { id: x, ..v })
        } else if key == word_bytes("sid") {
            put(u64::decoded(value), |x: u64| SpecApiKey { sid: x, ..v })
        } else if key == word_bytes("cldbid") {
            put(u64::decoded(value), |x: u64| SpecApiKey { cldbid: x, ..v })
        } else if key == word_bytes("scope") {
            put(ApiKeyScope::decoded(value), |x: ApiKeyScope| SpecApiKey { scope: x, ..v })
        } else if key == word_bytes("time_left") {
            put(u64::decoded(value), |x: u64| SpecApiKey { time_left: x, ..v })
        } else {
            Ok(v)
        }
    }

    fn empty() -> (r: Self) {
        Self::default()
    }

    fn assign(self, key: &[u8], value: &[u8]) -> (r: Result<Self, Error>) {
        if is_word(key, "apikey") {
            return Ok(Self { apikey: String::decode(value)?, ..self });
        }
        if is_word(key, "id") {
            return Ok(Self { id: u64::decode(value)?, ..self });
        }
        if is_word(key, "sid") {
            return Ok(Self { sid: u64::decode(value)?, ..self });
        }
        if is_word(key, "cldbid") {
            return Ok(Self { cldbid: u64::decode(value)?, ..self });
        }
        if is_word(key, "scope") {
            return Ok(Self { scope: ApiKeyScope::decode(value)?, ..self });
        }
        if is_word(key, "time_left") {
            return Ok(Self { time_left: u64::decode(value)?, ..self });
        }
        Ok(self)
    }
}

impl Decode for ApiKey {
    open spec fn decoded(buf: Seq<u8>) -> Result<SpecApiKey, SpecError> {
        decoded_record::<ApiKey>(buf)
    }

    fn decode(buf: &[u8]) -> (r: Result<Self, Error>) {
        decode_record(buf)
    }
}

/// What the `whoami` command tells about the connection.
#[derive(Debug)]
pub struct Whoami {
    pub virtualserver_status: VirtualServerStatus,
    pub virtualserver_unique_identifier: String,
    pub virtualserver_port: u16,
    pub virtualserver_id: ServerId,
    pub client_id: ClientId,
    pub client_channel_id: ChannelId,
    pub client_nickname: String,
    pub client_database_id: ClientDatabaseId,
    pub client_login_name: String,
    pub client_unique_identifier: String,
    pub client_origin_server_id: ServerId,
}

/// The view of a [`Whoami`].
pub struct SpecWhoami {
    pub virtualserver_status: VirtualServerStatus,
    pub virtualserver_unique_identifier: Seq<char>,
    pub virtualserver_port: u16,
    pub virtualserver_id: ServerId,
    pub client_id: ClientId,
    pub client_channel_id: ChannelId,
    pub client_nickname: Seq<char>,
    pub client_database_id: ClientDatabaseId,
    pub client_login_name: Seq<char>,
    pub client_unique_identifier: Seq<char>,
    pub client_origin_server_id: ServerId,
}

impl View for Whoami {
    type V = SpecWhoami;

    open spec fn view(&self) -> SpecWhoami {
        SpecWhoami {
            virtualserver_status: self.virtualserver_status@,
            virtualserver_unique_identifier: self.virtualserver_unique_identifier@,
            virtualserver_port: self.virtualserver_port@,
            virtualserver_id: self.virtualserver_id@,
            client_id: self.client_id@,
            client_channel_id: self.client_channel_id@,
            client_nickname: self.client_nickname@,
            client_database_id: self.client_database_id@,
            client_login_name: self.client_login_name@,
            client_unique_identifier: self.client_unique_identifier@,
            client_origin_server_id: self.client_origin_server_id@,
        }
    }
}

impl Clone for Whoami {
    fn clone(&self) -> (r: Self)
        ensures
            r@ == self@,
    {
        Whoami {
            virtualserver_status: self.virtualserver_status.clone(),
            virtualserver_unique_identifier: self.virtualserver_unique_identifier.clone(),
            virtualserver_port: self.virtualserver_port.clone(),
            virtualserver_id: self.virtualserver_id.clone(),
            client_id: self.client_id.clone(),
            client_channel_id: self.client_channel_id.clone(),
            client_nickname: self.client_nickname.clone(),
            client_database_id: self.client_database_id.clone(),
            client_login_name: self.client_login_name.clone(),
            client_unique_identifier: self.client_unique_identifier.clone(),
            client_origin_server_id: self.client_origin_server_id.clone(),
        }
    }
}

impl Default for Whoami {
    fn default() -> (r: Self)
        ensures
            r@ == Self::blank(),
    {
        Whoami {
            virtualserver_status: VirtualServerStatus::Unknown,
            virtualserver_unique_identifier: String::new(),
            virtualserver_port: 0,
            virtualserver_id: ServerId(0),
            client_id: ClientId(0),
            client_channel_id: ChannelId(0),
            client_nickname: String::new(),
            client_database_id: ClientDatabaseId(0),
            client_login_name: String::new(),
            client_unique_identifier: String::new(),
            client_origin_server_id: ServerId(0),
        }
    }
}

impl Record for Whoami {
    open spec fn blank() -> SpecWhoami {
        SpecWhoami {
            virtualserver_status: VirtualServerStatus::Unknown,
            virtualserver_unique_identifier: Seq::empty(),
            virtualserver_port: 0,
            virtualserver_id: ServerId(0),
            client_id: ClientId(0),
            client_channel_id: ChannelId(0),
            client_nickname: Seq::empty(),
            client_database_id: ClientDatabaseId(0),
            client_login_name: Seq::empty(),
            client_unique_identifier: Seq::empty(),
            client_origin_server_id: ServerId(0),
        }
    }

    open spec fn assigned(v: SpecWhoami, key: Seq<u8>, value: Seq<u8>) -> Result<
        SpecWhoami,
        SpecError,
    > {
        if key == word_bytes("virtualserver_status") {
            put(
                VirtualServerStatus::decoded(value),
                |x: VirtualServerStatus| SpecWhoami { virtualserver_status: x, ..v },
            )
        } else if key == word_bytes("virtualserver_unique_identifier") {
            put(
                String::decoded(value),
                |x: Seq<char>| SpecWhoami { virtualserver_unique_identifier: x, ..v },
            )
        } else if key == word_bytes("virtualserver_port") {
            put(u16::decoded(value), |x: u16| SpecWhoami { virtualserver_port: x, ..v })
        } else if key == word_bytes("virtualserver_id") {
            put(ServerId::decoded(value), |x: ServerId| SpecWhoami { virtualserver_id: x, ..v })
        } else if key == word_bytes("client_id") {
            put(ClientId::decoded(value), |x: ClientId| SpecWhoami { client_id: x, ..v })
        } else if key == word_bytes("client_channel_id") {
            put(ChannelId::decoded(value), |x: ChannelId| SpecWhoami { client_channel_id: x, ..v })
        } else if key == word_bytes("client_nickname") {
            put(String::decoded(value), |x: Seq<char>| SpecWhoami { client_nickname: x, ..v })
        } else if key == word_bytes("client_database_id") {
            put(
                ClientDatabaseId::decoded(value),
                |x: ClientDatabaseId| SpecWhoami { client_database_id: x, ..v },
            )
        } else if key == word_bytes("client_login_name") {
            put(String::decoded(value), |x: Seq<char>| SpecWhoami { client_login_name: x, ..v })
        } else if key == word_bytes("client_unique_identifier") {
            put(
                String::decoded(value),
                |x: Seq<char>| SpecWhoami { client_unique_identifier: x, ..v },
            )
        } else if key == word_bytes("client_origin_server_id") {
            put(
                ServerId::decoded(value),
                |x: ServerId| SpecWhoami { client_origin_server_id: x, ..v },
            )
        } else {
            Ok(v)
        }
    }

    fn empty() -> (r: Self) {
        Self::default()
    }

    fn assign(self, key: &[u8], value: &[u8]) -> (r: Result<Self, Error>) {
        if is_word(key, "virtualserver_status") {
            return Ok(Self { virtualserver_status: VirtualServerStatus::decode(value)?, ..self });
        }
        if is_word(key, "virtualserver_unique_identifier") {
            return Ok(Self { virtualserver_unique_identifier: String::decode(value)?, ..self });
        }
        if is_word(key, "virtualserver_port") {
            return Ok(Self { virtualserver_port: u16::decode(value)?, ..self });
        }
        if is_word(key, "virtualserver_id") {
            return Ok(Self { virtualserver_id: ServerId::decode(value)?, ..self });
        }
        if is_word(key, "client_id") {
            return Ok(Self { client_id: ClientId::decode(value)?, ..self });
        }
        if is_word(key, "client_channel_id") {
            return Ok(Self { client_channel_id: ChannelId::decode(value)?, ..self });
        }
        if is_word(key, "client_nickname") {
            return Ok(Self { client_nickname: String::decode(value)?, ..self });
        }
        if is_word(key, "client_database_id") {
            return Ok(Self { client_database_id: ClientDatabaseId::decode(value)?, ..self });
        }
        if is_word(key, "client_login_name") {
            return Ok(Self { client_login_name: String::decode(value)?, ..self });
        }
        if is_word(key, "client_unique_identifier") {
            return Ok(Self { client_unique_identifier: String::decode(value)?, ..self });
        }
        if is_word(key, "client_origin_server_id") {
            return Ok(Self { client_origin_server_id: ServerId::decode(value)?, ..self });
        }
        Ok(self)
    }
}

impl Decode for Whoami {
    open spec fn decoded(buf: Seq<u8>) -> Result<SpecWhoami, SpecError> {
        decoded_record::<Whoami>(buf)
    }

    fn decode(buf: &[u8]) -> (r: Result<Self, Error>) {
        decode_record(buf)
    }
}

} // verus!
