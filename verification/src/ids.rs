//! Identifiers.
//!
//! Agent, thread, run and message identifiers are UUID-backed but accept
//! any string: a string that is no UUID is hashed to a version-5 UUID and
//! kept beside it, so that the identifier is written out as it came in.
//! Equality looks at the UUID alone. Tool-call identifiers are plain
//! strings.

use vstd::prelude::*;
use vstd::std_specs::cmp::PartialEqSpecImpl;
use std::convert::Infallible;
use vstd::string::StrSliceExecFns;
use vstd::string::StringExecFns;
use crate::uuid_text::{
    format_uuid, hash_uuid, is_v4_uuid, parse_uuid, random_uuid, uuid_parsed, uuid_text, uuid_v5,
};

verus! {

/// The namespace under which strings that are no UUID are hashed: the one
/// for ISO object identifiers, `6ba7b812-9dad-11d1-80b4-00c04fd430c8`.
pub const ID_NAMESPACE: u128 = 0x6ba7b8129dad11d180b400c04fd430c8;

/// What an identifier is, as plain values: its UUID and, where it was made
/// from a string that is no UUID, that string.
pub struct IdModel {
    pub uuid: u128,
    pub raw: Option<Seq<char>>,
}

/// The identifier that the string `s` denotes.
pub open spec fn id_of_text(s: Seq<char>) -> IdModel {
    match uuid_parsed(s) {
        Some(u) => IdModel { uuid: u, raw: None },
        None => IdModel { uuid: uuid_v5(ID_NAMESPACE, s), raw: Some(s) },
    }
}

/// The string an identifier is written out as: the original string where
/// there is one, else the canonical text of the UUID.
pub open spec fn text_of_id(m: IdModel) -> Seq<char> {
    match m.raw {
        Some(s) => s,
        None => uuid_text(m.uuid),
    }
}

/// An identifier is well formed when its original string, if any, is no
/// UUID and hashes to its UUID.
pub open spec fn id_wf(m: IdModel) -> bool {
    m.raw matches Some(s) ==> uuid_parsed(s).is_none() && m.uuid == uuid_v5(ID_NAMESPACE, s)
}

/// The original string of an identifier that was made from a string that
/// is no UUID. It takes no part in hashing: identifiers are hashed, as
/// they are compared, by their UUID alone.
#[derive(Debug)]
pub struct OriginalText {
    text: Option<String>,
}

impl std::hash::Hash for OriginalText {
    /// Puts nothing into the hash.
    fn hash<H: std::hash::Hasher>(&self, _state: &mut H) {
    }
}

/// The state shared by the four UUID-backed identifier kinds.
#[derive(Debug, Hash)]
pub struct UuidId {
    uuid: u128,
    raw: OriginalText,
}

impl View for UuidId {
    type V = IdModel;

    closed spec fn view(&self) -> IdModel {
        IdModel {
            uuid: self.uuid,
            raw: match self.raw.text {
                Some(s) => Some(s@),
                None => None,
            },
        }
    }
}

impl Clone for UuidId {
    fn clone(&self) -> (r: Self)
        ensures
            r == *self,
    {
        let raw = match &self.raw.text {
            Some(s) => Some(s.clone()),
            None => None,
        };
        proof {
            use_type_invariant(self);
        }
        UuidId { uuid: self.uuid, raw: OriginalText { text: raw } }
    }
}

impl UuidId {
    #[verifier::type_invariant]
    closed spec fn inv(&self) -> bool {
        id_wf(self@)
    }

    /// A fresh random identifier: a UUID of version 4, without an original string.
    pub fn random() -> (r: Self)
        ensures
            r@.raw.is_none() && is_v4_uuid(r@.uuid),
    {
        UuidId { uuid: random_uuid(), raw: OriginalText { text: None } }
    }

    /// The identifier that `s` denotes: the UUID itself where `s` is one,
    /// else the hash of `s`, with `s` kept.
    pub fn new(s: &str) -> (r: Self)
        ensures
            r@ == id_of_text(s@),
            id_wf(r@),
            (uuid_parsed(s@) matches Some(u) ==> s@ == uuid_text(u)) ==> text_of_id(r@) == s@,
    {
        match parse_uuid(s) {
            Some(u) => UuidId { uuid: u, raw: OriginalText { text: None } },
            None => UuidId {
                uuid: hash_uuid(ID_NAMESPACE, s),
                raw: OriginalText { text: Some(s.to_owned()) },
            },
        }
    }

    /// The identifier of a UUID given as its number.
    pub fn from_u128(uuid: u128) -> (r: Self)
        ensures
            r@ == (IdModel { uuid, raw: None }),
    {
        UuidId { uuid, raw: OriginalText { text: None } }
    }

    /// The UUID, as its number.
    pub fn as_u128(&self) -> (r: u128)
        ensures
            r == self@.uuid,
    {
        self.uuid
    }

    /// Whether the identifier was made from a string that is no UUID.
    pub fn was_coerced(&self) -> (r: bool)
        ensures
            r == self@.raw.is_some(),
    {
        self.raw.text.is_some()
    }

    /// The original string, where the identifier was made from one that is
    /// no UUID.
    pub fn original_string(&self) -> (r: Option<&str>)
        ensures
            r.is_some() == self@.raw.is_some(),
            r.is_some() ==> r.unwrap()@ == self@.raw.unwrap(),
    {
        match &self.raw.text {
            Some(s) => Some(s.as_str()),
            None => None,
        }
    }

    /// The string the identifier is written out as.
    pub fn to_text(&self) -> (r: String)
        ensures
            r@ == text_of_id(self@),
            id_of_text(r@) == self@,
    {
        proof {
            use_type_invariant(self);
        }
        match &self.raw.text {
            Some(s) => s.clone(),
            None => format_uuid(self.uuid),
        }
    }

    /// Equality of identifiers: that of their UUIDs.
    pub fn same(&self, other: &UuidId) -> (r: bool)
        ensures
            r == (self@.uuid == other@.uuid),
    {
        self.uuid == other.uuid
    }

    /// Whether the identifier stands for the string `other`: it was made
    /// from that very string, or `other` denotes the same UUID.
    pub fn matches_text(&self, other: &str) -> (r: bool)
        ensures
            r == (self@.raw == Some(other@) || self@.uuid == id_of_text(other@).uuid),
    {
        let same_raw = match &self.raw.text {
            Some(s) => {
                let o = other.to_owned();
                *s == o
            },
            None => false,
        };
        if same_raw {
            true
        } else {
            match parse_uuid(other) {
                Some(u) => self.uuid == u,
                None => self.uuid == hash_uuid(ID_NAMESPACE, other),
            }
        }
    }
}

/// Reading back what was written gives the same identifier, for a well
/// formed identifier whose UUID, where it has no original string, is read
/// back from its canonical text.
pub proof fn lemma_id_text_round_trip(m: IdModel)
    ensures
        id_wf(m) && (m.raw.is_none() ==> uuid_parsed(uuid_text(m.uuid)) == Some(m.uuid))
            ==> id_of_text(text_of_id(m)) == m,
{
}

/// Writing out what was read gives the same string, for a string that is
/// no UUID and for the canonical text of a UUID.
pub proof fn lemma_text_id_round_trip(s: Seq<char>)
    ensures
        (uuid_parsed(s) matches Some(u) ==> s == uuid_text(u)) ==> text_of_id(id_of_text(s)) == s,
{
}

/// MessageId: identifies a message of the conversation. Accepts any string; see the module text.
#[derive(Debug, Hash)]
pub struct MessageId {
    inner: UuidId,
}

impl View for MessageId {
    type V = IdModel;

    closed spec fn view(&self) -> IdModel {
        self.inner@
    }
}

impl Clone for MessageId {
    fn clone(&self) -> (r: Self)
        ensures
            r == *self,
    {
        MessageId { inner: self.inner.clone() }
    }
}

impl PartialEq for MessageId {
    fn eq(&self, other: &Self) -> (r: bool) {
        self.inner.same(&other.inner)
    }
}

impl Eq for MessageId {}

impl PartialEqSpecImpl for MessageId {
    open spec fn obeys_eq_spec() -> bool {
        true
    }

    open spec fn eq_spec(&self, other: &Self) -> bool {
        self@.uuid == other@.uuid
    }
}

impl MessageId {
    /// A fresh random identifier: a UUID of version 4, without an original string.
    pub fn random() -> (r: Self)
        ensures
            r@.raw.is_none() && is_v4_uuid(r@.uuid),
    {
        MessageId { inner: UuidId::random() }
    }

    /// The identifier that `s` denotes: the UUID itself where `s` is one,
    /// else the version-5 hash of `s`, with `s` kept for writing out.
    pub fn new(s: &str) -> (r: Self)
        ensures
            r@ == id_of_text(s@),
            id_wf(r@),
            (uuid_parsed(s@) matches Some(u) ==> s@ == uuid_text(u)) ==> text_of_id(r@) == s@,
    {
        MessageId { inner: UuidId::new(s) }
    }

    /// The identifier of a UUID given as its number.
    pub fn from_u128(uuid: u128) -> (r: Self)
        ensures
            r@ == (IdModel { uuid, raw: None }),
    {
        MessageId { inner: UuidId::from_u128(uuid) }
    }

    /// The UUID, as its number: the hash of the original string where the
    /// identifier was coerced.
    pub fn as_uuid(&self) -> (r: u128)
        ensures
            r == self@.uuid,
    {
        self.inner.as_u128()
    }

    /// Whether the identifier was made from a string that is no UUID.
    pub fn was_coerced(&self) -> (r: bool)
        ensures
            r == self@.raw.is_some(),
    {
        self.inner.was_coerced()
    }

    /// The original string of a coerced identifier.
    pub fn original_string(&self) -> (r: Option<&str>)
        ensures
            r.is_some() == self@.raw.is_some(),
            r.is_some() ==> r.unwrap()@ == self@.raw.unwrap(),
    {
        self.inner.original_string()
    }

    /// The string the identifier is written out as: the original string of
    /// a coerced identifier, else the canonical text of the UUID. Reading
    /// it back gives this identifier.
    pub fn to_string(&self) -> (r: String)
        ensures
            r@ == text_of_id(self@),
            id_of_text(r@) == self@,
    {
        self.inner.to_text()
    }

    /// Whether the identifier stands for the string `other`: it was made
    /// from that very string, or `other` denotes the same UUID.
    pub fn eq_str(&self, other: &str) -> (r: bool)
        ensures
            r == (self@.raw == Some(other@) || self@.uuid == id_of_text(other@).uuid),
    {
        self.inner.matches_text(other)
    }
}

impl std::str::FromStr for MessageId {
    type Err = Infallible;

    fn from_str(s: &str) -> (r: Result<Self, Infallible>)
        ensures
            r matches Ok(id) && id@ == id_of_text(s@),
    {
        Ok(MessageId::new(s))
    }
}


/// AgentId: identifies an agent. Accepts any string; see the module text.
#[derive(Debug, Hash)]
pub struct AgentId {
    inner: UuidId,
}

impl View for AgentId {
    type V = IdModel;

    closed spec fn view(&self) -> IdModel {
        self.inner@
    }
}

impl Clone for AgentId {
    fn clone(&self) -> (r: Self)
        ensures
            r == *self,
    {
        AgentId { inner: self.inner.clone() }
    }
}

impl PartialEq for AgentId {
    fn eq(&self, other: &Self) -> (r: bool) {
        self.inner.same(&other.inner)
    }
}

impl Eq for AgentId {}

impl PartialEqSpecImpl for AgentId {
    open spec fn obeys_eq_spec() -> bool {
        true
    }

    open spec fn eq_spec(&self, other: &Self) -> bool {
        self@.uuid == other@.uuid
    }
}

impl AgentId {
    /// A fresh random identifier: a UUID of version 4, without an original string.
    pub fn random() -> (r: Self)
        ensures
            r@.raw.is_none() && is_v4_uuid(r@.uuid),
    {
        AgentId { inner: UuidId::random() }
    }

    /// The identifier that `s` denotes: the UUID itself where `s` is one,
    /// else the version-5 hash of `s`, with `s` kept for writing out.
    pub fn new(s: &str) -> (r: Self)
        ensures
            r@ == id_of_text(s@),
            id_wf(r@),
            (uuid_parsed(s@) matches Some(u) ==> s@ == uuid_text(u)) ==> text_of_id(r@) == s@,
    {
        AgentId { inner: UuidId::new(s) }
    }

    /// The identifier of a UUID given as its number.
    pub fn from_u128(uuid: u128) -> (r: Self)
        ensures
            r@ == (IdModel { uuid, raw: None }),
    {
        AgentId { inner: UuidId::from_u128(uuid) }
    }

    /// The UUID, as its number: the hash of the original string where the
    /// identifier was coerced.
    pub fn as_uuid(&self) -> (r: u128)
        ensures
            r == self@.uuid,
    {
        self.inner.as_u128()
    }

    /// Whether the identifier was made from a string that is no UUID.
    pub fn was_coerced(&self) -> (r: bool)
        ensures
            r == self@.raw.is_some(),
    {
        self.inner.was_coerced()
    }

    /// The original string of a coerced identifier.
    pub fn original_string(&self) -> (r: Option<&str>)
        ensures
            r.is_some() == self@.raw.is_some(),
            r.is_some() ==> r.unwrap()@ == self@.raw.unwrap(),
    {
        self.inner.original_string()
    }

    /// The string the identifier is written out as: the original string of
    /// a coerced identifier, else the canonical text of the UUID. Reading
    /// it back gives this identifier.
    pub fn to_string(&self) -> (r: String)
        ensures
            r@ == text_of_id(self@),
            id_of_text(r@) == self@,
    {
        self.inner.to_text()
    }

    /// Whether the identifier stands for the string `other`: it was made
    /// from that very string, or `other` denotes the same UUID.
    pub fn eq_str(&self, other: &str) -> (r: bool)
        ensures
            r == (self@.raw == Some(other@) || self@.uuid == id_of_text(other@).uuid),
    {
        self.inner.matches_text(other)
    }
}

impl std::str::FromStr for AgentId {
    type Err = Infallible;

    fn from_str(s: &str) -> (r: Result<Self, Infallible>)
        ensures
            r matches Ok(id) && id@ == id_of_text(s@),
    {
        Ok(AgentId::new(s))
    }
}

/// ThreadId: identifies a conversation thread. Accepts any string; see the module text.
#[derive(Debug, Hash)]
pub struct ThreadId {
    inner: UuidId,
}

impl View for ThreadId {
    type V = IdModel;

    closed spec fn view(&self) -> IdModel {
        self.inner@
    }
}

impl Clone for ThreadId {
    fn clone(&self) -> (r: Self)
        ensures
            r == *self,
    {
        ThreadId { inner: self.inner.clone() }
    }
}

impl PartialEq for ThreadId {
    fn eq(&self, other: &Self) -> (r: bool) {
        self.inner.same(&other.inner)
    }
}

impl Eq for ThreadId {}

impl PartialEqSpecImpl for ThreadId {
    open spec fn obeys_eq_spec() -> bool {
        true
    }

    open spec fn eq_spec(&self, other: &Self) -> bool {
        self@.uuid == other@.uuid
    }
}

impl ThreadId {
    /// A fresh random identifier: a UUID of version 4, without an original string.
    pub fn random() -> (r: Self)
        ensures
            r@.raw.is_none() && is_v4_uuid(r@.uuid),
    {
        ThreadId { inner: UuidId::random() }
    }

    /// The identifier that `s` denotes: the UUID itself where `s` is one,
    /// else the version-5 hash of `s`, with `s` kept for writing out.
    pub fn new(s: &str) -> (r: Self)
        ensures
            r@ == id_of_text(s@),
            id_wf(r@),
            (uuid_parsed(s@) matches Some(u) ==> s@ == uuid_text(u)) ==> text_of_id(r@) == s@,
    {
        ThreadId { inner: UuidId::new(s) }
    }

    /// The identifier of a UUID given as its number.
    pub fn from_u128(uuid: u128) -> (r: Self)
        ensures
            r@ == (IdModel { uuid, raw: None }),
    {
        ThreadId { inner: UuidId::from_u128(uuid) }
    }

    /// The UUID, as its number: the hash of the original string where the
    /// identifier was coerced.
    pub fn as_uuid(&self) -> (r: u128)
        ensures
            r == self@.uuid,
    {
        self.inner.as_u128()
    }

    /// Whether the identifier was made from a string that is no UUID.
    pub fn was_coerced(&self) -> (r: bool)
        ensures
            r == self@.raw.is_some(),
    {
        self.inner.was_coerced()
    }

    /// The original string of a coerced identifier.
    pub fn original_string(&self) -> (r: Option<&str>)
        ensures
            r.is_some() == self@.raw.is_some(),
            r.is_some() ==> r.unwrap()@ == self@.raw.unwrap(),
    {
        self.inner.original_string()
    }

    /// The string the identifier is written out as: the original string of
    /// a coerced identifier, else the canonical text of the UUID. Reading
    /// it back gives this identifier.
    pub fn to_string(&self) -> (r: String)
        ensures
            r@ == text_of_id(self@),
            id_of_text(r@) == self@,
    {
        self.inner.to_text()
    }

    /// Whether the identifier stands for the string `other`: it was made
    /// from that very string, or `other` denotes the same UUID.
    pub fn eq_str(&self, other: &str) -> (r: bool)
        ensures
            r == (self@.raw == Some(other@) || self@.uuid == id_of_text(other@).uuid),
    {
        self.inner.matches_text(other)
    }
}

impl std::str::FromStr for ThreadId {
    type Err = Infallible;

    fn from_str(s: &str) -> (r: Result<Self, Infallible>)
        ensures
            r matches Ok(id) && id@ == id_of_text(s@),
    {
        Ok(ThreadId::new(s))
    }
}

/// RunId: identifies one run of an agent. Accepts any string; see the module text.
#[derive(Debug, Hash)]
pub struct RunId {
    inner: UuidId,
}

impl View for RunId {
    type V = IdModel;

    closed spec fn view(&self) -> IdModel {
        self.inner@
    }
}

impl Clone for RunId {
    fn clone(&self) -> (r: Self)
        ensures
            r == *self,
    {
        RunId { inner: self.inner.clone() }
    }
}

impl PartialEq for RunId {
    fn eq(&self, other: &Self) -> (r: bool) {
        self.inner.same(&other.inner)
    }
}

impl Eq for RunId {}

impl PartialEqSpecImpl for RunId {
    open spec fn obeys_eq_spec() -> bool {
        true
    }

    open spec fn eq_spec(&self, other: &Self) -> bool {
        self@.uuid == other@.uuid
    }
}

impl RunId {
    /// A fresh random identifier: a UUID of version 4, without an original string.
    pub fn random() -> (r: Self)
        ensures
            r@.raw.is_none() && is_v4_uuid(r@.uuid),
    {
        RunId { inner: UuidId::random() }
    }

    /// The identifier that `s` denotes: the UUID itself where `s` is one,
    /// else the version-5 hash of `s`, with `s` kept for writing out.
    pub fn new(s: &str) -> (r: Self)
        ensures
            r@ == id_of_text(s@),
            id_wf(r@),
            (uuid_parsed(s@) matches Some(u) ==> s@ == uuid_text(u)) ==> text_of_id(r@) == s@,
    {
        RunId { inner: UuidId::new(s) }
    }

    /// The identifier of a UUID given as its number.
    pub fn from_u128(uuid: u128) -> (r: Self)
        ensures
            r@ == (IdModel { uuid, raw: None }),
    {
        RunId { inner: UuidId::from_u128(uuid) }
    }

    /// The UUID, as its number: the hash of the original string where the
    /// identifier was coerced.
    pub fn as_uuid(&self) -> (r: u128)
        ensures
            r == self@.uuid,
    {
        self.inner.as_u128()
    }

    /// Whether the identifier was made from a string that is no UUID.
    pub fn was_coerced(&self) -> (r: bool)
        ensures
            r == self@.raw.is_some(),
    {
        self.inner.was_coerced()
    }

    /// The original string of a coerced identifier.
    pub fn original_string(&self) -> (r: Option<&str>)
        ensures
            r.is_some() == self@.raw.is_some(),
            r.is_some() ==> r.unwrap()@ == self@.raw.unwrap(),
    {
        self.inner.original_string()
    }

    /// The string the identifier is written out as: the original string of
    /// a coerced identifier, else the canonical text of the UUID. Reading
    /// it back gives this identifier.
    pub fn to_string(&self) -> (r: String)
        ensures
            r@ == text_of_id(self@),
            id_of_text(r@) == self@,
    {
        self.inner.to_text()
    }

    /// Whether the identifier stands for the string `other`: it was made
    /// from that very string, or `other` denotes the same UUID.
    pub fn eq_str(&self, other: &str) -> (r: bool)
        ensures
            r == (self@.raw == Some(other@) || self@.uuid == id_of_text(other@).uuid),
    {
        self.inner.matches_text(other)
    }
}

impl std::str::FromStr for RunId {
    type Err = Infallible;

    fn from_str(s: &str) -> (r: Result<Self, Infallible>)
        ensures
            r matches Ok(id) && id@ == id_of_text(s@),
    {
        Ok(RunId::new(s))
    }
}

/// The text of the identifier that [`ToolCallId::random`] makes from the
/// UUID `value`: `call_` and the first eight characters of its text.
pub open spec fn tool_call_text(value: u128) -> Seq<char> {
    "call_"@ + uuid_text(value).subrange(0, 8)
}

/// ToolCallId: identifies a tool call. A plain string in the form its
/// provider chose, such as `call_xxxxxxxx`; never read as a UUID.
#[derive(Debug, Hash)]
pub struct ToolCallId {
    text: String,
}

impl View for ToolCallId {
    type V = Seq<char>;

    closed spec fn view(&self) -> Seq<char> {
        self.text@
    }
}

impl Clone for ToolCallId {
    fn clone(&self) -> (r: Self)
        ensures
            r == *self,
    {
        ToolCallId { text: self.text.clone() }
    }
}

impl PartialEq for ToolCallId {
    fn eq(&self, other: &Self) -> (r: bool) {
        self.text == other.text
    }
}

impl Eq for ToolCallId {}

impl PartialEqSpecImpl for ToolCallId {
    open spec fn obeys_eq_spec() -> bool {
        true
    }

    open spec fn eq_spec(&self, other: &Self) -> bool {
        self@ == other@
    }
}

impl ToolCallId {
    /// A fresh identifier: `call_` and eight hexadecimal digits taken from
    /// a random UUID.
    pub fn random() -> (r: Self)
        ensures
            exists|value: u128| r@ == tool_call_text(value),
    {
        let value = random_uuid();
        let full = format_uuid(value);
        let head = full.as_str().substring_char(0, 8);
        let text = "call_".to_owned().concat(head);
        assert(text@ == tool_call_text(value));
        ToolCallId { text }
    }

    /// The identifier with the text `s`, taken as it is.
    pub fn new(s: &str) -> (r: Self)
        ensures
            r@ == s@,
    {
        ToolCallId { text: s.to_owned() }
    }

    /// The text of the identifier.
    pub fn as_str(&self) -> (r: &str)
        ensures
            r@ == self@,
    {
        self.text.as_str()
    }

    /// The text of the identifier, owned.
    pub fn to_string(&self) -> (r: String)
        ensures
            r@ == self@,
    {
        self.text.clone()
    }
}

} // verus!
