//! Host override records as the resolver lists them, and the key and entry
//! that the record cache derives from each of them.
use vstd::prelude::*;

use crate::text::{dotted, split_first, split_once_char, text_is, to_upper, trim, trim_of, upper_of};

verus! {

/// Why a row of the resolver could not be understood.
#[derive(Clone, Copy, Debug, PartialEq, Eq, Structural)]
pub enum RecordError {
    /// The record type is neither `A` nor `AAAA`.
    UnknownRecordType,
    /// The enabled flag is neither `0` nor `1`.
    UnknownEnabledState,
}

/// The record types that this webhook manages.
#[allow(clippy::upper_case_acronyms)]
#[derive(Clone, Copy, Debug, PartialEq, Eq, Hash, Structural)]
pub enum RecordType {
    A,
    AAAA,
}

/// The record type that an upper-cased type word names.
pub open spec fn record_type_named(word: Seq<char>) -> Option<RecordType> {
    if word == "A"@ {
        Some(RecordType::A)
    } else if word == "AAAA"@ {
        Some(RecordType::AAAA)
    } else {
        None
    }
}

/// The type word of a record's `rr` field: the trimmed text up to its first
/// space.
pub open spec fn type_word(rr: Seq<char>) -> Seq<char> {
    match split_first(trim_of(rr), ' ') {
        Some(p) => p.0,
        None => trim_of(rr),
    }
}

/// The record type that an `rr` field gives, if it is a known one.
pub open spec fn record_type_of(rr: Seq<char>) -> Option<RecordType> {
    record_type_named(upper_of(type_word(rr)))
}

/// The enabled state that a trimmed flag gives, if it is a known one.
pub open spec fn enabled_named(flag: Seq<char>) -> Option<bool> {
    if flag == "0"@ {
        Some(false)
    } else if flag == "1"@ {
        Some(true)
    } else {
        None
    }
}

/// The enabled state that an `enabled` field gives, if it is a known one.
pub open spec fn enabled_of(flag: Seq<char>) -> Option<bool> {
    enabled_named(trim_of(flag))
}

impl RecordType {
    /// The record type named by an already upper-cased type word.
    pub fn from_upper(word: &str) -> (r: Result<RecordType, RecordError>)
        ensures
            match record_type_named(word@) {
                Some(t) => r == Ok::<RecordType, RecordError>(t),
                None => r == Err::<RecordType, RecordError>(RecordError::UnknownRecordType),
            },
    {
        if text_is(word, "A") {
            Ok(RecordType::A)
        } else if text_is(word, "AAAA") {
            Ok(RecordType::AAAA)
        } else {
            Err(RecordError::UnknownRecordType)
        }
    }

    /// The record type of an `rr` field such as `"A"` or `"AAAA (IPv6 address)"`:
    /// its first word, in any case.
    pub fn parse(rr: &str) -> (r: Result<RecordType, RecordError>)
        ensures
            match record_type_of(rr@) {
                Some(t) => r == Ok::<RecordType, RecordError>(t),
                None => r == Err::<RecordType, RecordError>(RecordError::UnknownRecordType),
            },
    {
        let trimmed = trim(rr);
        let word = match split_once_char(trimmed.as_str(), ' ') {
            Some(p) => p.0,
            None => trimmed,
        };
        let upper = to_upper(word.as_str());
        RecordType::from_upper(upper.as_str())
    }
}

/// The enabled state named by an already trimmed flag.
pub fn enabled_from_trimmed(flag: &str) -> (r: Result<bool, RecordError>)
    ensures
        match enabled_named(flag@) {
            Some(b) => r == Ok::<bool, RecordError>(b),
            None => r == Err::<bool, RecordError>(RecordError::UnknownEnabledState),
        },
{
    if text_is(flag, "0") {
        Ok(false)
    } else if text_is(flag, "1") {
        Ok(true)
    } else {
        Err(RecordError::UnknownEnabledState)
    }
}

/// The enabled state of an `enabled` field: `"0"` or `"1"`, white space
/// around it allowed.
pub fn parse_enabled(flag: &str) -> (r: Result<bool, RecordError>)
    ensures
        match enabled_of(flag@) {
            Some(b) => r == Ok::<bool, RecordError>(b),
            None => r == Err::<bool, RecordError>(RecordError::UnknownEnabledState),
        },
{
    let trimmed = trim(flag);
    enabled_from_trimmed(trimmed.as_str())
}

/// A host override row of the resolver.
#[derive(Debug)]
pub struct HostOverrideRecord {
    pub uuid: String,
    pub enabled: String,
    pub domain: String,
    pub rr: String,
    pub server: String,
    pub hostname: String,
    pub mx: String,
    pub mxprio: String,
    pub description: String,
}

/// The fields of a host override row as texts.
pub struct HostOverrideView {
    pub uuid: Seq<char>,
    pub enabled: Seq<char>,
    pub domain: Seq<char>,
    pub rr: Seq<char>,
    pub server: Seq<char>,
    pub hostname: Seq<char>,
    pub mx: Seq<char>,
    pub mxprio: Seq<char>,
    pub description: Seq<char>,
}

impl View for HostOverrideRecord {
    type V = HostOverrideView;

    open spec fn view(&self) -> HostOverrideView {
        HostOverrideView {
            uuid: self.uuid@,
            enabled: self.enabled@,
            domain: self.domain@,
            rr: self.rr@,
            server: self.server@,
            hostname: self.hostname@,
            mx: self.mx@,
            mxprio: self.mxprio@,
            description: self.description@,
        }
    }
}

impl Clone for HostOverrideRecord {
    fn clone(&self) -> (r: Self)
        ensures
            r == *self,
    {
        HostOverrideRecord {
            uuid: self.uuid.clone(),
            enabled: self.enabled.clone(),
            domain: self.domain.clone(),
            rr: self.rr.clone(),
            server: self.server.clone(),
            hostname: self.hostname.clone(),
            mx: self.mx.clone(),
            mxprio: self.mxprio.clone(),
            description: self.description.clone(),
        }
    }
}

/// The view of a record key: the fully qualified name and the type.
pub type KeyView = (Seq<char>, RecordType);

/// The view of a record entry: the resolver's identifier and the enabled state.
pub type EntryView = (Seq<char>, bool);

/// The fully qualified name of a row: host name, a dot, then domain.
pub open spec fn fqdn_of(r: HostOverrideView) -> Seq<char> {
    r.hostname + seq!['.'] + r.domain
}

/// The key that the cache files a row under, if its type is a known one.
pub open spec fn key_of(r: HostOverrideView) -> Option<KeyView> {
    match record_type_of(r.rr) {
        Some(t) => Some((fqdn_of(r), t)),
        None => None,
    }
}

/// The entry that the cache keeps for a row, if its enabled flag is a known one.
pub open spec fn entry_of(r: HostOverrideView) -> Option<EntryView> {
    match enabled_of(r.enabled) {
        Some(b) => Some((r.uuid, b)),
        None => None,
    }
}

/// What identifies one record of the resolver.
#[derive(Debug)]
pub struct Recordkey {
    pub fqdn: String,
    pub record_type: RecordType,
}

impl View for Recordkey {
    type V = KeyView;

    open spec fn view(&self) -> KeyView {
        (self.fqdn@, self.record_type)
    }
}

impl Clone for Recordkey {
    fn clone(&self) -> (r: Self)
        ensures
            r == *self,
    {
        Recordkey { fqdn: self.fqdn.clone(), record_type: self.record_type }
    }
}

impl PartialEq for Recordkey {
    fn eq(&self, other: &Recordkey) -> (r: bool) {
        self.fqdn == other.fqdn && self.record_type == other.record_type
    }
}

impl vstd::std_specs::cmp::PartialEqSpecImpl for Recordkey {
    open spec fn obeys_eq_spec() -> bool {
        true
    }

    open spec fn eq_spec(&self, other: &Recordkey) -> bool {
        self@ == other@
    }
}

impl Recordkey {
    /// The key of a row: `hostname.domain` and the type of its `rr` field.
    pub fn from_record(record: &HostOverrideRecord) -> (r: Result<Recordkey, RecordError>)
        ensures
            match key_of(record@) {
                Some(k) => r is Ok && r->Ok_0@ == k,
                None => r == Err::<Recordkey, RecordError>(RecordError::UnknownRecordType),
            },
    {
        let record_type = RecordType::parse(record.rr.as_str())?;
        let fqdn = dotted(record.hostname.as_str(), record.domain.as_str());
        Ok(Recordkey { fqdn, record_type })
    }
}

/// What the cache knows of one record: its identifier and whether it is enabled.
#[derive(Debug)]
pub struct RecordEntry {
    pub uuid: String,
    pub enabled: bool,
}

impl View for RecordEntry {
    type V = EntryView;

    open spec fn view(&self) -> EntryView {
        (self.uuid@, self.enabled)
    }
}

impl Clone for RecordEntry {
    fn clone(&self) -> (r: Self)
        ensures
            r == *self,
    {
        RecordEntry { uuid: self.uuid.clone(), enabled: self.enabled }
    }
}

impl RecordEntry {
    /// The entry of a row: its identifier and its enabled flag.
    pub fn from_record(record: &HostOverrideRecord) -> (r: Result<RecordEntry, RecordError>)
        ensures
            match entry_of(record@) {
                Some(e) => r is Ok && r->Ok_0@ == e,
                None => r == Err::<RecordEntry, RecordError>(RecordError::UnknownEnabledState),
            },
    {
        let enabled = parse_enabled(record.enabled.as_str())?;
        Ok(RecordEntry { uuid: record.uuid.clone(), enabled })
    }
}

} // verus!
