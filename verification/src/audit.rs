//! Audit records of write operations, and what a finished write operation
//! asks of the cache and of the audit log.
use vstd::prelude::*;
use crate::errors::{ServiceError, error_text};
use crate::text::{opt_text, copy_string};

verus! {

/// A value in an audit record's metadata.
#[derive(Debug, Clone, PartialEq)]
pub enum AuditValue {
    Null,
    Bool(bool),
    Text(String),
    U64List(Vec<u64>),
}

/// The mathematical form of an [`AuditValue`].
pub enum MetaValue {
    Null,
    Bool(bool),
    Text(Seq<char>),
    U64List(Seq<u64>),
}

impl View for AuditValue {
    type V = MetaValue;

    open spec fn view(&self) -> MetaValue {
        match self {
            AuditValue::Null => MetaValue::Null,
            AuditValue::Bool(b) => MetaValue::Bool(*b),
            AuditValue::Text(s) => MetaValue::Text(s@),
            AuditValue::U64List(v) => MetaValue::U64List(v@),
        }
    }
}

/// One key of an audit record's metadata object.
#[derive(Debug, Clone, PartialEq)]
pub struct MetadataEntry {
    pub key: String,
    pub value: AuditValue,
}

impl View for MetadataEntry {
    type V = (Seq<char>, MetaValue);

    open spec fn view(&self) -> (Seq<char>, MetaValue) {
        (self.key@, self.value@)
    }
}

/// The entries of a metadata object, as mathematical values.
pub open spec fn entries_of(v: Seq<MetadataEntry>) -> Seq<(Seq<char>, MetaValue)> {
    v.map_values(|e: MetadataEntry| e@)
}

/// What the audit log is asked to record about one operation.
#[derive(Debug, Clone, PartialEq)]
pub struct RecordAuditLogInput {
    pub actor_id: Option<u64>,
    pub actor_email: Option<String>,
    pub action: String,
    pub entity_type: Option<String>,
    pub entity_id: Option<String>,
    pub is_success: bool,
    pub ip_address: Option<String>,
    pub user_agent: Option<String>,
    pub metadata: Option<Vec<MetadataEntry>>,
}

/// The mathematical form of a [`RecordAuditLogInput`].
pub struct AuditRecord {
    pub actor_id: Option<u64>,
    pub actor_email: Option<Seq<char>>,
    pub action: Seq<char>,
    pub entity_type: Option<Seq<char>>,
    pub entity_id: Option<Seq<char>>,
    pub is_success: bool,
    pub ip_address: Option<Seq<char>>,
    pub user_agent: Option<Seq<char>>,
    pub metadata: Option<Seq<(Seq<char>, MetaValue)>>,
}

impl View for RecordAuditLogInput {
    type V = AuditRecord;

    open spec fn view(&self) -> AuditRecord {
        AuditRecord {
            actor_id: self.actor_id,
            actor_email: opt_text(self.actor_email),
            action: self.action@,
            entity_type: opt_text(self.entity_type),
            entity_id: opt_text(self.entity_id),
            is_success: self.is_success,
            ip_address: opt_text(self.ip_address),
            user_agent: opt_text(self.user_agent),
            metadata: match self.metadata {
                Some(m) => Some(entries_of(m@)),
                None => None,
            },
        }
    }
}

/// The record of an operation by `actor_id` from `ip_address` with
/// `user_agent`; no e-mail is recorded.
pub open spec fn audit_record(
    actor_id: Option<u64>,
    action: Seq<char>,
    entity_type: Seq<char>,
    entity_id: Option<Seq<char>>,
    is_success: bool,
    ip_address: Option<Seq<char>>,
    user_agent: Option<Seq<char>>,
    metadata: Option<Seq<(Seq<char>, MetaValue)>>,
) -> AuditRecord {
    AuditRecord {
        actor_id,
        actor_email: None,
        action,
        entity_type: Some(entity_type),
        entity_id,
        is_success,
        ip_address,
        user_agent,
        metadata,
    }
}

/// Builds the record of an operation; no e-mail is recorded.
pub fn make_record(
    actor_id: Option<u64>,
    action: &str,
    entity_type: &str,
    entity_id: Option<String>,
    is_success: bool,
    ip_address: Option<String>,
    user_agent: Option<String>,
    metadata: Option<Vec<MetadataEntry>>,
) -> (r: RecordAuditLogInput)
    ensures
        r@ == audit_record(
            actor_id,
            action@,
            entity_type@,
            opt_text(entity_id),
            is_success,
            opt_text(ip_address),
            opt_text(user_agent),
            match metadata {
                Some(m) => Some(entries_of(m@)),
                None => None,
            },
        ),
{
    RecordAuditLogInput {
        actor_id,
        actor_email: None,
        action: String::from_str(action),
        entity_type: Some(String::from_str(entity_type)),
        entity_id,
        is_success,
        ip_address,
        user_agent,
        metadata,
    }
}

/// The `error` metadata of an operation that ended with `r`: its message,
/// or null on success.
pub open spec fn error_meta<T>(r: Result<T, ServiceError>) -> MetaValue {
    match r {
        Ok(_) => MetaValue::Null,
        Err(e) => MetaValue::Text(error_text(e)),
    }
}

/// The `error` metadata of an operation that ended with `r`.
pub fn error_value<T>(r: &Result<T, ServiceError>) -> (v: AuditValue)
    ensures
        v@ == error_meta(*r),
{
    match r {
        Ok(_) => AuditValue::Null,
        Err(e) => AuditValue::Text(e.message()),
    }
}

/// An optional text as metadata: the text, or null.
pub open spec fn opt_text_meta(o: Option<Seq<char>>) -> MetaValue {
    match o {
        Some(s) => MetaValue::Text(s),
        None => MetaValue::Null,
    }
}

/// An optional text as metadata.
pub fn opt_text_value(o: &Option<String>) -> (v: AuditValue)
    ensures
        v@ == opt_text_meta(opt_text(*o)),
{
    match o {
        Some(s) => AuditValue::Text(copy_string(s)),
        None => AuditValue::Null,
    }
}

/// An optional flag as metadata: the flag, or null.
pub open spec fn opt_bool_meta(o: Option<bool>) -> MetaValue {
    match o {
        Some(b) => MetaValue::Bool(b),
        None => MetaValue::Null,
    }
}

/// An optional flag as metadata.
pub fn opt_bool_value(o: Option<bool>) -> (v: AuditValue)
    ensures
        v@ == opt_bool_meta(o),
{
    match o {
        Some(b) => AuditValue::Bool(b),
        None => AuditValue::Null,
    }
}

/// One metadata entry.
pub fn entry(key: &str, value: AuditValue) -> (e: MetadataEntry)
    ensures
        e@ == (key@, value@),
{
    MetadataEntry { key: String::from_str(key), value }
}

/// Metadata made of the given entries, in order.
pub fn metadata1(a: MetadataEntry) -> (m: Vec<MetadataEntry>)
    ensures
        entries_of(m@) == seq![a@],
{
    let mut m = Vec::new();
    m.push(a);
    assert(entries_of(m@) =~= seq![a@]);
    m
}

/// Metadata made of the given entries, in order.
pub fn metadata2(a: MetadataEntry, b: MetadataEntry) -> (m: Vec<MetadataEntry>)
    ensures
        entries_of(m@) == seq![a@, b@],
{
    let mut m = Vec::new();
    m.push(a);
    m.push(b);
    assert(entries_of(m@) =~= seq![a@, b@]);
    m
}

/// Metadata made of the given entries, in order.
pub fn metadata3(a: MetadataEntry, b: MetadataEntry, c: MetadataEntry) -> (m: Vec<MetadataEntry>)
    ensures
        entries_of(m@) == seq![a@, b@, c@],
{
    let mut m = Vec::new();
    m.push(a);
    m.push(b);
    m.push(c);
    assert(entries_of(m@) =~= seq![a@, b@, c@]);
    m
}

/// Metadata made of the given entries, in order.
pub fn metadata4(a: MetadataEntry, b: MetadataEntry, c: MetadataEntry, d: MetadataEntry) -> (m:
    Vec<MetadataEntry>)
    ensures
        entries_of(m@) == seq![a@, b@, c@, d@],
{
    let mut m = Vec::new();
    m.push(a);
    m.push(b);
    m.push(c);
    m.push(d);
    assert(entries_of(m@) =~= seq![a@, b@, c@, d@]);
    m
}

/// Which cache entries a finished write operation drops.
#[derive(Debug, Clone, PartialEq)]
pub enum CacheInvalidation {
    /// None.
    Nothing,
    /// The entry under this key.
    Key(String),
    /// Every entry whose key starts with this text.
    Prefix(String),
}

/// The mathematical form of a [`CacheInvalidation`].
pub enum Invalidation {
    Nothing,
    Key(Seq<char>),
    Prefix(Seq<char>),
}

impl View for CacheInvalidation {
    type V = Invalidation;

    open spec fn view(&self) -> Invalidation {
        match self {
            CacheInvalidation::Nothing => Invalidation::Nothing,
            CacheInvalidation::Key(k) => Invalidation::Key(k@),
            CacheInvalidation::Prefix(p) => Invalidation::Prefix(p@),
        }
    }
}

/// What a finished write operation asks of the cache and of the audit log,
/// in that order, before its result is returned.
#[derive(Debug, Clone, PartialEq)]
pub struct WriteCompletion {
    pub invalidate: CacheInvalidation,
    pub audit: RecordAuditLogInput,
}

} // verus!
