//! The DNS record as the provider hands it out and takes it back.

use vstd::prelude::*;

verus! {

/// One DNS record of a zone.
///
/// `kind` is the field that travels as `type`.
#[derive(Debug, PartialEq, Eq)]
pub struct DNSRecord {
    pub id: String,
    pub zone_id: String,
    pub name: String,
    pub zone_name: String,
    pub kind: String,
    pub content: String,
    pub proxied: bool,
    pub ttl: i32,
}

/// What a [`DNSRecord`] holds, as text and numbers.
pub struct DNSRecordView {
    pub id: Seq<char>,
    pub zone_id: Seq<char>,
    pub name: Seq<char>,
    pub zone_name: Seq<char>,
    pub kind: Seq<char>,
    pub content: Seq<char>,
    pub proxied: bool,
    pub ttl: int,
}

impl View for DNSRecord {
    type V = DNSRecordView;

    open spec fn view(&self) -> DNSRecordView {
        DNSRecordView {
            id: self.id@,
            zone_id: self.zone_id@,
            name: self.name@,
            zone_name: self.zone_name@,
            kind: self.kind@,
            content: self.content@,
            proxied: self.proxied,
            ttl: self.ttl as int,
        }
    }
}

impl DeepView for DNSRecord {
    type V = DNSRecordView;

    open spec fn deep_view(&self) -> DNSRecordView {
        self@
    }
}

impl DNSRecordView {
    /// The record with its content replaced and every other field kept.
    pub open spec fn with_content(self, content: Seq<char>) -> DNSRecordView {
        DNSRecordView { content, ..self }
    }
}

impl Clone for DNSRecord {
    fn clone(&self) -> (res: Self)
        ensures
            res == *self,
    {
        DNSRecord {
            id: self.id.clone(),
            zone_id: self.zone_id.clone(),
            name: self.name.clone(),
            zone_name: self.zone_name.clone(),
            kind: self.kind.clone(),
            content: self.content.clone(),
            proxied: self.proxied,
            ttl: self.ttl,
        }
    }
}

} // verus!
