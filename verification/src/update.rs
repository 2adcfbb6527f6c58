//! Reconciling one record with the address that the machine has now.

use crate::record::{DNSRecord, DNSRecordView};
use vstd::prelude::*;

verus! {

/// What reconciling asks to write: nothing where the record already holds
/// the address, and otherwise the record with the address as its content and
/// every other field as it was.
pub open spec fn reconciled(dns: DNSRecordView, ip: Seq<char>) -> Option<DNSRecordView> {
    if ip == dns.content {
        None
    } else {
        Some(dns.with_content(ip))
    }
}

/// Compares the record's content with the address `ip`.
///
/// Returns `None` where they are equal: the record stays as it is and nothing
/// is to be sent.  Otherwise returns the record to send to the provider, which
/// differs from `dns` in its content alone.
pub fn set_zone_ip(dns: DNSRecord, ip: String) -> (res: Option<DNSRecord>)
    ensures
        res.deep_view() == reconciled(dns@, ip@),
{
    if ip == dns.content {
        None
    } else {
        let mut dns = dns;
        dns.content = ip;
        Some(dns)
    }
}

/// The record as the provider holds it once reconciling with `ip` is done.
pub open spec fn after_reconcile(dns: DNSRecordView, ip: Seq<char>) -> DNSRecordView {
    match reconciled(dns, ip) {
        Some(written) => written,
        None => dns,
    }
}

/// The number of writes that reconciling `dns` with `ip` performs.
pub open spec fn writes(dns: DNSRecordView, ip: Seq<char>) -> nat {
    if reconciled(dns, ip) is Some {
        1
    } else {
        0
    }
}

/// Reconciling is idempotent: once a record has been reconciled with an
/// address, reconciling what it has become with the same address asks for no
/// write.  Two calls in a row with one address thus write at most once.
pub proof fn lemma_reconcile_idempotent(dns: DNSRecordView, ip: Seq<char>)
    ensures
        reconciled(after_reconcile(dns, ip), ip) is None,
        after_reconcile(after_reconcile(dns, ip), ip) == after_reconcile(dns, ip),
        writes(dns, ip) + writes(after_reconcile(dns, ip), ip) <= 1,
{
}

/// A record that is written back differs from the one that was read in its
/// content alone, and its content is the address.
pub proof fn lemma_reconcile_keeps_fields(dns: DNSRecordView, ip: Seq<char>)
    ensures
        reconciled(dns, ip) matches Some(written) ==> {
            &&& written.id == dns.id
            &&& written.zone_id == dns.zone_id
            &&& written.name == dns.name
            &&& written.zone_name == dns.zone_name
            &&& written.kind == dns.kind
            &&& written.proxied == dns.proxied
            &&& written.ttl == dns.ttl
            &&& written.content == ip
        },
{
}

} // verus!
