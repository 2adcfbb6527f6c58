//! Choosing, among the records of a zone, those that are kept up to date.

use crate::record::{DNSRecord, DNSRecordView};
use vstd::prelude::*;

verus! {

/// Whether a record bears exactly the name `target`.
pub open spec fn is_target(record: DNSRecordView, target: Seq<char>) -> bool {
    record.name == target
}

/// The records named `target`, in the order in which they were listed.
pub open spec fn selected(records: Seq<DNSRecordView>, target: Seq<char>) -> Seq<DNSRecordView>
    decreases records.len(),
{
    if records.len() == 0 {
        records
    } else if is_target(records.last(), target) {
        selected(records.drop_last(), target).push(records.last())
    } else {
        selected(records.drop_last(), target)
    }
}

/// Picks the records whose name is exactly `target`.
///
/// The result holds each such record whole, as often and in the order in
/// which `records` lists it, and no other record.
pub fn select_targets(records: &Vec<DNSRecord>, target: &String) -> (res: Vec<DNSRecord>)
    ensures
        res.deep_view() == selected(records.deep_view(), target@),
{
    let mut res: Vec<DNSRecord> = Vec::new();
    let mut i: usize = 0;
    while i < records.len()
        invariant
            i <= records.len(),
            res.deep_view() == selected(records.deep_view().take(i as int), target@),
        decreases records.len() - i,
    {
        let ghost seen = records.deep_view().take(i as int);
        let ghost next = records.deep_view().take(i + 1);
        assert(next.drop_last() == seen);
        assert(next.last() == records[i as int]@);
        if records[i].name == *target {
            let ghost before = res.deep_view();
            res.push(records[i].clone());
            assert(res.deep_view() == before.push(records[i as int]@));
        }
        i += 1;
    }
    assert(records.deep_view().take(i as int) == records.deep_view());
    res
}

/// Every selected record bears the target's name.
pub proof fn lemma_selected_named(records: Seq<DNSRecordView>, target: Seq<char>)
    ensures
        forall|i: int|
            0 <= i < selected(records, target).len() ==> is_target(
                #[trigger] selected(records, target)[i],
                target,
            ),
    decreases records.len(),
{
    if records.len() > 0 {
        let kept = selected(records.drop_last(), target);
        lemma_selected_named(records.drop_last(), target);
        assert forall|i: int| 0 <= i < selected(records, target).len() implies is_target(
            #[trigger] selected(records, target)[i],
            target,
        ) by {
            if i < kept.len() {
                assert(selected(records, target)[i] == kept[i]);
            }
        }
    }
}

/// Selecting loses no record of the target's name and admits no other: a
/// record is among the selected ones exactly if it is listed and bears the
/// name.
pub proof fn lemma_selected_members(
    records: Seq<DNSRecordView>,
    target: Seq<char>,
    record: DNSRecordView,
)
    ensures
        selected(records, target).contains(record) <==> records.contains(record) && is_target(
            record,
            target,
        ),
    decreases records.len(),
{
    let chosen = selected(records, target);
    if records.len() > 0 {
        let rest = records.drop_last();
        let last = records.last();
        lemma_selected_members(rest, target, record);
        assert(records == rest.push(last));
        assert(records.contains(record) <==> rest.contains(record) || record == last) by {
            if rest.contains(record) {
                let j = choose|j: int| 0 <= j < rest.len() && rest[j] == record;
                assert(records[j] == record);
            }
            if record == last {
                assert(records[records.len() - 1] == record);
            }
        }
        if is_target(last, target) {
            let kept = selected(rest, target);
            assert(chosen == kept.push(last));
            assert(chosen.contains(record) <==> kept.contains(record) || record == last) by {
                if kept.contains(record) {
                    let j = choose|j: int| 0 <= j < kept.len() && kept[j] == record;
                    assert(chosen[j] == record);
                }
                if record == last {
                    assert(chosen[chosen.len() - 1] == record);
                }
            }
        }
    }
}

} // verus!
