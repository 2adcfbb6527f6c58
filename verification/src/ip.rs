//! Reading the machine's public address out of the address service's answer.

use crate::failure::{Failure, FailureView};
use vstd::prelude::*;

verus! {

/// The name of the entry that holds the address.
pub const ORIGIN_KEY: &'static str = "origin";

/// The value that a list of entries gives to the name `origin`: that of the
/// last entry so named, as in a map that the entries were put into one after
/// the other, and none where no entry is so named.
pub open spec fn origin_of(entries: Seq<(Seq<char>, Seq<char>)>) -> Option<Seq<char>>
    decreases entries.len(),
{
    if entries.len() == 0 {
        None
    } else if entries.last().0 == ORIGIN_KEY@ {
        Some(entries.last().1)
    } else {
        origin_of(entries.drop_last())
    }
}

/// Extracts the public address from the entries of the address service's
/// answer, each a name and its value.
///
/// Returns the value of the entry named `origin` (of the last one, should
/// several bear the name), and [`Failure::MissingOrigin`] where there is none.
pub fn get_current_ip(entries: &Vec<(String, String)>) -> (res: Result<String, Failure>)
    ensures
        match res {
            Ok(ip) => origin_of(entries.deep_view()) == Some(ip@),
            Err(failure) => origin_of(entries.deep_view()) is None && failure@
                == FailureView::MissingOrigin,
        },
{
    let key = ORIGIN_KEY.to_owned();
    let mut i: usize = entries.len();
    assert(entries.deep_view().take(i as int) == entries.deep_view());
    while i > 0
        invariant
            i <= entries.len(),
            key@ == ORIGIN_KEY@,
            origin_of(entries.deep_view()) == origin_of(entries.deep_view().take(i as int)),
        decreases i,
    {
        let ghost upto = entries.deep_view().take(i as int);
        i -= 1;
        assert(upto.drop_last() == entries.deep_view().take(i as int));
        assert(upto.last() == (entries[i as int].0@, entries[i as int].1@));
        if entries[i].0 == key {
            return Ok(entries[i].1.clone());
        }
    }
    Err(Failure::MissingOrigin)
}

/// An address is found exactly if some entry is named `origin`.
pub proof fn lemma_origin_found(entries: Seq<(Seq<char>, Seq<char>)>)
    ensures
        origin_of(entries) is Some <==> exists|i: int|
            0 <= i < entries.len() && (#[trigger] entries[i]).0 == ORIGIN_KEY@,
    decreases entries.len(),
{
    if entries.len() > 0 {
        let rest = entries.drop_last();
        lemma_origin_found(rest);
        if entries.last().0 == ORIGIN_KEY@ {
            assert(entries[entries.len() - 1].0 == ORIGIN_KEY@);
        } else if origin_of(rest) is Some {
            let i = choose|i: int| 0 <= i < rest.len() && (#[trigger] rest[i]).0 == ORIGIN_KEY@;
            assert(entries[i].0 == ORIGIN_KEY@);
        } else {
            assert forall|i: int| 0 <= i < entries.len() implies (#[trigger] entries[i]).0
                != ORIGIN_KEY@ by {
                if i < rest.len() {
                    assert(rest[i] == entries[i]);
                }
            }
        }
    }
}

/// Where exactly one entry is named `origin`, its value is the address.
pub proof fn lemma_origin_unique(entries: Seq<(Seq<char>, Seq<char>)>, at: int)
    requires
        0 <= at < entries.len(),
        entries[at].0 == ORIGIN_KEY@,
        forall|i: int| 0 <= i < entries.len() && (#[trigger] entries[i]).0 == ORIGIN_KEY@ ==> i == at,
    ensures
        origin_of(entries) == Some(entries[at].1),
    decreases entries.len(),
{
    if at < entries.len() - 1 {
        let rest = entries.drop_last();
        assert(entries[entries.len() - 1].0 != ORIGIN_KEY@);
        assert forall|i: int| 0 <= i < rest.len() && (#[trigger] rest[i]).0 == ORIGIN_KEY@ implies i
            == at by {
            assert(rest[i] == entries[i]);
        }
        lemma_origin_unique(rest, at);
    }
}

} // verus!
