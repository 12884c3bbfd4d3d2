//! SRV records.

use super::{SrvDomain, SrvDomainView};
use crate::sip::{Domain, Port, Transport};
use crate::sorting::{is_descending, sort_descending, sorted_descending, Weighted};
use vstd::prelude::*;

verus! {

/// One entry of an SRV record set.
#[derive(Debug, Clone)]
pub struct SrvEntry {
    pub priority: u16,
    pub weight: u16,
    pub port: Port,
    pub target: Domain,
}

/// An [`SrvEntry`] as plain values.
pub struct SrvEntryView {
    pub priority: u16,
    pub weight: u16,
    pub port: Port,
    pub target: Seq<char>,
}

impl View for SrvEntry {
    type V = SrvEntryView;

    open spec fn view(&self) -> SrvEntryView {
        SrvEntryView {
            priority: self.priority,
            weight: self.weight,
            port: self.port,
            target: self.target@,
        }
    }
}

impl SrvEntryView {
    /// The key by which entries are sorted: the larger, the earlier.
    pub open spec fn total_weight(self) -> int {
        (10000 - self.priority) + self.weight
    }
}

impl SrvEntry {
    /// `(10000 - priority) + weight`: the key by which entries are sorted, the larger the earlier.
    pub fn total_weight(&self) -> (w: i32)
        ensures
            w == self@.total_weight(),
    {
        let p: i32 = self.priority as i32;
        let w: i32 = self.weight as i32;
        (10000 - p) + w
    }
}

/// The SRV records found under a name.
#[derive(Debug, Clone)]
pub struct SrvRecord {
    pub entries: Vec<SrvEntry>,
    pub domain: SrvDomain,
}

/// An [`SrvRecord`] as plain values.
pub struct SrvRecordView {
    pub entries: Seq<SrvEntryView>,
    pub domain: SrvDomainView,
}

/// The entries of a vector as plain values.
pub open spec fn srv_entry_views(entries: Seq<SrvEntry>) -> Seq<SrvEntryView> {
    entries.map_values(|e: SrvEntry| e@)
}

impl View for SrvRecord {
    type V = SrvRecordView;

    open spec fn view(&self) -> SrvRecordView {
        SrvRecordView { entries: srv_entry_views(self.entries@), domain: self.domain@ }
    }
}

impl Weighted for SrvEntry {
    open spec fn weight_of(&self) -> int {
        self@.total_weight()
    }

    fn weight(&self) -> (w: i64) {
        let w: i32 = self.total_weight();
        w as i64
    }
}

impl SrvRecord {
    /// The target of every entry, in order.
    pub fn targets(&self) -> (r: Vec<Domain>)
        ensures
            r@.len() == self.entries@.len(),
            forall|i: int| 0 <= i < r@.len() ==> #[trigger] r@[i] == self.entries@[i].target,
    {
        let mut r: Vec<Domain> = Vec::new();
        let mut i: usize = 0;
        while i < self.entries.len()
            invariant
                i <= self.entries.len(),
                r@.len() == i,
                forall|j: int| 0 <= j < i ==> #[trigger] r@[j] == self.entries@[j].target,
            decreases self.entries.len() - i,
        {
            r.push(self.entries[i].target.clone());
            i += 1;
        }
        r
    }

    /// The target and port of every entry, in order.
    pub fn domains_with_ports(&self) -> (r: Vec<(Domain, Port)>)
        ensures
            r@.len() == self.entries@.len(),
            forall|i: int|
                0 <= i < r@.len() ==> #[trigger] r@[i] == (
                    self.entries@[i].target,
                    self.entries@[i].port,
                ),
    {
        let mut r: Vec<(Domain, Port)> = Vec::new();
        let mut i: usize = 0;
        while i < self.entries.len()
            invariant
                i <= self.entries.len(),
                r@.len() == i,
                forall|j: int|
                    0 <= j < i ==> #[trigger] r@[j] == (
                        self.entries@[j].target,
                        self.entries@[j].port,
                    ),
            decreases self.entries.len() - i,
        {
            r.push((self.entries[i].target.clone(), self.entries[i].port));
            i += 1;
        }
        r
    }

    /// The record with its entries by falling `total_weight`; entries of
    /// one weight keep their order.
    pub fn sorted(self) -> (r: Self)
        ensures
            r.domain == self.domain,
            r.entries@ == sorted_descending(self.entries@),
            is_descending(r.entries@),
            r.entries@.to_multiset() == self.entries@.to_multiset(),
    {
        SrvRecord { entries: sort_descending(self.entries), domain: self.domain }
    }

    /// The entries, in order.
    pub fn into_entries(self) -> (r: Vec<SrvEntry>)
        ensures
            r == self.entries,
    {
        self.entries
    }

    /// The transport that the targets of this record are reached by.
    pub fn transport(&self) -> (t: Transport)
        ensures
            t == self@.domain.transport(),
    {
        self.domain.transport()
    }
}

} // verus!
