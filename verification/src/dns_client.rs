//! The DNS side of a lookup: the client that a caller brings, and the
//! queries and answers that pass between it and the resolution.

use crate::records::{
    AddrRecord, AddrRecordView, NaptrRecord, NaptrRecordView, SrvDomain, SrvDomainView, SrvRecord,
    SrvRecordView,
};
use crate::sip::{Domain, Error};
use vstd::prelude::*;

verus! {

/// What a lookup needs of DNS. Nothing is promised of the answers: the
/// resolution goes on with whatever comes back, and a miss or a failure
/// means that a branch has no targets.
///
/// Whether `ip_lookup` asks for A records, AAAA records or both is up to the client.
pub trait DnsClient: Clone + Sync + Send {
    fn naptr_lookup(&self, domain: Domain) -> Option<NaptrRecord>;

    fn srv_lookup(&self, domain: SrvDomain) -> Option<SrvRecord>;

    fn ip_lookup(&self, domain: Domain) -> Result<AddrRecord, Error>;
}

/// A DNS query that a lookup waits for.
#[derive(Debug, Clone)]
pub enum DnsQuery {
    Naptr(Domain),
    Srv(SrvDomain),
    Addr(Domain),
}

/// A [`DnsQuery`] as plain values.
pub enum DnsQueryView {
    Naptr(Seq<char>),
    Srv(SrvDomainView),
    Addr(Seq<char>),
}

impl View for DnsQuery {
    type V = DnsQueryView;

    open spec fn view(&self) -> DnsQueryView {
        match *self {
            DnsQuery::Naptr(d) => DnsQueryView::Naptr(d@),
            DnsQuery::Srv(d) => DnsQueryView::Srv(d@),
            DnsQuery::Addr(d) => DnsQueryView::Addr(d@),
        }
    }
}

/// The answer to a [`DnsQuery`].
#[derive(Debug)]
pub enum DnsAnswer {
    Naptr(Option<NaptrRecord>),
    Srv(Option<SrvRecord>),
    Addr(Result<AddrRecord, Error>),
}

/// A [`DnsAnswer`] as plain values; a failed address lookup is `Addr(None)`.
pub enum DnsAnswerView {
    Naptr(Option<NaptrRecordView>),
    Srv(Option<SrvRecordView>),
    Addr(Option<AddrRecordView>),
}

impl View for DnsAnswer {
    type V = DnsAnswerView;

    open spec fn view(&self) -> DnsAnswerView {
        match *self {
            DnsAnswer::Naptr(Some(r)) => DnsAnswerView::Naptr(Some(r@)),
            DnsAnswer::Naptr(None) => DnsAnswerView::Naptr(None),
            DnsAnswer::Srv(Some(r)) => DnsAnswerView::Srv(Some(r@)),
            DnsAnswer::Srv(None) => DnsAnswerView::Srv(None),
            DnsAnswer::Addr(Ok(r)) => DnsAnswerView::Addr(Some(r@)),
            DnsAnswer::Addr(Err(_)) => DnsAnswerView::Addr(None),
        }
    }
}

/// Whether an answer is of the kind that a query asks for.
pub open spec fn fits(query: DnsQueryView, answer: DnsAnswerView) -> bool {
    match query {
        DnsQueryView::Naptr(_) => answer is Naptr,
        DnsQueryView::Srv(_) => answer is Srv,
        DnsQueryView::Addr(_) => answer is Addr,
    }
}

/// Puts a query to a client. The answer is of the query's kind; nothing else is known of it.
pub fn perform<C: DnsClient>(client: &C, query: DnsQuery) -> (answer: DnsAnswer)
    ensures
        fits(query@, answer@),
{
    match query {
        DnsQuery::Naptr(domain) => DnsAnswer::Naptr(client.naptr_lookup(domain)),
        DnsQuery::Srv(domain) => DnsAnswer::Srv(client.srv_lookup(domain)),
        DnsQuery::Addr(domain) => DnsAnswer::Addr(client.ip_lookup(domain)),
    }
}

} // verus!
