//! NAPTR records.

use crate::sip::{Domain, Error, Transport};
use crate::sorting::{is_descending, sort_descending, sorted_descending, Weighted};
use crate::text::{bytes_spell, is_utf8, spells};
use vstd::slice::slice_to_vec;
use vstd::utf8::valid_utf8;
use vstd::prelude::*;
use vstd::string::*;

verus! {

/// The flags of a NAPTR entry. Only `S` leads to SRV records.
#[derive(Debug, Clone)]
pub enum NaptrFlags {
    S,
    A,
    U,
    P,
    Other(Vec<u8>),
}

/// The service of a NAPTR entry.
#[derive(Debug, Clone)]
pub enum NaptrServices {
    SipD2t,
    SipD2u,
    SipD2s,
    SipD2w,
    SipsD2t,
    SipsD2u,
    SipsD2s,
    SipsD2w,
    Other(String),
}

/// One entry of a NAPTR record set.
#[derive(Debug, Clone)]
pub struct NaptrEntry {
    pub order: u16,
    pub preference: u16,
    pub flags: NaptrFlags,
    pub services: NaptrServices,
    pub regexp: Vec<u8>,
    pub replacement: Domain,
}

/// A [`NaptrEntry`] as plain values.
pub struct NaptrEntryView {
    pub order: u16,
    pub preference: u16,
    pub flags: NaptrFlags,
    pub services: NaptrServices,
    pub regexp: Seq<u8>,
    pub replacement: Seq<char>,
}

impl View for NaptrEntry {
    type V = NaptrEntryView;

    open spec fn view(&self) -> NaptrEntryView {
        NaptrEntryView {
            order: self.order,
            preference: self.preference,
            flags: self.flags,
            services: self.services,
            regexp: self.regexp@,
            replacement: self.replacement@,
        }
    }
}

impl NaptrEntryView {
    /// The key by which entries are sorted: the larger, the earlier.
    pub open spec fn total_weight(self) -> int {
        self.order + self.preference
    }
}

impl NaptrEntry {
    /// `order + preference`: the key by which entries are sorted, the larger the earlier.
    pub fn total_weight(&self) -> (w: u32)
        ensures
            w == self@.total_weight(),
    {
        let o: u32 = self.order as u32;
        let p: u32 = self.preference as u32;
        o + p
    }
}

/// The NAPTR records of a domain.
#[derive(Debug, Clone)]
pub struct NaptrRecord {
    pub entries: Vec<NaptrEntry>,
    pub domain: Domain,
}

/// A [`NaptrRecord`] as plain values.
pub struct NaptrRecordView {
    pub entries: Seq<NaptrEntryView>,
    pub domain: Seq<char>,
}

/// The entries of a vector as plain values.
pub open spec fn naptr_entry_views(entries: Seq<NaptrEntry>) -> Seq<NaptrEntryView> {
    entries.map_values(|e: NaptrEntry| e@)
}

impl View for NaptrRecord {
    type V = NaptrRecordView;

    open spec fn view(&self) -> NaptrRecordView {
        NaptrRecordView { entries: naptr_entry_views(self.entries@), domain: self.domain@ }
    }
}

impl NaptrServices {
    /// The transport that the service stands for. Secure UDP and secure SCTP
    /// do not exist, so `SIPS+D2U` and `SIPS+D2S` stand for none.
    pub open spec fn spec_transport(self) -> Option<Transport> {
        match self {
            NaptrServices::SipD2t => Some(Transport::Tcp),
            NaptrServices::SipD2u => Some(Transport::Udp),
            NaptrServices::SipD2s => Some(Transport::Sctp),
            NaptrServices::SipD2w => Some(Transport::Ws),
            NaptrServices::SipsD2t => Some(Transport::Tls),
            NaptrServices::SipsD2u => None,
            NaptrServices::SipsD2s => None,
            NaptrServices::SipsD2w => Some(Transport::Wss),
            NaptrServices::Other(_) => None,
        }
    }

    /// Whether the service is one of the `SIPS` services.
    pub open spec fn spec_secure(self) -> bool {
        self is SipsD2t || self is SipsD2u || self is SipsD2s || self is SipsD2w
    }

    pub fn transport(&self) -> (t: Option<Transport>)
        ensures
            t == self.spec_transport(),
    {
        match self {
            NaptrServices::SipD2t => Some(Transport::Tcp),
            NaptrServices::SipD2u => Some(Transport::Udp),
            NaptrServices::SipD2s => Some(Transport::Sctp),
            NaptrServices::SipD2w => Some(Transport::Ws),
            NaptrServices::SipsD2t => Some(Transport::Tls),
            NaptrServices::SipsD2u => None,
            NaptrServices::SipsD2s => None,
            NaptrServices::SipsD2w => Some(Transport::Wss),
            NaptrServices::Other(_) => None,
        }
    }

    pub fn secure(&self) -> (b: bool)
        ensures
            b == self.spec_secure(),
    {
        match self {
            NaptrServices::SipD2t => false,
            NaptrServices::SipD2u => false,
            NaptrServices::SipD2s => false,
            NaptrServices::SipD2w => false,
            NaptrServices::SipsD2t => true,
            NaptrServices::SipsD2u => true,
            NaptrServices::SipsD2s => true,
            NaptrServices::SipsD2w => true,
            NaptrServices::Other(_) => false,
        }
    }
}

impl Weighted for NaptrEntry {
    open spec fn weight_of(&self) -> int {
        self@.total_weight()
    }

    fn weight(&self) -> (w: i64) {
        let w: u32 = self.total_weight();
        w as i64
    }
}

impl NaptrRecord {
    pub fn as_slice(&self) -> (r: &[NaptrEntry])
        ensures
            r@ == self.entries@,
    {
        self.entries.as_slice()
    }

    /// The record with its entries by falling `total_weight`; entries of
    /// one weight keep their order.
    pub fn sorted(self) -> (r: Self)
        ensures
            r.domain == self.domain,
            r.entries@ == sorted_descending(self.entries@),
            is_descending(r.entries@),
            r.entries@.to_multiset() == self.entries@.to_multiset(),
    {
        NaptrRecord { entries: sort_descending(self.entries), domain: self.domain }
    }

    /// The entries, in order.
    pub fn into_entries(self) -> (r: Vec<NaptrEntry>)
        ensures
            r == self.entries,
    {
        self.entries
    }
}

/// The flags that a flag field spells: `S`, `A`, `U` or `P` for these
/// single capital letters, and `None` for anything else.
pub open spec fn flags_of_bytes(bytes: Seq<u8>) -> Option<NaptrFlags> {
    if bytes == seq![0x53u8] {
        Some(NaptrFlags::S)
    } else if bytes == seq![0x41u8] {
        Some(NaptrFlags::A)
    } else if bytes == seq![0x55u8] {
        Some(NaptrFlags::U)
    } else if bytes == seq![0x50u8] {
        Some(NaptrFlags::P)
    } else {
        None
    }
}

impl NaptrFlags {
    /// Reads a flag field. Anything but one of the four letters is kept as it is, in `Other`.
    pub fn from(from: &[u8]) -> (r: NaptrFlags)
        ensures
            match flags_of_bytes(from@) {
                Some(flags) => r == flags,
                None => r matches NaptrFlags::Other(other) && other@ == from@,
            },
    {
        if from.len() == 1 {
            let b = from[0];
            if b == 0x53 {
                assert(from@ =~= seq![0x53u8]);
                return NaptrFlags::S;
            } else if b == 0x41 {
                assert(from@ =~= seq![0x41u8]);
                return NaptrFlags::A;
            } else if b == 0x55 {
                assert(from@ =~= seq![0x55u8]);
                return NaptrFlags::U;
            } else if b == 0x50 {
                assert(from@ =~= seq![0x50u8]);
                return NaptrFlags::P;
            }
            assert(flags_of_bytes(from@) is None) by {
                assert(seq![0x53u8][0] == 0x53u8 && seq![0x41u8][0] == 0x41u8 && seq![0x55u8][0]
                    == 0x55u8 && seq![0x50u8][0] == 0x50u8);
            }
        } else {
            assert(seq![0x53u8].len() == 1 && seq![0x41u8].len() == 1 && seq![0x55u8].len() == 1
                && seq![0x50u8].len() == 1);
        }
        NaptrFlags::Other(slice_to_vec(from))
    }
}

/// The service that a service field spells, whatever the case of its
/// letters; `None` for anything but the eight SIP services.
pub open spec fn service_of_bytes(bytes: Seq<u8>) -> Option<NaptrServices> {
    if spells(bytes, "SIP+D2T"@) {
        Some(NaptrServices::SipD2t)
    } else if spells(bytes, "SIP+D2U"@) {
        Some(NaptrServices::SipD2u)
    } else if spells(bytes, "SIP+D2S"@) {
        Some(NaptrServices::SipD2s)
    } else if spells(bytes, "SIP+D2W"@) {
        Some(NaptrServices::SipD2w)
    } else if spells(bytes, "SIPS+D2T"@) {
        Some(NaptrServices::SipsD2t)
    } else if spells(bytes, "SIPS+D2U"@) {
        Some(NaptrServices::SipsD2u)
    } else if spells(bytes, "SIPS+D2S"@) {
        Some(NaptrServices::SipsD2s)
    } else if spells(bytes, "SIPS+D2W"@) {
        Some(NaptrServices::SipsD2w)
    } else {
        None
    }
}

impl NaptrServices {
    /// Reads a service field. Bytes that are no UTF-8 give a `Utf8Error`,
    /// text that names none of the eight SIP services a `ParseError`.
    pub fn try_from(from: &[u8]) -> (r: Result<NaptrServices, Error>)
        ensures
            match service_of_bytes(from@) {
                Some(service) => r == Ok::<NaptrServices, Error>(service),
                None => r is Err && (if valid_utf8(from@) {
                    r->Err_0 is ParseError
                } else {
                    r->Err_0 is Utf8Error
                }),
            },
    {
        proof {
            reveal_strlit("SIP+D2T");
            reveal_strlit("SIP+D2U");
            reveal_strlit("SIP+D2S");
            reveal_strlit("SIP+D2W");
            reveal_strlit("SIPS+D2T");
            reveal_strlit("SIPS+D2U");
            reveal_strlit("SIPS+D2S");
            reveal_strlit("SIPS+D2W");
        }
        if bytes_spell(from, "SIP+D2T") {
            Ok(NaptrServices::SipD2t)
        } else if bytes_spell(from, "SIP+D2U") {
            Ok(NaptrServices::SipD2u)
        } else if bytes_spell(from, "SIP+D2S") {
            Ok(NaptrServices::SipD2s)
        } else if bytes_spell(from, "SIP+D2W") {
            Ok(NaptrServices::SipD2w)
        } else if bytes_spell(from, "SIPS+D2T") {
            Ok(NaptrServices::SipsD2t)
        } else if bytes_spell(from, "SIPS+D2U") {
            Ok(NaptrServices::SipsD2u)
        } else if bytes_spell(from, "SIPS+D2S") {
            Ok(NaptrServices::SipsD2s)
        } else if bytes_spell(from, "SIPS+D2W") {
            Ok(NaptrServices::SipsD2w)
        } else if is_utf8(from) {
            Err(Error::ParseError(String::from_str("unknown service")))
        } else {
            Err(Error::Utf8Error(String::from_str("service is not UTF-8")))
        }
    }
}

} // verus!
