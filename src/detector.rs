//! Address sources: a static list of addresses with class filters, and the
//! address that a remote echo service reports. Their outputs are joined into
//! the desired record sequence.
use vstd::prelude::*;
use crate::ip::IpAddress;
use crate::record::Record;

verus! {

/// Which address classes the static source leaves out.
#[derive(Clone, Copy, Debug, PartialEq, Eq, Default)]
pub struct AddressFilters {
    pub ignore_link_local: bool,
    pub ignore_shared: bool,
    pub ignore_loopback: bool,
    pub ignore_private: bool,
    pub ignore_multicast: bool,
}

impl AddressFilters {
    /// Whether an enabled filter matches the address. IPv6 has no shared class.
    pub open spec fn rejects(self, addr: IpAddress) -> bool {
        match addr {
            IpAddress::V4(a) => (self.ignore_link_local && a.link_local()) || (self.ignore_shared
                && a.shared()) || (self.ignore_loopback && a.loopback()) || (self.ignore_private
                && a.private()) || (self.ignore_multicast && a.multicast()),
            IpAddress::V6(a) => (self.ignore_link_local && a.link_local()) || (self.ignore_loopback
                && a.loopback()) || (self.ignore_private && a.private()) || (self.ignore_multicast
                && a.multicast()),
        }
    }

    pub open spec fn none_enabled(self) -> bool {
        !self.ignore_link_local && !self.ignore_shared && !self.ignore_loopback
            && !self.ignore_private && !self.ignore_multicast
    }

    pub fn none() -> (r: AddressFilters)
        ensures
            r.none_enabled(),
    {
        AddressFilters {
            ignore_link_local: false,
            ignore_shared: false,
            ignore_loopback: false,
            ignore_private: false,
            ignore_multicast: false,
        }
    }

    /// Whether the address is kept, that is no enabled filter matches it.
    pub fn keeps(&self, addr: &IpAddress) -> (r: bool)
        ensures
            r == !self.rejects(*addr),
    {
        match addr {
            IpAddress::V4(a) => !((self.ignore_link_local && a.is_link_local()) || (
            self.ignore_shared && a.is_shared()) || (self.ignore_loopback && a.is_loopback()) || (
            self.ignore_private && a.is_private()) || (self.ignore_multicast && a.is_multicast())),
            IpAddress::V6(a) => !((self.ignore_link_local && a.is_link_local()) || (
            self.ignore_loopback && a.is_loopback()) || (self.ignore_private && a.is_private()) || (
            self.ignore_multicast && a.is_multicast())),
        }
    }
}

/// The record that publishes an address: A for IPv4, AAAA for IPv6.
pub open spec fn record_of(addr: IpAddress) -> Record {
    match addr {
        IpAddress::V4(a) => Record::A(a),
        IpAddress::V6(a) => Record::Aaaa(a),
    }
}

pub fn record_for(addr: &IpAddress) -> (r: Record)
    ensures
        r == record_of(*addr),
{
    match addr {
        IpAddress::V4(a) => Record::A(*a),
        IpAddress::V6(a) => Record::Aaaa(*a),
    }
}

/// The records of the addresses that the filters keep, in input order.
pub open spec fn kept_records(filters: AddressFilters, addrs: Seq<IpAddress>) -> Seq<Record> {
    addrs.filter(|a: IpAddress| !filters.rejects(a)).map_values(|a: IpAddress| record_of(a))
}

/// The static address source: addresses given on the command line.
#[derive(Debug, Default)]
pub struct SetIpDetector {
    pub ips: Vec<Record>,
    pub filters: AddressFilters,
}

impl SetIpDetector {
    pub fn new() -> (r: SetIpDetector)
        ensures
            r.ips@.len() == 0,
            r.filters.none_enabled(),
    {
        SetIpDetector { ips: Vec::new(), filters: AddressFilters::none() }
    }

    /// Takes the filters, and the records of the given addresses that they keep.
    pub fn configure(&mut self, filters: AddressFilters, addrs: &Vec<IpAddress>)
        ensures
            final(self).filters == filters,
            final(self).ips@ == old(self).ips@ + kept_records(filters, addrs@),
    {
        self.filters = filters;
        let ghost start = self.ips@;
        let ghost keep = |a: IpAddress| !filters.rejects(a);
        let ghost to_record = |a: IpAddress| record_of(a);
        let mut i: usize = 0;
        while i < addrs.len()
            invariant
                i <= addrs.len(),
                self.filters == filters,
                keep == (|a: IpAddress| !filters.rejects(a)),
                to_record == (|a: IpAddress| record_of(a)),
                self.ips@ == start + addrs@.subrange(0, i as int).filter(keep).map_values(
                    to_record,
                ),
            decreases addrs.len() - i,
        {
            let ghost prev = addrs@.subrange(0, i as int);
            let ghost next = addrs@.subrange(0, i + 1);
            assert(next.drop_last() =~= prev);
            assert(next.last() == addrs@[i as int]);
            if self.filters.keeps(&addrs[i]) {
                let rec = record_for(&addrs[i]);
                self.ips.push(rec);
                assert(next.filter(keep) == prev.filter(keep).push(addrs@[i as int])) by {
                    reveal(Seq::filter);
                }
                assert(next.filter(keep).map_values(to_record) =~= prev.filter(keep).map_values(
                    to_record,
                ).push(record_of(addrs@[i as int])));
                assert(self.ips@ =~= start + next.filter(keep).map_values(to_record));
            } else {
                assert(next.filter(keep) == prev.filter(keep)) by {
                    reveal(Seq::filter);
                }
            }
            i = i + 1;
        }
        assert(addrs@.subrange(0, addrs.len() as int) =~= addrs@);
    }

    /// The records this source contributes; none when it was given no address.
    pub fn run(&self) -> (r: Vec<Record>)
        ensures
            r@ == self.ips@,
    {
        copy_records(&self.ips)
    }
}

/// The remote echo source: one GET to a URL whose reply body is an address.
#[derive(Debug, Default)]
pub struct GetIpByUrlDetector {
    pub url: String,
    pub ips: Vec<Record>,
}

impl GetIpByUrlDetector {
    pub fn new(url: String) -> (r: GetIpByUrlDetector)
        ensures
            r.url == url,
            r.ips@.len() == 0,
    {
        GetIpByUrlDetector { url, ips: Vec::new() }
    }

    /// The URL to ask, or `None` when no URL was configured.
    pub fn request_url(&self) -> (r: Option<String>)
        ensures
            self.url@.len() == 0 ==> r is None,
            self.url@.len() > 0 ==> r == Some(self.url),
    {
        if self.url.as_str().is_empty() {
            None
        } else {
            Some(self.url.clone())
        }
    }

    /// Takes the address parsed from the reply body; `None` stands for a
    /// failed request or a body that is not an address, which adds nothing.
    pub fn accept_reply(&mut self, reply: Option<IpAddress>)
        ensures
            final(self).url == old(self).url,
            reply is None ==> final(self).ips@ == old(self).ips@,
            reply matches Some(a) ==> final(self).ips@ == old(self).ips@.push(record_of(a)),
    {
        if let Some(a) = reply {
            self.ips.push(record_for(&a));
        }
    }

    pub fn run(&self) -> (r: Vec<Record>)
        ensures
            r@ == self.ips@,
    {
        copy_records(&self.ips)
    }
}

/// The address sources, a closed set.
#[derive(Debug)]
pub enum Detector {
    SetIp(SetIpDetector),
    GetIpByUrl(GetIpByUrlDetector),
}

impl Detector {
    pub open spec fn records(self) -> Seq<Record> {
        match self {
            Detector::SetIp(d) => d.ips@,
            Detector::GetIpByUrl(d) => d.ips@,
        }
    }

    pub fn run(&self) -> (r: Vec<Record>)
        ensures
            r@ == self.records(),
    {
        match self {
            Detector::SetIp(d) => d.run(),
            Detector::GetIpByUrl(d) => d.run(),
        }
    }
}

/// The sources in the order they run: the static list, then the echo URL,
/// both unconfigured.
pub fn register_detectors() -> (r: Vec<Detector>)
    ensures
        r@.len() == 2,
        r@[0] matches Detector::SetIp(d) && d.ips@.len() == 0 && d.filters.none_enabled(),
        r@[1] matches Detector::GetIpByUrl(d) && d.ips@.len() == 0 && d.url@.len() == 0,
{
    let mut r: Vec<Detector> = Vec::new();
    r.push(Detector::SetIp(SetIpDetector::new()));
    r.push(Detector::GetIpByUrl(GetIpByUrlDetector::new(String::new())));
    r
}

pub fn copy_records(v: &Vec<Record>) -> (r: Vec<Record>)
    ensures
        r@ == v@,
{
    let mut r: Vec<Record> = Vec::new();
    let mut i: usize = 0;
    while i < v.len()
        invariant
            i <= v.len(),
            r@ == v@.subrange(0, i as int),
        decreases v.len() - i,
    {
        r.push(v[i].duplicate());
        assert(r@ =~= v@.subrange(0, i + 1));
        i = i + 1;
    }
    assert(r@ =~= v@);
    r
}

/// The outputs of all sources, in order, one after another.
pub open spec fn concat_outputs(outs: Seq<Vec<Record>>) -> Seq<Record>
    decreases outs.len(),
{
    if outs.len() == 0 {
        Seq::empty()
    } else {
        concat_outputs(outs.drop_last()) + outs.last()@
    }
}

/// The sequence with every record that has the same identity as the one
/// just before it removed. Repeats that are not adjacent stay.
pub open spec fn dedup_adjacent(s: Seq<Record>) -> Seq<Record>
    decreases s.len(),
{
    if s.len() == 0 {
        s
    } else if s.len() >= 2 && s[s.len() - 2].key_pair() == s.last().key_pair() {
        dedup_adjacent(s.drop_last())
    } else {
        dedup_adjacent(s.drop_last()).push(s.last())
    }
}

/// The desired record sequence: the sources' outputs joined in order, with
/// adjacent duplicates collapsed.
pub fn collect_records(outputs: &Vec<Vec<Record>>) -> (r: Vec<Record>)
    ensures
        r@ == dedup_adjacent(concat_outputs(outputs@)),
{
    let mut all: Vec<Record> = Vec::new();
    let mut k: usize = 0;
    while k < outputs.len()
        invariant
            k <= outputs.len(),
            all@ == concat_outputs(outputs@.subrange(0, k as int)),
        decreases outputs.len() - k,
    {
        let part = &outputs[k];
        let mut i: usize = 0;
        let ghost base = all@;
        while i < part.len()
            invariant
                i <= part.len(),
                all@ == base + part@.subrange(0, i as int),
            decreases part.len() - i,
        {
            all.push(part[i].duplicate());
            assert(all@ =~= base + part@.subrange(0, i + 1));
            i = i + 1;
        }
        proof {
            assert(part@.subrange(0, part.len() as int) =~= part@);
            assert(outputs@.subrange(0, k + 1).drop_last() =~= outputs@.subrange(0, k as int));
        }
        k = k + 1;
    }
    assert(outputs@.subrange(0, outputs.len() as int) =~= outputs@);
    let mut out: Vec<Record> = Vec::new();
    let mut i: usize = 0;
    while i < all.len()
        invariant
            i <= all.len(),
            out@ == dedup_adjacent(all@.subrange(0, i as int)),
        decreases all.len() - i,
    {
        let ghost next = all@.subrange(0, i + 1);
        assert(next.drop_last() =~= all@.subrange(0, i as int));
        if i == 0 || !all[i - 1].same_identity(&all[i]) {
            out.push(all[i].duplicate());
        }
        i = i + 1;
    }
    assert(all@.subrange(0, all.len() as int) =~= all@);
    out
}

proof fn lemma_filter_keeps_all<A>(s: Seq<A>, p: spec_fn(A) -> bool)
    requires
        forall|i: int| 0 <= i < s.len() ==> p(#[trigger] s[i]),
    ensures
        s.filter(p) == s,
    decreases s.len(),
{
    reveal(Seq::filter);
    if s.len() > 0 {
        lemma_filter_keeps_all(s.drop_last(), p);
        assert(p(s[s.len() - 1]));
        assert(s.drop_last().push(s.last()) =~= s);
    }
}

/// With every filter off, the static source turns each address into one
/// record of its family with the same value, in input order.
pub proof fn lemma_no_filter_keeps_every_address(filters: AddressFilters, addrs: Seq<IpAddress>)
    requires
        filters.none_enabled(),
    ensures
        kept_records(filters, addrs) == addrs.map_values(|a: IpAddress| record_of(a)),
        kept_records(filters, addrs).len() == addrs.len(),
        forall|i: int|
            0 <= i < addrs.len() ==> #[trigger] kept_records(filters, addrs)[i] == record_of(
                addrs[i],
            ),
{
    lemma_filter_keeps_all(addrs, |a: IpAddress| !filters.rejects(a));
}

} // verus!
