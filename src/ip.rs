//! IPv4 and IPv6 addresses as plain values: the address classes that the
//! static source filters on, and the canonical text of each address, which
//! is the content of an A or AAAA record.
use vstd::prelude::*;
use crate::text::{decimal_text, hex_text, push_decimal, push_hex};

verus! {

/// An IPv4 address, most significant octet first.
#[derive(Clone, Copy, Debug, PartialEq, Eq)]
pub struct Ipv4Address {
    pub octets: [u8; 4],
}

/// An IPv6 address as eight 16-bit segments, most significant first.
#[derive(Clone, Copy, Debug, PartialEq, Eq)]
pub struct Ipv6Address {
    pub segments: [u16; 8],
}

/// An address of either family.
#[derive(Clone, Copy, Debug, PartialEq, Eq)]
pub enum IpAddress {
    V4(Ipv4Address),
    V6(Ipv6Address),
}

/// Dotted-decimal text of four octets.
pub open spec fn ipv4_text(o: Seq<u8>) -> Seq<char> {
    decimal_text(o[0] as nat) + "."@ + decimal_text(o[1] as nat) + "."@ + decimal_text(o[2] as nat)
        + "."@ + decimal_text(o[3] as nat)
}

/// Number of zero segments in a row starting at index `i`.
pub open spec fn zero_run(segs: Seq<u16>, i: int) -> nat
    decreases segs.len() - i,
{
    if 0 <= i < segs.len() && segs[i] == 0 {
        1 + zero_run(segs, i + 1)
    } else {
        0
    }
}

/// Start and length of the longest run of zero segments at or after `j`;
/// among runs of equal length, the first.
pub open spec fn longest_zero_run(segs: Seq<u16>, j: int) -> (int, nat)
    decreases segs.len() - j,
{
    if j < 0 || j >= segs.len() {
        (segs.len() as int, 0)
    } else {
        let rest = longest_zero_run(segs, j + 1);
        if zero_run(segs, j) >= rest.1 {
            (j, zero_run(segs, j))
        } else {
            rest
        }
    }
}

/// Segments in lower-case hexadecimal, separated by colons.
pub open spec fn colon_hex(s: Seq<u16>) -> Seq<char>
    decreases s.len(),
{
    if s.len() == 0 {
        Seq::empty()
    } else if s.len() == 1 {
        hex_text(s[0] as nat)
    } else {
        colon_hex(s.drop_last()) + ":"@ + hex_text(s.last() as nat)
    }
}

/// Whether the segments are those of an IPv4-mapped address (`::ffff:a.b.c.d`).
pub open spec fn is_v4_mapped(segs: Seq<u16>) -> bool {
    segs[0] == 0 && segs[1] == 0 && segs[2] == 0 && segs[3] == 0 && segs[4] == 0 && segs[5]
        == 0xffff
}

/// The canonical text of an IPv6 address: the mapped IPv4 form where it
/// applies; otherwise lower-case hexadecimal segments, with the first
/// longest run of two or more zero segments written as `::`.
pub open spec fn ipv6_text(segs: Seq<u16>) -> Seq<char> {
    if is_v4_mapped(segs) {
        "::ffff:"@ + ipv4_text(
            seq![
                (segs[6] / 256) as u8,
                (segs[6] % 256) as u8,
                (segs[7] / 256) as u8,
                (segs[7] % 256) as u8,
            ],
        )
    } else {
        let run = longest_zero_run(segs, 0);
        if run.1 > 1 {
            colon_hex(segs.subrange(0, run.0)) + "::"@ + colon_hex(
                segs.subrange(run.0 + run.1, segs.len() as int),
            )
        } else {
            colon_hex(segs)
        }
    }
}

proof fn lemma_zero_run_bound(segs: Seq<u16>, i: int)
    requires
        0 <= i <= segs.len(),
    ensures
        i + zero_run(segs, i) <= segs.len(),
    decreases segs.len() - i,
{
    if i < segs.len() {
        lemma_zero_run_bound(segs, i + 1);
    }
}

proof fn lemma_longest_zero_run_bound(segs: Seq<u16>, j: int)
    requires
        0 <= j <= segs.len(),
    ensures
        0 <= longest_zero_run(segs, j).0,
        longest_zero_run(segs, j).0 + longest_zero_run(segs, j).1 <= segs.len(),
    decreases segs.len() - j,
{
    if j < segs.len() {
        lemma_longest_zero_run_bound(segs, j + 1);
        lemma_zero_run_bound(segs, j);
    }
}

impl Ipv4Address {
    pub fn new(a: u8, b: u8, c: u8, d: u8) -> (r: Ipv4Address)
        ensures
            r.octets@ == seq![a, b, c, d],
    {
        let r = Ipv4Address { octets: [a, b, c, d] };
        assert(r.octets@ =~= seq![a, b, c, d]);
        r
    }

    /// 169.254.0.0/16.
    pub open spec fn link_local(self) -> bool {
        self.octets[0] == 169 && self.octets[1] == 254
    }

    /// 100.64.0.0/10, carrier-grade NAT.
    pub open spec fn shared(self) -> bool {
        self.octets[0] == 100 && (self.octets[1] & 0xc0u8) == 0x40u8
    }

    /// 127.0.0.0/8.
    pub open spec fn loopback(self) -> bool {
        self.octets[0] == 127
    }

    /// 10.0.0.0/8, 172.16.0.0/12 and 192.168.0.0/16.
    pub open spec fn private(self) -> bool {
        self.octets[0] == 10 || (self.octets[0] == 172 && (self.octets[1] & 0xf0u8) == 16u8) || (
        self.octets[0] == 192 && self.octets[1] == 168)
    }

    /// 224.0.0.0/4.
    pub open spec fn multicast(self) -> bool {
        224 <= self.octets[0] <= 239
    }

    pub open spec fn text(self) -> Seq<char> {
        ipv4_text(self.octets@)
    }

    pub fn is_link_local(&self) -> (r: bool)
        ensures
            r == self.link_local(),
    {
        self.octets[0] == 169 && self.octets[1] == 254
    }

    pub fn is_shared(&self) -> (r: bool)
        ensures
            r == self.shared(),
    {
        self.octets[0] == 100 && (self.octets[1] & 0xc0u8) == 0x40u8
    }

    pub fn is_loopback(&self) -> (r: bool)
        ensures
            r == self.loopback(),
    {
        self.octets[0] == 127
    }

    pub fn is_private(&self) -> (r: bool)
        ensures
            r == self.private(),
    {
        self.octets[0] == 10 || (self.octets[0] == 172 && (self.octets[1] & 0xf0u8) == 16u8) || (
        self.octets[0] == 192 && self.octets[1] == 168)
    }

    pub fn is_multicast(&self) -> (r: bool)
        ensures
            r == self.multicast(),
    {
        224 <= self.octets[0] && self.octets[0] <= 239
    }

    /// Appends the dotted-decimal text of the address to `out`.
    pub fn push_text(&self, out: &mut String)
        ensures
            final(out)@ == old(out)@ + self.text(),
    {
        let ghost before = out@;
        push_decimal(out, self.octets[0] as u128);
        out.append(".");
        push_decimal(out, self.octets[1] as u128);
        out.append(".");
        push_decimal(out, self.octets[2] as u128);
        out.append(".");
        push_decimal(out, self.octets[3] as u128);
        assert(out@ =~= before + self.text());
    }

    pub fn to_text(&self) -> (r: String)
        ensures
            r@ == self.text(),
    {
        let mut out = String::new();
        self.push_text(&mut out);
        assert(out@ =~= self.text());
        out
    }
}

impl Ipv6Address {
    pub fn new(segments: [u16; 8]) -> (r: Ipv6Address)
        ensures
            r.segments == segments,
    {
        Ipv6Address { segments }
    }

    /// fe80::/10.
    pub open spec fn link_local(self) -> bool {
        (self.segments[0] & 0xffc0u16) == 0xfe80u16
    }

    /// `::1`.
    pub open spec fn loopback(self) -> bool {
        self.segments@ == seq![0u16, 0, 0, 0, 0, 0, 0, 1]
    }

    /// fc00::/7, unique local.
    pub open spec fn private(self) -> bool {
        (self.segments[0] & 0xfe00u16) == 0xfc00u16
    }

    /// ff00::/8.
    pub open spec fn multicast(self) -> bool {
        (self.segments[0] & 0xff00u16) == 0xff00u16
    }

    pub open spec fn text(self) -> Seq<char> {
        ipv6_text(self.segments@)
    }

    pub fn is_link_local(&self) -> (r: bool)
        ensures
            r == self.link_local(),
    {
        (self.segments[0] & 0xffc0u16) == 0xfe80u16
    }

    pub fn is_loopback(&self) -> (r: bool)
        ensures
            r == self.loopback(),
    {
        let s = &self.segments;
        let r = s[0] == 0 && s[1] == 0 && s[2] == 0 && s[3] == 0 && s[4] == 0 && s[5] == 0 && s[6]
            == 0 && s[7] == 1;
        assert(r ==> self.segments@ =~= seq![0u16, 0, 0, 0, 0, 0, 0, 1]);
        assert(self.loopback() ==> self.segments@[7] == 1 && self.segments@[0] == 0);
        r
    }

    pub fn is_private(&self) -> (r: bool)
        ensures
            r == self.private(),
    {
        (self.segments[0] & 0xfe00u16) == 0xfc00u16
    }

    pub fn is_multicast(&self) -> (r: bool)
        ensures
            r == self.multicast(),
    {
        (self.segments[0] & 0xff00u16) == 0xff00u16
    }

    /// Appends the segments in `from..to`, colon-separated, to `out`.
    fn push_colon_hex(&self, out: &mut String, from: usize, to: usize)
        requires
            from <= to <= 8,
        ensures
            final(out)@ == old(out)@ + colon_hex(self.segments@.subrange(from as int, to as int)),
    {
        let ghost before = out@;
        let mut i: usize = from;
        while i < to
            invariant
                from <= i <= to <= 8,
                out@ == before + colon_hex(self.segments@.subrange(from as int, i as int)),
            decreases to - i,
        {
            if i > from {
                out.append(":");
            }
            push_hex(out, self.segments[i] as u128);
            proof {
                let s = self.segments@.subrange(from as int, i + 1);
                assert(s.drop_last() =~= self.segments@.subrange(from as int, i as int));
                assert(s.last() == self.segments@[i as int]);
                assert(out@ =~= before + colon_hex(s));
            }
            i = i + 1;
        }
    }

    /// The first longest run of zero segments, as in `longest_zero_run`.
    fn longest_zero_run(&self) -> (r: (usize, usize))
        ensures
            r.0 as int == longest_zero_run(self.segments@, 0).0,
            r.1 as nat == longest_zero_run(self.segments@, 0).1,
    {
        let ghost segs = self.segments@;
        let mut j: usize = 8;
        let mut run: usize = 0;
        let mut best: (usize, usize) = (8, 0);
        while j > 0
            invariant
                0 <= j <= 8,
                segs == self.segments@,
                segs.len() == 8,
                run as nat == zero_run(segs, j as int),
                best.0 as int == longest_zero_run(segs, j as int).0,
                best.1 as nat == longest_zero_run(segs, j as int).1,
                run <= 8 - j,
                best.1 <= 8,
            decreases j,
        {
            j = j - 1;
            if self.segments[j] == 0 {
                run = run + 1;
            } else {
                run = 0;
            }
            if run >= best.1 {
                best = (j, run);
            }
        }
        best
    }

    /// Appends the canonical text of the address to `out`.
    pub fn push_text(&self, out: &mut String)
        ensures
            final(out)@ == old(out)@ + self.text(),
    {
        let ghost before = out@;
        let s = &self.segments;
        if s[0] == 0 && s[1] == 0 && s[2] == 0 && s[3] == 0 && s[4] == 0 && s[5] == 0xffff {
            let v4 = Ipv4Address::new(
                (s[6] / 256) as u8,
                (s[6] % 256) as u8,
                (s[7] / 256) as u8,
                (s[7] % 256) as u8,
            );
            out.append("::ffff:");
            v4.push_text(out);
            assert(out@ =~= before + self.text());
        } else {
            let run = self.longest_zero_run();
            proof {
                lemma_longest_zero_run_bound(self.segments@, 0);
            }
            if run.1 > 1 {
                self.push_colon_hex(out, 0, run.0);
                out.append("::");
                self.push_colon_hex(out, run.0 + run.1, 8);
            } else {
                self.push_colon_hex(out, 0, 8);
                assert(self.segments@.subrange(0, 8) =~= self.segments@);
            }
            assert(out@ =~= before + self.text());
        }
    }

    pub fn to_text(&self) -> (r: String)
        ensures
            r@ == self.text(),
    {
        let mut out = String::new();
        self.push_text(&mut out);
        assert(out@ =~= self.text());
        out
    }
}

impl IpAddress {
    pub open spec fn text(self) -> Seq<char> {
        match self {
            IpAddress::V4(a) => a.text(),
            IpAddress::V6(a) => a.text(),
        }
    }

    pub fn to_text(&self) -> (r: String)
        ensures
            r@ == self.text(),
    {
        match self {
            IpAddress::V4(a) => a.to_text(),
            IpAddress::V6(a) => a.to_text(),
        }
    }
}

} // verus!
