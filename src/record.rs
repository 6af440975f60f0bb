//! The desired DNS record, and the (type, content) key by which records are
//! matched against what a provider holds.
use vstd::prelude::*;
use crate::ip::{Ipv4Address, Ipv6Address};

verus! {

/// A desired DNS record of one of the five supported types.
#[derive(Debug)]
pub enum Record {
    A(Ipv4Address),
    Aaaa(Ipv6Address),
    Cname(String),
    Mx(String),
    Txt(String),
}

/// The identity of a record for reconciliation: its type and the text of its
/// content. Any name the record is published under plays no part.
#[derive(Debug)]
pub struct RecordKey {
    pub kind: String,
    pub content: String,
}

impl RecordKey {
    pub open spec fn view_pair(self) -> (Seq<char>, Seq<char>) {
        (self.kind@, self.content@)
    }

    pub fn duplicate(&self) -> (r: RecordKey)
        ensures
            r == *self,
    {
        RecordKey { kind: self.kind.clone(), content: self.content.clone() }
    }
}

impl Record {
    /// The record type as providers spell it.
    pub open spec fn kind_text(self) -> Seq<char> {
        match self {
            Record::A(_) => "A"@,
            Record::Aaaa(_) => "AAAA"@,
            Record::Cname(_) => "CNAME"@,
            Record::Mx(_) => "MX"@,
            Record::Txt(_) => "TXT"@,
        }
    }

    /// The content as text: the canonical form of an address, or the string.
    pub open spec fn content_text(self) -> Seq<char> {
        match self {
            Record::A(a) => a.text(),
            Record::Aaaa(a) => a.text(),
            Record::Cname(s) => s@,
            Record::Mx(s) => s@,
            Record::Txt(s) => s@,
        }
    }

    pub open spec fn key_pair(self) -> (Seq<char>, Seq<char>) {
        (self.kind_text(), self.content_text())
    }

    pub fn kind(&self) -> (r: &'static str)
        ensures
            r@ == self.kind_text(),
    {
        match self {
            Record::A(_) => "A",
            Record::Aaaa(_) => "AAAA",
            Record::Cname(_) => "CNAME",
            Record::Mx(_) => "MX",
            Record::Txt(_) => "TXT",
        }
    }

    pub fn content(&self) -> (r: String)
        ensures
            r@ == self.content_text(),
    {
        match self {
            Record::A(a) => a.to_text(),
            Record::Aaaa(a) => a.to_text(),
            Record::Cname(s) => s.clone(),
            Record::Mx(s) => s.clone(),
            Record::Txt(s) => s.clone(),
        }
    }

    pub fn key(&self) -> (r: RecordKey)
        ensures
            r.view_pair() == self.key_pair(),
    {
        RecordKey { kind: String::from_str(self.kind()), content: self.content() }
    }

    /// Whether two records have the same identity.
    pub fn same_identity(&self, other: &Record) -> (r: bool)
        ensures
            r == (self.key_pair() == other.key_pair()),
    {
        let a = self.key();
        let b = other.key();
        a.kind == b.kind && a.content == b.content
    }

    /// `TYPE: content`, as records are shown to people.
    pub open spec fn display_text(self) -> Seq<char> {
        self.kind_text() + ": "@ + self.content_text()
    }

    pub fn to_text(&self) -> (r: String)
        ensures
            r@ == self.display_text(),
    {
        let mut out = String::from_str(self.kind());
        out.append(": ");
        let c = self.content();
        out.append(c.as_str());
        out
    }

    pub fn duplicate(&self) -> (r: Record)
        ensures
            r == *self,
    {
        match self {
            Record::A(a) => Record::A(*a),
            Record::Aaaa(a) => Record::Aaaa(*a),
            Record::Cname(s) => Record::Cname(s.clone()),
            Record::Mx(s) => Record::Mx(s.clone()),
            Record::Txt(s) => Record::Txt(s.clone()),
        }
    }
}

/// The identity keys of the records, in order.
pub fn keys_of(records: &Vec<Record>) -> (r: Vec<RecordKey>)
    ensures
        r@.len() == records@.len(),
        forall|i: int| 0 <= i < records@.len() ==> #[trigger] r@[i].view_pair() == records@[i].key_pair(),
{
    let mut r: Vec<RecordKey> = Vec::new();
    let mut i: usize = 0;
    while i < records.len()
        invariant
            i <= records.len(),
            r@.len() == i,
            forall|j: int| 0 <= j < i ==> #[trigger] r@[j].view_pair() == records@[j].key_pair(),
        decreases records.len() - i,
    {
        r.push(records[i].key());
        i = i + 1;
    }
    r
}

} // verus!
