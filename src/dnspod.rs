//! The DNSPod adapter: the form-encoded POST requests of a pass over one
//! domain, and the reading of DNSPod's status codes.
use vstd::prelude::*;
use crate::reconcile::{Action, Outcome, PassState, Reconciler, RemoteRecord};
use crate::record::{keys_of, Record, RecordKey};
use crate::text::{decimal_text, push_decimal, trim, trim_text};
use crate::wire::{field_pairs, FormField};

verus! {

/// Records a listing page holds.
pub const DNSPOD_PAGE_SIZE: usize = 100;

/// The status code of a successful call.
pub const DNSPOD_RESPONSE_CODE_SUCCESS: &'static str = "1";

/// The status code of a listing that found no record.
pub const DNSPOD_RESPONSE_CODE_NO_RECORDS: &'static str = "10";

pub const DNSPOD_LIST_URL: &'static str = "https://dnsapi.cn/Record.List";

pub const DNSPOD_CREATE_URL: &'static str = "https://dnsapi.cn/Record.Create";

pub const DNSPOD_REMOVE_URL: &'static str = "https://dnsapi.cn/Record.Remove";

/// The record line of created records: the default line.
pub const DNSPOD_RECORD_LINE_ID: &'static str = "0";

/// Preference of created records, used by MX.
pub const DNSPOD_MX: &'static str = "10";

/// Time to live of created records, in seconds.
pub const DNSPOD_TTL: &'static str = "600";

/// The DNSPod provider: one domain, by id or by name, one sub domain, and a
/// token with an optional token id.
#[derive(Debug, Default)]
pub struct Dnspod {
    pub domain_id: String,
    pub domain: String,
    pub token: String,
    pub token_id: String,
    pub sub_domain: String,
}

/// A request to DNSPod's API: a POST of a multipart form.
#[derive(Debug)]
pub struct DnspodRequest {
    pub url: String,
    pub form: Vec<FormField>,
}

impl Dnspod {
    pub fn new() -> (r: Dnspod)
        ensures
            r.domain_id@.len() == 0,
            r.domain@.len() == 0,
            r.token@.len() == 0,
            r.token_id@.len() == 0,
            r.sub_domain@ == "@"@,
    {
        Dnspod {
            domain_id: String::new(),
            domain: String::new(),
            token: String::new(),
            token_id: String::new(),
            sub_domain: String::from_str("@"),
        }
    }

    /// Takes the options; the sub domain is `@`, the domain itself, when not given.
    pub fn configure(
        &mut self,
        domain_id: String,
        domain: String,
        token: String,
        token_id: String,
        sub_domain: Option<String>,
    )
        ensures
            final(self).domain_id == domain_id,
            final(self).domain == domain,
            final(self).token == token,
            final(self).token_id == token_id,
            sub_domain matches Some(s) ==> final(self).sub_domain == s,
            sub_domain is None ==> final(self).sub_domain@ == "@"@,
    {
        self.domain_id = domain_id;
        self.domain = domain;
        self.token = token;
        self.token_id = token_id;
        self.sub_domain = match sub_domain {
            Some(s) => s,
            None => String::from_str("@"),
        };
    }

    /// Whether a credential and a domain were given; otherwise the adapter
    /// does nothing.
    pub open spec fn enabled(self) -> bool {
        (self.token_id@.len() > 0 || self.token@.len() > 0) && (self.domain_id@.len() > 0
            || self.domain@.len() > 0)
    }

    pub fn is_enabled(&self) -> (r: bool)
        ensures
            r == self.enabled(),
    {
        (!self.token_id.as_str().is_empty() || !self.token.as_str().is_empty()) && (
        !self.domain_id.as_str().is_empty() || !self.domain.as_str().is_empty())
    }

    /// A pass over the one domain, or over none when the adapter is disabled.
    pub fn reconciler(&self, desired: &Vec<Record>) -> (r: Reconciler)
        ensures
            r@.wf(),
            r@ == PassState::initial(
                r@.desired,
                if self.enabled() {
                    1
                } else {
                    0
                },
                DNSPOD_PAGE_SIZE as nat,
            ),
            r@.desired.len() == desired@.len(),
            forall|i: int|
                0 <= i < desired@.len() ==> #[trigger] r@.desired[i].view_pair()
                    == desired@[i].key_pair(),
    {
        let n: usize = if self.is_enabled() {
            1
        } else {
            0
        };
        Reconciler::new(keys_of(desired), n, DNSPOD_PAGE_SIZE)
    }

    /// The `login_token` value: the token alone, or `id,token`.
    pub open spec fn login_token_text(self) -> Seq<char> {
        if self.token_id@.len() == 0 {
            self.token@
        } else {
            self.token_id@ + ","@ + self.token@
        }
    }

    /// The fields every call carries: credential, reply format, and the
    /// domain by id when there is one, by name otherwise.
    pub open spec fn common_pairs(self) -> Seq<(Seq<char>, Seq<char>)> {
        seq![
            ("login_token"@, self.login_token_text()),
            ("format"@, "json"@),
            if self.domain_id@.len() > 0 {
                ("domain_id"@, self.domain_id@)
            } else {
                ("domain"@, self.domain@)
            },
        ]
    }

    pub fn generate_common_form(&self) -> (r: Vec<FormField>)
        ensures
            field_pairs(r@) == self.common_pairs(),
    {
        let login = if self.token_id.as_str().is_empty() {
            self.token.clone()
        } else {
            let mut t = self.token_id.clone();
            t.append(",");
            t.append(self.token.as_str());
            t
        };
        let mut r: Vec<FormField> = Vec::new();
        r.push(FormField::new("login_token", login));
        r.push(FormField::new("format", String::from_str("json")));
        if !self.domain_id.as_str().is_empty() {
            r.push(FormField::new("domain_id", self.domain_id.clone()));
        } else {
            r.push(FormField::new("domain", self.domain.clone()));
        }
        assert(field_pairs(r@) =~= self.common_pairs());
        r
    }

    /// The form of page `page` of the listing of the sub domain.
    pub open spec fn list_pairs(self, page: nat) -> Seq<(Seq<char>, Seq<char>)> {
        self.common_pairs() + seq![
            ("sub_domain"@, self.sub_domain@),
            ("offset"@, decimal_text(
                if page >= 1 {
                    ((page - 1) * DNSPOD_PAGE_SIZE) as nat
                } else {
                    0
                },
            )),
            ("length"@, decimal_text(DNSPOD_PAGE_SIZE as nat)),
        ]
    }

    /// The form that removes the record with id `id`.
    pub open spec fn remove_pairs(self, id: Seq<char>) -> Seq<(Seq<char>, Seq<char>)> {
        self.common_pairs() + seq![("record_id"@, id)]
    }

    /// The form that creates `key` under the sub domain.
    pub open spec fn create_pairs(self, key: RecordKey) -> Seq<(Seq<char>, Seq<char>)> {
        self.common_pairs() + seq![
            ("sub_domain"@, self.sub_domain@),
            ("record_type"@, key.kind@),
            ("record_line_id"@, DNSPOD_RECORD_LINE_ID@),
            ("value"@, key.content@),
            ("mx"@, DNSPOD_MX@),
            ("ttl"@, DNSPOD_TTL@),
        ]
    }

    fn push_field(form: &mut Vec<FormField>, name: &str, value: String)
        ensures
            field_pairs(final(form)@) == field_pairs(old(form)@).push((name@, value@)),
    {
        form.push(FormField::new(name, value));
        assert(field_pairs(form@) =~= field_pairs(old(form)@).push((name@, value@)));
    }

    /// The request that carries out `action`: none for the end of the pass
    /// or for a domain other than the one configured.
    pub fn request_for(&self, action: &Action) -> (r: Option<DnspodRequest>)
        ensures
            (action is Finish) ==> r is None,
            action matches Action::FetchPage { domain, page } ==> {
                &&& (domain == 0) == (r is Some)
                &&& r matches Some(q) ==> q.url@ == DNSPOD_LIST_URL@ && field_pairs(q.form@)
                    == self.list_pairs(page as nat)
            },
            action matches Action::Delete { record, .. } ==> (r matches Some(q) && q.url@
                == DNSPOD_REMOVE_URL@ && field_pairs(q.form@) == self.remove_pairs(record.id@)),
            action matches Action::Create { domain, key } ==> {
                &&& (domain == 0) == (r is Some)
                &&& r matches Some(q) ==> q.url@ == DNSPOD_CREATE_URL@ && field_pairs(q.form@)
                    == self.create_pairs(*key)
            },
    {
        match action {
            Action::FetchPage { domain, page } => {
                if *domain != 0 {
                    return None;
                }
                let mut form = self.generate_common_form();
                Dnspod::push_field(&mut form, "sub_domain", self.sub_domain.clone());
                let mut offset = String::new();
                let first: u128 = if *page >= 1 {
                    (*page - 1) as u128
                } else {
                    0
                };
                assert(first * (DNSPOD_PAGE_SIZE as u128) <= u64::MAX as u128 * 100) by (
                nonlinear_arith)
                    requires
                        first <= u64::MAX,
                ;
                push_decimal(&mut offset, first * (DNSPOD_PAGE_SIZE as u128));
                Dnspod::push_field(&mut form, "offset", offset);
                let mut length = String::new();
                push_decimal(&mut length, DNSPOD_PAGE_SIZE as u128);
                Dnspod::push_field(&mut form, "length", length);
                assert(field_pairs(form@) =~= self.list_pairs(*page as nat));
                Some(DnspodRequest { url: String::from_str(DNSPOD_LIST_URL), form })
            },
            Action::Delete { record, .. } => {
                let mut form = self.generate_common_form();
                Dnspod::push_field(&mut form, "record_id", record.id.clone());
                assert(field_pairs(form@) =~= self.remove_pairs(record.id@));
                Some(DnspodRequest { url: String::from_str(DNSPOD_REMOVE_URL), form })
            },
            Action::Create { domain, key } => {
                if *domain != 0 {
                    return None;
                }
                let mut form = self.generate_common_form();
                Dnspod::push_field(&mut form, "sub_domain", self.sub_domain.clone());
                Dnspod::push_field(&mut form, "record_type", key.kind.clone());
                Dnspod::push_field(
                    &mut form,
                    "record_line_id",
                    String::from_str(DNSPOD_RECORD_LINE_ID),
                );
                Dnspod::push_field(&mut form, "value", key.content.clone());
                Dnspod::push_field(&mut form, "mx", String::from_str(DNSPOD_MX));
                Dnspod::push_field(&mut form, "ttl", String::from_str(DNSPOD_TTL));
                assert(field_pairs(form@) =~= self.create_pairs(*key));
                Some(DnspodRequest { url: String::from_str(DNSPOD_CREATE_URL), form })
            },
            Action::Finish { .. } => None,
        }
    }
}

/// The status part of every reply.
#[derive(Debug)]
pub struct DnspodResponseStatus {
    pub code: String,
    pub message: String,
    pub created_at: String,
}

/// The reply to a create or a remove.
#[derive(Debug)]
pub struct DnspodResponseResult {
    pub status: DnspodResponseStatus,
}

/// Whether a status code, white space aside, is `code`.
pub open spec fn code_is(status: DnspodResponseStatus, code: Seq<char>) -> bool {
    trim_text(status.code@) == code
}

fn status_code_is(status: &DnspodResponseStatus, code: &str) -> (r: bool)
    ensures
        r == code_is(*status, code@),
{
    String::from_str(trim(status.code.as_str())) == String::from_str(code)
}

impl DnspodResponseResult {
    pub fn get_error_message(&self) -> (r: &str)
        ensures
            r@ == self.status.message@,
    {
        self.status.message.as_str()
    }

    /// Whether the status code is the success code.
    pub fn is_success(&self) -> (r: bool)
        ensures
            r == code_is(self.status, DNSPOD_RESPONSE_CODE_SUCCESS@),
    {
        status_code_is(&self.status, DNSPOD_RESPONSE_CODE_SUCCESS)
    }

    /// `None` when the call succeeded, the provider's message otherwise.
    pub fn check_result(&self) -> (r: Option<String>)
        ensures
            code_is(self.status, DNSPOD_RESPONSE_CODE_SUCCESS@) ==> r is None,
            !code_is(self.status, DNSPOD_RESPONSE_CODE_SUCCESS@) ==> r == Some(
                self.status.message,
            ),
    {
        if self.is_success() {
            None
        } else {
            Some(self.status.message.clone())
        }
    }

    pub fn outcome(&self) -> (r: Outcome)
        ensures
            code_is(self.status, DNSPOD_RESPONSE_CODE_SUCCESS@) ==> r is Applied,
            !code_is(self.status, DNSPOD_RESPONSE_CODE_SUCCESS@) ==> r is Failed,
    {
        if self.is_success() {
            Outcome::Applied
        } else {
            Outcome::Failed
        }
    }
}

/// A record as a listing reports it.
#[derive(Debug)]
pub struct DnspodGetResponseRecord {
    pub id: String,
    pub name: String,
    pub line: String,
    pub line_id: String,
    pub kind: String,
    pub value: String,
    pub mx: String,
    pub ttl: String,
}

/// The domain part of a listing reply.
#[derive(Debug)]
pub struct DnspodResponseDomain {
    pub id: String,
    pub name: String,
    pub punycode: String,
}

/// The reply to a listing.
#[derive(Debug)]
pub struct DnspodGetResponseResult {
    pub status: DnspodResponseStatus,
    pub domain: Option<DnspodResponseDomain>,
    pub records: Option<Vec<DnspodGetResponseRecord>>,
}

pub open spec fn remote_of(r: DnspodGetResponseRecord) -> RemoteRecord {
    RemoteRecord { id: r.id, kind: r.kind, name: r.name, content: r.value }
}

/// The records of a listing reply, none when it holds no list.
pub open spec fn listed_records(records: Option<Vec<DnspodGetResponseRecord>>) -> Seq<
    RemoteRecord,
> {
    match records {
        Some(v) => v@.map_values(|x: DnspodGetResponseRecord| remote_of(x)),
        None => Seq::empty(),
    }
}

impl DnspodGetResponseResult {
    /// A page of records for a success, an empty page when the provider
    /// reports that there is no record, and a failed listing for any other
    /// status.
    pub fn listing_outcome(&self) -> (r: Outcome)
        ensures
            code_is(self.status, DNSPOD_RESPONSE_CODE_SUCCESS@) ==> (r matches Outcome::Listed(
                page,
            ) && page@ == listed_records(self.records)),
            code_is(self.status, DNSPOD_RESPONSE_CODE_NO_RECORDS@) ==> (r matches Outcome::Listed(
                page,
            ) && page@.len() == 0),
            !code_is(self.status, DNSPOD_RESPONSE_CODE_SUCCESS@) && !code_is(
                self.status,
                DNSPOD_RESPONSE_CODE_NO_RECORDS@,
            ) ==> r is ListFailed,
    {
        proof {
            reveal_strlit("1");
            reveal_strlit("10");
            assert(DNSPOD_RESPONSE_CODE_SUCCESS@.len() == 1);
            assert(DNSPOD_RESPONSE_CODE_NO_RECORDS@.len() == 2);
        }
        if status_code_is(&self.status, DNSPOD_RESPONSE_CODE_SUCCESS) {
            let mut page: Vec<RemoteRecord> = Vec::new();
            if let Some(records) = &self.records {
                let mut i: usize = 0;
                while i < records.len()
                    invariant
                        i <= records.len(),
                        page@ == records@.subrange(0, i as int).map_values(
                            |x: DnspodGetResponseRecord| remote_of(x),
                        ),
                    decreases records.len() - i,
                {
                    let x = &records[i];
                    page.push(
                        RemoteRecord {
                            id: x.id.clone(),
                            kind: x.kind.clone(),
                            name: x.name.clone(),
                            content: x.value.clone(),
                        },
                    );
                    assert(page@ =~= records@.subrange(0, i + 1).map_values(
                        |x: DnspodGetResponseRecord| remote_of(x),
                    ));
                    i = i + 1;
                }
                assert(records@.subrange(0, records.len() as int) =~= records@);
            } else {
                assert(page@ =~= listed_records(self.records));
            }
            Outcome::Listed(page)
        } else if status_code_is(&self.status, DNSPOD_RESPONSE_CODE_NO_RECORDS) {
            Outcome::Listed(Vec::new())
        } else {
            Outcome::ListFailed
        }
    }
}

} // verus!
