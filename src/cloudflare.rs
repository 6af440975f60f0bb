//! The Cloudflare adapter: the REST requests of a pass over the domains of
//! one zone, and the reading of Cloudflare's reply envelopes.
use vstd::prelude::*;
use crate::reconcile::{Action, Outcome, PassState, Reconciler, RemoteRecord};
use crate::record::{keys_of, Record, RecordKey};
use crate::text::{decimal_text, push_decimal};
use crate::wire::{concat_text, field_pairs, FormField, HttpMethod};

verus! {

/// Records a listing page holds.
pub const CLOUDFLARE_PAGE_SIZE: usize = 100;

/// Time to live of created records; 1 means automatic.
pub const CLOUDFLARE_TTL: i32 = 1;

/// The Cloudflare provider: a zone, an API token and the domains to keep
/// up to date.
#[derive(Debug, Default)]
pub struct Cloudflare {
    pub zone_id: String,
    pub token: String,
    pub domains: Vec<String>,
}

/// The body of a record creation.
#[derive(Debug)]
pub struct CloudflareRecord {
    pub kind: String,
    pub name: String,
    pub content: String,
    pub ttl: i32,
    pub proxied: bool,
}

/// A request to Cloudflare's API, sent with the token as bearer credential.
#[derive(Debug)]
pub struct CloudflareRequest {
    pub method: HttpMethod,
    pub url: String,
    pub query: Vec<FormField>,
    pub body: Option<CloudflareRecord>,
}

pub open spec fn records_url_text(zone_id: Seq<char>) -> Seq<char> {
    "https://api.cloudflare.com/client/v4/zones/"@ + zone_id + "/dns_records"@
}

impl Cloudflare {
    pub fn new() -> (r: Cloudflare)
        ensures
            r.zone_id@.len() == 0,
            r.token@.len() == 0,
            r.domains@.len() == 0,
    {
        Cloudflare { zone_id: String::new(), token: String::new(), domains: Vec::new() }
    }

    /// Whether zone and token were both given; otherwise the adapter does nothing.
    pub open spec fn enabled(self) -> bool {
        self.zone_id@.len() > 0 && self.token@.len() > 0
    }

    pub fn is_enabled(&self) -> (r: bool)
        ensures
            r == self.enabled(),
    {
        !self.zone_id.as_str().is_empty() && !self.token.as_str().is_empty()
    }

    /// Takes the zone, the token and, when both are given, the domains.
    pub fn configure(&mut self, zone_id: String, token: String, domains: Vec<String>)
        ensures
            final(self).zone_id == zone_id,
            final(self).token == token,
            final(self).enabled() ==> final(self).domains@ == old(self).domains@ + domains@,
            !final(self).enabled() ==> final(self).domains@ == old(self).domains@,
    {
        self.zone_id = zone_id;
        self.token = token;
        if self.is_enabled() {
            let mut domains = domains;
            self.domains.append(&mut domains);
        }
    }

    /// The number of domains a pass covers: none when the adapter is disabled.
    pub open spec fn domain_count(self) -> nat {
        if self.enabled() {
            self.domains@.len()
        } else {
            0
        }
    }

    /// A pass that brings every configured domain to the desired records.
    pub fn reconciler(&self, desired: &Vec<Record>) -> (r: Reconciler)
        ensures
            r@.wf(),
            r@ == PassState::initial(
                r@.desired,
                self.domain_count(),
                CLOUDFLARE_PAGE_SIZE as nat,
            ),
            r@.desired.len() == desired@.len(),
            forall|i: int|
                0 <= i < desired@.len() ==> #[trigger] r@.desired[i].view_pair()
                    == desired@[i].key_pair(),
    {
        let n = if self.is_enabled() {
            self.domains.len()
        } else {
            0
        };
        Reconciler::new(keys_of(desired), n, CLOUDFLARE_PAGE_SIZE)
    }

    pub fn records_url(&self) -> (r: String)
        ensures
            r@ == records_url_text(self.zone_id@),
    {
        let mut r = concat_text("https://api.cloudflare.com/client/v4/zones/", self.zone_id.as_str());
        r.append("/dns_records");
        r
    }

    /// The query of page `page` of the listing of `domain`, sorted by name.
    pub fn list_query(domain: &String, page: u64) -> (r: Vec<FormField>)
        ensures
            field_pairs(r@) == seq![
                ("page"@, decimal_text(page as nat)),
                ("per_page"@, decimal_text(CLOUDFLARE_PAGE_SIZE as nat)),
                ("order"@, "name"@),
                ("name"@, domain@),
            ],
    {
        let mut page_text = String::new();
        push_decimal(&mut page_text, page as u128);
        let mut size_text = String::new();
        push_decimal(&mut size_text, CLOUDFLARE_PAGE_SIZE as u128);
        let mut r: Vec<FormField> = Vec::new();
        r.push(FormField::new("page", page_text));
        r.push(FormField::new("per_page", size_text));
        r.push(FormField::new("order", String::from_str("name")));
        r.push(FormField::new("name", domain.clone()));
        assert(field_pairs(r@) =~= seq![
            ("page"@, decimal_text(page as nat)),
            ("per_page"@, decimal_text(CLOUDFLARE_PAGE_SIZE as nat)),
            ("order"@, "name"@),
            ("name"@, domain@),
        ]);
        r
    }

    /// The body that creates `key` under the name `domain`.
    pub fn create_body(key: &RecordKey, domain: &String) -> (r: CloudflareRecord)
        ensures
            r.kind == key.kind,
            r.content == key.content,
            r.name == domain,
            r.ttl == CLOUDFLARE_TTL,
            !r.proxied,
    {
        CloudflareRecord {
            kind: key.kind.clone(),
            name: domain.clone(),
            content: key.content.clone(),
            ttl: CLOUDFLARE_TTL,
            proxied: false,
        }
    }

    /// The request that carries out `action`: none for the end of the pass
    /// or for a domain index that is not configured.
    pub fn request_for(&self, action: &Action) -> (r: Option<CloudflareRequest>)
        ensures
            (action is Finish) ==> r is None,
            action matches Action::FetchPage { domain, page } ==> {
                &&& (domain < self.domains@.len()) == (r is Some)
                &&& r matches Some(q) ==> {
                    &&& q.method == HttpMethod::Get
                    &&& q.url@ == records_url_text(self.zone_id@)
                    &&& field_pairs(q.query@) == seq![
                        ("page"@, decimal_text(page as nat)),
                        ("per_page"@, decimal_text(CLOUDFLARE_PAGE_SIZE as nat)),
                        ("order"@, "name"@),
                        ("name"@, self.domains@[domain as int]@),
                    ]
                    &&& q.body is None
                }
            },
            action matches Action::Delete { record, .. } ==> (r matches Some(q) && {
                &&& q.method == HttpMethod::Delete
                &&& q.url@ == records_url_text(self.zone_id@) + "/"@ + record.id@
                &&& q.query@.len() == 0
                &&& q.body is None
            }),
            action matches Action::Create { domain, key } ==> {
                &&& (domain < self.domains@.len()) == (r is Some)
                &&& r matches Some(q) ==> {
                    &&& q.method == HttpMethod::Post
                    &&& q.url@ == records_url_text(self.zone_id@)
                    &&& q.query@.len() == 0
                    &&& (q.body matches Some(b) && b.kind == key.kind && b.content == key.content
                        && b.name == self.domains@[domain as int] && b.ttl == CLOUDFLARE_TTL
                        && !b.proxied)
                }
            },
    {
        match action {
            Action::FetchPage { domain, page } => {
                if *domain < self.domains.len() {
                    Some(
                        CloudflareRequest {
                            method: HttpMethod::Get,
                            url: self.records_url(),
                            query: Cloudflare::list_query(&self.domains[*domain], *page),
                            body: None,
                        },
                    )
                } else {
                    None
                }
            },
            Action::Delete { record, .. } => {
                let mut url = self.records_url();
                url.append("/");
                url.append(record.id.as_str());
                Some(
                    CloudflareRequest {
                        method: HttpMethod::Delete,
                        url,
                        query: Vec::new(),
                        body: None,
                    },
                )
            },
            Action::Create { domain, key } => {
                if *domain < self.domains.len() {
                    Some(
                        CloudflareRequest {
                            method: HttpMethod::Post,
                            url: self.records_url(),
                            query: Vec::new(),
                            body: Some(Cloudflare::create_body(key, &self.domains[*domain])),
                        },
                    )
                } else {
                    None
                }
            },
            Action::Finish { .. } => None,
        }
    }
}

/// One error of a reply envelope.
#[derive(Debug)]
pub struct CloudflareResponseError {
    pub code: i32,
    pub message: String,
}

/// The envelope of a create or delete reply.
#[derive(Debug)]
pub struct CloudflareResponseResult {
    pub success: bool,
    pub errors: Vec<CloudflareResponseError>,
}

impl CloudflareResponseResult {
    /// The first error's message, or the empty string when there is none.
    pub fn get_error_message(&self) -> (r: &str)
        ensures
            self.errors@.len() == 0 ==> r@ == Seq::<char>::empty(),
            self.errors@.len() > 0 ==> r@ == self.errors@[0].message@,
    {
        if self.errors.len() == 0 {
            proof {
                reveal_strlit("");
            }
            ""
        } else {
            self.errors[0].message.as_str()
        }
    }

    /// The operation counts as done only when the envelope says success.
    pub fn outcome(&self) -> (r: Outcome)
        ensures
            self.success ==> r is Applied,
            !self.success ==> r is Failed,
    {
        if self.success {
            Outcome::Applied
        } else {
            Outcome::Failed
        }
    }
}

/// A record as a listing reports it.
#[derive(Debug)]
pub struct CloudflareGetResponseRecord {
    pub id: String,
    pub kind: String,
    pub name: String,
    pub content: String,
    pub zone_id: String,
    pub zone_name: String,
    pub modified_on: String,
    pub created_on: String,
    pub proxiable: bool,
    pub proxied: bool,
}

/// The paging information of a listing reply.
#[derive(Debug)]
pub struct CloudflareResponsePage {
    pub page: i32,
    pub per_page: i32,
    pub total_pages: i32,
    pub count: i32,
    pub total_count: i32,
}

/// The envelope of a listing reply.
#[derive(Debug)]
pub struct CloudflareGetResponseResult {
    pub result: Vec<CloudflareGetResponseRecord>,
    pub result_info: CloudflareResponsePage,
    pub success: bool,
}

pub open spec fn remote_of(r: CloudflareGetResponseRecord) -> RemoteRecord {
    RemoteRecord { id: r.id, kind: r.kind, name: r.name, content: r.content }
}

impl CloudflareGetResponseResult {
    /// The page of records when the envelope says success; a failed listing
    /// otherwise.
    pub fn listing_outcome(&self) -> (r: Outcome)
        ensures
            self.success ==> (r matches Outcome::Listed(page) && page@ == self.result@.map_values(
                |x: CloudflareGetResponseRecord| remote_of(x),
            )),
            !self.success ==> r is ListFailed,
    {
        if !self.success {
            return Outcome::ListFailed;
        }
        let mut page: Vec<RemoteRecord> = Vec::new();
        let mut i: usize = 0;
        while i < self.result.len()
            invariant
                i <= self.result.len(),
                page@ == self.result@.subrange(0, i as int).map_values(
                    |x: CloudflareGetResponseRecord| remote_of(x),
                ),
            decreases self.result.len() - i,
        {
            let x = &self.result[i];
            page.push(
                RemoteRecord {
                    id: x.id.clone(),
                    kind: x.kind.clone(),
                    name: x.name.clone(),
                    content: x.content.clone(),
                },
            );
            assert(page@ =~= self.result@.subrange(0, i + 1).map_values(
                |x: CloudflareGetResponseRecord| remote_of(x),
            ));
            i = i + 1;
        }
        assert(self.result@.subrange(0, self.result.len() as int) =~= self.result@);
        Outcome::Listed(page)
    }
}

} // verus!
