//! The plain shape of an HTTP request that an adapter asks for: the method,
//! and name/value pairs for query strings and forms; and the proxy settings
//! every request goes through.
use vstd::prelude::*;

verus! {

#[derive(Clone, Copy, Debug, PartialEq, Eq, Structural)]
pub enum HttpMethod {
    Get,
    Post,
    Put,
    Patch,
    Delete,
    Head,
}

/// One name/value pair of a query string or a form.
#[derive(Debug)]
pub struct FormField {
    pub name: String,
    pub value: String,
}

impl FormField {
    pub open spec fn pair(self) -> (Seq<char>, Seq<char>) {
        (self.name@, self.value@)
    }

    pub fn new(name: &str, value: String) -> (r: FormField)
        ensures
            r.name@ == name@,
            r.value == value,
    {
        FormField { name: String::from_str(name), value }
    }
}

/// The name/value pairs of a list of fields.
pub open spec fn field_pairs(fields: Seq<FormField>) -> Seq<(Seq<char>, Seq<char>)> {
    fields.map_values(|f: FormField| f.pair())
}

/// `a` followed by `b`.
pub fn concat_text(a: &str, b: &str) -> (r: String)
    ensures
        r@ == a@ + b@,
{
    let mut r = String::from_str(a);
    r.append(b);
    r
}

/// How outbound requests reach the network.
#[derive(Debug, Default)]
pub struct ProxySettings {
    pub no_proxy: bool,
    pub address: String,
    pub username: String,
    pub password: String,
}

impl ProxySettings {
    /// A proxy is used when one is given and not switched off.
    pub open spec fn uses_proxy(self) -> bool {
        !self.no_proxy && self.address@.len() > 0
    }

    /// The proxy's address, when one is used.
    pub fn proxy_address(&self) -> (r: Option<String>)
        ensures
            self.uses_proxy() ==> r == Some(self.address),
            !self.uses_proxy() ==> r is None,
    {
        if self.no_proxy || self.address.as_str().is_empty() {
            None
        } else {
            Some(self.address.clone())
        }
    }

    /// Whether the proxy is given credentials: a user name or a password.
    pub fn needs_auth(&self) -> (r: bool)
        ensures
            r == (self.username@.len() > 0 || self.password@.len() > 0),
    {
        !self.username.as_str().is_empty() || !self.password.as_str().is_empty()
    }
}

} // verus!
