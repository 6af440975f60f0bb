//! The provider adapters as a closed set, and how their results make the
//! process's exit status.
use vstd::prelude::*;
use crate::cloudflare::{Cloudflare, CLOUDFLARE_PAGE_SIZE};
use crate::dnspod::{Dnspod, DNSPOD_PAGE_SIZE};
use crate::reconcile::{PassState, Reconciler};
use crate::record::Record;

verus! {

/// The provider adapters.
#[derive(Debug)]
pub enum Driver {
    Cloudflare(Cloudflare),
    Dnspod(Dnspod),
}

impl Driver {
    pub open spec fn page_size(self) -> nat {
        match self {
            Driver::Cloudflare(_) => CLOUDFLARE_PAGE_SIZE as nat,
            Driver::Dnspod(_) => DNSPOD_PAGE_SIZE as nat,
        }
    }

    pub open spec fn domain_count(self) -> nat {
        match self {
            Driver::Cloudflare(c) => c.domain_count(),
            Driver::Dnspod(d) => if d.enabled() {
                1
            } else {
                0
            },
        }
    }

    /// A pass of this adapter over its domains.
    pub fn reconciler(&self, desired: &Vec<Record>) -> (r: Reconciler)
        ensures
            r@.wf(),
            r@ == PassState::initial(r@.desired, self.domain_count(), self.page_size()),
            r@.desired.len() == desired@.len(),
            forall|i: int|
                0 <= i < desired@.len() ==> #[trigger] r@.desired[i].view_pair()
                    == desired@[i].key_pair(),
    {
        match self {
            Driver::Cloudflare(c) => c.reconciler(desired),
            Driver::Dnspod(d) => d.reconciler(desired),
        }
    }
}

/// The adapters in the order they run, both unconfigured.
pub fn register_drivers() -> (r: Vec<Driver>)
    ensures
        r@.len() == 2,
        r@[0] matches Driver::Cloudflare(c) && !c.enabled() && c.domains@.len() == 0,
        r@[1] matches Driver::Dnspod(d) && !d.enabled(),
{
    let mut r: Vec<Driver> = Vec::new();
    r.push(Driver::Cloudflare(Cloudflare::new()));
    r.push(Driver::Dnspod(Dnspod::new()));
    r
}

/// An adapter's result: success only when no operation failed.
pub fn pass_result(failures: u64) -> (r: Result<i32, ()>)
    ensures
        failures == 0 ==> r == Ok::<i32, ()>(0),
        failures > 0 ==> r is Err,
{
    if failures == 0 {
        Ok(0)
    } else {
        Err(())
    }
}

/// 0 when every adapter succeeded, 1 otherwise.
pub fn exit_code(results: &Vec<Result<i32, ()>>) -> (r: i32)
    ensures
        r == 0 <==> forall|i: int| 0 <= i < results@.len() ==> #[trigger] results@[i] is Ok,
        r == 0 || r == 1,
{
    let mut code: i32 = 0;
    let mut i: usize = 0;
    while i < results.len()
        invariant
            i <= results.len(),
            code == 0 || code == 1,
            code == 0 <==> forall|j: int| 0 <= j < i ==> #[trigger] results@[j] is Ok,
        decreases results.len() - i,
    {
        if results[i].is_err() {
            code = 1;
        }
        i = i + 1;
    }
    code
}

} // verus!
