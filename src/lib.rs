//! One-shot dynamic DNS synchronisation: address sources produce the desired
//! records, and a reconciliation pass diffs them against what a DNS provider
//! holds and plans the deletes and creates that make the two agree.

pub mod text;
pub mod ip;
pub mod record;
pub mod detector;
pub mod reconcile;
pub mod wire;
pub mod cloudflare;
pub mod dnspod;
pub mod driver;

