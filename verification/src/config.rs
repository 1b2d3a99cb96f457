//! Startup policy: the broker connection retry schedule and the index
//! provisioning plan. The connection and index calls themselves live
//! outside the library.

use vstd::prelude::*;

verus! {

/// How many times a broker connection is attempted before the process
/// gives up.
pub const CONNECT_MAX_RETRIES: u64 = 15;

/// The fixed delay between two connection attempts, in milliseconds.
pub const CONNECT_RETRY_DELAY_MS: u64 = 3000;

/// What follows one failed connection attempt.
#[derive(Clone, Copy, Debug, PartialEq, Eq, Structural)]
pub enum ConnectStep {
    /// Sleep this many milliseconds, then try again.
    Retry(u64),
    /// Attempts are exhausted: fail fast.
    GiveUp,
}

/// Decides what follows failed connection attempt number `attempt`
/// (1-based): a fixed-delay retry until the attempt budget is spent,
/// then a deliberate failure.
pub fn connect_retry_step(attempt: u64, max_retries: u64, delay_ms: u64) -> (r: ConnectStep)
    requires
        1 <= attempt <= max_retries,
    ensures
        r == (if attempt < max_retries {
            ConnectStep::Retry(delay_ms)
        } else {
            ConnectStep::GiveUp
        }),
{
    if attempt < max_retries {
        ConnectStep::Retry(delay_ms)
    } else {
        ConnectStep::GiveUp
    }
}

/// One index to provision: the fields it covers, in order, each with
/// whether it is descending.
#[derive(Debug)]
pub struct IndexSpec {
    pub fields: Vec<(String, bool)>,
}

impl DeepView for IndexSpec {
    type V = Seq<(Seq<char>, bool)>;

    open spec fn deep_view(&self) -> Seq<(Seq<char>, bool)> {
        self.fields.deep_view()
    }
}

/// The indexes the collection needs before sustained write traffic:
/// the unique identifier, both timestamps descending, the type, and a
/// compound source-and-timestamp index.
pub open spec fn index_plan_spec() -> Seq<Seq<(Seq<char>, bool)>> {
    seq![
        seq![("hog_uuid"@, false)],
        seq![("hog_timestamp"@, true)],
        seq![("log_timestamp"@, true)],
        seq![("log_type"@, false)],
        seq![("log_source"@, false), ("log_timestamp"@, true)],
    ]
}

/// The index provisioning plan, in creation order.
pub fn index_plan() -> (r: Vec<IndexSpec>)
    ensures
        r.deep_view() == index_plan_spec(),
{
    let mut plan: Vec<IndexSpec> = Vec::new();

    let mut fields: Vec<(String, bool)> = Vec::new();
    fields.push(("hog_uuid".to_owned(), false));
    plan.push(IndexSpec { fields });

    let mut fields: Vec<(String, bool)> = Vec::new();
    fields.push(("hog_timestamp".to_owned(), true));
    plan.push(IndexSpec { fields });

    let mut fields: Vec<(String, bool)> = Vec::new();
    fields.push(("log_timestamp".to_owned(), true));
    plan.push(IndexSpec { fields });

    let mut fields: Vec<(String, bool)> = Vec::new();
    fields.push(("log_type".to_owned(), false));
    plan.push(IndexSpec { fields });

    let mut fields: Vec<(String, bool)> = Vec::new();
    fields.push(("log_source".to_owned(), false));
    fields.push(("log_timestamp".to_owned(), true));
    plan.push(IndexSpec { fields });

    proof {
        assert(plan.deep_view() =~~= index_plan_spec());
    }
    plan
}

} // verus!
