use vstd::prelude::*;

use vstd::arithmetic::div_mod::lemma_div_basics_5;

use crate::calendar::{calculate_next_month_reset, spec_next_month_reset};
use crate::errors::{ConfigError, SecondaryError};
use crate::snapshot::{CopilotUsageData, CopilotUsageItem};

verus! {

/// Monthly request allowance assumed when the stored configuration names
/// none, in hundredths (300 requests).
pub const DEFAULT_MONTHLY_LIMIT: u64 = 30000;

/// The fallback monthly allowance of the secondary source.
pub fn default_monthly_limit() -> (r: u64)
    ensures
        r == DEFAULT_MONTHLY_LIMIT,
{
    DEFAULT_MONTHLY_LIMIT
}

/// Most usage lines one report may carry; keeps the running total within
/// machine bounds.
pub const MAX_USAGE_ITEMS: usize = 1000000;

/// Largest per-line request count accepted, in hundredths; keeps the running
/// total within machine bounds.
pub const MAX_ITEM_QUANTITY: u64 = 1000000000;

/// One usage line as the secondary upstream reported it: either field may be
/// missing, and a missing optional field is data, not an error.
#[derive(Debug)]
pub struct RawUsageItem {
    pub model: Option<String>,
    /// Requests consumed, in hundredths.
    pub gross_quantity: Option<u64>,
}

/// The requests a reported line contributes to the total: its quantity when
/// it carries one, nothing otherwise.
pub open spec fn item_quantity(item: RawUsageItem) -> int {
    match item.gross_quantity {
        Some(q) => q as int,
        None => 0,
    }
}

/// Sum of the request counts over a report, in hundredths.
pub open spec fn total_requests_of(items: Seq<RawUsageItem>) -> int
    decreases items.len(),
{
    if items.len() == 0 {
        0
    } else {
        total_requests_of(items.drop_last()) + item_quantity(items.last())
    }
}

/// The lines kept for the snapshot, in report order: exactly those that name
/// both a model and a quantity, as (model, quantity) pairs.
pub open spec fn kept_items_of(items: Seq<RawUsageItem>) -> Seq<(Seq<char>, u64)>
    decreases items.len(),
{
    if items.len() == 0 {
        Seq::empty()
    } else {
        let rest = kept_items_of(items.drop_last());
        match (items.last().model, items.last().gross_quantity) {
            (Some(m), Some(q)) => rest.push((m@, q)),
            _ => rest,
        }
    }
}

/// The secondary utilization in hundredths of a percent: requests over
/// allowance, both in hundredths, as a percentage.
pub open spec fn spec_utilization(total: int, limit: int) -> int {
    total * 10000 / limit
}

/// Assembles the secondary snapshot from the fetched usage lines: sums every
/// reported quantity, keeps the fully named lines, computes the utilization
/// against the monthly allowance and stamps the next calendar-month reset. A
/// zero allowance is rejected — an undefined utilization is a configuration
/// error, surfaced where the limit arrives rather than glossed over here.
pub fn build_copilot_usage(
    items: &Vec<RawUsageItem>,
    monthly_limit: u64,
    now_secs: u64,
) -> (r: Result<CopilotUsageData, SecondaryError>)
    requires
        items@.len() <= MAX_USAGE_ITEMS,
        forall|i: int|
            0 <= i < items@.len() ==> item_quantity(#[trigger] items@[i]) <= MAX_ITEM_QUANTITY,
    ensures
        monthly_limit == 0 ==> r == Err::<CopilotUsageData, SecondaryError>(
            SecondaryError::InvalidMonthlyLimit,
        ),
        monthly_limit >= 1 && spec_next_month_reset(now_secs) is Some ==> r is Ok,
        monthly_limit >= 1 ==> (r matches Err(e) ==> (e == SecondaryError::ResetDateUnavailable
            && spec_next_month_reset(now_secs) is None)),
        r matches Ok(d) ==> {
            &&& monthly_limit >= 1
            &&& d.total_requests == total_requests_of(items@)
            &&& d.monthly_limit == monthly_limit
            &&& d.utilization == spec_utilization(total_requests_of(items@), monthly_limit as int)
            &&& Some(d.resets_at@) == spec_next_month_reset(now_secs)
            &&& d.items@.len() == kept_items_of(items@).len()
            &&& forall|i: int|
                0 <= i < d.items@.len() ==> (
                #[trigger] d.items@[i].model@,
                d.items@[i].gross_quantity,
                ) == kept_items_of(items@)[i]
        },
{
    if monthly_limit == 0 {
        return Err(SecondaryError::InvalidMonthlyLimit);
    }
    let resets_at = match calculate_next_month_reset(now_secs) {
        Some(s) => s,
        None => {
            return Err(SecondaryError::ResetDateUnavailable);
        },
    };
    let mut total: u64 = 0;
    let mut kept: Vec<CopilotUsageItem> = Vec::new();
    let mut i: usize = 0;
    while i < items.len()
        invariant
            i <= items@.len(),
            items@.len() <= MAX_USAGE_ITEMS,
            forall|j: int|
                0 <= j < items@.len() ==> item_quantity(#[trigger] items@[j]) <= MAX_ITEM_QUANTITY,
            total == total_requests_of(items@.take(i as int)),
            total <= i * MAX_ITEM_QUANTITY,
            kept@.len() == kept_items_of(items@.take(i as int)).len(),
            forall|j: int|
                0 <= j < kept@.len() ==> (#[trigger] kept@[j].model@, kept@[j].gross_quantity)
                    == kept_items_of(items@.take(i as int))[j],
        decreases items@.len() - i,
    {
        proof {
            assert(items@.take(i + 1).drop_last() =~= items@.take(i as int));
            assert(items@.take(i + 1).last() == items@[i as int]);
        }
        let item = &items[i];
        match &item.gross_quantity {
            Some(q) => {
                total = total + *q;
                match &item.model {
                    Some(m) => {
                        kept.push(CopilotUsageItem { model: m.clone(), gross_quantity: *q });
                    },
                    None => {},
                }
            },
            None => {},
        }
        i = i + 1;
    }
    proof {
        assert(items@.take(items@.len() as int) =~= items@);
    }
    let total_wide: u128 = total as u128;
    let product: u128 = total_wide * 10000;
    let utilization_wide: u128 = product / (monthly_limit as u128);
    proof {
        lemma_div_basics_5(product as int, monthly_limit as int);
    }
    let utilization: u64 = utilization_wide as u64;
    Ok(
        CopilotUsageData {
            total_requests: total,
            monthly_limit,
            utilization,
            resets_at,
            items: kept,
        },
    )
}

/// Identity and credential of the secondary source, with its monthly request
/// allowance in hundredths. Constructed validated: the allowance is
/// positive.
#[derive(Debug)]
pub struct GitHubConfig {
    pub username: String,
    pub token: String,
    pub monthly_limit: u64,
}

impl GitHubConfig {
    /// Validates a proposed configuration at the point the limit is set: a
    /// zero monthly allowance would make the utilization undefined and is
    /// rejected here, never recomputed around later.
    pub fn new(username: String, token: String, monthly_limit: u64) -> (r: Result<
        GitHubConfig,
        ConfigError,
    >)
        ensures
            monthly_limit == 0 ==> r == Err::<GitHubConfig, ConfigError>(
                ConfigError::InvalidMonthlyLimit,
            ),
            monthly_limit >= 1 ==> (r matches Ok(c) && c.username == username && c.token == token
                && c.monthly_limit == monthly_limit),
    {
        if monthly_limit == 0 {
            Err(ConfigError::InvalidMonthlyLimit)
        } else {
            Ok(GitHubConfig { username, token, monthly_limit })
        }
    }
}

/// The stored application configuration: the secondary source is optional
/// and absent until a caller sets it.
#[derive(Debug)]
pub struct AppConfig {
    pub github: Option<GitHubConfig>,
}

impl AppConfig {
    /// The configuration in force while no file exists yet.
    pub fn empty() -> (c: Self)
        ensures
            c.github is None,
    {
        AppConfig { github: None }
    }

    /// Replaces the secondary-source section and touches nothing else.
    pub fn set_github(&mut self, github: GitHubConfig)
        ensures
            final(self).github == Some(github),
    {
        self.github = Some(github);
    }
}

} // verus!
