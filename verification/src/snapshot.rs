use vstd::prelude::*;

verus! {

/// One usage meter of the primary source, produced fresh each fetch.
#[derive(Debug)]
pub struct UsageMeter {
    /// Utilization in hundredths of a percent (`1250` stands for 12.50%).
    pub utilization: u64,
    /// When the meter resets, as the upstream stated it, if at all.
    pub resets_at: Option<String>,
}

impl Clone for UsageMeter {
    fn clone(&self) -> (res: Self)
        ensures
            res == *self,
    {
        UsageMeter {
            utilization: self.utilization,
            resets_at: match &self.resets_at {
                Some(s) => Some(s.clone()),
                None => None,
            },
        }
    }
}

/// The primary source's extra-usage record, present only when the upstream
/// reports one. Credits and limits are carried in hundredths.
#[derive(Clone, Copy, Debug, PartialEq, Eq, Structural)]
pub struct ExtraUsage {
    pub is_enabled: bool,
    pub monthly_limit: u64,
    pub used_credits: u64,
    pub utilization: u64,
}

/// The primary usage snapshot: two mandatory meters and a set of optional
/// sub-meters. An absent optional field means the upstream did not report
/// it, never an error.
#[derive(Debug)]
pub struct UsageData {
    pub five_hour: UsageMeter,
    pub seven_day: UsageMeter,
    pub seven_day_oauth_apps: Option<UsageMeter>,
    pub seven_day_opus: Option<UsageMeter>,
    pub seven_day_sonnet: Option<UsageMeter>,
    pub seven_day_cowork: Option<UsageMeter>,
    pub extra_usage: Option<ExtraUsage>,
}

/// Copies an optional meter, field for field.
fn clone_optional_meter(meter: &Option<UsageMeter>) -> (res: Option<UsageMeter>)
    ensures
        res == *meter,
{
    match meter {
        Some(m) => Some(m.clone()),
        None => None,
    }
}

impl Clone for UsageData {
    fn clone(&self) -> (res: Self)
        ensures
            res == *self,
    {
        UsageData {
            five_hour: self.five_hour.clone(),
            seven_day: self.seven_day.clone(),
            seven_day_oauth_apps: clone_optional_meter(&self.seven_day_oauth_apps),
            seven_day_opus: clone_optional_meter(&self.seven_day_opus),
            seven_day_sonnet: clone_optional_meter(&self.seven_day_sonnet),
            seven_day_cowork: clone_optional_meter(&self.seven_day_cowork),
            extra_usage: match &self.extra_usage {
                Some(e) => Some(*e),
                None => None,
            },
        }
    }
}

/// One per-model line of the secondary source's usage report.
#[derive(Debug)]
pub struct CopilotUsageItem {
    pub model: String,
    /// Requests consumed by this model, in hundredths.
    pub gross_quantity: u64,
}

/// The secondary usage snapshot, derived from one remote call plus a locally
/// computed reset date. Counts, limits and the utilization are carried in
/// hundredths.
#[derive(Debug)]
pub struct CopilotUsageData {
    pub total_requests: u64,
    pub monthly_limit: u64,
    /// `total_requests / monthly_limit`, in hundredths of a percent.
    pub utilization: u64,
    /// First day of the next calendar month, UTC, as an RFC 3339 string.
    pub resets_at: String,
    pub items: Vec<CopilotUsageItem>,
}

/// What one cycle publishes: the mandatory primary snapshot plus the
/// secondary one when it was available. Built per cycle, never stored.
#[derive(Debug)]
pub struct CombinedUsageData {
    pub claude: UsageData,
    pub copilot: Option<CopilotUsageData>,
}

/// Merges the two fetch results into one combined snapshot. Pure
/// pass-through: both parts are kept exactly as handed in, and an absent
/// secondary result stays absent.
pub fn combine(claude: UsageData, copilot: Option<CopilotUsageData>) -> (r: CombinedUsageData)
    ensures
        r.claude == claude,
        r.copilot == copilot,
{
    CombinedUsageData { claude, copilot }
}

} // verus!
