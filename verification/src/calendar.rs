use vstd::prelude::*;

verus! {

/// The UTC civil year and month chrono assigns to an instant given as epoch
/// seconds (a count beyond the signed range wraps deterministically before
/// chrono sees it), or nothing where the calendar cannot place the instant.
pub uninterp spec fn utc_year_month_of(secs: u64) -> Option<(i32, u32)>;

/// The RFC 3339 rendering chrono gives the first instant (day 1, midnight
/// UTC) of a civil month, or nothing for components the calendar rejects.
pub uninterp spec fn rfc3339_month_start(year: i32, month: u32) -> Option<Seq<char>>;

/// Relies on chrono's DateTime::<Utc>::from_timestamp together with
/// Datelike::year and Datelike::month: the UTC civil date of an epoch second
/// count, a function of that count alone; month numbers range over 1..=12.
#[verifier::external_body]
fn utc_year_month(secs: u64) -> (r: Option<(i32, u32)>)
    ensures
        r == utc_year_month_of(secs),
        r matches Some(p) ==> 1 <= p.1 <= 12,
{
    match chrono::DateTime::<chrono::Utc>::from_timestamp(secs as i64, 0) {
        Some(dt) => Some((chrono::Datelike::year(&dt), chrono::Datelike::month(&dt))),
        None => None,
    }
}

/// Relies on chrono's TimeZone::with_ymd_and_hms on Utc together with
/// DateTime::to_rfc3339: the RFC 3339 text for the start of a civil month, a
/// function of year and month alone; components the calendar rejects yield
/// nothing, and rendering an accepted date cannot fail.
#[verifier::external_body]
fn format_month_start(year: i32, month: u32) -> (r: Option<String>)
    ensures
        r is Some <==> rfc3339_month_start(year, month) is Some,
        r matches Some(s) ==> Some(s@) == rfc3339_month_start(year, month),
{
    match chrono::TimeZone::with_ymd_and_hms(&chrono::Utc, year, month, 1, 0, 0, 0) {
        chrono::LocalResult::Single(dt) => Some(dt.to_rfc3339()),
        _ => None,
    }
}

/// The civil month after the given one: January of the next year after a
/// December, the next month of the same year otherwise.
pub open spec fn spec_next_month(year: i32, month: u32) -> (int, int) {
    if month == 12 {
        (year + 1, 1)
    } else {
        (year as int, month + 1)
    }
}

/// The reset stamp `calculate_next_month_reset` is bound to yield: the
/// rendering of the month after the one the instant falls in, where the
/// calendar places the instant and the following month exists for it.
pub open spec fn spec_next_month_reset(now_secs: u64) -> Option<Seq<char>> {
    match utc_year_month_of(now_secs) {
        Some(p) => {
            if p.0 == i32::MAX && p.1 == 12 {
                None
            } else {
                let next = spec_next_month(p.0, p.1);
                rfc3339_month_start(next.0 as i32, next.1 as u32)
            }
        },
        None => None,
    }
}

/// The instant the secondary source's quota resets: the first day of the
/// calendar month after the one `now_secs` falls in, midnight UTC, as an
/// RFC 3339 string. Yields the stamp exactly where the calendar has one —
/// nothing only for an instant or successor month the calendar cannot
/// place.
pub fn calculate_next_month_reset(now_secs: u64) -> (r: Option<String>)
    ensures
        r is Some <==> spec_next_month_reset(now_secs) is Some,
        r matches Some(s) ==> Some(s@) == spec_next_month_reset(now_secs),
{
    let (year, month) = match utc_year_month(now_secs) {
        Some(p) => p,
        None => {
            return None;
        },
    };
    if month == 12 {
        if year == i32::MAX {
            return None;
        }
        format_month_start(year + 1, 1)
    } else {
        format_month_start(year, month + 1)
    }
}

} // verus!
