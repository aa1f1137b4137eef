//! Access to AI readings: premium periods, the free daily quota and bought
//! energy, and what one reading charges.

use vstd::prelude::*;

use crate::clock::{
    plain_rfc3339_instant, add_days, days_later, format_rfc3339, format_utc_date, parse_rfc3339, rfc3339_reading,
    rfc3339_text, utc_date_text, Timestamp,
};
use crate::models::{opt_view, AccessType, User, UserAccessStatus};

verus! {

// ---------------------------------------------------------------------------
// Specifications
// ---------------------------------------------------------------------------

/// A premium flag with its end date is in force at `now`: set, and either
/// without end date, or with an end date that reads as a later instant.
pub open spec fn premium_in_force(is_premium: bool, until: Option<Seq<char>>, now: Timestamp) -> bool {
    is_premium && match until {
        None => true,
        Some(s) => match rfc3339_reading(s) {
            Some(t) => t.later_than(now),
            None => false,
        },
    }
}

/// The premium of an optional user record is in force at `now`.
pub open spec fn user_premium_in_force(user: Option<User>, now: Timestamp) -> bool {
    match user {
        Some(u) => premium_in_force(u.is_premium, opt_view(u.premium_until), now),
        None => false,
    }
}

/// The energy balance of an optional user record (0 for an unknown user).
pub open spec fn user_energy(user: Option<User>) -> i64 {
    match user {
        Some(u) => u.energy_balance,
        None => 0,
    }
}

/// The access rule: premium first, then the free daily quota, then bought
/// energy; otherwise refused (reported as the daily quota).
pub open spec fn access_decision(premium: bool, used_today: int, daily_limit: int, energy: int) -> (
    bool,
    AccessType,
) {
    if premium {
        (true, AccessType::Premium)
    } else if used_today < daily_limit {
        (true, AccessType::DailyFree)
    } else if energy > 0 {
        (true, AccessType::EnergyPackage)
    } else {
        (false, AccessType::DailyFree)
    }
}

/// The energy balance after one reading paid by `access`: one less for an
/// energy package, never below zero (`MAX(0, energy_balance - 1)`).
pub open spec fn energy_after_charge(access: AccessType, energy: int) -> int {
    if access == AccessType::EnergyPackage {
        if energy - 1 > 0 {
            energy - 1
        } else {
            0
        }
    } else {
        energy
    }
}

/// The instant from which a premium grant counts: the current end date when
/// it reads as a later instant than `now`, else `now`.
pub open spec fn grant_base(until: Option<Seq<char>>, now: Timestamp) -> Timestamp {
    match until {
        Some(s) => match rfc3339_reading(s) {
            Some(t) => if t.later_than(now) {
                t
            } else {
                now
            },
            None => now,
        },
        None => now,
    }
}

/// `end`, written as `text`, is what a grant of `days` days yields from the
/// stored end date `until` at `now`: chrono's sum of the grant's base and the
/// days, in RFC 3339. Whole days move the base by `days * 86400` seconds
/// (a positive shift leaves a leap second), and an end date in the years
/// 0000 to 9999 outside a leap second reads back from its text.
pub open spec fn grant_outcome(until: Option<Seq<char>>, now: Timestamp, days: i64, end: Timestamp, text: Seq<char>) -> bool {
    let b = grant_base(until, now);
    &&& days_later(b.secs, b.nanos, days) == Some(end)
    &&& rfc3339_text(end.secs, end.nanos) == Some(text)
    &&& b.nanos < 1_000_000_000 ==> end.secs == b.secs + days * 86400 && end.nanos == b.nanos
    &&& b.nanos >= 1_000_000_000 && days > 0 ==> end.secs == b.secs + days * 86400 && end.nanos
        == b.nanos - 1_000_000_000
    &&& plain_rfc3339_instant(end) ==> rfc3339_reading(text) == Some(end)
}

/// The stored end date of a user record.
pub open spec fn user_until(user: Option<User>) -> Option<Seq<char>> {
    match user {
        Some(u) => opt_view(u.premium_until),
        None => None,
    }
}

// ---------------------------------------------------------------------------
// Exec
// ---------------------------------------------------------------------------

/// A copy of an optional string.
pub fn clone_opt(o: &Option<String>) -> (r: Option<String>)
    ensures
        opt_view(r) == opt_view(*o),
{
    match o {
        Some(s) => Some(s.clone()),
        None => None,
    }
}

/// Whether a user's premium is in force at `now`.
pub fn premium_is_active(user: &User, now: Timestamp) -> (r: bool)
    ensures
        r == premium_in_force(user.is_premium, opt_view(user.premium_until), now),
{
    if !user.is_premium {
        return false;
    }
    match &user.premium_until {
        None => true,
        Some(until) => match parse_rfc3339(until.as_str()) {
            Some(t) => t.is_after(&now),
            None => false,
        },
    }
}

/// The access status of a user (`None`: not registered) who has used
/// `used_today` readings today, against a daily quota of `daily_limit`.
pub fn access_status(user: Option<&User>, used_today: i32, daily_limit: i32, now: Timestamp) -> (st:
    UserAccessStatus)
    ensures
        ({
            let u = match user {
                Some(u) => Some(*u),
                None => None,
            };
            let premium = user_premium_in_force(u, now);
            let d = access_decision(premium, used_today as int, daily_limit as int, user_energy(u) as int);
            &&& st.can_access == d.0
            &&& st.access_type == d.1
            &&& st.is_premium == premium
            &&& opt_view(st.premium_until) == (if premium {
                user_until(u)
            } else {
                None
            })
            &&& st.daily_used_today == used_today
            &&& st.daily_limit == daily_limit
            &&& st.energy_balance == user_energy(u)
        }),
{
    let (premium, until, energy) = match user {
        Some(u) => (premium_is_active(u, now), clone_opt(&u.premium_until), u.energy_balance),
        None => (false, None, 0),
    };
    if premium {
        return UserAccessStatus {
            can_access: true,
            access_type: AccessType::Premium,
            is_premium: true,
            premium_until: until,
            daily_used_today: used_today,
            daily_limit,
            energy_balance: energy,
        };
    }
    if used_today < daily_limit {
        return UserAccessStatus {
            can_access: true,
            access_type: AccessType::DailyFree,
            is_premium: false,
            premium_until: None,
            daily_used_today: used_today,
            daily_limit,
            energy_balance: energy,
        };
    }
    if energy > 0 {
        return UserAccessStatus {
            can_access: true,
            access_type: AccessType::EnergyPackage,
            is_premium: false,
            premium_until: None,
            daily_used_today: used_today,
            daily_limit,
            energy_balance: energy,
        };
    }
    UserAccessStatus {
        can_access: false,
        access_type: AccessType::DailyFree,
        is_premium: false,
        premium_until: None,
        daily_used_today: used_today,
        daily_limit,
        energy_balance: energy,
    }
}

/// The store changes for one granted reading: it is counted in today's
/// tally and leaves the user this energy balance.
pub struct ChargePlan {
    /// What pays for the reading.
    pub access_type: AccessType,
    /// The energy balance after the reading (`MAX(0, balance - 1)` when an
    /// energy package pays, unchanged otherwise).
    pub energy_balance: i64,
}

/// What charging one reading does, given the access status checked just
/// before. A refused request is not charged (`None`): it is neither counted
/// nor paid. A granted one is counted in today's tally, and takes one unit
/// of energy only where an energy package pays for it.
pub fn charge_plan(status: &UserAccessStatus) -> (p: Option<ChargePlan>)
    ensures
        p is None <==> !status.can_access,
        p matches Some(c) ==> c.access_type == status.access_type && c.energy_balance
            == energy_after_charge(status.access_type, status.energy_balance as int),
{
    if !status.can_access {
        return None;
    }
    let balance = match status.access_type {
        AccessType::EnergyPackage => energy_after_debit(status.energy_balance),
        _ => status.energy_balance,
    };
    Some(ChargePlan { access_type: status.access_type, energy_balance: balance })
}

/// The balance after taking one unit of energy (`MAX(0, balance - 1)`).
pub fn energy_after_debit(balance: i64) -> (r: i64)
    ensures
        r == energy_after_charge(AccessType::EnergyPackage, balance as int),
{
    if balance > 1 {
        balance - 1
    } else {
        0
    }
}

/// The day under which the readings made at `now` are counted: its UTC
/// calendar date as chrono writes it (`%Y-%m-%d`). Every instant of the
/// years 0000 to 9999 outside a leap second has one.
pub fn tally_day(now: Timestamp) -> (r: Option<String>)
    ensures
        r matches Some(x) ==> utc_date_text(now.secs, now.nanos) == Some(x@),
        r is None <==> utc_date_text(now.secs, now.nanos) is None,
        plain_rfc3339_instant(now) ==> r is Some,
{
    format_utc_date(now)
}

/// A granted premium period.
pub struct PremiumGrant {
    /// The new end of the period.
    pub until: Timestamp,
    /// The same instant in RFC 3339, as stored.
    pub until_text: String,
}

/// The instant from which a grant counts for this user.
pub fn premium_grant_base(user: Option<&User>, now: Timestamp) -> (t: Timestamp)
    ensures
        t == grant_base(user_until(match user { Some(u) => Some(*u), None => None }), now),
        t == now || t.later_than(now),
{
    match user {
        Some(u) => match &u.premium_until {
            Some(until) => match parse_rfc3339(until.as_str()) {
                Some(t) => if t.is_after(&now) {
                    t
                } else {
                    now
                },
                None => now,
            },
            None => now,
        },
        None => now,
    }
}

/// Grants `days` of premium: the period runs from the current end date when
/// that is still ahead, else from `now`. `None` where chrono cannot
/// represent the new end date; from an ordinary base (years 0000 to 9999,
/// no leap second), a grant of at most a million days that ends within
/// those years always succeeds.
pub fn premium_grant(user: Option<&User>, now: Timestamp, days: i64) -> (r: Option<PremiumGrant>)
    ensures
        ({
            let b = grant_base(user_until(match user { Some(u) => Some(*u), None => None }), now);
            match r {
                Some(g) => grant_outcome(
                    user_until(match user { Some(u) => Some(*u), None => None }),
                    now,
                    days,
                    g.until,
                    g.until_text@,
                ),
                None => days_later(b.secs, b.nanos, days) is None || rfc3339_text(
                    days_later(b.secs, b.nanos, days)->0.secs,
                    days_later(b.secs, b.nanos, days)->0.nanos,
                ) is None,
            }
        }),
        ({
            let b = grant_base(user_until(match user { Some(u) => Some(*u), None => None }), now);
            plain_rfc3339_instant(b) && -1_000_000 <= days <= 1_000_000 && -62167219200 <= b.secs
                + days * 86400 <= 253402300799 ==> r is Some
        }),
        r matches Some(g) ==> (days > 0 ==> g.until.later_than(now)),
        r matches Some(g) ==> (days > 0 && plain_rfc3339_instant(g.until) ==> premium_in_force(
            true,
            Some(g.until_text@),
            now,
        )),
{
    let base = premium_grant_base(user, now);
    let end = match add_days(base, days) {
        Some(e) => e,
        None => return None,
    };
    match format_rfc3339(end) {
        Some(text) => Some(PremiumGrant { until: end, until_text: text }),
        None => None,
    }
}

// ---------------------------------------------------------------------------
// Laws
// ---------------------------------------------------------------------------

/// A premium user is always let through, as premium, whatever the day's
/// tally and balance.
pub proof fn law_premium_is_unlimited(used_today: int, daily_limit: int, energy: int)
    ensures
        access_decision(true, used_today, daily_limit, energy) == (true, AccessType::Premium),
{
}

/// A reading is refused exactly when there is no premium, the daily quota
/// is used up and no energy is left.
pub proof fn law_refused_only_when_exhausted(premium: bool, used_today: int, daily_limit: int, energy: int)
    ensures
        !access_decision(premium, used_today, daily_limit, energy).0 <==> (!premium && used_today
            >= daily_limit && energy <= 0),
{
}

/// The free daily quota is used before bought energy: energy pays only
/// once the quota is used up.
pub proof fn law_quota_before_energy(used_today: int, daily_limit: int, energy: int)
    ensures
        access_decision(false, used_today, daily_limit, energy).1 == AccessType::EnergyPackage
            <==> (used_today >= daily_limit && energy > 0),
{
}

/// Charging a reading takes exactly one unit of energy when energy pays for
/// it, and leaves the balance alone otherwise; a non-negative balance stays
/// non-negative.
pub proof fn law_charge_takes_one_energy(premium: bool, used_today: int, daily_limit: int, energy: int)
    ensures
        ({
            let d = access_decision(premium, used_today, daily_limit, energy);
            &&& d.0 && d.1 == AccessType::EnergyPackage ==> energy_after_charge(d.1, energy) == energy - 1
            &&& d.1 != AccessType::EnergyPackage ==> energy_after_charge(d.1, energy) == energy
            &&& energy >= 0 ==> energy_after_charge(d.1, energy) >= 0
        }),
{
}

/// Adding energy to a user who was refused lets the next reading through,
/// paid by that energy.
pub proof fn law_top_up_reopens_access(used_today: int, daily_limit: int, energy: int, added: int)
    requires
        !access_decision(false, used_today, daily_limit, energy).0,
        energy + added > 0,
    ensures
        access_decision(false, used_today, daily_limit, energy + added) == (
            true,
            AccessType::EnergyPackage,
        ),
{
}

/// A reading that used the last free one of the day leaves the next reading
/// to energy (or refusal) on the same day.
pub proof fn law_daily_quota_is_consumed(used_today: int, daily_limit: int, energy: int)
    requires
        access_decision(false, used_today, daily_limit, energy).1 == AccessType::DailyFree,
        access_decision(false, used_today, daily_limit, energy).0,
        used_today + 1 == daily_limit,
    ensures
        access_decision(false, used_today + 1, daily_limit, energy) == (if energy > 0 {
            (true, AccessType::EnergyPackage)
        } else {
            (false, AccessType::DailyFree)
        }),
{
}

/// A grant counts from a date that is never before `now`, and never cuts an
/// end date that is still ahead.
pub proof fn law_grant_never_shortens(until: Option<Seq<char>>, now: Timestamp)
    ensures
        grant_base(until, now) == now || grant_base(until, now).later_than(now),
        match until {
            Some(s) => match rfc3339_reading(s) {
                Some(t) => t.later_than(now) ==> grant_base(until, now) == t,
                None => true,
            },
            None => true,
        },
{
}

/// Two grants in a row add up: granting `a` days and then, while that
/// period is still running, `b` more days ends where one grant of `a + b`
/// days would have ended, with the same stored text.
pub proof fn law_grants_add_up(
    until: Option<Seq<char>>,
    now: Timestamp,
    a: i64,
    first: Timestamp,
    first_text: Seq<char>,
    later: Timestamp,
    b: i64,
    second: Timestamp,
    second_text: Seq<char>,
    total: i64,
    whole: Timestamp,
    whole_text: Seq<char>,
)
    requires
        a >= 1,
        b >= 0,
        total == a + b,
        grant_outcome(until, now, a, first, first_text),
        plain_rfc3339_instant(first),
        first.later_than(later),
        grant_outcome(Some(first_text), later, b, second, second_text),
        grant_outcome(until, now, total, whole, whole_text),
    ensures
        second == whole,
        second_text == whole_text,
{
    assert(grant_base(Some(first_text), later) == first);
}

} // verus!
