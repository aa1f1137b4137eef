//! Records of users, access checks and reading history.

use vstd::prelude::*;

verus! {

/// A registered user, as stored in the `users` table.
#[derive(Debug, Clone)]
pub struct User {
    pub id: i64,
    pub telegram_id: i64,
    pub username: Option<String>,
    pub first_name: String,
    pub last_name: Option<String>,
    pub is_offer_accepted: bool,
    pub offer_accepted_at: Option<String>,
    pub energy_balance: i64,
    pub is_premium: bool,
    pub premium_until: Option<String>,
    pub created_at: String,
    pub last_active_at: String,
}

/// What pays for one AI reading.
#[derive(Debug, Clone, Copy, PartialEq, Eq, Structural)]
pub enum AccessType {
    /// Premium user: unlimited readings.
    Premium,
    /// The free daily reading.
    DailyFree,
    /// A reading from a bought energy package.
    EnergyPackage,
}

/// The outcome of an access check.
#[derive(Debug, Clone)]
pub struct UserAccessStatus {
    pub can_access: bool,
    pub access_type: AccessType,
    pub is_premium: bool,
    pub premium_until: Option<String>,
    pub daily_used_today: i32,
    pub daily_limit: i32,
    pub energy_balance: i64,
}

/// One saved reading, as stored in the `readings_history` table.
#[derive(Debug, Clone)]
pub struct ReadingHistory {
    pub id: i64,
    pub user_id: i64,
    pub reading_type: String,
    pub topic: String,
    pub subtopic: Option<String>,
    pub selected_cards: String,
    pub ai_interpretation: String,
    pub created_at: String,
}

/// Readings counted for one user on one day (`daily_limits` table).
#[derive(Debug, Clone)]
pub struct DailyLimit {
    pub id: i64,
    pub user_id: i64,
    pub date: String,
    pub count: i32,
}

/// The characters of an optional string.
pub open spec fn opt_view(o: Option<String>) -> Option<Seq<char>> {
    match o {
        Some(s) => Some(s@),
        None => None,
    }
}

} // verus!
