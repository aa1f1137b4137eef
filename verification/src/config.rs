//! Bot configuration: reading it from the environment's values, checking
//! it, and recognising administrators.

use vstd::prelude::*;

use crate::text::{
    drop_leading, int_literal_in, is_blank, is_char, lowered, split_char, split_on, to_lowercase,
    trim, trim_start_char, trimmed, views, all_white, all_ascii, ascii_lowered, ascii_lower_code,
    same_ignoring_ascii_case, drop_trailing, white,
};

verus! {

/// The configuration of both bots.
#[derive(Clone, Debug)]
pub struct Config {
    pub teloxide_token: String,
    pub database_url: String,
    pub ai_base_url: String,
    pub ai_api_key: String,
    pub ai_model: String,
    pub ai_timeout_secs: u64,
    pub daily_free_readings: i32,
    pub max_free_lifetime_readings: i32,
    pub allowed_username: Option<String>,
    pub admin_usernames: Vec<String>,
    pub user_bot_name: String,
    pub admin_bot_name: String,
}

/// The environment variables the configuration is read from, each as found
/// (`None`: unset or not Unicode).
#[derive(Clone, Debug)]
pub struct EnvSettings {
    pub teloxide_token: Option<String>,
    pub database_url: Option<String>,
    pub ai_base_url: Option<String>,
    pub ai_api_key: Option<String>,
    pub ai_model: Option<String>,
    pub ai_timeout_secs: Option<String>,
    pub daily_free_readings: Option<String>,
    pub max_free_readings: Option<String>,
    pub allowed_username: Option<String>,
    pub admin_usernames: Option<String>,
    pub user_bot_name: Option<String>,
    pub admin_bot_name: Option<String>,
}

/// Why a configuration was refused.
#[derive(Clone, Copy, Debug, PartialEq, Eq, Structural)]
pub enum ConfigError {
    /// `TELOXIDE_TOKEN` is not set.
    MissingToken,
    /// `AI_API_KEY` is not set.
    MissingApiKey,
    /// The bot token is blank.
    EmptyToken,
    /// The AI API key is blank.
    EmptyApiKey,
    /// The AI base URL is blank.
    EmptyBaseUrl,
}

impl ConfigError {
    /// The message reported for this error.
    pub fn message(&self) -> (r: String)
        ensures
            r@ == match *self {
                ConfigError::MissingToken => "TELOXIDE_TOKEN must be set in .env or environment"@,
                ConfigError::MissingApiKey => "AI_API_KEY must be set in .env or environment"@,
                ConfigError::EmptyToken => "Telegram bot token cannot be empty"@,
                ConfigError::EmptyApiKey => "AI API key cannot be empty"@,
                ConfigError::EmptyBaseUrl => "AI Base URL cannot be empty"@,
            },
    {
        match self {
            ConfigError::MissingToken => String::from_str(
                "TELOXIDE_TOKEN must be set in .env or environment",
            ),
            ConfigError::MissingApiKey => String::from_str("AI_API_KEY must be set in .env or environment"),
            ConfigError::EmptyToken => String::from_str("Telegram bot token cannot be empty"),
            ConfigError::EmptyApiKey => String::from_str("AI API key cannot be empty"),
            ConfigError::EmptyBaseUrl => String::from_str("AI Base URL cannot be empty"),
        }
    }
}

// ---------------------------------------------------------------------------
// Specifications
// ---------------------------------------------------------------------------

/// The form of a user name that is compared with the administrators:
/// leading `@` removed, lower-cased.
pub open spec fn admin_key(name: Seq<char>) -> Seq<char> {
    lowered(drop_leading(name, is_char('@')))
}

/// One entry of `ADMIN_USERNAMES` as kept: trimmed, leading `@` removed,
/// lower-cased.
pub open spec fn admin_entry(piece: Seq<char>) -> Seq<char> {
    lowered(drop_leading(trimmed(piece), is_char('@')))
}

/// `username` is one of `admins`, compared as `Config::is_admin` does.
pub open spec fn is_admin_name(admins: Seq<String>, username: Option<Seq<char>>) -> bool {
    match username {
        Some(name) => exists|i: int| 0 <= i < admins.len() && lowered(#[trigger] admins[i]@) == admin_key(name),
        None => false,
    }
}

/// The characters of an optional string slice.
pub open spec fn opt_str(o: Option<&str>) -> Option<Seq<char>> {
    match o {
        Some(s) => Some(s@),
        None => None,
    }
}

/// The entries kept from the comma-separated pieces: each normalised, the
/// empty ones dropped, in order.
pub open spec fn admin_entries(pieces: Seq<Seq<char>>) -> Seq<Seq<char>>
    decreases pieces.len(),
{
    if pieces.len() == 0 {
        Seq::<Seq<char>>::empty()
    } else {
        let rest = admin_entries(pieces.drop_last());
        let e = admin_entry(pieces.last());
        if e.len() == 0 {
            rest
        } else {
            rest.push(e)
        }
    }
}

/// The administrators listed in a raw `ADMIN_USERNAMES` value.
pub open spec fn admin_list(raw: Seq<char>) -> Seq<Seq<char>> {
    admin_entries(split_on(raw, ','))
}

/// The value of an optional variable, or a default.
pub open spec fn or_default(o: Option<String>, default: Seq<char>) -> Seq<char> {
    match o {
        Some(s) => s@,
        None => default,
    }
}

/// A numeric variable read with Rust's `FromStr`, or a default when unset
/// or unreadable in `lo..=hi`.
pub open spec fn number_or(o: Option<String>, lo: int, hi: int, default: int) -> int {
    match o {
        Some(s) => match int_literal_in(s@, true, lo, hi) {
            Some(v) => v,
            None => default,
        },
        None => default,
    }
}

/// An unsigned numeric variable read with Rust's `FromStr`, or a default.
pub open spec fn unsigned_or(o: Option<String>, hi: int, default: int) -> int {
    match o {
        Some(s) => match int_literal_in(s@, false, 0, hi) {
            Some(v) => v,
            None => default,
        },
        None => default,
    }
}

// ---------------------------------------------------------------------------
// Exec
// ---------------------------------------------------------------------------

/// The value of an optional variable, or a default.
pub fn string_or(o: &Option<String>, default: &str) -> (r: String)
    ensures
        r@ == or_default(*o, default@),
{
    match o {
        Some(s) => s.clone(),
        None => String::from_str(default),
    }
}

/// The administrators listed in a raw `ADMIN_USERNAMES` value: split on
/// commas, each piece trimmed, stripped of leading `@` and lower-cased,
/// empty ones dropped.
pub fn parse_admin_usernames(raw: &str) -> (r: Vec<String>)
    ensures
        views(r@) == admin_list(raw@),
{
    let pieces = split_char(raw, ',');
    let n = pieces.len();
    let mut out: Vec<String> = Vec::new();
    for i in 0..n
        invariant
            n == pieces@.len(),
            views(pieces@) == split_on(raw@, ','),
            views(out@) == admin_entries(views(pieces@).take(i as int)),
    {
        let piece = pieces[i].as_str();
        let name = to_lowercase(trim_start_char(trim(piece), '@'));
        proof {
            let t = views(pieces@).take(i + 1);
            assert(t.drop_last() =~= views(pieces@).take(i as int));
            assert(t.last() == pieces@[i as int]@);
        }
        if !name.as_str().is_empty() {
            let ghost before = views(out@);
            out.push(name);
            proof {
                assert(views(out@) =~= before.push(name@));
            }
        }
    }
    proof {
        assert(views(pieces@).take(n as int) =~= views(pieces@));
    }
    out
}

impl Config {
    /// The configuration read from the environment's values: the bot token
    /// and the AI key are required (token first), every other value has a
    /// default.
    pub fn from_settings(env: &EnvSettings) -> (r: Result<Config, ConfigError>)
        ensures
            env.teloxide_token is None ==> r == Err::<Config, ConfigError>(ConfigError::MissingToken),
            env.teloxide_token is Some && env.ai_api_key is None ==> r == Err::<Config, ConfigError>(
                ConfigError::MissingApiKey,
            ),
            r is Ok <==> env.teloxide_token is Some && env.ai_api_key is Some,
            r matches Ok(c) ==> {
                &&& c.teloxide_token@ == or_default(env.teloxide_token, Seq::empty())
                &&& c.ai_api_key@ == or_default(env.ai_api_key, Seq::empty())
                &&& c.database_url@ == or_default(env.database_url, "sqlite://bot.db?mode=rwc"@)
                &&& c.ai_base_url@ == or_default(env.ai_base_url, "http://192.124.181.128:8045/v1"@)
                &&& c.ai_model@ == or_default(env.ai_model, "gemini-3.7-flash-high"@)
                &&& c.ai_timeout_secs == unsigned_or(env.ai_timeout_secs, u64::MAX as int, 60)
                &&& c.daily_free_readings == number_or(
                    env.daily_free_readings,
                    i32::MIN as int,
                    i32::MAX as int,
                    3,
                )
                &&& c.max_free_lifetime_readings == number_or(
                    env.max_free_readings,
                    i32::MIN as int,
                    i32::MAX as int,
                    10,
                )
                &&& crate::models::opt_view(c.allowed_username) == crate::models::opt_view(
                    env.allowed_username,
                )
                &&& views(c.admin_usernames@) == admin_list(
                    or_default(env.admin_usernames, "mixanik2000,Studia_taro"@),
                )
                &&& c.user_bot_name@ == or_default(env.user_bot_name, "arch_reality_2026_bot"@)
                &&& c.admin_bot_name@ == or_default(env.admin_bot_name, "arch_settings_bot"@)
            },
    {
        let teloxide_token = match &env.teloxide_token {
            Some(t) => t.clone(),
            None => return Err(ConfigError::MissingToken),
        };
        let database_url = string_or(&env.database_url, "sqlite://bot.db?mode=rwc");
        let ai_base_url = string_or(&env.ai_base_url, "http://192.124.181.128:8045/v1");
        let ai_api_key = match &env.ai_api_key {
            Some(k) => k.clone(),
            None => return Err(ConfigError::MissingApiKey),
        };
        let ai_model = string_or(&env.ai_model, "gemini-3.7-flash-high");
        let ai_timeout_secs: u64 = match &env.ai_timeout_secs {
            Some(s) => match crate::text::parse_u64(s.as_str()) {
                Some(v) => v,
                None => 60,
            },
            None => 60,
        };
        let daily_free_readings: i32 = match &env.daily_free_readings {
            Some(s) => match crate::text::parse_i32(s.as_str()) {
                Some(v) => v,
                None => 3,
            },
            None => 3,
        };
        let max_free_lifetime_readings: i32 = match &env.max_free_readings {
            Some(s) => match crate::text::parse_i32(s.as_str()) {
                Some(v) => v,
                None => 10,
            },
            None => 10,
        };
        let allowed_username = crate::access::clone_opt(&env.allowed_username);
        let admin_raw = string_or(&env.admin_usernames, "mixanik2000,Studia_taro");
        let admin_usernames = parse_admin_usernames(admin_raw.as_str());
        let user_bot_name = string_or(&env.user_bot_name, "arch_reality_2026_bot");
        let admin_bot_name = string_or(&env.admin_bot_name, "arch_settings_bot");
        Ok(Config {
            teloxide_token,
            database_url,
            ai_base_url,
            ai_api_key,
            ai_model,
            ai_timeout_secs,
            daily_free_readings,
            max_free_lifetime_readings,
            allowed_username,
            admin_usernames,
            user_bot_name,
            admin_bot_name,
        })
    }

    /// Whether `username` is one of the administrators: compared without
    /// leading `@` and without regard to case; no user name is no
    /// administrator.
    pub fn is_admin(&self, username: Option<&str>) -> (r: bool)
        ensures
            r == is_admin_name(self.admin_usernames@, opt_str(username)),
    {
        match username {
            None => false,
            Some(name) => {
                let clean = to_lowercase(trim_start_char(name, '@'));
                let n = self.admin_usernames.len();
                for i in 0..n
                    invariant
                        n == self.admin_usernames@.len(),
                        username == Some(name),
                        clean@ == admin_key(name@),
                        forall|j: int|
                            0 <= j < i ==> lowered(#[trigger] self.admin_usernames@[j]@)
                                != admin_key(name@),
                {
                    let adm = to_lowercase(self.admin_usernames[i].as_str());
                    if adm == clean {
                        assert(lowered(self.admin_usernames@[i as int]@) == admin_key(name@));
                        return true;
                    }
                }
                false
            },
        }
    }

    /// Checks the key settings: the bot token, the AI key and the AI base
    /// URL must each hold a character that is not white space (checked in
    /// that order).
    pub fn validate(&self) -> (r: Result<(), ConfigError>)
        ensures
            all_white(self.teloxide_token@) ==> r == Err::<(), ConfigError>(ConfigError::EmptyToken),
            !all_white(self.teloxide_token@) && all_white(self.ai_api_key@) ==> r == Err::<
                (),
                ConfigError,
            >(ConfigError::EmptyApiKey),
            !all_white(self.teloxide_token@) && !all_white(self.ai_api_key@) && all_white(
                self.ai_base_url@,
            ) ==> r == Err::<(), ConfigError>(ConfigError::EmptyBaseUrl),
            r is Ok <==> !all_white(self.teloxide_token@) && !all_white(self.ai_api_key@)
                && !all_white(self.ai_base_url@),
    {
        if is_blank(self.teloxide_token.as_str()) {
            return Err(ConfigError::EmptyToken);
        }
        if is_blank(self.ai_api_key.as_str()) {
            return Err(ConfigError::EmptyApiKey);
        }
        if is_blank(self.ai_base_url.as_str()) {
            return Err(ConfigError::EmptyBaseUrl);
        }
        Ok(())
    }
}

/// A leading `@` does not change whether a name is an administrator's.
pub proof fn law_at_sign_is_ignored(admins: Seq<String>, name: Seq<char>)
    ensures
        is_admin_name(admins, Some(seq!['@'] + name)) == is_admin_name(admins, Some(name)),
{
    let with_at = seq!['@'] + name;
    assert(with_at.drop_first() =~= name);
    assert(drop_leading(with_at, is_char('@')) == drop_leading(name, is_char('@')));
    assert(admin_key(with_at) == admin_key(name));
}

/// Removing a leading run of characters keeps a text ASCII.
proof fn lemma_ascii_drop_leading(s: Seq<char>, p: spec_fn(char) -> bool)
    requires
        all_ascii(s),
    ensures
        all_ascii(drop_leading(s, p)),
    decreases s.len(),
{
    if s.len() > 0 && p(s[0]) {
        assert(all_ascii(s.drop_first())) by {
            assert forall|i: int| 0 <= i < s.drop_first().len() implies (#[trigger] s.drop_first()[i] as u32)
                < 128 by {
                assert(s.drop_first()[i] == s[i + 1]);
            }
        }
        lemma_ascii_drop_leading(s.drop_first(), p);
    }
}

/// Removing a trailing run of characters keeps a text ASCII.
proof fn lemma_ascii_drop_trailing(s: Seq<char>, p: spec_fn(char) -> bool)
    requires
        all_ascii(s),
    ensures
        all_ascii(drop_trailing(s, p)),
    decreases s.len(),
{
    if s.len() > 0 && p(s.last()) {
        assert(all_ascii(s.drop_last())) by {
            assert forall|i: int| 0 <= i < s.drop_last().len() implies (#[trigger] s.drop_last()[i] as u32)
                < 128 by {
                assert(s.drop_last()[i] == s[i]);
            }
        }
        lemma_ascii_drop_trailing(s.drop_last(), p);
    }
}

/// ASCII lower-casing keeps a text ASCII and does nothing the second time.
proof fn lemma_ascii_lowered_twice(s: Seq<char>)
    requires
        all_ascii(s),
    ensures
        all_ascii(ascii_lowered(s)),
        ascii_lowered(ascii_lowered(s)) == ascii_lowered(s),
        ascii_lowered(s).len() == s.len(),
{
    let l = ascii_lowered(s);
    assert forall|i: int| 0 <= i < l.len() implies (#[trigger] l[i] as u32) < 128 by {
        assert(l[i] == (ascii_lower_code(s[i]) as char));
    }
    assert(ascii_lowered(l) =~= l) by {
        assert forall|i: int| 0 <= i < l.len() implies #[trigger] ascii_lowered(l)[i] == l[i] by {
            let c = ascii_lower_code(s[i]);
            assert(l[i] == (c as char));
            assert((c as char) as u32 == c);
            assert(ascii_lower_code(l[i]) == c);
            assert(ascii_lowered(l)[i] == (c as char));
        }
    }
}

/// Two texts that differ only in ASCII case, the second one ASCII, lower to
/// the same text, and the first one is ASCII too.
proof fn lemma_same_case_lowers_alike(q: Seq<char>, p: Seq<char>)
    requires
        same_ignoring_ascii_case(q, p),
        all_ascii(p),
    ensures
        all_ascii(q),
        ascii_lowered(q) == ascii_lowered(p),
{
    assert forall|i: int| 0 <= i < q.len() implies (#[trigger] q[i] as u32) < 128 by {
        assert(ascii_lower_code(q[i]) == ascii_lower_code(p[i]));
        assert((p[i] as u32) < 128);
    }
    assert(ascii_lowered(q) =~= ascii_lowered(p)) by {
        assert forall|i: int| 0 <= i < q.len() implies #[trigger] ascii_lowered(q)[i] == ascii_lowered(p)[i] by {
            assert(ascii_lower_code(q[i]) == ascii_lower_code(p[i]));
        }
    }
}

/// A piece whose entry is not empty has its entry in the kept list.
proof fn lemma_entry_kept(pieces: Seq<Seq<char>>, k: int)
    requires
        0 <= k < pieces.len(),
        admin_entry(pieces[k]).len() > 0,
    ensures
        exists|i: int| 0 <= i < admin_entries(pieces).len() && #[trigger] admin_entries(pieces)[i] == admin_entry(pieces[k]),
    decreases pieces.len(),
{
    let rest = admin_entries(pieces.drop_last());
    if k == pieces.len() - 1 {
        let all = admin_entries(pieces);
        assert(all == rest.push(admin_entry(pieces[k])));
        assert(all[rest.len() as int] == admin_entry(pieces[k]));
    } else {
        assert(pieces.drop_last()[k] == pieces[k]);
        lemma_entry_kept(pieces.drop_last(), k);
        let i = choose|i: int| 0 <= i < rest.len() && #[trigger] rest[i] == admin_entry(pieces[k]);
        let e = admin_entry(pieces.last());
        if e.len() > 0 {
            assert(admin_entries(pieces)[i] == rest.push(e)[i]);
        }
        assert(admin_entries(pieces)[i] == admin_entry(pieces[k]));
    }
}

/// A name listed in `ADMIN_USERNAMES` (an ASCII piece between commas that
/// is not only white space and `@`) is an administrator's, with or without
/// a leading `@` and in any ASCII case.
pub proof fn law_listed_names_are_admins(raw: Seq<char>, k: int, admins: Seq<String>, name: Seq<char>)
    requires
        views(admins) == admin_list(raw),
        0 <= k < split_on(raw, ',').len(),
        all_ascii(split_on(raw, ',')[k]),
        drop_leading(trimmed(split_on(raw, ',')[k]), is_char('@')).len() > 0,
        same_ignoring_ascii_case(
            drop_leading(name, is_char('@')),
            drop_leading(trimmed(split_on(raw, ',')[k]), is_char('@')),
        ),
    ensures
        is_admin_name(admins, Some(name)),
{
    let pieces = split_on(raw, ',');
    let piece = pieces[k];
    let p = drop_leading(trimmed(piece), is_char('@'));
    let q = drop_leading(name, is_char('@'));
    lemma_ascii_drop_leading(piece, white());
    lemma_ascii_drop_trailing(drop_leading(piece, white()), white());
    lemma_ascii_drop_leading(trimmed(piece), is_char('@'));
    lemma_ascii_lowered_twice(p);
    lemma_same_case_lowers_alike(q, p);
    assert(admin_entry(piece) == ascii_lowered(p));
    lemma_entry_kept(pieces, k);
    let i = choose|i: int| 0 <= i < admin_entries(pieces).len() && #[trigger] admin_entries(pieces)[i] == admin_entry(piece);
    assert(views(admins)[i] == admins[i]@);
    assert(admins[i]@ == ascii_lowered(p));
    assert(lowered(admins[i]@) == ascii_lowered(p));
    assert(admin_key(name) == ascii_lowered(q));
}

} // verus!
