//! The administration bots: who may use them, the commands they read and
//! the figures they show.

use vstd::prelude::*;

use crate::config::opt_str;
use crate::keyboards::{callback, cb, push_row, row1, row2, Button, ButtonView, Keyboard};
use crate::models::User;
use crate::text::{
    eq_ignore_ascii_case, has_prefix, int_literal_in, parse_i64, push_decimal,
    push_signed_decimal, decimal, same_ignoring_ascii_case, signed_decimal, split_whitespace,
    starts_with, str_eq, trim, trimmed, views, words, is_white_space, is_digit, drop_leading,
    drop_trailing, white,
};

verus! {

// ---------------------------------------------------------------------------
// Commands
// ---------------------------------------------------------------------------

/// What an administrator's message asks for.
#[derive(Clone, Copy, Debug, PartialEq, Eq, Structural)]
pub enum AdminCommand {
    /// `/grant_premium <user_id> <days>`.
    GrantPremium { user_id: i64, days: i64 },
    /// `/grant_premium` without two readable numbers: show its usage.
    PremiumUsage,
    /// `/grant_energy <user_id> <amount>`.
    GrantEnergy { user_id: i64, amount: i64 },
    /// `/grant_energy` without two readable numbers: show its usage.
    EnergyUsage,
    /// Anything else: show the control panel.
    Dashboard,
}

/// An `i64` read with Rust's `FromStr`.
pub open spec fn read_i64(s: Seq<char>) -> Option<int> {
    int_literal_in(s, true, i64::MIN as int, i64::MAX as int)
}

/// The command in an administrator's message: the text is trimmed, then a
/// command word must start it and be followed by exactly two
/// whitespace-separated `i64` numbers.
pub open spec fn admin_command_of(text: Seq<char>) -> AdminCommand {
    let t = trimmed(text);
    let w = words(t);
    let two = w.len() == 3 && read_i64(w[1]) is Some && read_i64(w[2]) is Some;
    if has_prefix(t, "/grant_premium"@) {
        if two {
            AdminCommand::GrantPremium { user_id: read_i64(w[1])->0 as i64, days: read_i64(w[2])->0 as i64 }
        } else {
            AdminCommand::PremiumUsage
        }
    } else if has_prefix(t, "/grant_energy"@) {
        if two {
            AdminCommand::GrantEnergy { user_id: read_i64(w[1])->0 as i64, amount: read_i64(w[2])->0 as i64 }
        } else {
            AdminCommand::EnergyUsage
        }
    } else {
        AdminCommand::Dashboard
    }
}

/// The two numbers after a command word, when there are exactly two.
fn two_numbers(t: &str) -> (r: Option<(i64, i64)>)
    ensures
        ({
            let w = words(t@);
            match r {
                Some((a, b)) => w.len() == 3 && read_i64(w[1]) == Some(a as int) && read_i64(w[2])
                    == Some(b as int),
                None => !(w.len() == 3 && read_i64(w[1]) is Some && read_i64(w[2]) is Some),
            }
        }),
{
    let parts = split_whitespace(t);
    if parts.len() != 3 {
        return None;
    }
    proof {
        assert(views(parts@)[1] == parts@[1]@);
        assert(views(parts@)[2] == parts@[2]@);
    }
    match (parse_i64(parts[1].as_str()), parse_i64(parts[2].as_str())) {
        (Some(a), Some(b)) => Some((a, b)),
        _ => None,
    }
}

/// The command in an administrator's message (an empty text for a message
/// without text).
pub fn admin_command(text: &str) -> (r: AdminCommand)
    ensures
        r == admin_command_of(text@),
{
    let t = trim(text);
    if starts_with(t, "/grant_premium") {
        return match two_numbers(t) {
            Some((user_id, days)) => AdminCommand::GrantPremium { user_id, days },
            None => AdminCommand::PremiumUsage,
        };
    }
    if starts_with(t, "/grant_energy") {
        return match two_numbers(t) {
            Some((user_id, amount)) => AdminCommand::GrantEnergy { user_id, amount },
            None => AdminCommand::EnergyUsage,
        };
    }
    AdminCommand::Dashboard
}

/// No character of `s` is white space.
pub open spec fn no_white(s: Seq<char>) -> bool {
    forall|i: int| 0 <= i < s.len() ==> !is_white_space(#[trigger] s[i])
}

/// A text that reads as an `i64` is one word: it is not empty and holds no
/// white space.
proof fn lemma_number_is_a_word(a: Seq<char>)
    requires
        read_i64(a) is Some,
    ensures
        a.len() > 0,
        no_white(a),
{
    let neg = a[0] == '-';
    let d = if a[0] == '+' || neg { a.drop_first() } else { a };
    assert forall|i: int| 0 <= i < a.len() implies !is_white_space(#[trigger] a[i]) by {
        if a[0] == '+' || neg {
            if i > 0 {
                assert(a[i] == d[i - 1]);
                assert(is_digit(d[i - 1]));
            }
        } else {
            assert(is_digit(d[i]));
        }
    }
}

/// A white space character at the end adds no word.
proof fn lemma_words_push_white(s: Seq<char>, c: char)
    requires
        is_white_space(c),
    ensures
        words(s.push(c)) == words(s),
{
    assert(s.push(c).drop_last() =~= s);
}

/// A word put after white space (or at the start) is one more word.
proof fn lemma_words_push_word(s: Seq<char>, w: Seq<char>)
    requires
        w.len() > 0,
        no_white(w),
        s.len() == 0 || is_white_space(s.last()),
    ensures
        words(s + w) == words(s).push(w),
    decreases w.len(),
{
    let t = s + w;
    assert(t.last() == w.last());
    if w.len() == 1 {
        assert(t.drop_last() =~= s);
        assert(!is_white_space(w[0]));
        if t.len() >= 2 {
            assert(t[t.len() - 2] == s.last());
        }
        assert(seq![w.last()] =~= w);
    } else {
        let v = w.drop_last();
        assert(t.drop_last() =~= s + v);
        assert(no_white(v)) by {
            assert forall|i: int| 0 <= i < v.len() implies !is_white_space(#[trigger] v[i]) by {
                assert(v[i] == w[i]);
            }
        }
        lemma_words_push_word(s, v);
        assert(t[t.len() - 2] == w[w.len() - 2]);
        assert(!is_white_space(w[w.len() - 2]));
        assert(!is_white_space(w.last()));
        let prev = words(s).push(v);
        assert(prev.update(prev.len() - 1, prev.last().push(w.last())) =~= words(s).push(w)) by {
            assert(v.push(w.last()) =~= w);
        }
    }
}

/// The words of `<cmd> <a> <b>`, for three words separated by one space.
proof fn lemma_three_words(cmd: Seq<char>, a: Seq<char>, b: Seq<char>)
    requires
        cmd.len() > 0,
        no_white(cmd),
        a.len() > 0,
        no_white(a),
        b.len() > 0,
        no_white(b),
    ensures
        words(cmd + " "@ + a + " "@ + b) == seq![cmd, a, b],
        trimmed(cmd + " "@ + a + " "@ + b) == cmd + " "@ + a + " "@ + b,
{
    reveal_strlit(" ");
    let sp = ' ';
    assert(is_white_space(sp));
    let e = Seq::<char>::empty();
    lemma_words_push_word(e, cmd);
    assert(e + cmd =~= cmd);
    let s1 = cmd.push(sp);
    lemma_words_push_white(cmd, sp);
    lemma_words_push_word(s1, a);
    let s2 = (s1 + a).push(sp);
    lemma_words_push_white(s1 + a, sp);
    lemma_words_push_word(s2, b);
    let t = cmd + " "@ + a + " "@ + b;
    assert(t =~= s2 + b);
    assert(words(t) =~= seq![cmd, a, b]);
    assert(t[0] == cmd[0]);
    assert(!is_white_space(t[0]));
    assert(drop_leading(t, white()) == t);
    assert(t.last() == b.last());
    assert(!is_white_space(b.last()));
    assert(drop_trailing(t, white()) == t);
}

/// A grant command whose two words do not both read as `i64` numbers
/// answers with the command's usage.
pub proof fn law_grant_commands_without_numbers_show_usage(a: Seq<char>, b: Seq<char>)
    requires
        a.len() > 0,
        no_white(a),
        b.len() > 0,
        no_white(b),
        read_i64(a) is None || read_i64(b) is None,
    ensures
        admin_command_of("/grant_premium "@ + a + " "@ + b) == AdminCommand::PremiumUsage,
        admin_command_of("/grant_energy "@ + a + " "@ + b) == AdminCommand::EnergyUsage,
{
    reveal_strlit("/grant_premium ");
    reveal_strlit("/grant_premium");
    reveal_strlit("/grant_energy ");
    reveal_strlit("/grant_energy");
    reveal_strlit(" ");
    let p = "/grant_premium"@;
    let g = "/grant_energy"@;
    assert(no_white(p));
    assert(no_white(g));
    assert("/grant_premium "@ =~= p + " "@);
    assert("/grant_energy "@ =~= g + " "@);
    let tp = p + " "@ + a + " "@ + b;
    let tg = g + " "@ + a + " "@ + b;
    assert("/grant_premium "@ + a + " "@ + b =~= tp);
    assert("/grant_energy "@ + a + " "@ + b =~= tg);
    lemma_three_words(p, a, b);
    lemma_three_words(g, a, b);
    assert(tp.take(p.len() as int) =~= p);
    assert(tg.take(g.len() as int) =~= g);
    assert(!has_prefix(tg, p)) by {
        if p.len() <= tg.len() {
            assert(tg.take(p.len() as int)[7] == tg[7]);
            assert(tg[7] == g[7]);
        }
    }
}

/// The two grant commands carry the numbers written after them: for
/// `/grant_premium <a> <b>` and `/grant_energy <a> <b>` whose words `a` and
/// `b` read as `i64` numbers, the command holds those very numbers as the
/// user and as the days or the amount.
pub proof fn law_grant_commands_carry_their_numbers(a: Seq<char>, b: Seq<char>)
    requires
        read_i64(a) is Some,
        read_i64(b) is Some,
    ensures
        ({
            let c = admin_command_of("/grant_premium "@ + a + " "@ + b);
            c matches AdminCommand::GrantPremium { user_id, days } && user_id == read_i64(a)->0
                && days == read_i64(b)->0
        }),
        ({
            let c = admin_command_of("/grant_energy "@ + a + " "@ + b);
            c matches AdminCommand::GrantEnergy { user_id, amount } && user_id == read_i64(a)->0
                && amount == read_i64(b)->0
        }),
{
    reveal_strlit("/grant_premium ");
    reveal_strlit("/grant_premium");
    reveal_strlit("/grant_energy ");
    reveal_strlit("/grant_energy");
    reveal_strlit(" ");
    lemma_number_is_a_word(a);
    lemma_number_is_a_word(b);
    let p = "/grant_premium"@;
    let g = "/grant_energy"@;
    assert(no_white(p));
    assert(no_white(g));
    assert("/grant_premium "@ =~= p + " "@);
    assert("/grant_energy "@ =~= g + " "@);
    let tp = p + " "@ + a + " "@ + b;
    let tg = g + " "@ + a + " "@ + b;
    assert("/grant_premium "@ + a + " "@ + b =~= tp);
    assert("/grant_energy "@ + a + " "@ + b =~= tg);
    lemma_three_words(p, a, b);
    lemma_three_words(g, a, b);
    assert(tp.take(p.len() as int) =~= p);
    assert(has_prefix(tp, p));
    assert(tg.take(g.len() as int) =~= g);
    assert(has_prefix(tg, g));
    assert(!has_prefix(tg, p)) by {
        if p.len() <= tg.len() {
            assert(tg.take(p.len() as int)[7] == tg[7]);
            assert(tg[7] == g[7]);
        }
    }
}

// ---------------------------------------------------------------------------
// Button presses of the admin panel
// ---------------------------------------------------------------------------

/// A screen of the admin panel.
#[derive(Clone, Copy, Debug, PartialEq, Eq, Structural)]
pub enum AdminRoute {
    Stats,
    Users,
    GiveAllEnergy,
    ManagePremium,
    Whitelist,
    MainMenu,
    Unknown,
}

pub open spec fn admin_route_of(d: Seq<char>) -> AdminRoute {
    if d == "adm:stats"@ {
        AdminRoute::Stats
    } else if d == "adm:users"@ {
        AdminRoute::Users
    } else if d == "adm:give_all_energy_5"@ {
        AdminRoute::GiveAllEnergy
    } else if d == "adm:manage_premium"@ {
        AdminRoute::ManagePremium
    } else if d == "adm:whitelist"@ {
        AdminRoute::Whitelist
    } else if d == "adm:main_menu"@ || d == "adm:refresh"@ {
        AdminRoute::MainMenu
    } else {
        AdminRoute::Unknown
    }
}

/// The screen of the admin panel a button press leads to.
pub fn admin_route(d: &str) -> (r: AdminRoute)
    ensures
        r == admin_route_of(d@),
{
    if str_eq(d, "adm:stats") {
        AdminRoute::Stats
    } else if str_eq(d, "adm:users") {
        AdminRoute::Users
    } else if str_eq(d, "adm:give_all_energy_5") {
        AdminRoute::GiveAllEnergy
    } else if str_eq(d, "adm:manage_premium") {
        AdminRoute::ManagePremium
    } else if str_eq(d, "adm:whitelist") {
        AdminRoute::Whitelist
    } else if str_eq(d, "adm:main_menu") || str_eq(d, "adm:refresh") {
        AdminRoute::MainMenu
    } else {
        AdminRoute::Unknown
    }
}

pub open spec fn admin_panel_rows() -> Seq<Seq<ButtonView>> {
    seq![
        seq![cb("📊 Статистика и аналитика"@, "adm:stats"@), cb("👥 Список пользователей"@, "adm:users"@)],
        seq![cb("🎁 Всем +5 раскладов"@, "adm:give_all_energy_5"@), cb("⭐ Выдать Премиум"@, "adm:manage_premium"@)],
        seq![cb("🔒 Whitelist статус"@, "adm:whitelist"@), cb("🔄 Обновить данные"@, "adm:refresh"@)],
    ]
}

/// The keyboard of the admin control panel.
pub fn admin_panel_keyboard() -> (k: Keyboard)
    ensures
        k@ == admin_panel_rows(),
{
    let mut rows: Vec<Vec<Button>> = Vec::new();
    push_row(&mut rows, row2(callback("📊 Статистика и аналитика", "adm:stats"), callback("👥 Список пользователей", "adm:users")));
    push_row(
        &mut rows,
        row2(callback("🎁 Всем +5 раскладов", "adm:give_all_energy_5"), callback("⭐ Выдать Премиум", "adm:manage_premium")),
    );
    push_row(&mut rows, row2(callback("🔒 Whitelist статус", "adm:whitelist"), callback("🔄 Обновить данные", "adm:refresh")));
    let k = Keyboard { rows };
    proof {
        assert(k@ =~= admin_panel_rows());
    }
    k
}

pub open spec fn back_to_panel_rows() -> Seq<Seq<ButtonView>> {
    seq![seq![cb("🔙 Назад в меню"@, "adm:main_menu"@)]]
}

/// A keyboard with one button back to the admin panel.
pub fn back_to_panel_keyboard() -> (k: Keyboard)
    ensures
        k@ == back_to_panel_rows(),
{
    let mut rows: Vec<Vec<Button>> = Vec::new();
    push_row(&mut rows, row1(callback("🔙 Назад в меню", "adm:main_menu")));
    let k = Keyboard { rows };
    proof {
        assert(k@ =~= back_to_panel_rows());
    }
    k
}

pub open spec fn manage_premium_rows() -> Seq<Seq<ButtonView>> {
    seq![
        seq![cb("👥 Открыть список пользователей"@, "adm:users"@)],
        seq![cb("🔙 Назад в меню"@, "adm:main_menu"@)],
    ]
}

/// The keyboard of the premium management screen.
pub fn manage_premium_keyboard() -> (k: Keyboard)
    ensures
        k@ == manage_premium_rows(),
{
    let mut rows: Vec<Vec<Button>> = Vec::new();
    push_row(&mut rows, row1(callback("👥 Открыть список пользователей", "adm:users")));
    push_row(&mut rows, row1(callback("🔙 Назад в меню", "adm:main_menu")));
    let k = Keyboard { rows };
    proof {
        assert(k@ =~= manage_premium_rows());
    }
    k
}

// ---------------------------------------------------------------------------
// Figures
// ---------------------------------------------------------------------------

/// The number of premium users.
pub open spec fn premium_count(users: Seq<User>) -> nat
    decreases users.len(),
{
    if users.len() == 0 {
        0
    } else {
        premium_count(users.drop_last()) + if users.last().is_premium {
            1nat
        } else {
            0nat
        }
    }
}

/// The total energy balance of the users.
pub open spec fn energy_total(users: Seq<User>) -> int
    decreases users.len(),
{
    if users.len() == 0 {
        0
    } else {
        energy_total(users.drop_last()) + users.last().energy_balance
    }
}

/// Every running total of the energy balances fits in an `i64`.
pub open spec fn energy_totals_fit(users: Seq<User>) -> bool {
    forall|k: int| 0 <= k <= users.len() ==> i64::MIN <= #[trigger] energy_total(users.take(k)) <= i64::MAX
}

/// The number of premium users and the total energy balance, for the
/// statistics screen.
pub fn user_stats(users: &Vec<User>) -> (r: (usize, i64))
    requires
        energy_totals_fit(users@),
    ensures
        r.0 == premium_count(users@),
        r.1 == energy_total(users@),
{
    let n = users.len();
    let mut premium: usize = 0;
    let mut total: i64 = 0;
    for i in 0..n
        invariant
            n == users@.len(),
            energy_totals_fit(users@),
            premium == premium_count(users@.take(i as int)),
            premium <= i,
            total == energy_total(users@.take(i as int)),
    {
        let u = &users[i];
        proof {
            let t = users@.take(i + 1);
            assert(t.drop_last() =~= users@.take(i as int));
            assert(t.last() == users@[i as int]);
            assert(i64::MIN <= energy_total(users@.take(i + 1)) <= i64::MAX);
        }
        if u.is_premium {
            premium = premium + 1;
        }
        total = total + u.energy_balance;
    }
    proof {
        assert(users@.take(n as int) =~= users@);
    }
    (premium, total)
}

/// The line of the user list for the user at place `idx` (counted from 0):
/// `<n>. <b><name></b> (ID: <code><id></code>) | ⚡ Энергия: <energy>`,
/// marked when premium, where the name is the user name or else the first
/// name.
pub open spec fn user_line(idx: nat, u: User) -> Seq<char> {
    decimal(idx + 1) + ". <b>"@ + (match u.username {
        Some(n) => n@,
        None => u.first_name@,
    }) + "</b> (ID: <code>"@ + signed_decimal(u.telegram_id as int) + "</code>) | ⚡ Энергия: "@
        + signed_decimal(u.energy_balance as int) + (if u.is_premium {
        " ⭐[ПРЕМИУМ]"@
    } else {
        Seq::<char>::empty()
    }) + "\n"@
}

/// The lines of the first `k` users.
pub open spec fn user_lines(users: Seq<User>, k: nat) -> Seq<char>
    decreases k,
{
    if k == 0 {
        Seq::<char>::empty()
    } else {
        user_lines(users, (k - 1) as nat) + user_line((k - 1) as nat, users[k - 1])
    }
}

/// The user list screen: a heading, the first 15 users (or a note that
/// there are none), and how to grant premium or readings.
pub open spec fn user_list_text(users: Seq<User>) -> Seq<char> {
    "👥 <b>Список пользователей:</b>\n\n"@ + (if users.len() == 0 {
        "Нет зарегистрированных пользователей.\n"@
    } else {
        user_lines(users, if users.len() < 15 { users.len() } else { 15 })
    })
        + "\n<i>Для выдачи премиума или раскладов отправьте команду:</i>\n<code>/grant_premium &lt;ID&gt; 30</code> или <code>/grant_energy &lt;ID&gt; 5</code>"@
}

/// Appends the line of one user.
#[verifier::rlimit(40)]
fn push_user_line(out: &mut String, idx: usize, u: &User)
    requires
        idx < 15,
    ensures
        final(out)@ == old(out)@ + user_line(idx as nat, *u),
{
    let ghost start = out@;
    push_decimal(out, (idx + 1) as u64);
    out.append(". <b>");
    match &u.username {
        Some(n) => out.append(n.as_str()),
        None => out.append(u.first_name.as_str()),
    }
    out.append("</b> (ID: <code>");
    let ghost mid = out@;
    proof {
        assert(mid =~= start + decimal((idx + 1) as nat) + ". <b>"@ + (match u.username {
            Some(n) => n@,
            None => u.first_name@,
        }) + "</b> (ID: <code>"@);
    }
    push_signed_decimal(out, u.telegram_id);
    out.append("</code>) | ⚡ Энергия: ");
    push_signed_decimal(out, u.energy_balance);
    if u.is_premium {
        out.append(" ⭐[ПРЕМИУМ]");
    }
    out.append("\n");
    proof {
        assert(out@ =~= mid + signed_decimal(u.telegram_id as int) + "</code>) | ⚡ Энергия: "@
            + signed_decimal(u.energy_balance as int) + (if u.is_premium {
            " ⭐[ПРЕМИУМ]"@
        } else {
            Seq::<char>::empty()
        }) + "\n"@);
        assert(out@ =~= start + user_line(idx as nat, *u));
    }
}

/// The text of the user list screen.
pub fn user_list(users: &Vec<User>) -> (r: String)
    ensures
        r@ == user_list_text(users@),
{
    let mut text = String::from_str("👥 <b>Список пользователей:</b>\n\n");
    let ghost head = text@;
    if users.len() == 0 {
        text.append("Нет зарегистрированных пользователей.\n");
    } else {
        let k = if users.len() < 15 {
            users.len()
        } else {
            15
        };
        for i in 0..k
            invariant
                k <= users@.len(),
                k <= 15,
                text@ == head + user_lines(users@, i as nat),
        {
            push_user_line(&mut text, i, &users[i]);
            proof {
                assert(text@ =~= head + user_lines(users@, (i + 1) as nat));
            }
        }
    }
    text.append(
        "\n<i>Для выдачи премиума или раскладов отправьте команду:</i>\n<code>/grant_premium &lt;ID&gt; 30</code> или <code>/grant_energy &lt;ID&gt; 5</code>",
    );
    proof {
        assert(text@ =~= user_list_text(users@));
    }
    text
}

// ---------------------------------------------------------------------------
// The separate settings bot
// ---------------------------------------------------------------------------

/// The settings bot serves only the whitelisted user (`@Studia_taro` when
/// none is set), compared without regard to ASCII case; a sender without
/// user name counts as the empty name.
pub open spec fn settings_bot_allows(allowed: Option<Seq<char>>, username: Option<Seq<char>>) -> bool {
    same_ignoring_ascii_case(
        match username {
            Some(u) => u,
            None => Seq::<char>::empty(),
        },
        match allowed {
            Some(a) => a,
            None => "Studia_taro"@,
        },
    )
}

/// Whether the settings bot serves `username`.
pub fn settings_bot_admits(allowed: Option<&str>, username: Option<&str>) -> (r: bool)
    ensures
        r == settings_bot_allows(opt_str(allowed), opt_str(username)),
{
    let name = match username {
        Some(u) => u,
        None => "",
    };
    let owner = match allowed {
        Some(a) => a,
        None => "Studia_taro",
    };
    proof {
        reveal_strlit("");
    }
    eq_ignore_ascii_case(name, owner)
}

pub open spec fn settings_dashboard_rows() -> Seq<Seq<ButtonView>> {
    seq![
        seq![cb("📊 Статистика пользователей"@, "adm:stats"@), cb("👥 Список пользователей"@, "adm:users"@)],
        seq![cb("🎁 Выдать +10 раскладов"@, "adm:grant_all"@), cb("🔒 Проверить Whitelist"@, "adm:toggle_whitelist"@)],
        seq![cb("🔄 Обновить панель"@, "adm:refresh"@)],
    ]
}

/// The keyboard of the settings bot's control panel.
pub fn admin_dashboard_keyboard() -> (k: Keyboard)
    ensures
        k@ == settings_dashboard_rows(),
{
    let mut rows: Vec<Vec<Button>> = Vec::new();
    push_row(&mut rows, row2(callback("📊 Статистика пользователей", "adm:stats"), callback("👥 Список пользователей", "adm:users")));
    push_row(
        &mut rows,
        row2(callback("🎁 Выдать +10 раскладов", "adm:grant_all"), callback("🔒 Проверить Whitelist", "adm:toggle_whitelist")),
    );
    push_row(&mut rows, row1(callback("🔄 Обновить панель", "adm:refresh")));
    let k = Keyboard { rows };
    proof {
        assert(k@ =~= settings_dashboard_rows());
    }
    k
}

/// A screen of the settings bot.
#[derive(Clone, Copy, Debug, PartialEq, Eq, Structural)]
pub enum SettingsRoute {
    Stats,
    Users,
    GrantAll,
    Whitelist,
    Refresh,
    Unknown,
}

pub open spec fn settings_route_of(d: Seq<char>) -> SettingsRoute {
    if d == "adm:stats"@ {
        SettingsRoute::Stats
    } else if d == "adm:users"@ {
        SettingsRoute::Users
    } else if d == "adm:grant_all"@ {
        SettingsRoute::GrantAll
    } else if d == "adm:toggle_whitelist"@ {
        SettingsRoute::Whitelist
    } else if d == "adm:refresh"@ {
        SettingsRoute::Refresh
    } else {
        SettingsRoute::Unknown
    }
}

/// The screen of the settings bot a button press leads to.
pub fn settings_route(d: &str) -> (r: SettingsRoute)
    ensures
        r == settings_route_of(d@),
{
    if str_eq(d, "adm:stats") {
        SettingsRoute::Stats
    } else if str_eq(d, "adm:users") {
        SettingsRoute::Users
    } else if str_eq(d, "adm:grant_all") {
        SettingsRoute::GrantAll
    } else if str_eq(d, "adm:toggle_whitelist") {
        SettingsRoute::Whitelist
    } else if str_eq(d, "adm:refresh") {
        SettingsRoute::Refresh
    } else {
        SettingsRoute::Unknown
    }
}

/// The line of the settings bot's user list for one user.
pub open spec fn settings_user_line(u: User) -> Seq<char> {
    "• ID: <code>"@ + signed_decimal(u.telegram_id as int) + "</code> | @"@ + (match u.username {
        Some(n) => n@,
        None => "нет"@,
    }) + " | Имя: "@ + u.first_name@ + "\n"@
}

/// The lines of the first `k` users.
pub open spec fn settings_user_lines(users: Seq<User>, k: nat) -> Seq<char>
    decreases k,
{
    if k == 0 {
        Seq::<char>::empty()
    } else {
        settings_user_lines(users, (k - 1) as nat) + settings_user_line(users[k - 1])
    }
}

/// The settings bot's user list: a heading, then the first 10 users, or a
/// note that there are none.
pub open spec fn settings_user_list_text(users: Seq<User>) -> Seq<char> {
    "👥 <b>Список пользователей:</b>\n\n"@ + if users.len() == 0 {
        "<i>Пока нет активных пользователей</i>"@
    } else {
        settings_user_lines(users, if users.len() < 10 { users.len() } else { 10 })
    }
}

/// Appends one user's line of the settings bot's list.
fn push_settings_user_line(text: &mut String, u: &User)
    ensures
        final(text)@ == old(text)@ + settings_user_line(*u),
{
    text.append("• ID: <code>");
    push_signed_decimal(text, u.telegram_id);
    text.append("</code> | @");
    match &u.username {
        Some(n) => text.append(n.as_str()),
        None => text.append("нет"),
    }
    text.append(" | Имя: ");
    text.append(u.first_name.as_str());
    text.append("\n");
    proof {
        assert(text@ =~= old(text)@ + settings_user_line(*u));
    }
}

/// The text of the settings bot's user list.
pub fn settings_user_list(users: &Vec<User>) -> (r: String)
    ensures
        r@ == settings_user_list_text(users@),
{
    let mut text = String::from_str("👥 <b>Список пользователей:</b>\n\n");
    let ghost head = text@;
    if users.len() == 0 {
        text.append("<i>Пока нет активных пользователей</i>");
    } else {
        let k = if users.len() < 10 {
            users.len()
        } else {
            10
        };
        for i in 0..k
            invariant
                k <= users@.len(),
                text@ == head + settings_user_lines(users@, i as nat),
        {
            push_settings_user_line(&mut text, &users[i]);
            proof {
                assert(text@ =~= head + settings_user_lines(users@, (i + 1) as nat));
            }
        }
    }
    proof {
        assert(text@ =~= settings_user_list_text(users@));
    }
    text
}

// ---------------------------------------------------------------------------
// Screen texts
// ---------------------------------------------------------------------------

/// The confirmation of a premium grant.
pub open spec fn premium_granted_text(user_id: i64, days: i64) -> Seq<char> {
    "✅ Пользователю <code>"@ + signed_decimal(user_id as int) + "</code> успешно выдан <b>Премиум на "@
        + signed_decimal(days as int) + " дней</b>!"@
}

/// The confirmation of a premium grant.
pub fn premium_granted(user_id: i64, days: i64) -> (r: String)
    ensures
        r@ == premium_granted_text(user_id, days),
{
    let mut out = String::from_str("✅ Пользователю <code>");
    push_signed_decimal(&mut out, user_id);
    out.append("</code> успешно выдан <b>Премиум на ");
    push_signed_decimal(&mut out, days);
    out.append(" дней</b>!");
    out
}

/// The confirmation of an energy grant.
pub open spec fn energy_granted_text(user_id: i64, amount: i64) -> Seq<char> {
    "✅ Пользователю <code>"@ + signed_decimal(user_id as int) + "</code> успешно начислено <b>+"@
        + signed_decimal(amount as int) + " раскладов энергии</b>!"@
}

/// The confirmation of an energy grant.
pub fn energy_granted(user_id: i64, amount: i64) -> (r: String)
    ensures
        r@ == energy_granted_text(user_id, amount),
{
    let mut out = String::from_str("✅ Пользователю <code>");
    push_signed_decimal(&mut out, user_id);
    out.append("</code> успешно начислено <b>+");
    push_signed_decimal(&mut out, amount);
    out.append(" раскладов энергии</b>!");
    out
}

/// The statistics screen of the admin panel.
pub open spec fn stats_screen_text(users: nat, premium: nat, energy: i64, model: Seq<char>, whitelisted: Seq<char>) -> Seq<char> {
    "📊 <b>Статистика и аналитика системы:</b>\n\n👤 Всего пользователей: <b>"@ + decimal(users)
        + "</b>\n⭐ Активных Премиум-подписок: <b>"@ + decimal(premium)
        + "</b>\n⚡ Суммарный баланс доп. энергии: <b>"@ + signed_decimal(energy as int)
        + "</b>\n🗄 База данных: <b>SQLite (активна)</b>\n🤖 ИИ Модель: <b>"@ + model
        + "</b>\n🔒 Whitelist: <b>@"@ + whitelisted + "</b>"@
}

/// The statistics screen of the admin panel.
pub fn stats_screen(users: usize, premium: usize, energy: i64, model: &str, whitelisted: &str) -> (r: String)
    ensures
        r@ == stats_screen_text(users as nat, premium as nat, energy, model@, whitelisted@),
{
    let mut out = String::from_str("📊 <b>Статистика и аналитика системы:</b>\n\n👤 Всего пользователей: <b>");
    push_decimal(&mut out, users as u64);
    out.append("</b>\n⭐ Активных Премиум-подписок: <b>");
    push_decimal(&mut out, premium as u64);
    out.append("</b>\n⚡ Суммарный баланс доп. энергии: <b>");
    push_signed_decimal(&mut out, energy);
    out.append("</b>\n🗄 База данных: <b>SQLite (активна)</b>\n🤖 ИИ Модель: <b>");
    out.append(model);
    out.append("</b>\n🔒 Whitelist: <b>@");
    out.append(whitelisted);
    out.append("</b>");
    proof {
        assert(out@ =~= stats_screen_text(users as nat, premium as nat, energy, model@, whitelisted@));
    }
    out
}

/// The report of the +5 energy gift to every user.
pub open spec fn energy_gift_text(count: nat) -> Seq<char> {
    "🎁 <b>Массовое начисление энергии:</b>\n\n✅ Всем <b>"@ + decimal(count)
        + "</b> пользователям успешно начислено <b>+5 раскладов</b>!\nБаланс энергии обновлен в базе данных."@
}

/// The report of the +5 energy gift to every user.
pub fn energy_gift(count: usize) -> (r: String)
    ensures
        r@ == energy_gift_text(count as nat),
{
    let mut out = String::from_str("🎁 <b>Массовое начисление энергии:</b>\n\n✅ Всем <b>");
    push_decimal(&mut out, count as u64);
    out.append("</b> пользователям успешно начислено <b>+5 раскладов</b>!\nБаланс энергии обновлен в базе данных.");
    out
}

/// The whitelist screen of the admin panel.
pub open spec fn panel_whitelist_text(whitelisted: Seq<char>) -> Seq<char> {
    "🔒 <b>Настройка доступа (Whitelist):</b>\n\nТекущий разрешенный пользователь: <b>@"@ + whitelisted
        + "</b>\nЧтобы изменить доступ другому человеку, измените параметр <code>ALLOWED_USERNAME</code> в файле .env"@
}

/// The whitelist screen of the admin panel.
pub fn panel_whitelist(whitelisted: &str) -> (r: String)
    ensures
        r@ == panel_whitelist_text(whitelisted@),
{
    let mut out = String::from_str("🔒 <b>Настройка доступа (Whitelist):</b>\n\nТекущий разрешенный пользователь: <b>@");
    out.append(whitelisted);
    out.append(
        "</b>\nЧтобы изменить доступ другому человеку, измените параметр <code>ALLOWED_USERNAME</code> в файле .env",
    );
    out
}

/// The settings bot's greeting: the administrator and who the main bot is
/// open to.
pub open spec fn settings_panel_text(username: Seq<char>, allowed: Seq<char>) -> Seq<char> {
    "🛠️ <b>Панель управления и настроек бота</b>\n\n👤 <b>Администратор:</b> @"@ + username
        + "\n🎯 <b>Whitelist доступ:</b> @"@ + allowed + "\n\nВыберите действие для настройки основного бота:"@
}

/// The settings bot's greeting.
pub fn settings_panel(username: &str, allowed: &str) -> (r: String)
    ensures
        r@ == settings_panel_text(username@, allowed@),
{
    let mut out = String::from_str("🛠️ <b>Панель управления и настроек бота</b>\n\n👤 <b>Администратор:</b> @");
    out.append(username);
    out.append("\n🎯 <b>Whitelist доступ:</b> @");
    out.append(allowed);
    out.append("\n\nВыберите действие для настройки основного бота:");
    out
}

/// The settings bot's statistics.
pub open spec fn settings_stats_text(count: nat, allowed: Seq<char>) -> Seq<char> {
    "📊 <b>Статистика системы</b>\n\n👥 Пользователей в БД: <b>"@ + decimal(count)
        + "</b>\n🃏 Бесплатных раскладов на старте: <b>10</b>\n🔒 Whitelist: <b>@"@ + allowed
        + "</b>\n💾 База данных: <b>SQLite Active</b>"@
}

/// The settings bot's statistics.
pub fn settings_stats(count: usize, allowed: &str) -> (r: String)
    ensures
        r@ == settings_stats_text(count as nat, allowed@),
{
    let mut out = String::from_str("📊 <b>Статистика системы</b>\n\n👥 Пользователей в БД: <b>");
    push_decimal(&mut out, count as u64);
    out.append("</b>\n🃏 Бесплатных раскладов на старте: <b>10</b>\n🔒 Whitelist: <b>@");
    out.append(allowed);
    out.append("</b>\n💾 База данных: <b>SQLite Active</b>");
    out
}

/// The settings bot's whitelist screen.
pub open spec fn settings_whitelist_text(allowed: Seq<char>) -> Seq<char> {
    "🔒 <b>Настройка Whitelist доступа</b>\n\nТекущий доступ открыт только для: <b>@"@ + allowed
        + "</b>\n\n<i>Чтобы изменить целевой аккаунт, укажите <code>ALLOWED_USERNAME=имя</code> в файле .env</i>"@
}

/// The settings bot's whitelist screen.
pub fn settings_whitelist(allowed: &str) -> (r: String)
    ensures
        r@ == settings_whitelist_text(allowed@),
{
    let mut out = String::from_str("🔒 <b>Настройка Whitelist доступа</b>\n\nТекущий доступ открыт только для: <b>@");
    out.append(allowed);
    out.append(
        "</b>\n\n<i>Чтобы изменить целевой аккаунт, укажите <code>ALLOWED_USERNAME=имя</code> в файле .env</i>",
    );
    out
}

} // verus!
