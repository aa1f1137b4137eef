use telegram_bot::access::{
    access_status, charge_plan, energy_after_debit, premium_grant, premium_grant_base, premium_is_active,
};
use telegram_bot::admin::settings_user_list;
use telegram_bot::models::ReadingHistory;
use telegram_bot::screens::history_text;
use telegram_bot::admin::{
    admin_command, admin_dashboard_keyboard, admin_route, settings_bot_admits, settings_route,
    user_list, user_stats, AdminCommand, AdminRoute, SettingsRoute,
};
use telegram_bot::ai::{bearer_header, completions_url, interpretation, normalized_base_url, reading_messages};
use telegram_bot::clock::Timestamp;
use telegram_bot::config::{parse_admin_usernames, Config, ConfigError, EnvSettings};
use telegram_bot::esoterics::astrology::sign_name;
use telegram_bot::esoterics::leela::LeelaGame;
use telegram_bot::esoterics::tarot::{
    spread_card_count, spread_name, sphere_title, subtopic_title, tarot_spheres, TarotDeck,
};
use telegram_bot::keyboards::{
    astrology_signs_keyboard, contact_tarologist_keyboard, main_menu_keyboard, tarot_pick_cards_keyboard,
    tarot_spheres_keyboard, tarot_spreads_keyboard, tarot_subtopics_keyboard, ButtonAction, Keyboard,
};
use telegram_bot::models::{AccessType, User};
use telegram_bot::routing::{
    callback_route, callback_whitelisted, message_route, message_whitelisted, route, CallbackRoute,
    MessageRoute, Tariff,
};
use telegram_bot::screens::{
    cards_list, cards_summary, free_readings_status, offer_part, remaining_notice, tariff_info,
};
use telegram_bot::states::State;
use telegram_bot::text::{
    eq_ignore_ascii_case, i64_text, parse_i32, parse_i64, parse_u64, parse_usize, split_char,
    split_whitespace, trim, u64_text,
};

fn user(energy: i64, is_premium: bool, until: Option<&str>) -> User {
    User {
        id: 1,
        telegram_id: 123456789,
        username: Some("Studia_taro".to_string()),
        first_name: "Studia".to_string(),
        last_name: None,
        is_offer_accepted: true,
        offer_accepted_at: None,
        energy_balance: energy,
        is_premium,
        premium_until: until.map(|s| s.to_string()),
        created_at: "2024-01-01 00:00:00".to_string(),
        last_active_at: "2024-01-01 00:00:00".to_string(),
    }
}

fn now() -> Timestamp {
    // 2024-06-01T00:00:00Z
    Timestamp { secs: 1717200000, nanos: 0 }
}

fn callback_data(k: &Keyboard, row: usize, col: usize) -> String {
    match &k.rows[row][col].action {
        ButtonAction::Callback(d) => d.clone(),
        ButtonAction::Url(u) => panic!("url button {}", u),
    }
}

fn env(token: Option<&str>, key: Option<&str>) -> EnvSettings {
    EnvSettings {
        teloxide_token: token.map(|s| s.to_string()),
        database_url: None,
        ai_base_url: None,
        ai_api_key: key.map(|s| s.to_string()),
        ai_model: None,
        ai_timeout_secs: None,
        daily_free_readings: None,
        max_free_readings: None,
        allowed_username: None,
        admin_usernames: None,
        user_bot_name: None,
        admin_bot_name: None,
    }
}

// --- the access rule, in the order a new user meets it ---

#[test]
fn access_sequence_of_a_new_user() {
    let mut u = user(0, false, None);
    let st = access_status(Some(&u), 0, 1, now());
    assert!(st.can_access);
    assert_eq!(st.access_type, AccessType::DailyFree);
    assert_eq!(st.daily_used_today, 0);
    let plan = charge_plan(&st).expect("a granted reading is charged");
    assert_eq!(plan.access_type, AccessType::DailyFree);
    assert_eq!(plan.energy_balance, 0);

    let st2 = access_status(Some(&u), 1, 1, now());
    assert!(!st2.can_access);
    assert_eq!(st2.daily_used_today, 1);
    assert!(charge_plan(&st2).is_none());

    u.energy_balance += 5;
    let st3 = access_status(Some(&u), 1, 1, now());
    assert!(st3.can_access);
    assert_eq!(st3.access_type, AccessType::EnergyPackage);
    assert_eq!(st3.energy_balance, 5);
    let plan3 = charge_plan(&st3).expect("energy pays");
    assert_eq!(plan3.access_type, AccessType::EnergyPackage);
    assert_eq!(plan3.energy_balance, 4);
    assert_eq!(energy_after_debit(5), 4);

    let grant = premium_grant(Some(&u), now(), 30).expect("grant");
    assert_eq!(grant.until, Timestamp { secs: 1717200000 + 30 * 86400, nanos: 0 });
    u.is_premium = true;
    u.premium_until = Some(grant.until_text.clone());
    let st4 = access_status(Some(&u), 1, 1, now());
    assert!(st4.can_access);
    assert_eq!(st4.access_type, AccessType::Premium);
    assert!(st4.is_premium);
    assert_eq!(st4.premium_until.as_deref(), Some(grant.until_text.as_str()));
}

#[test]
fn unknown_user_gets_the_daily_quota_only() {
    let st = access_status(None, 2, 3, now());
    assert!(st.can_access);
    assert_eq!(st.access_type, AccessType::DailyFree);
    assert_eq!(st.energy_balance, 0);
    let st2 = access_status(None, 3, 3, now());
    assert!(!st2.can_access);
    assert_eq!(st2.access_type, AccessType::DailyFree);
}

#[test]
fn premium_without_end_date_is_unlimited() {
    let u = user(0, true, None);
    assert!(premium_is_active(&u, now()));
    let st = access_status(Some(&u), 100, 1, now());
    assert_eq!(st.access_type, AccessType::Premium);
    assert_eq!(st.premium_until, None);
}

#[test]
fn expired_or_unreadable_premium_is_not_in_force() {
    let expired = user(0, true, Some("2024-05-01T00:00:00+00:00"));
    assert!(!premium_is_active(&expired, now()));
    let garbage = user(0, true, Some("tomorrow"));
    assert!(!premium_is_active(&garbage, now()));
    let flag_off = user(0, false, Some("2030-01-01T00:00:00+00:00"));
    assert!(!premium_is_active(&flag_off, now()));
    let active = user(0, true, Some("2024-06-01T00:00:01+00:00"));
    assert!(premium_is_active(&active, now()));
    let st = access_status(Some(&expired), 0, 1, now());
    assert!(!st.is_premium);
    assert_eq!(st.premium_until, None);
}

#[test]
fn energy_debit_never_goes_below_zero() {
    assert_eq!(energy_after_debit(1), 0);
    assert_eq!(energy_after_debit(0), 0);
    assert_eq!(energy_after_debit(-3), 0);
    assert_eq!(energy_after_debit(10), 9);
}

#[test]
fn grant_extends_a_running_premium() {
    let u = user(0, true, Some("2024-07-01T00:00:00+00:00"));
    let base = premium_grant_base(Some(&u), now());
    assert_eq!(base, Timestamp { secs: 1719792000, nanos: 0 });
    let g = premium_grant(Some(&u), now(), 10).expect("grant");
    assert_eq!(g.until, Timestamp { secs: 1719792000 + 10 * 86400, nanos: 0 });
    assert_eq!(g.until_text, "2024-07-11T00:00:00+00:00");
    let expired = user(0, true, Some("2020-01-01T00:00:00+00:00"));
    assert_eq!(premium_grant_base(Some(&expired), now()), now());
    assert_eq!(premium_grant_base(None, now()), now());
}

#[test]
fn grant_out_of_range_is_refused() {
    assert!(premium_grant(None, now(), i64::MAX).is_none());
}

// --- chrono wrappers ---

#[test]
fn rfc3339_reading_and_writing() {
    // An offset end date is read as the same instant in UTC.
    let offset = user(0, true, Some("2024-06-01T03:00:00+03:00"));
    assert_eq!(premium_grant_base(Some(&offset), now()), now());
    let later = user(0, true, Some("2024-06-01T03:00:01+03:00"));
    assert_eq!(premium_grant_base(Some(&later), now()), Timestamp { secs: 1717200001, nanos: 0 });
    let frac = user(0, true, Some("2024-06-01T00:00:00.5Z"));
    assert_eq!(premium_grant_base(Some(&frac), now()), Timestamp { secs: 1717200000, nanos: 500_000_000 });
    let garbage = user(0, true, Some("not a date"));
    assert_eq!(premium_grant_base(Some(&garbage), now()), now());
    // Whole days are added and the end is written in RFC 3339.
    let g = premium_grant(None, now(), 1).expect("grant");
    assert_eq!(g.until, Timestamp { secs: 1717200000 + 86400, nanos: 0 });
    assert_eq!(g.until_text, "2024-06-02T00:00:00+00:00");
    let back = premium_grant(None, now(), -1).expect("grant");
    assert_eq!(back.until, Timestamp { secs: 1717200000 - 86400, nanos: 0 });
    assert_eq!(back.until_text, "2024-05-31T00:00:00+00:00");
    assert!(now().is_after(&Timestamp { secs: 1717199999, nanos: 999 }));
    assert!(!now().is_after(&now()));
}

// --- configuration ---

#[test]
fn configuration_defaults_and_required_values() {
    let c = Config::from_settings(&env(Some("t"), Some("k"))).expect("config");
    assert_eq!(c.database_url, "sqlite://bot.db?mode=rwc");
    assert_eq!(c.ai_base_url, "http://192.124.181.128:8045/v1");
    assert_eq!(c.ai_model, "gemini-3.7-flash-high");
    assert_eq!(c.ai_timeout_secs, 60);
    assert_eq!(c.daily_free_readings, 3);
    assert_eq!(c.max_free_lifetime_readings, 10);
    assert_eq!(c.admin_usernames, vec!["mixanik2000".to_string(), "studia_taro".to_string()]);
    assert_eq!(c.user_bot_name, "arch_reality_2026_bot");
    assert_eq!(c.admin_bot_name, "arch_settings_bot");
    assert_eq!(c.allowed_username, None);

    assert_eq!(Config::from_settings(&env(None, Some("k"))).unwrap_err(), ConfigError::MissingToken);
    assert_eq!(Config::from_settings(&env(None, None)).unwrap_err(), ConfigError::MissingToken);
    assert_eq!(Config::from_settings(&env(Some("t"), None)).unwrap_err(), ConfigError::MissingApiKey);

    let mut e = env(Some("t"), Some("k"));
    e.ai_timeout_secs = Some("15".to_string());
    e.daily_free_readings = Some("x".to_string());
    e.max_free_readings = Some("-2".to_string());
    let c2 = Config::from_settings(&e).unwrap();
    assert_eq!(c2.ai_timeout_secs, 15);
    assert_eq!(c2.daily_free_readings, 3);
    assert_eq!(c2.max_free_lifetime_readings, -2);
}

#[test]
fn configuration_validation() {
    let c = Config::from_settings(&env(Some("t"), Some("k"))).unwrap();
    assert_eq!(c.validate(), Ok(()));
    let mut blank = c.clone();
    blank.teloxide_token = "  \t".to_string();
    assert_eq!(blank.validate(), Err(ConfigError::EmptyToken));
    let mut no_key = c.clone();
    no_key.ai_api_key = String::new();
    assert_eq!(no_key.validate(), Err(ConfigError::EmptyApiKey));
    let mut no_url = c.clone();
    no_url.ai_base_url = " ".to_string();
    assert_eq!(no_url.validate(), Err(ConfigError::EmptyBaseUrl));
    assert_eq!(ConfigError::EmptyApiKey.message(), "AI API key cannot be empty");
    assert_eq!(ConfigError::MissingToken.message(), "TELOXIDE_TOKEN must be set in .env or environment");
}

#[test]
fn admin_list_is_normalised() {
    assert_eq!(
        parse_admin_usernames(" @Foo , ,bar,@@Baz"),
        vec!["foo".to_string(), "bar".to_string(), "baz".to_string()]
    );
    assert_eq!(parse_admin_usernames(""), Vec::<String>::new());
    let mut c = Config::from_settings(&env(Some("t"), Some("k"))).unwrap();
    c.admin_usernames = parse_admin_usernames("Boss");
    assert!(c.is_admin(Some("@BOSS")));
    assert!(!c.is_admin(None));
}

// --- text helpers ---

#[test]
fn integer_reading_follows_from_str() {
    assert_eq!(parse_i64("+5"), Some(5));
    assert_eq!(parse_i64("-0"), Some(0));
    assert_eq!(parse_i64("-9223372036854775808"), Some(i64::MIN));
    assert_eq!(parse_i64("9223372036854775808"), None);
    assert_eq!(parse_i64(""), None);
    assert_eq!(parse_i64("+"), None);
    assert_eq!(parse_i64(" 5"), None);
    assert_eq!(parse_u64("-5"), None);
    assert_eq!(parse_u64("18446744073709551615"), Some(u64::MAX));
    assert_eq!(parse_usize("007"), Some(7));
    assert_eq!(parse_i32("2147483648"), None);
    assert_eq!(parse_i32("-2147483648"), Some(i32::MIN));
    assert_eq!(u64_text(0), "0");
    assert_eq!(u64_text(1234567890), "1234567890");
    assert_eq!(i64_text(i64::MIN), "-9223372036854775808");
}

#[test]
fn splitting_and_trimming() {
    assert_eq!(split_char("a:b::c", ':'), vec!["a", "b", "", "c"]);
    assert_eq!(split_char("", ':'), vec![""]);
    assert_eq!(split_whitespace("  /grant_premium \t 12  30 \n"), vec!["/grant_premium", "12", "30"]);
    assert_eq!(split_whitespace("   "), Vec::<String>::new());
    assert_eq!(trim("\u{3000} x y \n"), "x y");
    assert!(eq_ignore_ascii_case("StudiA_Taro", "studia_taro"));
    assert!(!eq_ignore_ascii_case("Studia", "Studia_taro"));
    assert!(!eq_ignore_ascii_case("Ä", "ä"));
}

// --- tables and draws ---

#[test]
fn draws_are_distinct_and_bounded() {
    for _ in 0..20 {
        let all = TarotDeck::draw_cards(100);
        assert_eq!(all.len(), 36);
        let mut names: Vec<&str> = all.iter().map(|(c, _)| c.name).collect();
        names.sort();
        names.dedup();
        assert_eq!(names.len(), 36);
    }
    assert_eq!(TarotDeck::draw_cards(0).len(), 0);
}

#[test]
fn dice_stays_between_one_and_six() {
    let cells = LeelaGame::cells();
    for _ in 0..200 {
        let (dice, cell) = LeelaGame::roll_and_get_cell();
        assert!((1..=6).contains(&dice));
        assert!(cells.iter().any(|c| c.number == cell.number && c.name == cell.name));
    }
}

#[test]
fn table_lookups() {
    assert_eq!(sphere_title("love"), "💖 Любовь и Отношения");
    assert_eq!(sphere_title("nope"), "Сфера");
    assert_eq!(subtopic_title("career", "growth"), "Точки роста и скрытые возможности");
    assert_eq!(subtopic_title("career", "feelings"), "Вопрос");
    assert_eq!(subtopic_title("nope", "growth"), "Вопрос");
    assert_eq!(spread_name("three_cards"), "🔮 Триада Времени: Прошлое - Настоящее - Будущее (3 карты)");
    assert_eq!(spread_name("x"), "Расклад");
    assert_eq!(sign_name("leo"), "♌ Лев");
    assert_eq!(sign_name("x"), "Зодиак");
    assert_eq!(spread_card_count("one_card"), 1);
    assert_eq!(spread_card_count("three_cards"), 3);
    assert_eq!(tarot_spheres().len(), 4);
}

// --- keyboards and the data their buttons carry ---

#[test]
fn main_menu_layout() {
    let k = main_menu_keyboard();
    let widths: Vec<usize> = k.rows.iter().map(|r| r.len()).collect();
    assert_eq!(widths, vec![1, 1, 2, 2, 2, 1]);
    assert_eq!(k.rows[0][0].label, "🔮 Сделать расклад Таро");
    assert_eq!(callback_data(&k, 2, 1), "nav:leela");
    assert_eq!(callback_data(&k, 5, 0), "nav:restart");
}

#[test]
fn tarot_keyboards_lead_back_to_their_routes() {
    let spheres = tarot_spheres_keyboard();
    assert_eq!(spheres.rows.len(), 5);
    assert_eq!(callback_data(&spheres, 1, 0), "sphere:career");
    match route(&callback_data(&spheres, 1, 0)) {
        CallbackRoute::Sphere(k) => assert_eq!(k, "career"),
        _ => panic!("sphere"),
    }
    let subs = tarot_subtopics_keyboard("self");
    assert_eq!(subs.rows.len(), 4);
    assert_eq!(callback_data(&subs, 2, 0), "subtopic:self:shadow");
    match route(&callback_data(&subs, 2, 0)) {
        CallbackRoute::Subtopic(a, b) => assert_eq!((a.as_str(), b.as_str()), ("self", "shadow")),
        _ => panic!("subtopic"),
    }
    assert_eq!(tarot_subtopics_keyboard("nope").rows.len(), 1);
    let spreads = tarot_spreads_keyboard("love", "future");
    assert_eq!(callback_data(&spreads, 0, 0), "spread:love:future:one_card");
    assert_eq!(callback_data(&spreads, 2, 0), "sphere:love");
    let astro = astrology_signs_keyboard();
    assert_eq!(astro.rows.len(), 7);
    assert_eq!(callback_data(&astro, 5, 1), "astro:pisces");
}

#[test]
fn pick_keyboard_marks_open_cards() {
    let k = tarot_pick_cards_keyboard("love", "future", "three_cards", 3, &[4, 0]);
    assert_eq!(k.rows[0][0].label, "✨ Открыта");
    assert_eq!(callback_data(&k, 0, 0), "noop");
    assert_eq!(callback_data(&k, 1, 1), "noop");
    assert_eq!(callback_data(&k, 0, 2), "pick:love:future:three_cards:3:4-0-2");
    match route(&callback_data(&k, 0, 2)) {
        CallbackRoute::Pick(p) => {
            assert_eq!(p.sphere, "love");
            assert_eq!(p.subtopic, "future");
            assert_eq!(p.spread, "three_cards");
            assert_eq!(p.needed, 3);
            assert_eq!(p.picked, vec![4, 0, 2]);
        }
        _ => panic!("pick"),
    }
    let fresh = tarot_pick_cards_keyboard("a", "b", "one_card", 1, &[]);
    assert_eq!(callback_data(&fresh, 1, 2), "pick:a:b:one_card:1:5");
    assert_eq!(callback_data(&fresh, 2, 0), "sphere:a");
}

#[test]
fn contact_keyboard_pays_by_link_or_callback() {
    let with_link = contact_tarologist_keyboard(Some("https://yoomoney.ru"));
    match &with_link.rows[0][0].action {
        ButtonAction::Url(u) => assert_eq!(u, "https://yoomoney.ru"),
        _ => panic!("url"),
    }
    let without = contact_tarologist_keyboard(None);
    assert_eq!(callback_data(&without, 0, 0), "pay:tarologist_consultation");
}

// --- routing ---

#[test]
fn callback_routes() {
    assert!(matches!(callback_route(false, "accept_offer"), CallbackRoute::AcceptOffer));
    assert!(matches!(callback_route(false, "nav:tarot_spheres"), CallbackRoute::NeedOffer));
    assert!(matches!(callback_route(false, "legal:privacy"), CallbackRoute::LegalPrivacy));
    assert!(matches!(callback_route(false, "nav:main_menu"), CallbackRoute::MainMenu));
    assert!(matches!(callback_route(true, "nav:restart"), CallbackRoute::MainMenu));
    assert!(matches!(route("legal:offer"), CallbackRoute::LegalOffer(1)));
    assert!(matches!(route("legal:offer:2"), CallbackRoute::LegalOffer(2)));
    assert!(matches!(route("legal:offer:x"), CallbackRoute::LegalOffer(1)));
    assert!(matches!(route("pay:sub_year"), CallbackRoute::PayTariff(Tariff::Year)));
    assert!(matches!(route("subtopic:a:b:c"), CallbackRoute::Unknown));
    assert!(matches!(route("pick:a:b:c:2"), CallbackRoute::Unknown));
    assert!(matches!(route("toggle:deck_style"), CallbackRoute::Toggle));
    assert!(matches!(route("nav:leela"), CallbackRoute::Leela));
    assert!(matches!(route("whatever"), CallbackRoute::Unknown));
    match route("pick:s:t:p:zz:1-x-3") {
        CallbackRoute::Pick(p) => {
            assert_eq!(p.needed, 1);
            assert_eq!(p.picked, vec![1, 3]);
        }
        _ => panic!("pick"),
    }
}

#[test]
fn message_routes_and_whitelists() {
    assert_eq!(message_route(false, None, "/start"), MessageRoute::ShowOffer);
    assert_eq!(message_route(true, Some("Studia_taro"), "/admin"), MessageRoute::AdminPanel);
    assert_eq!(message_route(true, Some("studia_taro"), "/admin"), MessageRoute::RejectText);
    assert_eq!(message_route(true, None, "/reset"), MessageRoute::MainMenu);
    assert_eq!(message_route(true, None, "/offer"), MessageRoute::Offer);
    assert_eq!(message_route(true, None, "hello"), MessageRoute::RejectText);

    let mut c = Config::from_settings(&env(Some("t"), Some("k"))).unwrap();
    assert!(message_whitelisted(&c, None));
    c.allowed_username = Some("Owner".to_string());
    assert!(message_whitelisted(&c, Some("OWNER")));
    assert!(message_whitelisted(&c, Some("@mixanik2000")));
    assert!(!message_whitelisted(&c, Some("guest")));
    assert!(callback_whitelisted(Some("Owner"), Some("owner")));
    assert!(!callback_whitelisted(Some("Owner"), Some("mixanik2000")));
    assert!(!callback_whitelisted(Some("Owner"), None));
    assert!(callback_whitelisted(None, None));
}

// --- admin ---

#[test]
fn admin_commands() {
    assert_eq!(
        admin_command("  /grant_premium 123456789 30 "),
        AdminCommand::GrantPremium { user_id: 123456789, days: 30 }
    );
    assert_eq!(admin_command("/grant_premium 1"), AdminCommand::PremiumUsage);
    assert_eq!(admin_command("/grant_premium x 30"), AdminCommand::PremiumUsage);
    assert_eq!(admin_command("/grant_energy -5 5"), AdminCommand::GrantEnergy { user_id: -5, amount: 5 });
    assert_eq!(admin_command("/grant_energy 1 2 3"), AdminCommand::EnergyUsage);
    assert_eq!(admin_command("hi"), AdminCommand::Dashboard);
    assert_eq!(admin_command(""), AdminCommand::Dashboard);
    assert_eq!(admin_route("adm:refresh"), AdminRoute::MainMenu);
    assert_eq!(admin_route("adm:give_all_energy_5"), AdminRoute::GiveAllEnergy);
    assert_eq!(admin_route("adm:x"), AdminRoute::Unknown);
    assert_eq!(settings_route("adm:toggle_whitelist"), SettingsRoute::Whitelist);
    assert!(settings_bot_admits(None, Some("STUDIA_TARO")));
    assert!(!settings_bot_admits(Some("Boss"), Some("Studia_taro")));
    assert!(!settings_bot_admits(None, None));
    assert_eq!(admin_dashboard_keyboard().rows.len(), 3);
}

#[test]
fn admin_figures_and_list() {
    let mut a = user(3, true, None);
    a.username = None;
    let b = user(-1, false, None);
    let users = vec![a, b];
    assert_eq!(user_stats(&users), (1, 2));
    let text = user_list(&users);
    assert!(text.starts_with("👥 <b>Список пользователей:</b>\n\n1. <b>Studia</b> (ID: <code>123456789</code>) | ⚡ Энергия: 3 ⭐[ПРЕМИУМ]\n2. <b>Studia_taro</b>"));
    assert!(text.contains("| ⚡ Энергия: -1\n"));
    let empty = user_list(&Vec::new());
    assert!(empty.contains("Нет зарегистрированных пользователей."));
    let many: Vec<User> = (0..20).map(|_| user(0, false, None)).collect();
    let t = user_list(&many);
    assert!(t.contains("15. <b>"));
    assert!(!t.contains("16. <b>"));
}

// --- AI request parts ---

#[test]
fn ai_request_parts() {
    assert_eq!(normalized_base_url("http://host/v1//"), "http://host/v1");
    assert_eq!(completions_url("http://host/v1"), "http://host/v1/chat/completions");
    assert_eq!(bearer_header("k"), "Bearer k");
    let m = reading_messages("sys", "ctx");
    assert_eq!((m[0].role.as_str(), m[0].content.as_str()), ("system", "sys"));
    assert_eq!((m[1].role.as_str(), m[1].content.as_str()), ("user", "ctx"));
    assert_eq!(interpretation(&vec![Some("a".to_string()), Some("b".to_string())]), "a");
    assert_eq!(
        interpretation(&vec![None, Some("b".to_string())]),
        "Оракул сохранил молчание... Попробуйте повторить запрос позже."
    );
    assert_eq!(interpretation(&vec![]), "Оракул сохранил молчание... Попробуйте повторить запрос позже.");
}

// --- screens ---

#[test]
fn screen_parts() {
    assert_eq!(remaining_notice(5), "\n🎁 <i>Осталось бесплатных раскладов: 4</i>\n");
    assert_eq!(remaining_notice(1), "\n⚠️ <i>Это был ваш последний бесплатный расклад из 10.</i>\n");
    let deck = TarotDeck::cards();
    let drawn = vec![(deck[0], false), (deck[1], true)];
    assert_eq!(cards_summary(&drawn), "0. Шут (Дурак) (Прямая), I. Маг (Перевернутая)");
    assert_eq!(cards_list(&drawn), "• <b>0. Шут (Дурак) (Прямая)</b>\n• <b>I. Маг (Перевернутая)</b>");
    assert_eq!(tariff_info(Tariff::ThreeMonths), ("Безлимит «Маг» (3 месяца)", "1990 ₽"));
    assert_eq!(free_readings_status(3, 10), (true, 7));
    assert_eq!(free_readings_status(12, 10), (false, 0));
    assert_eq!(offer_part(0), 3);
    assert_eq!(offer_part(2), 2);
    assert_eq!(State::default(), State::Idle);
}

#[test]
fn draws_are_shuffled_and_sometimes_reversed() {
    let deck: Vec<&str> = TarotDeck::cards().iter().map(|c| c.name).collect();
    let mut reordered = false;
    let mut reversed = 0;
    let mut upright = 0;
    for _ in 0..20 {
        let drawn = TarotDeck::draw_cards(36);
        let names: Vec<&str> = drawn.iter().map(|(c, _)| c.name).collect();
        if names != deck {
            reordered = true;
        }
        for (_, r) in &drawn {
            if *r {
                reversed += 1;
            } else {
                upright += 1;
            }
        }
    }
    assert!(reordered);
    assert!(reversed > 0);
    assert!(upright > reversed);
}

#[test]
fn history_and_settings_lists() {
    let empty: Vec<ReadingHistory> = Vec::new();
    assert_eq!(
        history_text(&empty),
        "📚 <b>История ваших последних раскладов</b>\n\n<i>У вас пока нет сохраненных раскладов. Сделайте ваш первый расклад через главное меню!</i>"
    );
    let h = vec![ReadingHistory {
        id: 1,
        user_id: 7,
        reading_type: "tarot".to_string(),
        topic: "Love".to_string(),
        subtopic: None,
        selected_cards: "I. Маг (Прямая)".to_string(),
        ai_interpretation: "ok".to_string(),
        created_at: "2024-01-02".to_string(),
    }];
    assert_eq!(
        history_text(&h),
        "📚 <b>История ваших последних раскладов</b>\n\n1. <b>Love</b> (<i>tarot</i>)\nКарты: <code>I. Маг (Прямая)</code>\n📅 2024-01-02\n\n"
    );
    let mut u = user(0, false, None);
    u.username = None;
    u.telegram_id = -4;
    assert_eq!(
        settings_user_list(&vec![u]),
        "👥 <b>Список пользователей:</b>\n\n• ID: <code>-4</code> | @нет | Имя: Studia\n"
    );
    assert_eq!(settings_user_list(&Vec::new()), "👥 <b>Список пользователей:</b>\n\n<i>Пока нет активных пользователей</i>");
}
