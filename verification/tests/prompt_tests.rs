use telegram_bot::access::{access_status, charge_plan, premium_grant, tally_day};
use telegram_bot::admin::{
    energy_gift, energy_granted, panel_whitelist, premium_granted, settings_panel, settings_stats,
    settings_whitelist, stats_screen,
};
use telegram_bot::clock::Timestamp;
use telegram_bot::config::{Config, EnvSettings};
use telegram_bot::esoterics::tarot::TarotDeck;
use telegram_bot::keyboards::{architect_panel_keyboard, back_keyboard, ButtonAction, Keyboard};
use telegram_bot::models::{AccessType, User};
use telegram_bot::esoterics::leela::LeelaCell;
use telegram_bot::prompts::{
    access_denied, bot_stats, gates_open, offer_page, offer_welcome, profile_text, sphere_heading,
    tariff_chosen, temple_greeting, whitelist_status, astrology_prompt, astrology_reading, day_card_caption, day_card_fallback, day_card_prompt, dice_roll,
    free_limit_notice, leela_prompt, leela_reading, legal_menu_keyboard, menu_greeting,
    offer_pagination_keyboard, picked_progress, spread_intro, tarot_prompt, tarot_reading,
};

fn now() -> Timestamp {
    // 2024-06-01T00:00:00Z
    Timestamp { secs: 1717200000, nanos: 0 }
}

fn customer(energy: i64, is_premium: bool, until: Option<String>) -> User {
    User {
        id: 7,
        telegram_id: 42,
        username: None,
        first_name: "Ann".to_string(),
        last_name: None,
        is_offer_accepted: true,
        offer_accepted_at: None,
        energy_balance: energy,
        is_premium,
        premium_until: until,
        created_at: "2024-01-01 00:00:00".to_string(),
        last_active_at: "2024-01-01 00:00:00".to_string(),
    }
}

fn data_of(k: &Keyboard) -> Vec<Vec<String>> {
    k.rows
        .iter()
        .map(|row| {
            row.iter()
                .map(|b| match &b.action {
                    ButtonAction::Callback(d) => d.clone(),
                    ButtonAction::Url(u) => u.clone(),
                })
                .collect()
        })
        .collect()
}

#[test]
fn refused_request_is_not_charged() {
    let u = customer(0, false, None);
    let refused = access_status(Some(&u), 3, 3, now());
    assert!(!refused.can_access);
    assert!(charge_plan(&refused).is_none());
    let premium = access_status(Some(&customer(2, true, None)), 9, 3, now());
    let plan = charge_plan(&premium).expect("premium is charged");
    assert_eq!(plan.access_type, AccessType::Premium);
    assert_eq!(plan.energy_balance, 2);
}

#[test]
fn grants_add_up() {
    let first = premium_grant(None, now(), 10).expect("grant");
    let holder = customer(0, true, Some(first.until_text.clone()));
    let later = Timestamp { secs: now().secs + 86400, nanos: 0 };
    let second = premium_grant(Some(&holder), later, 5).expect("grant");
    let whole = premium_grant(None, now(), 15).expect("grant");
    assert_eq!(second.until, whole.until);
    assert_eq!(second.until_text, whole.until_text);
    assert_eq!(whole.until_text, "2024-06-16T00:00:00+00:00");
}

#[test]
fn listed_names_are_admins() {
    let env = EnvSettings {
        teloxide_token: Some("t".to_string()),
        database_url: None,
        ai_base_url: None,
        ai_api_key: Some("k".to_string()),
        ai_model: None,
        ai_timeout_secs: None,
        daily_free_readings: None,
        max_free_readings: None,
        allowed_username: None,
        admin_usernames: Some(" @Foo_Bar ,, baz".to_string()),
        user_bot_name: None,
        admin_bot_name: None,
    };
    let c = Config::from_settings(&env).expect("config");
    assert!(c.is_admin(Some("Foo_Bar")));
    assert!(c.is_admin(Some("FOO_BAR")));
    assert!(c.is_admin(Some("@foo_bar")));
    assert!(c.is_admin(Some("@@BAZ")));
    assert!(!c.is_admin(Some("foo")));
    assert!(!c.is_admin(None));
}

#[test]
fn tarot_texts() {
    let deck = TarotDeck::cards();
    let drawn = vec![(deck[0], false), (deck[1], true)];
    assert_eq!(
        tarot_prompt("Любовь", "Чувства", "Три карты", &drawn),
        "Сфера: Любовь\nВопрос: Чувства\nРасклад: Три карты\nВыпавшие карты:\n\
         1. 0. Шут (Дурак) (прямая)\n2. I. Маг (перевернутая)\n\n\
         Дай толкование расклада по позициям и общий совет."
    );
    assert_eq!(
        tarot_prompt("a", "b", "c", &vec![]),
        "Сфера: a\nВопрос: b\nРасклад: c\nВыпавшие карты:\n\n\nДай толкование расклада по позициям и общий совет."
    );
    assert_eq!(picked_progress(2, 3), "🎴 Выбрано карт: <b>2/3</b>\n\nВыберите следующую карту из оставшихся:");
    assert_eq!(
        tarot_reading("S", "Q", &drawn[..1].to_vec(), 5, "AI"),
        "🔮 <b>ТАИНСТВО ТАРО СОВЕРШЕНО</b>\n\n📍 <b>Сфера</b>: S\n❓ <b>Вопрос</b>: Q\n\
         🎴 <b>Выпавшие арканы</b>:\n• <b>0. Шут (Дурак) (Прямая)</b>\n\
         \n🎁 <i>Осталось бесплатных раскладов: 4</i>\n\
         \n────────────────────\nAI\n────────────────────"
    );
}

#[test]
fn astrology_and_leela_prompts() {
    assert_eq!(
        astrology_prompt("Овен", "Сегодняшний день"),
        "Знак Зодиака: Овен\nПериод: Сегодняшний день\n\n\
         Составь астрологический срез энергий: общий фон, отношения, работа и совет."
    );
    assert_eq!(
        leela_prompt(68, "Космическое сознание", "План 8"),
        "Игра Лила. Игрок попал на клетку №68: «Космическое сознание» (План 8).\n\n\
         Раскрой смысл клетки и урок, который она несёт."
    );
}

#[test]
fn legal_keyboards() {
    assert_eq!(
        data_of(&legal_menu_keyboard(true)),
        vec![
            vec!["accept_offer"],
            vec!["legal:offer"],
            vec!["legal:privacy"],
            vec!["legal:consent"],
            vec!["nav:main_menu"],
        ]
    );
    assert_eq!(data_of(&legal_menu_keyboard(false)).len(), 4);
    assert_eq!(data_of(&offer_pagination_keyboard(1)), vec![vec!["legal:offer:2"], vec!["nav:legal"]]);
    assert_eq!(
        data_of(&offer_pagination_keyboard(2)),
        vec![vec!["legal:offer:1", "legal:offer:3"], vec!["nav:legal"]]
    );
    assert_eq!(data_of(&offer_pagination_keyboard(3)), vec![vec!["legal:offer:2"], vec!["nav:legal"]]);
    assert_eq!(
        data_of(&architect_panel_keyboard()),
        vec![vec!["admin:stats", "admin:whitelist"], vec!["nav:main"]]
    );
    assert_eq!(data_of(&back_keyboard()), vec![vec!["nav:main"]]);
}

#[test]
fn screen_texts() {
    let deck = TarotDeck::cards();
    let fool = deck[0];
    assert_eq!(
        day_card_prompt(&fool, true),
        "Расклад 'Карта дня'. Выпала карта: 0. Шут (Дурак) (Перевернутая). \
         Дай краткий, мудрый совет, предостережение и фокус внимания на день."
    );
    assert_eq!(
        day_card_fallback(&fool, false),
        "Аркан: 0. Шут (Дурак) (Прямая)\n\nСвет знания: Доверьтесь интуиции и наблюдайте за знаками."
    );
    let caption = day_card_caption(&fool, false, "Совет");
    assert!(caption.starts_with("🌙 <b>Оракул открывает Аркан вашего сегодняшнего дня: 0. Шут (Дурак) (Прямая)</b>"));
    assert!(caption.ends_with(&format!("Совет\n\n<i>Ключевые энергии: {}</i>", fool.keywords)));
    assert_eq!(
        spread_intro(3),
        "🎴 <b>Колода разложена на сакральном алтаре.</b>\n\n\
         Сделайте вдох, сфокусируйтесь на вопросе и выберите пальцем <b>3</b> карту(ы):"
    );
    assert_eq!(
        free_limit_notice(10),
        "🔒 <b>Лимит бесплатных раскладов исчерпан</b>\n\nВы использовали все <b>10</b> подарочных раскладов.\n\
         Для продолжения оформите доступ в разделе <b>Тарифы</b> или обратитесь в поддержку <b>@Studia_taro</b>."
    );
    assert_eq!(
        menu_greeting(Some("Ann"), 7),
        "✨ <b>Главное меню ORACULUM</b>\n\n🔮 Добро пожаловать в пространство сакральных знаний и ИИ-Оракула, Ann!\n\n\
         🎁 Доступно бесплатных раскладов: <b>7 из 10</b>\n\nВыберите интересующий вас раздел:"
    );
    assert_eq!(
        menu_greeting(None, 0),
        "✨ <b>Главное меню ORACULUM</b>\n\n🔮 Добро пожаловать в пространство сакральных знаний и ИИ-Оракула.\n\n\
         🎁 Доступно бесплатных раскладов: <b>0 из 10</b>\n\nВыберите интересующий вас раздел:"
    );
    assert_eq!(astrology_reading("Овен", "AI"), "🌌 <b>АСТРОЛОГИЧЕСКИЙ СРЕЗ: Овен</b>\n\nAI\n");
    assert_eq!(dice_roll(6), "🎲 <i>Бросаем сакральный кубик... Выпало: <b>6</b>!</i>");
    let cell = LeelaCell { number: 68, name: "Космическое сознание", plane: "План 8" };
    assert_eq!(
        leela_reading(4, &cell, "AI"),
        "🎲 <b>ТРАНСФОРМАЦИОННАЯ ИГРА ЛИЛА</b>\n\n🎯 <b>Бросок кубика</b>: 4\n\
         📍 <b>Клетка №68</b>: <b>Космическое сознание</b>\n🌌 <b>План</b>: План 8\n\n\
         ────────────────────\nAI\n────────────────────"
    );
}

#[test]
fn more_screen_texts() {
    assert_eq!(
        access_denied("owner"),
        "🔒 <b>Доступ ограничен</b>\n\nБот находится в режиме приватного тестирования и доступен только для <b>@owner</b>.\n\
         Для получения персонального доступа напишите администратору."
    );
    assert_eq!(offer_welcome("Ann", "OFFER"), "✨ <b>Добро пожаловать в Сакральный Храм Оракула</b>, Ann!\n\nOFFER");
    assert_eq!(
        gates_open("Ann", 9),
        "✨ <b>Врата Оракула открыты для вас, Ann!</b>\n\n🎁 Доступно бесплатных раскладов: <b>9</b>\n\n\
         Выберите таинство, к которому желает обратиться ваша душа:"
    );
    assert_eq!(offer_page(2, "TEXT"), "📜 <b>Публичная оферта (Часть 2/3)</b>\n\nTEXT");
    assert!(tariff_chosen("Маг", "1990 ₽").starts_with("💎 <b>Выбран тариф: Маг</b>\n\nСтоимость: <b>1990 ₽</b>\n\n"));
    assert_eq!(
        profile_text(&customer(-2, false, None), 3),
        "👤 <b>Сакральный Профиль Искателя</b>\n\n🆔 <b>ID</b>: <code>42</code>\n✨ <b>Имя</b>: Ann\n\
         ⚡ <b>Энергия для раскладов</b>: -2\n🔮 <b>Сохраненных раскладов</b>: 3\n📅 <b>В Храме с</b>: 2024-01-01 00:00:00\n\n\
         <i>Энергия пополняется ежедневно (+1 расклад каждые 24 часа).</i>"
    );
    assert_eq!(bot_stats(None), "📊 <b>Статистика бота</b>\n\n🗄 База: SQLite (bot.db)\n🔒 Whitelist: <b>@Все</b>");
    assert!(whitelist_status(Some("owner")).starts_with("🔒 <b>Whitelist статус</b>\n\nТекущий разрешенный пользователь: <b>@owner</b>"));
    assert_eq!(sphere_heading("Любовь"), "📍 <b>Любовь</b>\n\nУточните глубинный аспект вашего вопроса:");
    assert_eq!(
        temple_greeting("Ann", 5),
        "🏛 <b>Храм Оракула приветствует вас, Ann!</b>\n\n⚡ Ваш баланс энергии: <b>5</b>\n\nВыберите таинство для получения ответов:"
    );
}

#[test]
fn admin_screen_texts() {
    assert_eq!(premium_granted(12, 30), "✅ Пользователю <code>12</code> успешно выдан <b>Премиум на 30 дней</b>!");
    assert_eq!(energy_granted(12, 5), "✅ Пользователю <code>12</code> успешно начислено <b>+5 раскладов энергии</b>!");
    assert_eq!(
        stats_screen(3, 1, 7, "m", "Все пользователи"),
        "📊 <b>Статистика и аналитика системы:</b>\n\n👤 Всего пользователей: <b>3</b>\n\
         ⭐ Активных Премиум-подписок: <b>1</b>\n⚡ Суммарный баланс доп. энергии: <b>7</b>\n\
         🗄 База данных: <b>SQLite (активна)</b>\n🤖 ИИ Модель: <b>m</b>\n🔒 Whitelist: <b>@Все пользователи</b>"
    );
    assert!(energy_gift(4).contains("Всем <b>4</b> пользователям"));
    assert!(panel_whitelist("x").contains("<b>@x</b>"));
    assert!(settings_panel("adm", "own").contains("@adm\n🎯 <b>Whitelist доступ:</b> @own\n\n"));
    assert!(settings_stats(9, "own").contains("Пользователей в БД: <b>9</b>"));
    assert!(settings_whitelist("own").contains("<b>@own</b>"));
}

#[test]
fn readings_are_counted_by_utc_day() {
    assert_eq!(tally_day(now()).as_deref(), Some("2024-06-01"));
    assert_eq!(tally_day(Timestamp { secs: 1717200000 - 1, nanos: 0 }).as_deref(), Some("2024-05-31"));
}

#[test]
fn ordinary_grants_succeed() {
    let g = premium_grant(None, now(), 1_000_000);
    // 2024 + ~2738 years is still within the years 0000 to 9999.
    assert!(g.is_some());
    let back = premium_grant(None, now(), -700_000).expect("grant");
    assert_eq!(back.until.secs, now().secs - 700_000 * 86400);
}
