//! Inline keyboards of the user bot and the callback data their buttons
//! carry.

use vstd::prelude::*;

use crate::esoterics::astrology::{zodiac_signs, zodiac_table, ZodiacSign};
use crate::esoterics::first_key;
use crate::esoterics::tarot::{
    is_sphere_table, sphere_key_list, sphere_keys, sphere_subtopics, spread_table, spread_types,
    tarot_spheres, SpreadTypeInfo,
};
use crate::esoterics::find_key;
use crate::text::{decimal, joined, push_char, push_decimal};

verus! {

// ---------------------------------------------------------------------------
// Keyboard model
// ---------------------------------------------------------------------------

/// What pressing a button does.
#[derive(Clone, Debug)]
pub enum ButtonAction {
    /// Sends this callback data back to the bot.
    Callback(String),
    /// Opens this URL.
    Url(String),
}

/// One inline button.
#[derive(Clone, Debug)]
pub struct Button {
    pub label: String,
    pub action: ButtonAction,
}

/// An inline keyboard: rows of buttons, top to bottom.
#[derive(Clone, Debug)]
pub struct Keyboard {
    pub rows: Vec<Vec<Button>>,
}

/// What pressing a button does, as text.
pub enum ActionView {
    Callback(Seq<char>),
    Url(Seq<char>),
}

/// A button, as text.
pub struct ButtonView {
    pub label: Seq<char>,
    pub action: ActionView,
}

impl View for Button {
    type V = ButtonView;

    open spec fn view(&self) -> ButtonView {
        ButtonView {
            label: self.label@,
            action: match self.action {
                ButtonAction::Callback(d) => ActionView::Callback(d@),
                ButtonAction::Url(u) => ActionView::Url(u@),
            },
        }
    }
}

/// The rows of buttons, as text.
pub open spec fn rows_view(rows: Seq<Vec<Button>>) -> Seq<Seq<ButtonView>> {
    rows.map_values(|r: Vec<Button>| r@.map_values(|b: Button| b@))
}

impl View for Keyboard {
    type V = Seq<Seq<ButtonView>>;

    open spec fn view(&self) -> Seq<Seq<ButtonView>> {
        rows_view(self.rows@)
    }
}

/// A button that sends `data`.
pub open spec fn cb(label: Seq<char>, data: Seq<char>) -> ButtonView {
    ButtonView { label, action: ActionView::Callback(data) }
}

/// A button that opens `url`.
pub open spec fn link(label: Seq<char>, url: Seq<char>) -> ButtonView {
    ButtonView { label, action: ActionView::Url(url) }
}

// ---------------------------------------------------------------------------
// Callback data
// ---------------------------------------------------------------------------

/// Data of a sphere button: `sphere:<sphere>`.
pub open spec fn sphere_data(sphere: Seq<char>) -> Seq<char> {
    "sphere:"@ + sphere
}

/// Data of a question button: `subtopic:<sphere>:<question>`.
pub open spec fn subtopic_data(sphere: Seq<char>, subtopic: Seq<char>) -> Seq<char> {
    "subtopic:"@ + sphere + ":"@ + subtopic
}

/// Data of a spread button: `spread:<sphere>:<question>:<spread>`.
pub open spec fn spread_data(sphere: Seq<char>, subtopic: Seq<char>, spread: Seq<char>) -> Seq<char> {
    "spread:"@ + sphere + ":"@ + subtopic + ":"@ + spread
}

/// The picked card positions, in decimal, joined by `-`.
pub open spec fn picked_text(picked: Seq<usize>) -> Seq<char> {
    joined(picked.map_values(|x: usize| decimal(x as nat)), seq!['-'])
}

/// Data of a card button:
/// `pick:<sphere>:<question>:<spread>:<needed>:<p1>-<p2>-...`.
pub open spec fn pick_data(
    sphere: Seq<char>,
    subtopic: Seq<char>,
    spread: Seq<char>,
    needed: usize,
    picked: Seq<usize>,
) -> Seq<char> {
    "pick:"@ + sphere + ":"@ + subtopic + ":"@ + spread + ":"@ + decimal(needed as nat) + ":"@
        + picked_text(picked)
}

/// Data of a zodiac button: `astro:<sign>`.
pub open spec fn astro_data(sign: Seq<char>) -> Seq<char> {
    "astro:"@ + sign
}

// ---------------------------------------------------------------------------
// Builders
// ---------------------------------------------------------------------------

/// A button that sends `data`.
pub fn callback(label: &str, data: &str) -> (b: Button)
    ensures
        b@ == cb(label@, data@),
{
    Button { label: String::from_str(label), action: ButtonAction::Callback(String::from_str(data)) }
}

/// A button that sends `data`.
pub fn callback_owned(label: &str, data: String) -> (b: Button)
    ensures
        b@ == cb(label@, data@),
{
    Button { label: String::from_str(label), action: ButtonAction::Callback(data) }
}

/// A button that opens `url`.
pub fn url_button(label: &str, url: &str) -> (b: Button)
    ensures
        b@ == link(label@, url@),
{
    Button { label: String::from_str(label), action: ButtonAction::Url(String::from_str(url)) }
}

/// A row of one button.
pub fn row1(a: Button) -> (r: Vec<Button>)
    ensures
        r@.map_values(|b: Button| b@) == seq![a@],
{
    let mut r: Vec<Button> = Vec::new();
    r.push(a);
    proof {
        assert(r@.map_values(|b: Button| b@) =~= seq![a@]);
    }
    r
}

/// A row of two buttons.
pub fn row2(a: Button, b: Button) -> (r: Vec<Button>)
    ensures
        r@.map_values(|x: Button| x@) == seq![a@, b@],
{
    let mut r: Vec<Button> = Vec::new();
    r.push(a);
    r.push(b);
    proof {
        assert(r@.map_values(|x: Button| x@) =~= seq![a@, b@]);
    }
    r
}

/// Appends a row to a list of rows.
pub fn push_row(rows: &mut Vec<Vec<Button>>, row: Vec<Button>)
    ensures
        rows_view(final(rows)@) == rows_view(old(rows)@).push(row@.map_values(|b: Button| b@)),
{
    rows.push(row);
    proof {
        assert(rows_view(final(rows)@) =~= rows_view(old(rows)@).push(row@.map_values(|b: Button| b@)));
    }
}

/// `a` followed by `b`.
pub fn concat2(a: &str, b: &str) -> (r: String)
    ensures
        r@ == a@ + b@,
{
    let mut s = String::from_str(a);
    s.append(b);
    s
}

/// `a:b` followed by `:c` pieces, as one string.
pub fn colon_join3(prefix: &str, a: &str, b: &str) -> (r: String)
    ensures
        r@ == prefix@ + a@ + ":"@ + b@,
{
    let mut s = String::from_str(prefix);
    s.append(a);
    s.append(":");
    s.append(b);
    proof {
        assert(s@ =~= prefix@ + a@ + ":"@ + b@);
    }
    s
}

// ---------------------------------------------------------------------------
// Fixed keyboards
// ---------------------------------------------------------------------------

pub open spec fn offer_rows() -> Seq<Seq<ButtonView>> {
    seq![
        seq![cb("✅ Я принимаю условия оферты"@, "accept_offer"@)],
        seq![cb("📜 Подробнее об условиях"@, "nav:offer"@)],
    ]
}

/// Keyboard for accepting the public offer.
pub fn offer_keyboard() -> (k: Keyboard)
    ensures
        k@ == offer_rows(),
{
    let mut rows: Vec<Vec<Button>> = Vec::new();
    push_row(&mut rows, row1(callback("✅ Я принимаю условия оферты", "accept_offer")));
    push_row(&mut rows, row1(callback("📜 Подробнее об условиях", "nav:offer")));
    let k = Keyboard { rows };
    proof {
        assert(k@ =~= offer_rows());
    }
    k
}

pub open spec fn architect_panel_rows() -> Seq<Seq<ButtonView>> {
    seq![
        seq![cb("📊 Статистика"@, "admin:stats"@), cb("🔒 Whitelist статус"@, "admin:whitelist"@)],
        seq![cb("🏠 В главное меню"@, "nav:main"@)],
    ]
}

/// The administrator's panel inside the user bot.
pub fn architect_panel_keyboard() -> (k: Keyboard)
    ensures
        k@ == architect_panel_rows(),
{
    let mut rows: Vec<Vec<Button>> = Vec::new();
    push_row(
        &mut rows,
        row2(callback("📊 Статистика", "admin:stats"), callback("🔒 Whitelist статус", "admin:whitelist")),
    );
    push_row(&mut rows, row1(callback("🏠 В главное меню", "nav:main")));
    let k = Keyboard { rows };
    proof {
        assert(k@ =~= architect_panel_rows());
    }
    k
}

pub open spec fn back_rows() -> Seq<Seq<ButtonView>> {
    seq![seq![cb("⬅ Назад"@, "nav:main"@)]]
}

/// One button back to the main menu.
pub fn back_keyboard() -> (k: Keyboard)
    ensures
        k@ == back_rows(),
{
    let mut rows: Vec<Vec<Button>> = Vec::new();
    push_row(&mut rows, row1(callback("⬅ Назад", "nav:main")));
    let k = Keyboard { rows };
    proof {
        assert(k@ =~= back_rows());
    }
    k
}

pub open spec fn main_menu_rows() -> Seq<Seq<ButtonView>> {
    seq![
        seq![cb("🔮 Сделать расклад Таро"@, "nav:tarot_spheres"@)],
        seq![cb("🌙 Оракул: Карта дня"@, "nav:card_of_the_day"@)],
        seq![cb("🌌 Астрология"@, "nav:astrology"@), cb("🎲 Игра Лила"@, "nav:leela"@)],
        seq![cb("💎 Тарифы"@, "nav:tariffs"@), cb("📚 История"@, "nav:history"@)],
        seq![cb("👤 Профиль"@, "nav:profile"@), cb("🛟 Поддержка"@, "nav:support"@)],
        seq![cb("🔄 Перезапустить бота"@, "nav:restart"@)],
    ]
}

/// The ORACULUM main menu.
pub fn main_menu_keyboard() -> (k: Keyboard)
    ensures
        k@ == main_menu_rows(),
{
    let mut rows: Vec<Vec<Button>> = Vec::new();
    push_row(&mut rows, row1(callback("🔮 Сделать расклад Таро", "nav:tarot_spheres")));
    push_row(&mut rows, row1(callback("🌙 Оракул: Карта дня", "nav:card_of_the_day")));
    push_row(
        &mut rows,
        row2(callback("🌌 Астрология", "nav:astrology"), callback("🎲 Игра Лила", "nav:leela")),
    );
    push_row(
        &mut rows,
        row2(callback("💎 Тарифы", "nav:tariffs"), callback("📚 История", "nav:history")),
    );
    push_row(
        &mut rows,
        row2(callback("👤 Профиль", "nav:profile"), callback("🛟 Поддержка", "nav:support")),
    );
    push_row(&mut rows, row1(callback("🔄 Перезапустить бота", "nav:restart")));
    let k = Keyboard { rows };
    proof {
        assert(k@ =~= main_menu_rows());
    }
    k
}

pub open spec fn settings_rows(is_ai_enhanced: bool, notifications_enabled: bool) -> Seq<
    Seq<ButtonView>,
> {
    seq![
        seq![
            cb(
                if is_ai_enhanced {
                    "🧠 ИИ-Анализ: Вкл ✅"@
                } else {
                    "🧠 ИИ-Анализ: Выкл ❌"@
                },
                "toggle:ai_mode"@,
            ),
        ],
        seq![
            cb(
                if notifications_enabled {
                    "🔔 Утренний Оракул: Вкл ✅"@
                } else {
                    "🔔 Утренний Оракул: Выкл ❌"@
                },
                "toggle:notifications"@,
            ),
        ],
        seq![cb("🎴 Стиль колоды: Классика Уэйта"@, "toggle:deck_style"@)],
        seq![cb("🏠 Главное меню"@, "nav:main_menu"@)],
    ]
}

/// The bot settings keyboard, showing the two switches.
pub fn settings_keyboard(is_ai_enhanced: bool, notifications_enabled: bool) -> (k: Keyboard)
    ensures
        k@ == settings_rows(is_ai_enhanced, notifications_enabled),
{
    let ai_text = if is_ai_enhanced {
        "🧠 ИИ-Анализ: Вкл ✅"
    } else {
        "🧠 ИИ-Анализ: Выкл ❌"
    };
    let notif_text = if notifications_enabled {
        "🔔 Утренний Оракул: Вкл ✅"
    } else {
        "🔔 Утренний Оракул: Выкл ❌"
    };
    let mut rows: Vec<Vec<Button>> = Vec::new();
    push_row(&mut rows, row1(callback(ai_text, "toggle:ai_mode")));
    push_row(&mut rows, row1(callback(notif_text, "toggle:notifications")));
    push_row(&mut rows, row1(callback("🎴 Стиль колоды: Классика Уэйта", "toggle:deck_style")));
    push_row(&mut rows, row1(callback("🏠 Главное меню", "nav:main_menu")));
    let k = Keyboard { rows };
    proof {
        assert(k@ =~= settings_rows(is_ai_enhanced, notifications_enabled));
    }
    k
}

pub open spec fn contact_tarologist_rows(payment_url: Option<Seq<char>>) -> Seq<Seq<ButtonView>> {
    seq![
        match payment_url {
            Some(u) => seq![link("💳 Оплатить 100 ₽ (ЮKassa / ЮMoney)"@, u)],
            None => seq![cb("💳 Оплатить 100 ₽"@, "pay:tarologist_consultation"@)],
        },
        seq![
            cb("🔮 Сделать ещё расклад"@, "nav:tarot_spheres"@),
            cb("🏠 Главное меню"@, "nav:main_menu"@),
        ],
    ]
}

/// The keyboard of the "contact a tarot reader" screen: a payment link when
/// one is given, else a payment callback.
pub fn contact_tarologist_keyboard(payment_url: Option<&str>) -> (k: Keyboard)
    ensures
        k@ == contact_tarologist_rows(
            match payment_url {
                Some(u) => Some(u@),
                None => None,
            },
        ),
{
    let mut rows: Vec<Vec<Button>> = Vec::new();
    match payment_url {
        Some(u) => push_row(&mut rows, row1(url_button("💳 Оплатить 100 ₽ (ЮKassa / ЮMoney)", u))),
        None => push_row(&mut rows, row1(callback("💳 Оплатить 100 ₽", "pay:tarologist_consultation"))),
    }
    push_row(
        &mut rows,
        row2(
            callback("🔮 Сделать ещё расклад", "nav:tarot_spheres"),
            callback("🏠 Главное меню", "nav:main_menu"),
        ),
    );
    let k = Keyboard { rows };
    proof {
        assert(k@ =~= contact_tarologist_rows(
            match payment_url {
                Some(u) => Some(u@),
                None => None,
            },
        ));
    }
    k
}

pub open spec fn tariffs_rows() -> Seq<Seq<ButtonView>> {
    seq![
        seq![cb("⚡ Пакет «5 Раскладов» — 290 ₽"@, "pay:pack_5"@)],
        seq![cb("🌟 Безлимит «Адепт» (месяц) — 790 ₽"@, "pay:sub_month"@)],
        seq![cb("💫 Безлимит «Маг» (3 месяца) — 1990 ₽"@, "pay:sub_3months"@)],
        seq![cb("🔮 Безлимит «Верховная Жрица» (год) — 5990 ₽"@, "pay:sub_year"@)],
        seq![cb("← Главное меню"@, "nav:main_menu"@)],
    ]
}

/// The keyboard of the tariffs screen.
pub fn tariffs_keyboard() -> (k: Keyboard)
    ensures
        k@ == tariffs_rows(),
{
    let mut rows: Vec<Vec<Button>> = Vec::new();
    push_row(&mut rows, row1(callback("⚡ Пакет «5 Раскладов» — 290 ₽", "pay:pack_5")));
    push_row(&mut rows, row1(callback("🌟 Безлимит «Адепт» (месяц) — 790 ₽", "pay:sub_month")));
    push_row(&mut rows, row1(callback("💫 Безлимит «Маг» (3 месяца) — 1990 ₽", "pay:sub_3months")));
    push_row(
        &mut rows,
        row1(callback("🔮 Безлимит «Верховная Жрица» (год) — 5990 ₽", "pay:sub_year")),
    );
    push_row(&mut rows, row1(callback("← Главное меню", "nav:main_menu")));
    let k = Keyboard { rows };
    proof {
        assert(k@ =~= tariffs_rows());
    }
    k
}

pub open spec fn support_rows() -> Seq<Seq<ButtonView>> {
    seq![
        seq![link("💬 Написать в поддержку"@, "https://t.me/Studia_taro"@)],
        seq![cb("← Главное меню"@, "nav:main_menu"@)],
    ]
}

/// The keyboard of the support screen.
pub fn support_keyboard() -> (k: Keyboard)
    ensures
        k@ == support_rows(),
{
    let mut rows: Vec<Vec<Button>> = Vec::new();
    push_row(&mut rows, row1(url_button("💬 Написать в поддержку", "https://t.me/Studia_taro")));
    push_row(&mut rows, row1(callback("← Главное меню", "nav:main_menu")));
    let k = Keyboard { rows };
    proof {
        assert(k@ =~= support_rows());
    }
    k
}

// ---------------------------------------------------------------------------
// Tarot and astrology keyboards
// ---------------------------------------------------------------------------

pub open spec fn spheres_rows() -> Seq<Seq<ButtonView>> {
    Seq::new(
        sphere_keys().len(),
        |i: int| seq![cb(crate::esoterics::tarot::sphere_titles()[i]@, sphere_data(sphere_keys()[i]@))],
    ).push(seq![cb("🏠 Главное меню"@, "nav:main_menu"@)])
}

/// One button per sphere of questions, then back to the main menu.
pub fn tarot_spheres_keyboard() -> (k: Keyboard)
    ensures
        k@ == spheres_rows(),
{
    let spheres = tarot_spheres();
    let n = spheres.len();
    let mut rows: Vec<Vec<Button>> = Vec::new();
    for i in 0..n
        invariant
            n == spheres@.len(),
            is_sphere_table(spheres@),
            rows_view(rows@) == Seq::new(
                i as nat,
                |j: int| seq![cb(crate::esoterics::tarot::sphere_titles()[j]@, sphere_data(sphere_keys()[j]@))],
            ),
    {
        let sp = &spheres[i];
        let data = concat2("sphere:", sp.key);
        push_row(&mut rows, row1(callback_owned(sp.title, data)));
        proof {
            assert(spheres@[i as int].key == sphere_keys()[i as int]);
            assert(rows_view(rows@) =~= Seq::new(
                (i + 1) as nat,
                |j: int| seq![cb(crate::esoterics::tarot::sphere_titles()[j]@, sphere_data(sphere_keys()[j]@))],
            ));
        }
    }
    push_row(&mut rows, row1(callback("🏠 Главное меню", "nav:main_menu")));
    let k = Keyboard { rows };
    proof {
        assert(k@ =~= spheres_rows());
    }
    k
}

/// The questions of the sphere with this key (none for an unknown key).
pub open spec fn subtopics_of(sphere_key: Seq<char>) -> Seq<(&'static str, &'static str)> {
    match first_key(sphere_keys().map_values(|k: &'static str| k@), sphere_key) {
        Some(i) => sphere_subtopics(i),
        None => Seq::empty(),
    }
}

pub open spec fn subtopics_rows(sphere_key: Seq<char>) -> Seq<Seq<ButtonView>> {
    Seq::new(
        subtopics_of(sphere_key).len(),
        |j: int| seq![cb(subtopics_of(sphere_key)[j].1@, subtopic_data(sphere_key, subtopics_of(sphere_key)[j].0@))],
    ).push(seq![cb("◀️ Назад к сферам"@, "nav:tarot_spheres"@), cb("🏠 Меню"@, "nav:main_menu"@)])
}

/// One button per question of the sphere, then back to the spheres and to
/// the main menu.
pub fn tarot_subtopics_keyboard(sphere_key: &str) -> (k: Keyboard)
    ensures
        k@ == subtopics_rows(sphere_key@),
{
    let keys = sphere_key_list();
    let mut rows: Vec<Vec<Button>> = Vec::new();
    let ghost subs = subtopics_of(sphere_key@);
    match find_key(&keys, sphere_key) {
        Some(si) => {
            let spheres = tarot_spheres();
            let sp = &spheres[si];
            let n = sp.subtopics.len();
            proof {
                assert(sp.subtopics@ == subs);
            }
            for i in 0..n
                invariant
                    n == sp.subtopics@.len(),
                    sp.subtopics@ == subs,
                    subs == subtopics_of(sphere_key@),
                    rows_view(rows@) == Seq::new(
                        i as nat,
                        |j: int| seq![cb(subs[j].1@, subtopic_data(sphere_key@, subs[j].0@))],
                    ),
            {
                let (sub_key, sub_title) = sp.subtopics[i];
                let data = colon_join3("subtopic:", sphere_key, sub_key);
                push_row(&mut rows, row1(callback_owned(sub_title, data)));
                proof {
                    assert(rows_view(rows@) =~= Seq::new(
                        (i + 1) as nat,
                        |j: int| seq![cb(subs[j].1@, subtopic_data(sphere_key@, subs[j].0@))],
                    ));
                }
            }
        },
        None => {
            proof {
                assert(rows_view(rows@) =~= Seq::new(
                    0,
                    |j: int| seq![cb(subs[j].1@, subtopic_data(sphere_key@, subs[j].0@))],
                ));
            }
        },
    }
    push_row(
        &mut rows,
        row2(callback("◀️ Назад к сферам", "nav:tarot_spheres"), callback("🏠 Меню", "nav:main_menu")),
    );
    let k = Keyboard { rows };
    proof {
        assert(k@ =~= subtopics_rows(sphere_key@));
    }
    k
}

pub open spec fn spreads_rows(sphere_key: Seq<char>, subtopic_key: Seq<char>) -> Seq<Seq<ButtonView>> {
    Seq::new(
        spread_table().len(),
        |j: int| seq![cb(spread_table()[j].name@, spread_data(sphere_key, subtopic_key, spread_table()[j].key@))],
    ).push(seq![cb("◀️ Назад"@, sphere_data(sphere_key)), cb("🏠 Меню"@, "nav:main_menu"@)])
}

/// One button per kind of spread, then back to the sphere and to the main
/// menu.
pub fn tarot_spreads_keyboard(sphere_key: &str, subtopic_key: &str) -> (k: Keyboard)
    ensures
        k@ == spreads_rows(sphere_key@, subtopic_key@),
{
    let spreads = spread_types();
    let n = spreads.len();
    let mut rows: Vec<Vec<Button>> = Vec::new();
    for i in 0..n
        invariant
            n == spreads@.len(),
            spreads@ == spread_table(),
            rows_view(rows@) == Seq::new(
                i as nat,
                |j: int| seq![cb(spread_table()[j].name@, spread_data(sphere_key@, subtopic_key@, spread_table()[j].key@))],
            ),
    {
        let sp: SpreadTypeInfo = spreads[i];
        let mut data = colon_join3("spread:", sphere_key, subtopic_key);
        data.append(":");
        data.append(sp.key);
        push_row(&mut rows, row1(callback_owned(sp.name, data)));
        proof {
            assert(rows_view(rows@) =~= Seq::new(
                (i + 1) as nat,
                |j: int| seq![cb(spread_table()[j].name@, spread_data(sphere_key@, subtopic_key@, spread_table()[j].key@))],
            ));
        }
    }
    let back = concat2("sphere:", sphere_key);
    push_row(&mut rows, row2(callback_owned("◀️ Назад", back), callback("🏠 Меню", "nav:main_menu")));
    let k = Keyboard { rows };
    proof {
        assert(k@ =~= spreads_rows(sphere_key@, subtopic_key@));
    }
    k
}

/// The button of the zodiac sign at place `i`.
pub open spec fn sign_button(i: int) -> ButtonView {
    cb(zodiac_table()[i].name@, astro_data(zodiac_table()[i].key@))
}

pub open spec fn signs_rows() -> Seq<Seq<ButtonView>> {
    Seq::new(6, |r: int| seq![sign_button(2 * r), sign_button(2 * r + 1)]).push(
        seq![cb("🏠 Главное меню"@, "nav:main_menu"@)],
    )
}

/// The button of a zodiac sign.
pub fn sign_btn(z: &ZodiacSign) -> (b: Button)
    ensures
        b@ == cb(z.name@, astro_data(z.key@)),
{
    callback_owned(z.name, concat2("astro:", z.key))
}

/// The zodiac signs, two per row, then back to the main menu.
pub fn astrology_signs_keyboard() -> (k: Keyboard)
    ensures
        k@ == signs_rows(),
{
    let signs = zodiac_signs();
    let mut rows: Vec<Vec<Button>> = Vec::new();
    for r in 0..6usize
        invariant
            signs@ == zodiac_table(),
            rows_view(rows@) == Seq::new(r as nat, |q: int| seq![sign_button(2 * q), sign_button(2 * q + 1)]),
    {
        let a = sign_btn(&signs[2 * r]);
        let b = sign_btn(&signs[2 * r + 1]);
        push_row(&mut rows, row2(a, b));
        proof {
            assert(rows_view(rows@) =~= Seq::new(
                (r + 1) as nat,
                |q: int| seq![sign_button(2 * q), sign_button(2 * q + 1)],
            ));
        }
    }
    push_row(&mut rows, row1(callback("🏠 Главное меню", "nav:main_menu")));
    let k = Keyboard { rows };
    proof {
        assert(k@ =~= signs_rows());
    }
    k
}

// ---------------------------------------------------------------------------
// Picking cards
// ---------------------------------------------------------------------------

/// The button for the face-down card at place `i` on the table.
pub open spec fn pick_button(
    sphere: Seq<char>,
    subtopic: Seq<char>,
    spread: Seq<char>,
    needed: usize,
    picked: Seq<usize>,
    i: int,
) -> ButtonView {
    if picked.contains(i as usize) {
        cb("✨ Открыта"@, "noop"@)
    } else {
        cb("🎴 Карточка"@, pick_data(sphere, subtopic, spread, needed, picked.push(i as usize)))
    }
}

pub open spec fn pick_rows(
    sphere: Seq<char>,
    subtopic: Seq<char>,
    spread: Seq<char>,
    needed: usize,
    picked: Seq<usize>,
) -> Seq<Seq<ButtonView>> {
    seq![
        Seq::new(3, |i: int| pick_button(sphere, subtopic, spread, needed, picked, i)),
        Seq::new(3, |i: int| pick_button(sphere, subtopic, spread, needed, picked, i + 3)),
        seq![cb("◀️ Назад"@, sphere_data(sphere)), cb("🏠 Меню"@, "nav:main_menu"@)],
    ]
}

pub proof fn lemma_joined_push(pieces: Seq<Seq<char>>, sep: Seq<char>, x: Seq<char>)
    ensures
        joined(pieces.push(x), sep) == (if pieces.len() == 0 {
            x
        } else {
            joined(pieces, sep) + sep + x
        }),
{
    let p = pieces.push(x);
    assert(p.drop_last() =~= pieces);
    if pieces.len() == 0 {
        assert(p[0] == x);
    }
}

/// Whether `x` occurs in `v`.
pub fn contains_usize(v: &[usize], x: usize) -> (r: bool)
    ensures
        r == v@.contains(x),
{
    let n = v.len();
    for i in 0..n
        invariant
            n == v@.len(),
            forall|j: int| 0 <= j < i ==> v@[j] != x,
    {
        if v[i] == x {
            assert(v@[i as int] == x);
            return true;
        }
    }
    false
}

/// A vector with the elements of `v` followed by `x`.
pub fn with_pushed(v: &[usize], x: usize) -> (r: Vec<usize>)
    ensures
        r@ == v@.push(x),
{
    let n = v.len();
    let mut r: Vec<usize> = Vec::new();
    for i in 0..n
        invariant
            n == v@.len(),
            r@ == v@.take(i as int),
    {
        r.push(v[i]);
        proof {
            assert(v@.take(i + 1) =~= v@.take(i as int).push(v@[i as int]));
        }
    }
    r.push(x);
    proof {
        assert(v@.take(n as int) =~= v@);
    }
    r
}

/// The positions in decimal, joined by `-`.
pub fn picked_join(v: &Vec<usize>) -> (r: String)
    ensures
        r@ == picked_text(v@),
{
    let n = v.len();
    let mut out = String::new();
    for i in 0..n
        invariant
            n == v@.len(),
            out@ == picked_text(v@.take(i as int)),
    {
        let ghost before = out@;
        if i > 0 {
            push_char(&mut out, '-');
        }
        push_decimal(&mut out, v[i] as u64);
        proof {
            let f = |x: usize| decimal(x as nat);
            assert(v@.take(i + 1) =~= v@.take(i as int).push(v@[i as int]));
            assert(v@.take(i + 1).map_values(f) =~= v@.take(i as int).map_values(f).push(decimal(v@[i as int] as nat)));
            lemma_joined_push(v@.take(i as int).map_values(f), seq!['-'], decimal(v@[i as int] as nat));
            if i > 0 {
                assert(out@ =~= before + seq!['-'] + decimal(v@[i as int] as nat));
            } else {
                assert(before =~= Seq::<char>::empty());
                assert(out@ =~= decimal(v@[i as int] as nat));
            }
        }
    }
    proof {
        assert(v@.take(n as int) =~= v@);
    }
    out
}

/// The callback data of a card button.
pub fn pick_callback(sphere_key: &str, subtopic_key: &str, spread_key: &str, needed_count: usize, picked: &Vec<usize>) -> (r: String)
    ensures
        r@ == pick_data(sphere_key@, subtopic_key@, spread_key@, needed_count, picked@),
{
    let mut s = colon_join3("pick:", sphere_key, subtopic_key);
    s.append(":");
    s.append(spread_key);
    s.append(":");
    push_decimal(&mut s, needed_count as u64);
    s.append(":");
    let tail = picked_join(picked);
    s.append(tail.as_str());
    proof {
        assert(s@ =~= pick_data(sphere_key@, subtopic_key@, spread_key@, needed_count, picked@));
    }
    s
}

/// The table of six face-down cards: three per row, each either already
/// open or sending the picks so far plus itself, then back to the sphere
/// and to the main menu.
pub fn tarot_pick_cards_keyboard(
    sphere_key: &str,
    subtopic_key: &str,
    spread_key: &str,
    needed_count: usize,
    picked_indices: &[usize],
) -> (k: Keyboard)
    ensures
        k@ == pick_rows(sphere_key@, subtopic_key@, spread_key@, needed_count, picked_indices@),
{
    let mut row_a: Vec<Button> = Vec::new();
    let mut row_b: Vec<Button> = Vec::new();
    let ghost f = |i: int| pick_button(sphere_key@, subtopic_key@, spread_key@, needed_count, picked_indices@, i);
    for i in 0..6usize
        invariant
            f == (|i: int| pick_button(sphere_key@, subtopic_key@, spread_key@, needed_count, picked_indices@, i)),
            row_a@.map_values(|b: Button| b@) == Seq::new(if i < 3 { i as nat } else { 3 }, |j: int| f(j)),
            row_b@.map_values(|b: Button| b@) == Seq::new(if i < 3 { 0 } else { (i - 3) as nat }, |j: int| f(j + 3)),
    {
        let btn = if contains_usize(picked_indices, i) {
            callback("✨ Открыта", "noop")
        } else {
            let next = with_pushed(picked_indices, i);
            callback_owned("🎴 Карточка", pick_callback(sphere_key, subtopic_key, spread_key, needed_count, &next))
        };
        proof {
            assert(btn@ == f(i as int));
        }
        if i < 3 {
            let ghost before = row_a@;
            row_a.push(btn);
            proof {
                assert(row_a@.map_values(|b: Button| b@) =~= before.map_values(|b: Button| b@).push(btn@));
                assert(row_a@.map_values(|b: Button| b@) =~= Seq::new((i + 1) as nat, |j: int| f(j)));
            }
        } else {
            let ghost before = row_b@;
            row_b.push(btn);
            proof {
                assert(row_b@.map_values(|b: Button| b@) =~= before.map_values(|b: Button| b@).push(btn@));
                assert(row_b@.map_values(|b: Button| b@) =~= Seq::new((i - 2) as nat, |j: int| f(j + 3)));
            }
        }
    }
    proof {
        assert(row_a@.map_values(|b: Button| b@) =~= Seq::new(
            3,
            |i: int| pick_button(sphere_key@, subtopic_key@, spread_key@, needed_count, picked_indices@, i),
        ));
        assert(row_b@.map_values(|b: Button| b@) =~= Seq::new(
            3,
            |i: int| pick_button(sphere_key@, subtopic_key@, spread_key@, needed_count, picked_indices@, i + 3),
        ));
    }
    let mut rows: Vec<Vec<Button>> = Vec::new();
    push_row(&mut rows, row_a);
    push_row(&mut rows, row_b);
    let back = concat2("sphere:", sphere_key);
    push_row(&mut rows, row2(callback_owned("◀️ Назад", back), callback("🏠 Меню", "nav:main_menu")));
    let k = Keyboard { rows };
    proof {
        assert(k@ =~= pick_rows(sphere_key@, subtopic_key@, spread_key@, needed_count, picked_indices@));
    }
    k
}

} // verus!
