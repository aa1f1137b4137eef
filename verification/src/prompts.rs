//! The texts the user bot builds from data: the requests sent to the AI,
//! the tarot screens, and the keyboards of the legal documents.

use vstd::prelude::*;

use crate::esoterics::leela::LeelaCell;
use crate::esoterics::tarot::TarotCard;
use crate::models::User;
use crate::keyboards::{
    callback, callback_owned, cb, lemma_joined_push, push_row, row1, ActionView, Button, ButtonView,
    Keyboard,
};
use crate::screens::{bullet, orientation_suffix, cards_list, labels, remaining_notice, remaining_notice_text};
use crate::text::{decimal, joined, push_decimal, push_signed_decimal, signed_decimal};

verus! {

// ---------------------------------------------------------------------------
// Requests to the AI
// ---------------------------------------------------------------------------

/// One card of a spread in a request: `<n>. <name> (перевернутая|прямая)`.
pub open spec fn prompt_card_line(position: nat, name: Seq<char>, reversed: bool) -> Seq<char> {
    decimal(position) + ". "@ + name + " ("@ + (if reversed {
        "перевернутая"@
    } else {
        "прямая"@
    }) + ")"@
}

/// The lines of the drawn cards, numbered from 1.
pub open spec fn prompt_card_lines(drawn: Seq<(TarotCard, bool)>) -> Seq<Seq<char>> {
    Seq::new(drawn.len(), |i: int| prompt_card_line((i + 1) as nat, drawn[i].0.name@, drawn[i].1))
}

/// The request for a tarot reading: sphere, question, spread and the drawn
/// cards, one per line, then the task.
pub open spec fn tarot_prompt_text(
    sphere: Seq<char>,
    subtopic: Seq<char>,
    spread: Seq<char>,
    drawn: Seq<(TarotCard, bool)>,
) -> Seq<char> {
    "Сфера: "@ + sphere + "\nВопрос: "@ + subtopic + "\nРасклад: "@ + spread + "\nВыпавшие карты:\n"@
        + joined(prompt_card_lines(drawn), "\n"@)
        + "\n\nДай толкование расклада по позициям и общий совет."@
}

/// The request for a tarot reading.
pub fn tarot_prompt(sphere: &str, subtopic: &str, spread: &str, drawn: &Vec<(TarotCard, bool)>) -> (r:
    String)
    requires
        drawn@.len() < u64::MAX,
    ensures
        r@ == tarot_prompt_text(sphere@, subtopic@, spread@, drawn@),
{
    let mut out = String::from_str("Сфера: ");
    out.append(sphere);
    out.append("\nВопрос: ");
    out.append(subtopic);
    out.append("\nРасклад: ");
    out.append(spread);
    out.append("\nВыпавшие карты:\n");
    let ghost head = out@;
    let n = drawn.len();
    for i in 0..n
        invariant
            n == drawn@.len(),
            n < u64::MAX,
            out@ == head + joined(prompt_card_lines(drawn@.take(i as int)), "\n"@),
    {
        let ghost before = out@;
        let ghost done = prompt_card_lines(drawn@.take(i as int));
        if i > 0 {
            out.append("\n");
        }
        let (card, reversed) = drawn[i];
        let position: u64 = (i as u64) + 1;
        push_decimal(&mut out, position);
        out.append(". ");
        out.append(card.name);
        out.append(" (");
        if reversed {
            out.append("перевернутая");
        } else {
            out.append("прямая");
        }
        out.append(")");
        proof {
            let line = prompt_card_line((i + 1) as nat, card.name@, reversed);
            assert(prompt_card_lines(drawn@.take(i + 1)) =~= done.push(line));
            lemma_joined_push(done, "\n"@, line);
            if i == 0 {
                assert(done =~= Seq::<Seq<char>>::empty());
                assert(out@ =~= head + line);
            } else {
                assert(out@ =~= before + "\n"@ + line);
            }
        }
    }
    proof {
        assert(drawn@.take(n as int) =~= drawn@);
    }
    out.append("\n\nДай толкование расклада по позициям и общий совет.");
    out
}

/// The request for an astrological reading of a sign over a period.
pub open spec fn astrology_prompt_text(sign: Seq<char>, period: Seq<char>) -> Seq<char> {
    "Знак Зодиака: "@ + sign + "\nПериод: "@ + period
        + "\n\nСоставь астрологический срез энергий: общий фон, отношения, работа и совет."@
}

/// The request for an astrological reading.
pub fn astrology_prompt(sign: &str, period: &str) -> (r: String)
    ensures
        r@ == astrology_prompt_text(sign@, period@),
{
    let mut out = String::from_str("Знак Зодиака: ");
    out.append(sign);
    out.append("\nПериод: ");
    out.append(period);
    out.append("\n\nСоставь астрологический срез энергий: общий фон, отношения, работа и совет.");
    out
}

/// The request for the meaning of a Leela cell.
pub open spec fn leela_prompt_text(number: u8, name: Seq<char>, plane: Seq<char>) -> Seq<char> {
    "Игра Лила. Игрок попал на клетку №"@ + decimal(number as nat) + ": «"@ + name + "» ("@ + plane
        + ").\n\nРаскрой смысл клетки и урок, который она несёт."@
}

/// The request for the meaning of a Leela cell.
pub fn leela_prompt(number: u8, name: &str, plane: &str) -> (r: String)
    ensures
        r@ == leela_prompt_text(number, name@, plane@),
{
    let mut out = String::from_str("Игра Лила. Игрок попал на клетку №");
    push_decimal(&mut out, number as u64);
    out.append(": «");
    out.append(name);
    out.append("» (");
    out.append(plane);
    out.append(").\n\nРаскрой смысл клетки и урок, который она несёт.");
    out
}

// ---------------------------------------------------------------------------
// Tarot screens
// ---------------------------------------------------------------------------

/// The progress shown while cards are picked: `picked/needed`.
pub open spec fn picked_progress_text(picked: nat, needed: nat) -> Seq<char> {
    "🎴 Выбрано карт: <b>"@ + decimal(picked) + "/"@ + decimal(needed)
        + "</b>\n\nВыберите следующую карту из оставшихся:"@
}

/// The progress shown while cards are picked.
pub fn picked_progress(picked: usize, needed: usize) -> (r: String)
    ensures
        r@ == picked_progress_text(picked as nat, needed as nat),
{
    let mut out = String::from_str("🎴 Выбрано карт: <b>");
    push_decimal(&mut out, picked as u64);
    out.append("/");
    push_decimal(&mut out, needed as u64);
    out.append("</b>\n\nВыберите следующую карту из оставшихся:");
    out
}

/// The finished tarot reading: sphere, question, the drawn cards as bullet
/// lines, the note on free readings, and the interpretation between rules.
pub open spec fn tarot_reading_text(
    sphere: Seq<char>,
    subtopic: Seq<char>,
    drawn: Seq<(TarotCard, bool)>,
    remaining: i64,
    interpretation: Seq<char>,
) -> Seq<char> {
    "🔮 <b>ТАИНСТВО ТАРО СОВЕРШЕНО</b>\n\n📍 <b>Сфера</b>: "@ + sphere + "\n❓ <b>Вопрос</b>: "@ + subtopic
        + "\n🎴 <b>Выпавшие арканы</b>:\n"@ + joined(labels(drawn).map_values(|l: Seq<char>| bullet(l)), "\n"@)
        + "\n"@ + remaining_notice_text(remaining) + "\n────────────────────\n"@ + interpretation
        + "\n────────────────────"@
}

/// The finished tarot reading.
pub fn tarot_reading(
    sphere: &str,
    subtopic: &str,
    drawn: &Vec<(TarotCard, bool)>,
    remaining: i64,
    interpretation: &str,
) -> (r: String)
    ensures
        r@ == tarot_reading_text(sphere@, subtopic@, drawn@, remaining, interpretation@),
{
    let mut out = String::from_str("🔮 <b>ТАИНСТВО ТАРО СОВЕРШЕНО</b>\n\n📍 <b>Сфера</b>: ");
    out.append(sphere);
    out.append("\n❓ <b>Вопрос</b>: ");
    out.append(subtopic);
    out.append("\n🎴 <b>Выпавшие арканы</b>:\n");
    let list = cards_list(drawn);
    out.append(list.as_str());
    out.append("\n");
    let note = remaining_notice(remaining);
    out.append(note.as_str());
    out.append("\n────────────────────\n");
    out.append(interpretation);
    out.append("\n────────────────────");
    proof {
        assert(out@ =~= tarot_reading_text(sphere@, subtopic@, drawn@, remaining, interpretation@));
    }
    out
}

/// How a card lies, as it follows the card's name in the card of the day.
pub open spec fn lying_text(reversed: bool) -> Seq<char> {
    if reversed {
        " (Перевернутая)"@
    } else {
        " (Прямая)"@
    }
}

/// The request for the card of the day.
pub open spec fn day_card_prompt_text(card: TarotCard, reversed: bool) -> Seq<char> {
    "Расклад 'Карта дня'. Выпала карта: "@ + card.name@ + lying_text(reversed)
        + ". Дай краткий, мудрый совет, предостережение и фокус внимания на день."@
}

/// The request for the card of the day.
pub fn day_card_prompt(card: &TarotCard, reversed: bool) -> (r: String)
    ensures
        r@ == day_card_prompt_text(*card, reversed),
{
    let mut out = String::from_str("Расклад 'Карта дня'. Выпала карта: ");
    out.append(card.name);
    out.append(orientation_suffix(reversed));
    out.append(". Дай краткий, мудрый совет, предостережение и фокус внимания на день.");
    out
}

/// The advice shown for the card of the day when the AI gives none.
pub open spec fn day_card_fallback_text(card: TarotCard, reversed: bool) -> Seq<char> {
    "Аркан: "@ + card.name@ + lying_text(reversed)
        + "\n\nСвет знания: Доверьтесь интуиции и наблюдайте за знаками."@
}

/// The advice shown for the card of the day when the AI gives none.
pub fn day_card_fallback(card: &TarotCard, reversed: bool) -> (r: String)
    ensures
        r@ == day_card_fallback_text(*card, reversed),
{
    let mut out = String::from_str("Аркан: ");
    out.append(card.name);
    out.append(orientation_suffix(reversed));
    out.append("\n\nСвет знания: Доверьтесь интуиции и наблюдайте за знаками.");
    out
}

/// The card of the day as shown: the card, the advice and its key energies.
pub open spec fn day_card_caption_text(card: TarotCard, reversed: bool, advice: Seq<char>) -> Seq<char> {
    "🌙 <b>Оракул открывает Аркан вашего сегодняшнего дня: "@ + card.name@ + lying_text(reversed)
        + "</b>\n\n🔮 <b>Совет Оракула:</b>\n"@ + advice + "\n\n<i>Ключевые энергии: "@ + card.keywords@
        + "</i>"@
}

/// The card of the day as shown.
pub fn day_card_caption(card: &TarotCard, reversed: bool, advice: &str) -> (r: String)
    ensures
        r@ == day_card_caption_text(*card, reversed, advice@),
{
    let mut out = String::from_str("🌙 <b>Оракул открывает Аркан вашего сегодняшнего дня: ");
    out.append(card.name);
    out.append(orientation_suffix(reversed));
    out.append("</b>\n\n🔮 <b>Совет Оракула:</b>\n");
    out.append(advice);
    out.append("\n\n<i>Ключевые энергии: ");
    out.append(card.keywords);
    out.append("</i>");
    proof {
        assert(out@ =~= day_card_caption_text(*card, reversed, advice@));
    }
    out
}

/// The invitation to pick `count` cards.
pub open spec fn spread_intro_text(count: nat) -> Seq<char> {
    "🎴 <b>Колода разложена на сакральном алтаре.</b>\n\nСделайте вдох, сфокусируйтесь на вопросе и выберите пальцем <b>"@
        + decimal(count) + "</b> карту(ы):"@
}

/// The invitation to pick the cards of a spread.
pub fn spread_intro(count: usize) -> (r: String)
    ensures
        r@ == spread_intro_text(count as nat),
{
    let mut out = String::from_str(
        "🎴 <b>Колода разложена на сакральном алтаре.</b>\n\nСделайте вдох, сфокусируйтесь на вопросе и выберите пальцем <b>",
    );
    push_decimal(&mut out, count as u64);
    out.append("</b> карту(ы):");
    out
}

/// The notice that all `max` gifted readings are used.
pub open spec fn free_limit_text(max: i32) -> Seq<char> {
    "🔒 <b>Лимит бесплатных раскладов исчерпан</b>\n\nВы использовали все <b>"@ + signed_decimal(max as int)
        + "</b> подарочных раскладов.\nДля продолжения оформите доступ в разделе <b>Тарифы</b> или обратитесь в поддержку <b>@Studia_taro</b>."@
}

/// The notice that all gifted readings are used.
pub fn free_limit_notice(max: i32) -> (r: String)
    ensures
        r@ == free_limit_text(max),
{
    let mut out = String::from_str("🔒 <b>Лимит бесплатных раскладов исчерпан</b>\n\nВы использовали все <b>");
    push_signed_decimal(&mut out, max as i64);
    out.append(
        "</b> подарочных раскладов.\nДля продолжения оформите доступ в разделе <b>Тарифы</b> или обратитесь в поддержку <b>@Studia_taro</b>.",
    );
    out
}

/// The main menu's greeting, with the user's name where it is known, and
/// the gifted readings left.
pub open spec fn menu_greeting_text(first_name: Option<Seq<char>>, remaining: i64) -> Seq<char> {
    "✨ <b>Главное меню ORACULUM</b>\n\n🔮 Добро пожаловать в пространство сакральных знаний и ИИ-Оракула"@
        + (match first_name {
        Some(n) => ", "@ + n + "!"@,
        None => "."@,
    }) + "\n\n🎁 Доступно бесплатных раскладов: <b>"@ + signed_decimal(remaining as int)
        + " из 10</b>\n\nВыберите интересующий вас раздел:"@
}

/// The main menu's greeting.
pub fn menu_greeting(first_name: Option<&str>, remaining: i64) -> (r: String)
    ensures
        r@ == menu_greeting_text(
            match first_name {
                Some(n) => Some(n@),
                None => None,
            },
            remaining,
        ),
{
    let mut out = String::from_str(
        "✨ <b>Главное меню ORACULUM</b>\n\n🔮 Добро пожаловать в пространство сакральных знаний и ИИ-Оракула",
    );
    match first_name {
        Some(n) => {
            out.append(", ");
            out.append(n);
            out.append("!");
        },
        None => out.append("."),
    }
    out.append("\n\n🎁 Доступно бесплатных раскладов: <b>");
    push_signed_decimal(&mut out, remaining);
    out.append(" из 10</b>\n\nВыберите интересующий вас раздел:");
    proof {
        assert(out@ =~= menu_greeting_text(
            match first_name {
                Some(n) => Some(n@),
                None => None,
            },
            remaining,
        ));
    }
    out
}

/// The astrological reading as shown.
pub open spec fn astrology_reading_text(sign: Seq<char>, interpretation: Seq<char>) -> Seq<char> {
    "🌌 <b>АСТРОЛОГИЧЕСКИЙ СРЕЗ: "@ + sign + "</b>\n\n"@ + interpretation + "\n"@
}

/// The astrological reading as shown.
pub fn astrology_reading(sign: &str, interpretation: &str) -> (r: String)
    ensures
        r@ == astrology_reading_text(sign@, interpretation@),
{
    let mut out = String::from_str("🌌 <b>АСТРОЛОГИЧЕСКИЙ СРЕЗ: ");
    out.append(sign);
    out.append("</b>\n\n");
    out.append(interpretation);
    out.append("\n");
    out
}

/// The message while the die rolls.
pub open spec fn dice_roll_text(dice: u8) -> Seq<char> {
    "🎲 <i>Бросаем сакральный кубик... Выпало: <b>"@ + decimal(dice as nat) + "</b>!</i>"@
}

/// The message while the die rolls.
pub fn dice_roll(dice: u8) -> (r: String)
    ensures
        r@ == dice_roll_text(dice),
{
    let mut out = String::from_str("🎲 <i>Бросаем сакральный кубик... Выпало: <b>");
    push_decimal(&mut out, dice as u64);
    out.append("</b>!</i>");
    out
}

/// The Leela move as shown: the roll, the cell, its plane and the
/// interpretation between rules.
pub open spec fn leela_reading_text(dice: u8, cell: LeelaCell, interpretation: Seq<char>) -> Seq<char> {
    "🎲 <b>ТРАНСФОРМАЦИОННАЯ ИГРА ЛИЛА</b>\n\n🎯 <b>Бросок кубика</b>: "@ + decimal(dice as nat)
        + "\n📍 <b>Клетка №"@ + decimal(cell.number as nat) + "</b>: <b>"@ + cell.name@
        + "</b>\n🌌 <b>План</b>: "@ + cell.plane@ + "\n\n────────────────────\n"@ + interpretation
        + "\n────────────────────"@
}

/// The Leela move as shown.
pub fn leela_reading(dice: u8, cell: &LeelaCell, interpretation: &str) -> (r: String)
    ensures
        r@ == leela_reading_text(dice, *cell, interpretation@),
{
    let mut out = String::from_str("🎲 <b>ТРАНСФОРМАЦИОННАЯ ИГРА ЛИЛА</b>\n\n🎯 <b>Бросок кубика</b>: ");
    push_decimal(&mut out, dice as u64);
    out.append("\n📍 <b>Клетка №");
    push_decimal(&mut out, cell.number as u64);
    out.append("</b>: <b>");
    out.append(cell.name);
    out.append("</b>\n🌌 <b>План</b>: ");
    out.append(cell.plane);
    out.append("\n\n────────────────────\n");
    out.append(interpretation);
    out.append("\n────────────────────");
    proof {
        assert(out@ =~= leela_reading_text(dice, *cell, interpretation@));
    }
    out
}

// ---------------------------------------------------------------------------
// Other screens
// ---------------------------------------------------------------------------

/// The refusal shown while the bot is open to one user only.
pub open spec fn access_denied_text(allowed: Seq<char>) -> Seq<char> {
    "🔒 <b>Доступ ограничен</b>\n\nБот находится в режиме приватного тестирования и доступен только для <b>@"@
        + allowed + "</b>.\nДля получения персонального доступа напишите администратору."@
}

/// The refusal shown while the bot is open to one user only.
pub fn access_denied(allowed: &str) -> (r: String)
    ensures
        r@ == access_denied_text(allowed@),
{
    let mut out = String::from_str(
        "🔒 <b>Доступ ограничен</b>\n\nБот находится в режиме приватного тестирования и доступен только для <b>@",
    );
    out.append(allowed);
    out.append("</b>.\nДля получения персонального доступа напишите администратору.");
    out
}

/// The welcome above the offer.
pub open spec fn offer_welcome_text(first_name: Seq<char>, offer: Seq<char>) -> Seq<char> {
    "✨ <b>Добро пожаловать в Сакральный Храм Оракула</b>, "@ + first_name + "!\n\n"@ + offer
}

/// The welcome above the offer.
pub fn offer_welcome(first_name: &str, offer: &str) -> (r: String)
    ensures
        r@ == offer_welcome_text(first_name@, offer@),
{
    let mut out = String::from_str("✨ <b>Добро пожаловать в Сакральный Храм Оракула</b>, ");
    out.append(first_name);
    out.append("!\n\n");
    out.append(offer);
    out
}

/// The greeting once the offer is accepted, with the gifted readings left.
pub open spec fn gates_open_text(first_name: Seq<char>, remaining: i64) -> Seq<char> {
    "✨ <b>Врата Оракула открыты для вас, "@ + first_name + "!</b>\n\n🎁 Доступно бесплатных раскладов: <b>"@
        + signed_decimal(remaining as int)
        + "</b>\n\nВыберите таинство, к которому желает обратиться ваша душа:"@
}

/// The greeting once the offer is accepted.
pub fn gates_open(first_name: &str, remaining: i64) -> (r: String)
    ensures
        r@ == gates_open_text(first_name@, remaining),
{
    let mut out = String::from_str("✨ <b>Врата Оракула открыты для вас, ");
    out.append(first_name);
    out.append("!</b>\n\n🎁 Доступно бесплатных раскладов: <b>");
    push_signed_decimal(&mut out, remaining);
    out.append("</b>\n\nВыберите таинство, к которому желает обратиться ваша душа:");
    out
}

/// A part of the offer, under its heading.
pub open spec fn offer_page_text(part: nat, content: Seq<char>) -> Seq<char> {
    "📜 <b>Публичная оферта (Часть "@ + decimal(part) + "/3)</b>\n\n"@ + content
}

/// A part of the offer, under its heading.
pub fn offer_page(part: usize, content: &str) -> (r: String)
    ensures
        r@ == offer_page_text(part as nat, content@),
{
    let mut out = String::from_str("📜 <b>Публичная оферта (Часть ");
    push_decimal(&mut out, part as u64);
    out.append("/3)</b>\n\n");
    out.append(content);
    out
}

/// How to pay for a chosen tariff.
pub open spec fn tariff_chosen_text(name: Seq<char>, price: Seq<char>) -> Seq<char> {
    "💎 <b>Выбран тариф: "@ + name + "</b>\n\nСтоимость: <b>"@ + price
        + "</b>\n\nДля подключения этого тарифа пожалуйста напишите в нашу службу поддержки:\n@Studia_taro\n\nУкажите желаемый тариф и способ оплаты (СБП, карта РФ, ЮMoney)."@
}

/// How to pay for a chosen tariff.
pub fn tariff_chosen(name: &str, price: &str) -> (r: String)
    ensures
        r@ == tariff_chosen_text(name@, price@),
{
    let mut out = String::from_str("💎 <b>Выбран тариф: ");
    out.append(name);
    out.append("</b>\n\nСтоимость: <b>");
    out.append(price);
    out.append(
        "</b>\n\nДля подключения этого тарифа пожалуйста напишите в нашу службу поддержки:\n@Studia_taro\n\nУкажите желаемый тариф и способ оплаты (СБП, карта РФ, ЮMoney).",
    );
    out
}

/// The user's profile: id, name, energy, saved readings and first visit.
pub open spec fn profile_text_of(user: User, saved: nat) -> Seq<char> {
    "👤 <b>Сакральный Профиль Искателя</b>\n\n🆔 <b>ID</b>: <code>"@ + signed_decimal(user.telegram_id as int)
        + "</code>\n✨ <b>Имя</b>: "@ + user.first_name@ + "\n⚡ <b>Энергия для раскладов</b>: "@
        + signed_decimal(user.energy_balance as int) + "\n🔮 <b>Сохраненных раскладов</b>: "@ + decimal(saved)
        + "\n📅 <b>В Храме с</b>: "@ + user.created_at@
        + "\n\n<i>Энергия пополняется ежедневно (+1 расклад каждые 24 часа).</i>"@
}

/// The user's profile.
pub fn profile_text(user: &User, saved: usize) -> (r: String)
    ensures
        r@ == profile_text_of(*user, saved as nat),
{
    let mut out = String::from_str("👤 <b>Сакральный Профиль Искателя</b>\n\n🆔 <b>ID</b>: <code>");
    push_signed_decimal(&mut out, user.telegram_id);
    out.append("</code>\n✨ <b>Имя</b>: ");
    out.append(user.first_name.as_str());
    out.append("\n⚡ <b>Энергия для раскладов</b>: ");
    push_signed_decimal(&mut out, user.energy_balance);
    out.append("\n🔮 <b>Сохраненных раскладов</b>: ");
    push_decimal(&mut out, saved as u64);
    out.append("\n📅 <b>В Храме с</b>: ");
    out.append(user.created_at.as_str());
    out.append("\n\n<i>Энергия пополняется ежедневно (+1 расклад каждые 24 часа).</i>");
    proof {
        assert(out@ =~= profile_text_of(*user, saved as nat));
    }
    out
}

/// Who the bot is open to, as the admin screens name it: the one allowed
/// user, or everyone ("Все").
pub open spec fn allowed_label(allowed: Option<Seq<char>>) -> Seq<char> {
    match allowed {
        Some(a) => a,
        None => "Все"@,
    }
}

/// The bot's statistics screen for the administrator.
pub open spec fn bot_stats_text(allowed: Option<Seq<char>>) -> Seq<char> {
    "📊 <b>Статистика бота</b>\n\n🗄 База: SQLite (bot.db)\n🔒 Whitelist: <b>@"@ + allowed_label(allowed)
        + "</b>"@
}

/// The bot's statistics screen for the administrator.
pub fn bot_stats(allowed: Option<&str>) -> (r: String)
    ensures
        r@ == bot_stats_text(crate::config::opt_str(allowed)),
{
    let mut out = String::from_str("📊 <b>Статистика бота</b>\n\n🗄 База: SQLite (bot.db)\n🔒 Whitelist: <b>@");
    match allowed {
        Some(a) => out.append(a),
        None => out.append("Все"),
    }
    out.append("</b>");
    out
}

/// The whitelist screen for the administrator.
pub open spec fn whitelist_text(allowed: Option<Seq<char>>) -> Seq<char> {
    "🔒 <b>Whitelist статус</b>\n\nТекущий разрешенный пользователь: <b>@"@ + allowed_label(allowed)
        + "</b>\n\n<i>Чтобы изменить пользователя или открыть доступ всем, укажите ALLOWED_USERNAME в .env файле.</i>"@
}

/// The whitelist screen for the administrator.
pub fn whitelist_status(allowed: Option<&str>) -> (r: String)
    ensures
        r@ == whitelist_text(crate::config::opt_str(allowed)),
{
    let mut out = String::from_str("🔒 <b>Whitelist статус</b>\n\nТекущий разрешенный пользователь: <b>@");
    match allowed {
        Some(a) => out.append(a),
        None => out.append("Все"),
    }
    out.append(
        "</b>\n\n<i>Чтобы изменить пользователя или открыть доступ всем, укажите ALLOWED_USERNAME в .env файле.</i>",
    );
    out
}

/// The temple's greeting with the user's energy balance.
pub open spec fn temple_greeting_text(first_name: Seq<char>, energy: i64) -> Seq<char> {
    "🏛 <b>Храм Оракула приветствует вас, "@ + first_name + "!</b>\n\n⚡ Ваш баланс энергии: <b>"@
        + signed_decimal(energy as int) + "</b>\n\nВыберите таинство для получения ответов:"@
}

/// The temple's greeting with the user's energy balance.
pub fn temple_greeting(first_name: &str, energy: i64) -> (r: String)
    ensures
        r@ == temple_greeting_text(first_name@, energy),
{
    let mut out = String::from_str("🏛 <b>Храм Оракула приветствует вас, ");
    out.append(first_name);
    out.append("!</b>\n\n⚡ Ваш баланс энергии: <b>");
    push_signed_decimal(&mut out, energy);
    out.append("</b>\n\nВыберите таинство для получения ответов:");
    out
}

/// The heading over the questions of a sphere.
pub open spec fn sphere_heading_text(title: Seq<char>) -> Seq<char> {
    "📍 <b>"@ + title + "</b>\n\nУточните глубинный аспект вашего вопроса:"@
}

/// The heading over the questions of a sphere.
pub fn sphere_heading(title: &str) -> (r: String)
    ensures
        r@ == sphere_heading_text(title@),
{
    let mut out = String::from_str("📍 <b>");
    out.append(title);
    out.append("</b>\n\nУточните глубинный аспект вашего вопроса:");
    out
}

// ---------------------------------------------------------------------------
// Laws
// ---------------------------------------------------------------------------

/// The request for a tarot reading names the sphere, the question and the
/// spread, then lists every drawn card, one line each, in the order drawn,
/// numbered from 1 and with the card's own orientation.
pub proof fn law_tarot_prompt_lists_every_card(
    sphere: Seq<char>,
    subtopic: Seq<char>,
    spread: Seq<char>,
    drawn: Seq<(TarotCard, bool)>,
)
    ensures
        ({
            let lines = prompt_card_lines(drawn);
            &&& tarot_prompt_text(sphere, subtopic, spread, drawn) == "Сфера: "@ + sphere + "\nВопрос: "@
                + subtopic + "\nРасклад: "@ + spread + "\nВыпавшие карты:\n"@ + joined(lines, "\n"@)
                + "\n\nДай толкование расклада по позициям и общий совет."@
            &&& lines.len() == drawn.len()
            &&& forall|i: int|
                0 <= i < drawn.len() ==> #[trigger] lines[i] == decimal((i + 1) as nat) + ". "@
                    + drawn[i].0.name@ + " ("@ + (if drawn[i].1 {
                    "перевернутая"@
                } else {
                    "прямая"@
                }) + ")"@
        }),
{
}

/// The finished tarot reading shows every drawn card, one bullet line
/// each, in the order drawn and with its own orientation, under the sphere
/// and the question, and the interpretation between two rules.
pub proof fn law_tarot_reading_shows_every_card(
    sphere: Seq<char>,
    subtopic: Seq<char>,
    drawn: Seq<(TarotCard, bool)>,
    remaining: i64,
    interpretation: Seq<char>,
)
    ensures
        ({
            let shown = labels(drawn).map_values(|l: Seq<char>| bullet(l));
            &&& tarot_reading_text(sphere, subtopic, drawn, remaining, interpretation)
                == "🔮 <b>ТАИНСТВО ТАРО СОВЕРШЕНО</b>\n\n📍 <b>Сфера</b>: "@ + sphere
                + "\n❓ <b>Вопрос</b>: "@ + subtopic + "\n🎴 <b>Выпавшие арканы</b>:\n"@ + joined(shown, "\n"@)
                + "\n"@ + remaining_notice_text(remaining) + "\n────────────────────\n"@ + interpretation
                + "\n────────────────────"@
            &&& shown.len() == drawn.len()
            &&& forall|i: int|
                0 <= i < drawn.len() ==> #[trigger] shown[i] == "• <b>"@ + drawn[i].0.name@ + " ("@ + (if drawn[i].1 {
                    "Перевернутая"@
                } else {
                    "Прямая"@
                }) + ")"@ + "</b>"@
        }),
{
}

/// The card of the day is asked about, answered without the AI, and shown
/// with the orientation it was drawn in: " (Перевернутая)" when reversed,
/// " (Прямая)" when upright; the two orientations give different texts.
pub proof fn law_day_card_keeps_its_orientation(card: TarotCard, reversed: bool, advice: Seq<char>)
    ensures
        ({
            let o = if reversed {
                " (Перевернутая)"@
            } else {
                " (Прямая)"@
            };
            &&& day_card_prompt_text(card, reversed) == "Расклад 'Карта дня'. Выпала карта: "@ + card.name@ + o
                + ". Дай краткий, мудрый совет, предостережение и фокус внимания на день."@
            &&& day_card_fallback_text(card, reversed) == "Аркан: "@ + card.name@ + o
                + "\n\nСвет знания: Доверьтесь интуиции и наблюдайте за знаками."@
            &&& day_card_caption_text(card, reversed, advice)
                == "🌙 <b>Оракул открывает Аркан вашего сегодняшнего дня: "@ + card.name@ + o
                + "</b>\n\n🔮 <b>Совет Оракула:</b>\n"@ + advice + "\n\n<i>Ключевые энергии: "@
                + card.keywords@ + "</i>"@
        }),
        day_card_prompt_text(card, true) != day_card_prompt_text(card, false),
        day_card_fallback_text(card, true) != day_card_fallback_text(card, false),
        day_card_caption_text(card, true, advice) != day_card_caption_text(card, false, advice),
{
    reveal_strlit(" (Перевернутая)");
    reveal_strlit(" (Прямая)");
    let up = " (Прямая)"@;
    let down = " (Перевернутая)"@;
    assert(up[3] != down[3]);
    let a1 = "Расклад 'Карта дня'. Выпала карта: "@ + card.name@;
    let t1 = ". Дай краткий, мудрый совет, предостережение и фокус внимания на день."@;
    assert((a1 + down + t1)[a1.len() + 3int] == down[3]);
    assert((a1 + up + t1)[a1.len() + 3int] == up[3]);
    let a2 = "Аркан: "@ + card.name@;
    let t2 = "\n\nСвет знания: Доверьтесь интуиции и наблюдайте за знаками."@;
    assert((a2 + down + t2)[a2.len() + 3int] == down[3]);
    assert((a2 + up + t2)[a2.len() + 3int] == up[3]);
    let a3 = "🌙 <b>Оракул открывает Аркан вашего сегодняшнего дня: "@ + card.name@;
    let t3 = "</b>\n\n🔮 <b>Совет Оракула:</b>\n"@ + advice + "\n\n<i>Ключевые энергии: "@ + card.keywords@
        + "</i>"@;
    assert((a3 + down + t3)[a3.len() + 3int] == down[3]);
    assert((a3 + up + t3)[a3.len() + 3int] == up[3]);
    assert(day_card_caption_text(card, true, advice) =~= a3 + down + t3);
    assert(day_card_caption_text(card, false, advice) =~= a3 + up + t3);
}

// ---------------------------------------------------------------------------
// Keyboards of the legal documents
// ---------------------------------------------------------------------------

/// The menu of legal documents, headed by the accept button while the offer
/// is not accepted.
pub open spec fn legal_menu_rows(needs_accept: bool) -> Seq<Seq<ButtonView>> {
    (if needs_accept {
        seq![seq![cb("✅ Я принимаю условия оферты"@, "accept_offer"@)]]
    } else {
        Seq::<Seq<ButtonView>>::empty()
    }) + seq![
        seq![cb("📜 Публичная оферта"@, "legal:offer"@)],
        seq![cb("🔐 Политика конфиденциальности"@, "legal:privacy"@)],
        seq![cb("✅ Согласие на обработку данных"@, "legal:consent"@)],
        seq![cb("🏠 Главное меню"@, "nav:main_menu"@)],
    ]
}

/// The menu of legal documents.
pub fn legal_menu_keyboard(needs_accept: bool) -> (k: Keyboard)
    ensures
        k@ == legal_menu_rows(needs_accept),
{
    let mut rows: Vec<Vec<Button>> = Vec::new();
    if needs_accept {
        push_row(&mut rows, row1(callback("✅ Я принимаю условия оферты", "accept_offer")));
    }
    push_row(&mut rows, row1(callback("📜 Публичная оферта", "legal:offer")));
    push_row(&mut rows, row1(callback("🔐 Политика конфиденциальности", "legal:privacy")));
    push_row(&mut rows, row1(callback("✅ Согласие на обработку данных", "legal:consent")));
    push_row(&mut rows, row1(callback("🏠 Главное меню", "nav:main_menu")));
    let k = Keyboard { rows };
    proof {
        assert(k@ =~= legal_menu_rows(needs_accept));
    }
    k
}

/// Data of the button to part `part` of the offer: `legal:offer:<part>`.
pub open spec fn offer_page_data(part: nat) -> Seq<char> {
    "legal:offer:"@ + decimal(part)
}

/// Paging through the three parts of the offer: back while past the first
/// part, forward while before the last, then the way back to the documents.
pub open spec fn offer_pagination_rows(part: nat) -> Seq<Seq<ButtonView>> {
    seq![
        (if part > 1 {
            seq![cb("◀️"@, offer_page_data((part - 1) as nat))]
        } else {
            Seq::<ButtonView>::empty()
        }) + (if part < 3 {
            seq![cb("▶️"@, offer_page_data(part + 1))]
        } else {
            Seq::<ButtonView>::empty()
        }),
        seq![cb("⚖️ К документам"@, "nav:legal"@)],
    ]
}

/// The data of a button to a part of the offer.
fn offer_page_button(label: &str, part: usize) -> (b: Button)
    ensures
        b@ == cb(label@, offer_page_data(part as nat)),
{
    let mut data = String::from_str("legal:offer:");
    push_decimal(&mut data, part as u64);
    callback_owned(label, data)
}

/// Paging through the three parts of the offer.
pub fn offer_pagination_keyboard(part: usize) -> (k: Keyboard)
    ensures
        k@ == offer_pagination_rows(part as nat),
{
    let mut nav: Vec<Button> = Vec::new();
    if part > 1 {
        nav.push(offer_page_button("◀️", part - 1));
    }
    if part < 3 {
        nav.push(offer_page_button("▶️", part + 1));
    }
    let ghost nav_view = nav@.map_values(|b: Button| b@);
    proof {
        assert(nav_view =~= offer_pagination_rows(part as nat)[0]);
    }
    let mut rows: Vec<Vec<Button>> = Vec::new();
    push_row(&mut rows, nav);
    push_row(&mut rows, row1(callback("⚖️ К документам", "nav:legal")));
    let k = Keyboard { rows };
    proof {
        assert(k@ =~= offer_pagination_rows(part as nat));
    }
    k
}

} // verus!
