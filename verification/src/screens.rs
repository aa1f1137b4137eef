//! The parts of the user bot's screens that depend on the data shown.

use vstd::prelude::*;

use crate::esoterics::tarot::TarotCard;
use crate::keyboards::lemma_joined_push;
use crate::routing::{PickRequest, Tariff};
use crate::models::ReadingHistory;
use crate::text::{decimal, joined, push_decimal, push_signed_decimal, signed_decimal};

verus! {

/// How a card lies: " (Перевернутая)" when reversed, else " (Прямая)".
pub fn orientation_suffix(reversed: bool) -> (r: &'static str)
    ensures
        r@ == (if reversed {
            " (Перевернутая)"@
        } else {
            " (Прямая)"@
        }),
{
    if reversed {
        " (Перевернутая)"
    } else {
        " (Прямая)"
    }
}

/// A drawn card as shown: `<name> (Перевернутая|Прямая)`.
pub open spec fn card_label_text(card: TarotCard, reversed: bool) -> Seq<char> {
    card.name@ + " ("@ + (if reversed {
        "Перевернутая"@
    } else {
        "Прямая"@
    }) + ")"@
}

/// A drawn card as shown.
pub fn card_label(card: &TarotCard, reversed: bool) -> (r: String)
    ensures
        r@ == card_label_text(*card, reversed),
{
    let mut s = String::from_str(card.name);
    s.append(" (");
    if reversed {
        s.append("Перевернутая");
    } else {
        s.append("Прямая");
    }
    s.append(")");
    s
}

/// The labels of the drawn cards.
pub open spec fn labels(drawn: Seq<(TarotCard, bool)>) -> Seq<Seq<char>> {
    drawn.map_values(|d: (TarotCard, bool)| card_label_text(d.0, d.1))
}

/// The drawn cards joined by ", ", as saved in the reading history.
pub fn cards_summary(drawn: &Vec<(TarotCard, bool)>) -> (r: String)
    ensures
        r@ == joined(labels(drawn@), ", "@),
{
    let n = drawn.len();
    let mut out = String::new();
    for i in 0..n
        invariant
            n == drawn@.len(),
            out@ == joined(labels(drawn@.take(i as int)), ", "@),
    {
        let ghost before = out@;
        if i > 0 {
            out.append(", ");
        }
        let (card, reversed) = drawn[i];
        let label = card_label(&card, reversed);
        out.append(label.as_str());
        proof {
            assert(drawn@.take(i + 1) =~= drawn@.take(i as int).push(drawn@[i as int]));
            assert(labels(drawn@.take(i + 1)) =~= labels(drawn@.take(i as int)).push(label@));
            lemma_joined_push(labels(drawn@.take(i as int)), ", "@, label@);
            if i == 0 {
                assert(before =~= Seq::<char>::empty());
                assert(out@ =~= label@);
            }
        }
    }
    proof {
        assert(drawn@.take(n as int) =~= drawn@);
    }
    out
}

/// The bullet line of one drawn card: `• <b><label></b>`.
pub open spec fn bullet(label: Seq<char>) -> Seq<char> {
    "• <b>"@ + label + "</b>"@
}

/// The drawn cards as bullet lines joined by new lines.
pub fn cards_list(drawn: &Vec<(TarotCard, bool)>) -> (r: String)
    ensures
        r@ == joined(labels(drawn@).map_values(|l: Seq<char>| bullet(l)), "\n"@),
{
    let n = drawn.len();
    let mut out = String::new();
    let ghost f = |l: Seq<char>| bullet(l);
    for i in 0..n
        invariant
            n == drawn@.len(),
            f == (|l: Seq<char>| bullet(l)),
            out@ == joined(labels(drawn@.take(i as int)).map_values(f), "\n"@),
    {
        let ghost before = out@;
        if i > 0 {
            out.append("\n");
        }
        let (card, reversed) = drawn[i];
        let label = card_label(&card, reversed);
        let ghost line = bullet(label@);
        out.append("• <b>");
        out.append(label.as_str());
        out.append("</b>");
        proof {
            assert(drawn@.take(i + 1) =~= drawn@.take(i as int).push(drawn@[i as int]));
            assert(labels(drawn@.take(i + 1)).map_values(f) =~= labels(drawn@.take(i as int)).map_values(f).push(line));
            lemma_joined_push(labels(drawn@.take(i as int)).map_values(f), "\n"@, line);
            if i == 0 {
                assert(before =~= Seq::<char>::empty());
                assert(out@ =~= line);
            } else {
                assert(out@ =~= before + "\n"@ + line);
            }
        }
    }
    proof {
        assert(drawn@.take(n as int) =~= drawn@);
    }
    out
}

/// The note on free readings under a tarot reading, given the free
/// readings that were left before it.
pub open spec fn remaining_notice_text(remaining: i64) -> Seq<char> {
    if remaining > 1 {
        "\n🎁 <i>Осталось бесплатных раскладов: "@ + signed_decimal(remaining - 1) + "</i>\n"@
    } else {
        "\n⚠️ <i>Это был ваш последний бесплатный расклад из 10.</i>\n"@
    }
}

/// The note on free readings under a tarot reading.
pub fn remaining_notice(remaining: i64) -> (r: String)
    ensures
        r@ == remaining_notice_text(remaining),
{
    if remaining > 1 {
        let mut s = String::from_str("\n🎁 <i>Осталось бесплатных раскладов: ");
        push_signed_decimal(&mut s, remaining - 1);
        s.append("</i>\n");
        s
    } else {
        String::from_str("\n⚠️ <i>Это был ваш последний бесплатный расклад из 10.</i>\n")
    }
}

/// The free readings a user has: with `used` of `max` gifted readings used,
/// `(whether one is left, how many are left)`, never below zero.
pub fn free_readings_status(used: i64, max: i32) -> (r: (bool, i64))
    requires
        used >= 0,
    ensures
        r.1 == (if max - used > 0 {
            max - used
        } else {
            0
        }),
        r.0 == (r.1 > 0),
{
    let left: i64 = if used < max as i64 {
        max as i64 - used
    } else {
        0
    };
    (left > 0, left)
}

/// More cards must still be picked before the reading.
pub fn needs_more_cards(p: &PickRequest) -> (r: bool)
    ensures
        r == (p.picked@.len() < p.needed),
{
    p.picked.len() < p.needed
}

/// The name and price of a tariff.
pub fn tariff_info(t: Tariff) -> (r: (&'static str, &'static str))
    ensures
        r == match t {
            Tariff::Pack5 => ("Пакет «5 Раскладов»", "290 ₽"),
            Tariff::Month => ("Безлимит «Адепт» (месяц)", "790 ₽"),
            Tariff::ThreeMonths => ("Безлимит «Маг» (3 месяца)", "1990 ₽"),
            Tariff::Year => ("Безлимит «Верховная Жрица» (год)", "5990 ₽"),
        },
{
    match t {
        Tariff::Pack5 => ("Пакет «5 Раскладов»", "290 ₽"),
        Tariff::Month => ("Безлимит «Адепт» (месяц)", "790 ₽"),
        Tariff::ThreeMonths => ("Безлимит «Маг» (3 месяца)", "1990 ₽"),
        Tariff::Year => ("Безлимит «Верховная Жрица» (год)", "5990 ₽"),
    }
}

/// Which of the three parts of the offer a page number shows: 1 and 2 as
/// such, anything else the third.
pub fn offer_part(page: usize) -> (r: u8)
    ensures
        r == (if page == 1 {
            1u8
        } else if page == 2 {
            2u8
        } else {
            3u8
        }),
{
    if page == 1 {
        1
    } else if page == 2 {
        2
    } else {
        3
    }
}

/// One entry of the reading history screen, for the reading at place `idx`
/// (counted from 0).
pub open spec fn history_entry(idx: nat, r: ReadingHistory) -> Seq<char> {
    decimal(idx + 1) + ". <b>"@ + r.topic@ + "</b> (<i>"@ + r.reading_type@ + "</i>)\nКарты: <code>"@
        + r.selected_cards@ + "</code>\n📅 "@ + r.created_at@ + "\n\n"@
}

/// The entries of the first `k` readings.
pub open spec fn history_entries(h: Seq<ReadingHistory>, k: nat) -> Seq<char>
    decreases k,
{
    if k == 0 {
        Seq::<char>::empty()
    } else {
        history_entries(h, (k - 1) as nat) + history_entry((k - 1) as nat, h[k - 1])
    }
}

/// The reading history screen: a heading, then every reading given, or a
/// note that there is none yet.
pub open spec fn history_text_of(h: Seq<ReadingHistory>) -> Seq<char> {
    "📚 <b>История ваших последних раскладов</b>\n\n"@ + if h.len() == 0 {
        "<i>У вас пока нет сохраненных раскладов. Сделайте ваш первый расклад через главное меню!</i>"@
    } else {
        history_entries(h, h.len())
    }
}

/// Appends the entry of the reading at place `idx`.
fn push_history_entry(text: &mut String, idx: usize, r: &ReadingHistory)
    requires
        idx < usize::MAX,
    ensures
        final(text)@ == old(text)@ + history_entry(idx as nat, *r),
{
    push_decimal(text, (idx + 1) as u64);
    text.append(". <b>");
    text.append(r.topic.as_str());
    text.append("</b> (<i>");
    text.append(r.reading_type.as_str());
    text.append("</i>)\nКарты: <code>");
    text.append(r.selected_cards.as_str());
    text.append("</code>\n📅 ");
    text.append(r.created_at.as_str());
    text.append("\n\n");
    proof {
        assert(text@ =~= old(text)@ + history_entry(idx as nat, *r));
    }
}

/// The text of the reading history screen.
pub fn history_text(h: &Vec<ReadingHistory>) -> (r: String)
    ensures
        r@ == history_text_of(h@),
{
    let mut text = String::from_str("📚 <b>История ваших последних раскладов</b>\n\n");
    let ghost head = text@;
    let n = h.len();
    if n == 0 {
        text.append("<i>У вас пока нет сохраненных раскладов. Сделайте ваш первый расклад через главное меню!</i>");
    } else {
        for i in 0..n
            invariant
                n == h@.len(),
                text@ == head + history_entries(h@, i as nat),
        {
            push_history_entry(&mut text, i, &h[i]);
            proof {
                assert(text@ =~= head + history_entries(h@, (i + 1) as nat));
            }
        }
    }
    proof {
        assert(text@ =~= history_text_of(h@));
    }
    text
}

} // verus!
