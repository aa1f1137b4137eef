//! The tarot deck, the spheres of questions and the kinds of spread.

use vstd::prelude::*;

use super::{find_key, first_key, lookup_title, pairs_view, title_for};
use crate::chance::{one_in_four, shuffle_in_place};

verus! {

/// One card of the deck.
#[derive(Clone, Copy, Debug)]
pub struct TarotCard {
    pub name: &'static str,
    pub arcana_type: &'static str,
    pub keywords: &'static str,
    pub image_url: &'static str,
}

/// The tarot deck.
pub struct TarotDeck;

/// The cards of the deck: the 22 major arcana, then selected minor arcana.
pub open spec fn tarot_table() -> Seq<TarotCard> {
    seq![
        TarotCard { name: "0. Шут (Дурак)", arcana_type: "Старший Аркан", keywords: "Начало пути, спонтанность, свобода, открытость новому", image_url: "https://upload.wikimedia.org/wikipedia/commons/9/90/RWS_Tarot_00_Fool.jpg" },
        TarotCard { name: "I. Маг", arcana_type: "Старший Аркан", keywords: "Воля, мастерство, реализация потенциала, активное действие", image_url: "https://upload.wikimedia.org/wikipedia/commons/d/de/RWS_Tarot_01_Magician.jpg" },
        TarotCard { name: "II. Верховная Жрица", arcana_type: "Старший Аркан", keywords: "Интуиция, тайные знания, внутренний голос, пассивность", image_url: "https://upload.wikimedia.org/wikipedia/commons/8/88/RWS_Tarot_02_High_Priestess.jpg" },
        TarotCard { name: "III. Императрица", arcana_type: "Старший Аркан", keywords: "Изобилие, плодородие, созидание, материнская забота", image_url: "https://upload.wikimedia.org/wikipedia/commons/d/d2/RWS_Tarot_03_Empress.jpg" },
        TarotCard { name: "IV. Император", arcana_type: "Старший Аркан", keywords: "Структура, власть, стабильность, авторитет, контроль", image_url: "https://upload.wikimedia.org/wikipedia/commons/c/c3/RWS_Tarot_04_Emperor.jpg" },
        TarotCard { name: "V. Иерофант (Жрец)", arcana_type: "Старший Аркан", keywords: "Традиции, мудрость, духовный наставник, правила", image_url: "https://upload.wikimedia.org/wikipedia/commons/8/8d/RWS_Tarot_05_Hierophant.jpg" },
        TarotCard { name: "VI. Влюбленные", arcana_type: "Старший Аркан", keywords: "Выбор сердца, союз, гармония, искушение", image_url: "https://upload.wikimedia.org/wikipedia/commons/3/3a/TheLovers.jpg" },
        TarotCard { name: "VII. Колесница", arcana_type: "Старший Аркан", keywords: "Прорыв, триумф, контроль над страстями, движение вперед", image_url: "https://upload.wikimedia.org/wikipedia/commons/9/9b/RWS_Tarot_07_Chariot.jpg" },
        TarotCard { name: "VIII. Сила", arcana_type: "Старший Аркан", keywords: "Мягкая сила, уверенность, укрощение внутренних страхов", image_url: "https://upload.wikimedia.org/wikipedia/commons/f/f5/RWS_Tarot_08_Strength.jpg" },
        TarotCard { name: "IX. Отшельник", arcana_type: "Старший Аркан", keywords: "Поиск истины, уединение, самопознание, внутренний свет", image_url: "https://upload.wikimedia.org/wikipedia/commons/4/4d/Tarot_Nine_of_Wands.jpg" },
        TarotCard { name: "X. Колесо Фортуны", arcana_type: "Старший Аркан", keywords: "Цикличность, судьбоносный поворот, удача, перемены", image_url: "https://upload.wikimedia.org/wikipedia/commons/3/3c/RWS_Tarot_10_Wheel_of_Fortune.jpg" },
        TarotCard { name: "XI. Справедливость", arcana_type: "Старший Аркан", keywords: "Карма, баланс, честность, объективное решение", image_url: "https://upload.wikimedia.org/wikipedia/commons/e/e0/RWS_Tarot_11_Justice.jpg" },
        TarotCard { name: "XII. Повешенный", arcana_type: "Старший Аркан", keywords: "Смена перспективы, добровольная пауза, трансформация", image_url: "https://upload.wikimedia.org/wikipedia/commons/2/2b/RWS_Tarot_12_Hanged_Man.jpg" },
        TarotCard { name: "XIII. Смерть", arcana_type: "Старший Аркан", keywords: "Глубокая трансформация, завершение старого, перерождение", image_url: "https://upload.wikimedia.org/wikipedia/commons/d/d7/RWS_Tarot_13_Death.jpg" },
        TarotCard { name: "XIV. Умеренность", arcana_type: "Старший Аркан", keywords: "Баланс, исцеление, терпение, алхимия чувств", image_url: "https://upload.wikimedia.org/wikipedia/commons/f/f8/RWS_Tarot_14_Temperance.jpg" },
        TarotCard { name: "XV. Дьявол", arcana_type: "Старший Аркан", keywords: "Теневые стороны, привязанности, материальные искушения", image_url: "https://upload.wikimedia.org/wikipedia/commons/5/55/RWS_Tarot_15_Devil.jpg" },
        TarotCard { name: "XVI. Башня", arcana_type: "Старший Аркан", keywords: "Крушение иллюзий, внезапный инсайт, освобождение", image_url: "https://upload.wikimedia.org/wikipedia/commons/5/53/RWS_Tarot_16_Tower.jpg" },
        TarotCard { name: "XVII. Звезда", arcana_type: "Старший Аркан", keywords: "Надежда, вдохновение, вера в будущее, путеводный свет", image_url: "https://upload.wikimedia.org/wikipedia/commons/d/db/RWS_Tarot_17_Star.jpg" },
        TarotCard { name: "XVIII. Луна", arcana_type: "Старший Аркан", keywords: "Подсознание, тайны, иллюзии, встреча с неизвестным", image_url: "https://upload.wikimedia.org/wikipedia/commons/7/7f/RWS_Tarot_18_Moon.jpg" },
        TarotCard { name: "XIX. Солнце", arcana_type: "Старший Аркан", keywords: "Ясность, счастье, триумф, витальность, успех", image_url: "https://upload.wikimedia.org/wikipedia/commons/1/17/RWS_Tarot_19_Sun.jpg" },
        TarotCard { name: "XX. Страшный Суд", arcana_type: "Старший Аркан", keywords: "Пробуждение, зов призвания, подведение итогов, прощение", image_url: "https://upload.wikimedia.org/wikipedia/commons/d/dd/RWS_Tarot_20_Judgement.jpg" },
        TarotCard { name: "XXI. Мир", arcana_type: "Старший Аркан", keywords: "Целостность, завершение великого цикла, гармония с миром", image_url: "https://upload.wikimedia.org/wikipedia/commons/f/ff/RWS_Tarot_21_World.jpg" },
        TarotCard { name: "Туз Кубков", arcana_type: "Младший Аркан (Кубки)", keywords: "Чистая любовь, эмоциональный расцвет, интуиция, открытое сердце", image_url: "https://upload.wikimedia.org/wikipedia/commons/3/36/Cups01.jpg" },
        TarotCard { name: "Двойка Кубков", arcana_type: "Младший Аркан (Кубки)", keywords: "Взаимность, родство душ, искренний диалог, гармония", image_url: "https://upload.wikimedia.org/wikipedia/commons/f/f8/Cups02.jpg" },
        TarotCard { name: "Тройка Кубков", arcana_type: "Младший Аркан (Кубки)", keywords: "Празднование, дружба, поддержка сообщества, радость", image_url: "https://upload.wikimedia.org/wikipedia/commons/7/7a/Cups03.jpg" },
        TarotCard { name: "Королева Кубков", arcana_type: "Младший Аркан (Кубки)", keywords: "Чуткость, эмпатия, глубокое понимание, безусловная любовь", image_url: "https://upload.wikimedia.org/wikipedia/commons/6/62/Cups13.jpg" },
        TarotCard { name: "Туз Пентаклей", arcana_type: "Младший Аркан (Пентакли)", keywords: "Материальный дар, финансовый шанс, изобилие, фундамент", image_url: "https://upload.wikimedia.org/wikipedia/commons/f/fd/Pents01.jpg" },
        TarotCard { name: "Тройка Пентаклей", arcana_type: "Младший Аркан (Пентакли)", keywords: "Мастерство, признание труда, синергия в работе", image_url: "https://upload.wikimedia.org/wikipedia/commons/4/42/Pents03.jpg" },
        TarotCard { name: "Десятка Пентаклей", arcana_type: "Младший Аркан (Пентакли)", keywords: "Родовое благополучие, устойчивое процветание, наследие", image_url: "https://upload.wikimedia.org/wikipedia/commons/4/42/Pents10.jpg" },
        TarotCard { name: "Король Пентаклей", arcana_type: "Младший Аркан (Пентакли)", keywords: "Финансовая стабильность, надежность, мудрое управление", image_url: "https://upload.wikimedia.org/wikipedia/commons/1/1c/Pents14.jpg" },
        TarotCard { name: "Туз Жезлов", arcana_type: "Младший Аркан (Жезлы)", keywords: "Творческая искра, импульс к действию, страсть, вдохновение", image_url: "https://upload.wikimedia.org/wikipedia/commons/1/11/Wands01.jpg" },
        TarotCard { name: "Шестерка Жезлов", arcana_type: "Младший Аркан (Жезлы)", keywords: "Триумф, победа, общественное признание, лидерство", image_url: "https://upload.wikimedia.org/wikipedia/commons/3/3b/Wands06.jpg" },
        TarotCard { name: "Восьмерка Жезлов", arcana_type: "Младший Аркан (Жезлы)", keywords: "Быстрые события, инсайты, движение, новости", image_url: "https://upload.wikimedia.org/wikipedia/commons/6/6b/Wands08.jpg" },
        TarotCard { name: "Туз Мечей", arcana_type: "Младший Аркан (Мечи)", keywords: "Ясность мысли, рассечение иллюзий, честность, решение", image_url: "https://upload.wikimedia.org/wikipedia/commons/1/1a/Swords01.jpg" },
        TarotCard { name: "Шестерка Мечей", arcana_type: "Младший Аркан (Мечи)", keywords: "Переход к спокойным водам, путь исцеления, оставление бурь", image_url: "https://upload.wikimedia.org/wikipedia/commons/2/29/Swords06.jpg" },
        TarotCard { name: "Королева Мечей", arcana_type: "Младший Аркан (Мечи)", keywords: "Острый ум, независимость, проницательность, границы", image_url: "https://upload.wikimedia.org/wikipedia/commons/d/d4/Swords13.jpg" },
    ]
}

/// `r` is a draw of distinct cards: `idx` gives, for each drawn card, its
/// place in the deck, and no place occurs twice.
pub open spec fn drawn_from_deck(r: Seq<(TarotCard, bool)>, idx: Seq<int>) -> bool {
    &&& idx.len() == r.len()
    &&& idx.no_duplicates()
    &&& forall|i: int|
        0 <= i < idx.len() ==> 0 <= #[trigger] idx[i] < tarot_table().len() && r[i].0
            == tarot_table()[idx[i]]
}

impl TarotDeck {
    /// The cards of the deck.
    pub fn cards() -> (r: Vec<TarotCard>)
        ensures
            r@ == tarot_table(),
    {
        let mut v: Vec<TarotCard> = Vec::new();
        v.push(TarotCard { name: "0. Шут (Дурак)", arcana_type: "Старший Аркан", keywords: "Начало пути, спонтанность, свобода, открытость новому", image_url: "https://upload.wikimedia.org/wikipedia/commons/9/90/RWS_Tarot_00_Fool.jpg" });
        v.push(TarotCard { name: "I. Маг", arcana_type: "Старший Аркан", keywords: "Воля, мастерство, реализация потенциала, активное действие", image_url: "https://upload.wikimedia.org/wikipedia/commons/d/de/RWS_Tarot_01_Magician.jpg" });
        v.push(TarotCard { name: "II. Верховная Жрица", arcana_type: "Старший Аркан", keywords: "Интуиция, тайные знания, внутренний голос, пассивность", image_url: "https://upload.wikimedia.org/wikipedia/commons/8/88/RWS_Tarot_02_High_Priestess.jpg" });
        v.push(TarotCard { name: "III. Императрица", arcana_type: "Старший Аркан", keywords: "Изобилие, плодородие, созидание, материнская забота", image_url: "https://upload.wikimedia.org/wikipedia/commons/d/d2/RWS_Tarot_03_Empress.jpg" });
        v.push(TarotCard { name: "IV. Император", arcana_type: "Старший Аркан", keywords: "Структура, власть, стабильность, авторитет, контроль", image_url: "https://upload.wikimedia.org/wikipedia/commons/c/c3/RWS_Tarot_04_Emperor.jpg" });
        v.push(TarotCard { name: "V. Иерофант (Жрец)", arcana_type: "Старший Аркан", keywords: "Традиции, мудрость, духовный наставник, правила", image_url: "https://upload.wikimedia.org/wikipedia/commons/8/8d/RWS_Tarot_05_Hierophant.jpg" });
        v.push(TarotCard { name: "VI. Влюбленные", arcana_type: "Старший Аркан", keywords: "Выбор сердца, союз, гармония, искушение", image_url: "https://upload.wikimedia.org/wikipedia/commons/3/3a/TheLovers.jpg" });
        v.push(TarotCard { name: "VII. Колесница", arcana_type: "Старший Аркан", keywords: "Прорыв, триумф, контроль над страстями, движение вперед", image_url: "https://upload.wikimedia.org/wikipedia/commons/9/9b/RWS_Tarot_07_Chariot.jpg" });
        v.push(TarotCard { name: "VIII. Сила", arcana_type: "Старший Аркан", keywords: "Мягкая сила, уверенность, укрощение внутренних страхов", image_url: "https://upload.wikimedia.org/wikipedia/commons/f/f5/RWS_Tarot_08_Strength.jpg" });
        v.push(TarotCard { name: "IX. Отшельник", arcana_type: "Старший Аркан", keywords: "Поиск истины, уединение, самопознание, внутренний свет", image_url: "https://upload.wikimedia.org/wikipedia/commons/4/4d/Tarot_Nine_of_Wands.jpg" });
        v.push(TarotCard { name: "X. Колесо Фортуны", arcana_type: "Старший Аркан", keywords: "Цикличность, судьбоносный поворот, удача, перемены", image_url: "https://upload.wikimedia.org/wikipedia/commons/3/3c/RWS_Tarot_10_Wheel_of_Fortune.jpg" });
        v.push(TarotCard { name: "XI. Справедливость", arcana_type: "Старший Аркан", keywords: "Карма, баланс, честность, объективное решение", image_url: "https://upload.wikimedia.org/wikipedia/commons/e/e0/RWS_Tarot_11_Justice.jpg" });
        v.push(TarotCard { name: "XII. Повешенный", arcana_type: "Старший Аркан", keywords: "Смена перспективы, добровольная пауза, трансформация", image_url: "https://upload.wikimedia.org/wikipedia/commons/2/2b/RWS_Tarot_12_Hanged_Man.jpg" });
        v.push(TarotCard { name: "XIII. Смерть", arcana_type: "Старший Аркан", keywords: "Глубокая трансформация, завершение старого, перерождение", image_url: "https://upload.wikimedia.org/wikipedia/commons/d/d7/RWS_Tarot_13_Death.jpg" });
        v.push(TarotCard { name: "XIV. Умеренность", arcana_type: "Старший Аркан", keywords: "Баланс, исцеление, терпение, алхимия чувств", image_url: "https://upload.wikimedia.org/wikipedia/commons/f/f8/RWS_Tarot_14_Temperance.jpg" });
        v.push(TarotCard { name: "XV. Дьявол", arcana_type: "Старший Аркан", keywords: "Теневые стороны, привязанности, материальные искушения", image_url: "https://upload.wikimedia.org/wikipedia/commons/5/55/RWS_Tarot_15_Devil.jpg" });
        v.push(TarotCard { name: "XVI. Башня", arcana_type: "Старший Аркан", keywords: "Крушение иллюзий, внезапный инсайт, освобождение", image_url: "https://upload.wikimedia.org/wikipedia/commons/5/53/RWS_Tarot_16_Tower.jpg" });
        v.push(TarotCard { name: "XVII. Звезда", arcana_type: "Старший Аркан", keywords: "Надежда, вдохновение, вера в будущее, путеводный свет", image_url: "https://upload.wikimedia.org/wikipedia/commons/d/db/RWS_Tarot_17_Star.jpg" });
        v.push(TarotCard { name: "XVIII. Луна", arcana_type: "Старший Аркан", keywords: "Подсознание, тайны, иллюзии, встреча с неизвестным", image_url: "https://upload.wikimedia.org/wikipedia/commons/7/7f/RWS_Tarot_18_Moon.jpg" });
        v.push(TarotCard { name: "XIX. Солнце", arcana_type: "Старший Аркан", keywords: "Ясность, счастье, триумф, витальность, успех", image_url: "https://upload.wikimedia.org/wikipedia/commons/1/17/RWS_Tarot_19_Sun.jpg" });
        v.push(TarotCard { name: "XX. Страшный Суд", arcana_type: "Старший Аркан", keywords: "Пробуждение, зов призвания, подведение итогов, прощение", image_url: "https://upload.wikimedia.org/wikipedia/commons/d/dd/RWS_Tarot_20_Judgement.jpg" });
        v.push(TarotCard { name: "XXI. Мир", arcana_type: "Старший Аркан", keywords: "Целостность, завершение великого цикла, гармония с миром", image_url: "https://upload.wikimedia.org/wikipedia/commons/f/ff/RWS_Tarot_21_World.jpg" });
        v.push(TarotCard { name: "Туз Кубков", arcana_type: "Младший Аркан (Кубки)", keywords: "Чистая любовь, эмоциональный расцвет, интуиция, открытое сердце", image_url: "https://upload.wikimedia.org/wikipedia/commons/3/36/Cups01.jpg" });
        v.push(TarotCard { name: "Двойка Кубков", arcana_type: "Младший Аркан (Кубки)", keywords: "Взаимность, родство душ, искренний диалог, гармония", image_url: "https://upload.wikimedia.org/wikipedia/commons/f/f8/Cups02.jpg" });
        v.push(TarotCard { name: "Тройка Кубков", arcana_type: "Младший Аркан (Кубки)", keywords: "Празднование, дружба, поддержка сообщества, радость", image_url: "https://upload.wikimedia.org/wikipedia/commons/7/7a/Cups03.jpg" });
        v.push(TarotCard { name: "Королева Кубков", arcana_type: "Младший Аркан (Кубки)", keywords: "Чуткость, эмпатия, глубокое понимание, безусловная любовь", image_url: "https://upload.wikimedia.org/wikipedia/commons/6/62/Cups13.jpg" });
        v.push(TarotCard { name: "Туз Пентаклей", arcana_type: "Младший Аркан (Пентакли)", keywords: "Материальный дар, финансовый шанс, изобилие, фундамент", image_url: "https://upload.wikimedia.org/wikipedia/commons/f/fd/Pents01.jpg" });
        v.push(TarotCard { name: "Тройка Пентаклей", arcana_type: "Младший Аркан (Пентакли)", keywords: "Мастерство, признание труда, синергия в работе", image_url: "https://upload.wikimedia.org/wikipedia/commons/4/42/Pents03.jpg" });
        v.push(TarotCard { name: "Десятка Пентаклей", arcana_type: "Младший Аркан (Пентакли)", keywords: "Родовое благополучие, устойчивое процветание, наследие", image_url: "https://upload.wikimedia.org/wikipedia/commons/4/42/Pents10.jpg" });
        v.push(TarotCard { name: "Король Пентаклей", arcana_type: "Младший Аркан (Пентакли)", keywords: "Финансовая стабильность, надежность, мудрое управление", image_url: "https://upload.wikimedia.org/wikipedia/commons/1/1c/Pents14.jpg" });
        v.push(TarotCard { name: "Туз Жезлов", arcana_type: "Младший Аркан (Жезлы)", keywords: "Творческая искра, импульс к действию, страсть, вдохновение", image_url: "https://upload.wikimedia.org/wikipedia/commons/1/11/Wands01.jpg" });
        v.push(TarotCard { name: "Шестерка Жезлов", arcana_type: "Младший Аркан (Жезлы)", keywords: "Триумф, победа, общественное признание, лидерство", image_url: "https://upload.wikimedia.org/wikipedia/commons/3/3b/Wands06.jpg" });
        v.push(TarotCard { name: "Восьмерка Жезлов", arcana_type: "Младший Аркан (Жезлы)", keywords: "Быстрые события, инсайты, движение, новости", image_url: "https://upload.wikimedia.org/wikipedia/commons/6/6b/Wands08.jpg" });
        v.push(TarotCard { name: "Туз Мечей", arcana_type: "Младший Аркан (Мечи)", keywords: "Ясность мысли, рассечение иллюзий, честность, решение", image_url: "https://upload.wikimedia.org/wikipedia/commons/1/1a/Swords01.jpg" });
        v.push(TarotCard { name: "Шестерка Мечей", arcana_type: "Младший Аркан (Мечи)", keywords: "Переход к спокойным водам, путь исцеления, оставление бурь", image_url: "https://upload.wikimedia.org/wikipedia/commons/2/29/Swords06.jpg" });
        v.push(TarotCard { name: "Королева Мечей", arcana_type: "Младший Аркан (Мечи)", keywords: "Острый ум, независимость, проницательность, границы", image_url: "https://upload.wikimedia.org/wikipedia/commons/d/d4/Swords13.jpg" });
        proof {
            assert(v@ =~= tarot_table());
        }
        v
    }

    /// Draws `count` distinct cards at random (all of them when `count`
    /// exceeds the deck), each reversed with a chance of one in four.
    pub fn draw_cards(count: usize) -> (r: Vec<(TarotCard, bool)>)
        ensures
            r@.len() == (if count < tarot_table().len() {
                count as int
            } else {
                tarot_table().len() as int
            }),
            exists|idx: Seq<int>| drawn_from_deck(r@, idx),
    {
        broadcast use vstd::seq_lib::group_to_multiset_ensures;

        let deck = Self::cards();
        let n = deck.len();
        let mut order: Vec<usize> = Vec::new();
        for i in 0..n
            invariant
                order@ == Seq::new(i as nat, |j: int| j as usize),
        {
            order.push(i);
            proof {
                assert(order@ =~= Seq::new((i + 1) as nat, |j: int| j as usize));
            }
        }
        let ghost before = order@;
        proof {
            assert(before.no_duplicates());
            before.lemma_multiset_has_no_duplicates();
        }
        shuffle_in_place(&mut order);
        proof {
            assert forall|x: usize| order@.to_multiset().contains(x) implies order@.to_multiset().count(x)
                == 1 by {
                assert(before.to_multiset().contains(x));
            }
            order@.lemma_multiset_has_no_duplicates_conv();
            assert forall|i: int| 0 <= i < order@.len() implies #[trigger] order@[i] < n by {
                assert(order@.contains(order@[i]));
                assert(order@.to_multiset().count(order@[i]) > 0);
                assert(before.contains(order@[i]));
            }
        }
        let take = if count < n {
            count
        } else {
            n
        };
        let mut out: Vec<(TarotCard, bool)> = Vec::new();
        for k in 0..take
            invariant
                take <= n,
                n == deck@.len(),
                deck@ == tarot_table(),
                order@.len() == n,
                order@.no_duplicates(),
                forall|i: int| 0 <= i < order@.len() ==> #[trigger] order@[i] < n,
                out@.len() == k,
                forall|i: int| 0 <= i < k ==> #[trigger] out@[i].0 == tarot_table()[order@[i] as int],
        {
            let reversed = one_in_four();
            let card = deck[order[k]];
            out.push((card, reversed));
        }
        let ghost idx = order@.take(take as int).map_values(|x: usize| x as int);
        proof {
            assert forall|i: int, j: int| 0 <= i < idx.len() && 0 <= j < idx.len() && i != j implies idx[i]
                != idx[j] by {
                assert(order@[i] != order@[j]);
            }
            assert(drawn_from_deck(out@, idx));
        }
        out
    }
}

/// A sphere of life that a tarot question is about, with its questions
/// (key, title).
#[derive(Clone, Debug)]
pub struct SphereInfo {
    pub key: &'static str,
    pub title: &'static str,
    pub subtopics: Vec<(&'static str, &'static str)>,
}

/// The keys of the spheres, in order.
pub open spec fn sphere_keys() -> Seq<&'static str> {
    seq![
        "love",
        "career",
        "self",
        "energy",
    ]
}

/// The titles of the spheres, in order.
pub open spec fn sphere_titles() -> Seq<&'static str> {
    seq![
        "💖 Любовь и Отношения",
        "💼 Карьера и Деньги",
        "🧭 Предназначение и Душа",
        "⚡ Энергия и Состояние",
    ]
}

/// The questions (key, title) of the sphere at place `i`.
pub open spec fn sphere_subtopics(i: int) -> Seq<(&'static str, &'static str)> {
    if i == 0 {
        seq![
            ("feelings", "Что он/она чувствует ко мне?"),
            ("future", "Перспектива развития союза"),
            ("conflict", "В чем корень недопонимания?"),
            ("advice", "Как гармонизировать отношения?"),
        ]
    } else if i == 1 {
        seq![
            ("money_flow", "Вектор финансового потока"),
            ("job_change", "Стоит ли менять работу / проект?"),
            ("growth", "Точки роста и скрытые возможности"),
            ("blockers", "Что блокирует материальный успех?"),
        ]
    } else if i == 2 {
        seq![
            ("mission", "В чем мой текущий сакральный урок?"),
            ("talents", "Раскрытие скрытых талантов"),
            ("shadow", "С какой тенью важно встретиться?"),
        ]
    } else if i == 3 {
        seq![
            ("balance", "Где теряется жизненный ресурс?"),
            ("source", "Что наполнит силой и вдохновением?"),
            ("day_vibe", "Главная энергия и фокус сегодняшнего дня"),
        ]
    } else {
        Seq::empty()
    }
}

/// `r` lists the spheres, in order.
pub open spec fn is_sphere_table(r: Seq<SphereInfo>) -> bool {
    &&& r.len() == sphere_keys().len()
    &&& forall|i: int|
        0 <= i < r.len() ==> (#[trigger] r[i]).key == sphere_keys()[i] && r[i].title
            == sphere_titles()[i] && r[i].subtopics@ == sphere_subtopics(i)
}

/// (key, title) of each sphere.
pub open spec fn sphere_pairs() -> Seq<(Seq<char>, Seq<char>)> {
    Seq::new(sphere_keys().len(), |i: int| (sphere_keys()[i]@, sphere_titles()[i]@))
}

/// The spheres of questions, in order.
pub fn tarot_spheres() -> (r: Vec<SphereInfo>)
    ensures
        is_sphere_table(r@),
{
    let mut v: Vec<SphereInfo> = Vec::new();
    let mut subtopics: Vec<(&'static str, &'static str)> = Vec::new();
    subtopics.push(("feelings", "Что он/она чувствует ко мне?"));
    subtopics.push(("future", "Перспектива развития союза"));
    subtopics.push(("conflict", "В чем корень недопонимания?"));
    subtopics.push(("advice", "Как гармонизировать отношения?"));
    v.push(SphereInfo { key: "love", title: "💖 Любовь и Отношения", subtopics });
    let mut subtopics: Vec<(&'static str, &'static str)> = Vec::new();
    subtopics.push(("money_flow", "Вектор финансового потока"));
    subtopics.push(("job_change", "Стоит ли менять работу / проект?"));
    subtopics.push(("growth", "Точки роста и скрытые возможности"));
    subtopics.push(("blockers", "Что блокирует материальный успех?"));
    v.push(SphereInfo { key: "career", title: "💼 Карьера и Деньги", subtopics });
    let mut subtopics: Vec<(&'static str, &'static str)> = Vec::new();
    subtopics.push(("mission", "В чем мой текущий сакральный урок?"));
    subtopics.push(("talents", "Раскрытие скрытых талантов"));
    subtopics.push(("shadow", "С какой тенью важно встретиться?"));
    v.push(SphereInfo { key: "self", title: "🧭 Предназначение и Душа", subtopics });
    let mut subtopics: Vec<(&'static str, &'static str)> = Vec::new();
    subtopics.push(("balance", "Где теряется жизненный ресурс?"));
    subtopics.push(("source", "Что наполнит силой и вдохновением?"));
    subtopics.push(("day_vibe", "Главная энергия и фокус сегодняшнего дня"));
    v.push(SphereInfo { key: "energy", title: "⚡ Энергия и Состояние", subtopics });
    proof {
        assert forall|i: int| 0 <= i < v@.len() implies (#[trigger] v@[i]).subtopics@ == sphere_subtopics(i) by {
            if i == 0 {
                assert(v@[0].subtopics@ =~= sphere_subtopics(0));
            } else if i == 1 {
                assert(v@[1].subtopics@ =~= sphere_subtopics(1));
            } else if i == 2 {
                assert(v@[2].subtopics@ =~= sphere_subtopics(2));
            } else {
                assert(v@[3].subtopics@ =~= sphere_subtopics(3));
            }
        }
    }
    v
}

/// The keys of the spheres, in order.
pub fn sphere_key_list() -> (r: Vec<&'static str>)
    ensures
        r@ == sphere_keys(),
{
    let mut v: Vec<&'static str> = Vec::new();
    v.push("love");
    v.push("career");
    v.push("self");
    v.push("energy");
    proof {
        assert(v@ =~= sphere_keys());
    }
    v
}

/// The title of the sphere with this key, or "Сфера" for an unknown key.
pub fn sphere_title(key: &str) -> (r: &'static str)
    ensures
        r@ == title_for(sphere_pairs(), key@, "Сфера"@),
{
    let spheres = tarot_spheres();
    let n = spheres.len();
    let mut pairs: Vec<(&'static str, &'static str)> = Vec::new();
    for i in 0..n
        invariant
            n == spheres@.len(),
            is_sphere_table(spheres@),
            pairs_view(pairs@) == sphere_pairs().take(i as int),
    {
        let ghost before = pairs@;
        pairs.push((spheres[i].key, spheres[i].title));
        proof {
            let sp = spheres@[i as int];
            assert(sp.key == sphere_keys()[i as int] && sp.title == sphere_titles()[i as int]);
            assert(pairs@ =~= before.push((sp.key, sp.title)));
            assert(pairs_view(pairs@) =~= pairs_view(before).push((sp.key@, sp.title@)));
            assert(pairs_view(pairs@) =~= sphere_pairs().take(i + 1));
        }
    }
    proof {
        assert(sphere_pairs().take(n as int) =~= sphere_pairs());
    }
    lookup_title(&pairs, key, "Сфера")
}

/// The title of the question `subtopic_key` of the sphere `sphere_key`, or
/// "Вопрос" when there is no such sphere or question.
pub open spec fn subtopic_title_of(sphere_key: Seq<char>, subtopic_key: Seq<char>) -> Seq<char> {
    match first_key(sphere_keys().map_values(|k: &'static str| k@), sphere_key) {
        Some(i) => title_for(pairs_view(sphere_subtopics(i)), subtopic_key, "Вопрос"@),
        None => "Вопрос"@,
    }
}

/// The title of a question of a sphere, or "Вопрос" when unknown.
pub fn subtopic_title(sphere_key: &str, subtopic_key: &str) -> (r: &'static str)
    ensures
        r@ == subtopic_title_of(sphere_key@, subtopic_key@),
{
    let keys = sphere_key_list();
    match find_key(&keys, sphere_key) {
        Some(i) => {
            let spheres = tarot_spheres();
            lookup_title(&spheres[i].subtopics, subtopic_key, "Вопрос")
        },
        None => "Вопрос",
    }
}

/// A kind of spread.
#[derive(Clone, Copy, Debug)]
pub struct SpreadTypeInfo {
    pub key: &'static str,
    pub name: &'static str,
    pub cards_count: usize,
    pub description: &'static str,
}

/// The kinds of spread, in order.
pub open spec fn spread_table() -> Seq<SpreadTypeInfo> {
    seq![
        SpreadTypeInfo { key: "one_card", name: "✨ Карта Дня / Прямой ответ (1 карта)", cards_count: 1, description: "Быстрый точечный ответ оракула на фокус внимания" },
        SpreadTypeInfo { key: "three_cards", name: "🔮 Триада Времени: Прошлое - Настоящее - Будущее (3 карты)", cards_count: 3, description: "Глубокий анализ причинно-следственной связи ситуации" },
    ]
}

/// (key, name) of each kind of spread.
pub open spec fn spread_names() -> Seq<(&'static str, &'static str)> {
    spread_table().map_values(|s: SpreadTypeInfo| (s.key, s.name))
}

/// The kinds of spread, in order.
pub fn spread_types() -> (r: Vec<SpreadTypeInfo>)
    ensures
        r@ == spread_table(),
{
    let mut v: Vec<SpreadTypeInfo> = Vec::new();
    v.push(SpreadTypeInfo { key: "one_card", name: "✨ Карта Дня / Прямой ответ (1 карта)", cards_count: 1, description: "Быстрый точечный ответ оракула на фокус внимания" });
    v.push(SpreadTypeInfo { key: "three_cards", name: "🔮 Триада Времени: Прошлое - Настоящее - Будущее (3 карты)", cards_count: 3, description: "Глубокий анализ причинно-следственной связи ситуации" });
    proof {
        assert(v@ =~= spread_table());
    }
    v
}

/// The name of the kind of spread with this key, or "Расклад" when unknown.
pub fn spread_name(key: &str) -> (r: &'static str)
    ensures
        r@ == title_for(pairs_view(spread_names()), key@, "Расклад"@),
{
    let spreads = spread_types();
    let mut pairs: Vec<(&'static str, &'static str)> = Vec::new();
    pairs.push((spreads[0].key, spreads[0].name));
    pairs.push((spreads[1].key, spreads[1].name));
    proof {
        assert(pairs@ =~= spread_names());
    }
    lookup_title(&pairs, key, "Расклад")
}

/// How many cards a spread takes: one for "one_card", three otherwise.
pub fn spread_card_count(spread_key: &str) -> (r: usize)
    ensures
        r == (if spread_key@ == "one_card"@ {
            1usize
        } else {
            3usize
        }),
{
    if crate::text::str_eq(spread_key, "one_card") {
        1
    } else {
        3
    }
}

} // verus!
