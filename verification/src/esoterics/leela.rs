//! The board of the transformational game Leela.

use vstd::prelude::*;

use crate::chance::random_below;

verus! {

/// One cell of the Leela board.
#[derive(Clone, Copy, Debug)]
pub struct LeelaCell {
    pub number: u8,
    pub name: &'static str,
    pub plane: &'static str,
}

/// The Leela game.
pub struct LeelaGame;

/// The cells of the board that the game draws from.
pub open spec fn leela_table() -> Seq<LeelaCell> {
    seq![
        LeelaCell { number: 1, name: "Рождение (Джанма)", plane: "План физического бытия" },
        LeelaCell { number: 2, name: "Иллюзия (Майя)", plane: "План физического бытия" },
        LeelaCell { number: 3, name: "Гнев (Кродха)", plane: "План физического бытия" },
        LeelaCell { number: 4, name: "Жадность (Лобха)", plane: "План физического бытия" },
        LeelaCell { number: 5, name: "Физический план (Бхулока)", plane: "План физического бытия" },
        LeelaCell { number: 6, name: "Заблуждение (Моха)", plane: "План физического бытия" },
        LeelaCell { number: 7, name: "Тщеславие (Мада)", plane: "План физического бытия" },
        LeelaCell { number: 8, name: "Алчность (Матсарья)", plane: "План физического бытия" },
        LeelaCell { number: 9, name: "Чувственный план (Кама-лока)", plane: "План астрального бытия" },
        LeelaCell { number: 10, name: "Очищение (Тапас)", plane: "План астрального бытия" },
        LeelaCell { number: 11, name: "Развлечения (Гандхарвы)", plane: "План астрального бытия" },
        LeelaCell { number: 12, name: "Зависть (Иршья)", plane: "План астрального бытия" },
        LeelaCell { number: 13, name: "Ничтожность (Антарика)", plane: "План астрального бытия" },
        LeelaCell { number: 14, name: "Астральный план (Бхувар-лока)", plane: "План астрального бытия" },
        LeelaCell { number: 15, name: "Фантазия (Нага-лока)", plane: "План астрального бытия" },
        LeelaCell { number: 16, name: "Ревность (Двеша)", plane: "План астрального бытия" },
        LeelaCell { number: 17, name: "Сострадание (Дая)", plane: "План небесного бытия" },
        LeelaCell { number: 18, name: "План радости (Харша-лока)", plane: "План небесного бытия" },
        LeelaCell { number: 19, name: "План действия (Карма-лока)", plane: "План действия" },
        LeelaCell { number: 20, name: "Благотворительность (Дана)", plane: "План действия" },
        LeelaCell { number: 21, name: "Искупление (Прачитта)", plane: "План действия" },
        LeelaCell { number: 22, name: "План Дхармы (Дхарма-лока)", plane: "План действия" },
        LeelaCell { number: 23, name: "Небесный план (Сварга-лока)", plane: "План действия" },
        LeelaCell { number: 24, name: "Плохая компания (Кусанга)", plane: "План действия" },
        LeelaCell { number: 68, name: "Космическое сознание (Вайкунтха-лока)", plane: "План Абсолюта" },
        LeelaCell { number: 72, name: "Слияние с Абсолютом (Тамо-гуна / Мокша)", plane: "План Абсолюта" },
    ]
}

impl LeelaGame {
    /// The cells of the board that the game draws from.
    pub fn cells() -> (r: Vec<LeelaCell>)
        ensures
            r@ == leela_table(),
    {
        let mut v: Vec<LeelaCell> = Vec::new();
        v.push(LeelaCell { number: 1, name: "Рождение (Джанма)", plane: "План физического бытия" });
        v.push(LeelaCell { number: 2, name: "Иллюзия (Майя)", plane: "План физического бытия" });
        v.push(LeelaCell { number: 3, name: "Гнев (Кродха)", plane: "План физического бытия" });
        v.push(LeelaCell { number: 4, name: "Жадность (Лобха)", plane: "План физического бытия" });
        v.push(LeelaCell { number: 5, name: "Физический план (Бхулока)", plane: "План физического бытия" });
        v.push(LeelaCell { number: 6, name: "Заблуждение (Моха)", plane: "План физического бытия" });
        v.push(LeelaCell { number: 7, name: "Тщеславие (Мада)", plane: "План физического бытия" });
        v.push(LeelaCell { number: 8, name: "Алчность (Матсарья)", plane: "План физического бытия" });
        v.push(LeelaCell { number: 9, name: "Чувственный план (Кама-лока)", plane: "План астрального бытия" });
        v.push(LeelaCell { number: 10, name: "Очищение (Тапас)", plane: "План астрального бытия" });
        v.push(LeelaCell { number: 11, name: "Развлечения (Гандхарвы)", plane: "План астрального бытия" });
        v.push(LeelaCell { number: 12, name: "Зависть (Иршья)", plane: "План астрального бытия" });
        v.push(LeelaCell { number: 13, name: "Ничтожность (Антарика)", plane: "План астрального бытия" });
        v.push(LeelaCell { number: 14, name: "Астральный план (Бхувар-лока)", plane: "План астрального бытия" });
        v.push(LeelaCell { number: 15, name: "Фантазия (Нага-лока)", plane: "План астрального бытия" });
        v.push(LeelaCell { number: 16, name: "Ревность (Двеша)", plane: "План астрального бытия" });
        v.push(LeelaCell { number: 17, name: "Сострадание (Дая)", plane: "План небесного бытия" });
        v.push(LeelaCell { number: 18, name: "План радости (Харша-лока)", plane: "План небесного бытия" });
        v.push(LeelaCell { number: 19, name: "План действия (Карма-лока)", plane: "План действия" });
        v.push(LeelaCell { number: 20, name: "Благотворительность (Дана)", plane: "План действия" });
        v.push(LeelaCell { number: 21, name: "Искупление (Прачитта)", plane: "План действия" });
        v.push(LeelaCell { number: 22, name: "План Дхармы (Дхарма-лока)", plane: "План действия" });
        v.push(LeelaCell { number: 23, name: "Небесный план (Сварга-лока)", plane: "План действия" });
        v.push(LeelaCell { number: 24, name: "Плохая компания (Кусанга)", plane: "План действия" });
        v.push(LeelaCell { number: 68, name: "Космическое сознание (Вайкунтха-лока)", plane: "План Абсолюта" });
        v.push(LeelaCell { number: 72, name: "Слияние с Абсолютом (Тамо-гуна / Мокша)", plane: "План Абсолюта" });
        proof {
            assert(v@ =~= leela_table());
        }
        v
    }

    /// Rolls the die (1 to 6) and draws a cell of the board, independently.
    pub fn roll_and_get_cell() -> (r: (u8, LeelaCell))
        ensures
            1 <= r.0 <= 6,
            exists|i: int| 0 <= i < leela_table().len() && #[trigger] leela_table()[i] == r.1,
    {
        let cells = Self::cells();
        let dice = (random_below(6) + 1) as u8;
        let idx = random_below(cells.len());
        let cell = cells[idx];
        proof {
            assert(leela_table()[idx as int] == cell);
        }
        (dice, cell)
    }
}

} // verus!
