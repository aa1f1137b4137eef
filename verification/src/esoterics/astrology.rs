//! The signs of the zodiac.

use vstd::prelude::*;

use super::{lookup_title, pairs_view, title_for};

verus! {

/// A sign of the zodiac: its key in callback data, its display name and its
/// element.
#[derive(Clone, Copy, Debug)]
pub struct ZodiacSign {
    pub key: &'static str,
    pub name: &'static str,
    pub element: &'static str,
}

/// The twelve signs, from Aries to Pisces.
pub open spec fn zodiac_table() -> Seq<ZodiacSign> {
    seq![
        ZodiacSign { key: "aries", name: "♈ Овен", element: "Огонь" },
        ZodiacSign { key: "taurus", name: "♉ Телец", element: "Земля" },
        ZodiacSign { key: "gemini", name: "♊ Близнецы", element: "Воздух" },
        ZodiacSign { key: "cancer", name: "♋ Рак", element: "Вода" },
        ZodiacSign { key: "leo", name: "♌ Лев", element: "Огонь" },
        ZodiacSign { key: "virgo", name: "♍ Дева", element: "Земля" },
        ZodiacSign { key: "libra", name: "♎ Весы", element: "Воздух" },
        ZodiacSign { key: "scorpio", name: "♏ Скорпион", element: "Вода" },
        ZodiacSign { key: "sagittarius", name: "♐ Стрелец", element: "Огонь" },
        ZodiacSign { key: "capricorn", name: "♑ Козерог", element: "Земля" },
        ZodiacSign { key: "aquarius", name: "♒ Водолей", element: "Воздух" },
        ZodiacSign { key: "pisces", name: "♓ Рыбы", element: "Вода" },
    ]
}

/// (key, name) of each sign.
pub open spec fn zodiac_names() -> Seq<(&'static str, &'static str)> {
    zodiac_table().map_values(|z: ZodiacSign| (z.key, z.name))
}

/// The twelve signs of the zodiac, from Aries to Pisces.
pub fn zodiac_signs() -> (r: Vec<ZodiacSign>)
    ensures
        r@ == zodiac_table(),
{
    let mut v: Vec<ZodiacSign> = Vec::new();
    v.push(ZodiacSign { key: "aries", name: "♈ Овен", element: "Огонь" });
    v.push(ZodiacSign { key: "taurus", name: "♉ Телец", element: "Земля" });
    v.push(ZodiacSign { key: "gemini", name: "♊ Близнецы", element: "Воздух" });
    v.push(ZodiacSign { key: "cancer", name: "♋ Рак", element: "Вода" });
    v.push(ZodiacSign { key: "leo", name: "♌ Лев", element: "Огонь" });
    v.push(ZodiacSign { key: "virgo", name: "♍ Дева", element: "Земля" });
    v.push(ZodiacSign { key: "libra", name: "♎ Весы", element: "Воздух" });
    v.push(ZodiacSign { key: "scorpio", name: "♏ Скорпион", element: "Вода" });
    v.push(ZodiacSign { key: "sagittarius", name: "♐ Стрелец", element: "Огонь" });
    v.push(ZodiacSign { key: "capricorn", name: "♑ Козерог", element: "Земля" });
    v.push(ZodiacSign { key: "aquarius", name: "♒ Водолей", element: "Воздух" });
    v.push(ZodiacSign { key: "pisces", name: "♓ Рыбы", element: "Вода" });
    proof {
        assert(v@ =~= zodiac_table());
    }
    v
}

/// (key, name) of each sign.
pub fn zodiac_name_pairs() -> (r: Vec<(&'static str, &'static str)>)
    ensures
        r@ == zodiac_names(),
{
    let signs = zodiac_signs();
    let n = signs.len();
    let mut out: Vec<(&'static str, &'static str)> = Vec::new();
    for i in 0..n
        invariant
            n == signs@.len(),
            signs@ == zodiac_table(),
            out@ == zodiac_table().take(i as int).map_values(|z: ZodiacSign| (z.key, z.name)),
    {
        out.push((signs[i].key, signs[i].name));
        proof {
            assert(zodiac_table().take(i + 1).map_values(|z: ZodiacSign| (z.key, z.name)) =~= zodiac_table().take(
                i as int,
            ).map_values(|z: ZodiacSign| (z.key, z.name)).push((signs@[i as int].key, signs@[i as int].name)));
        }
    }
    proof {
        assert(zodiac_table().take(n as int) =~= zodiac_table());
    }
    out
}

/// The display name of the sign with this key, or "Зодиак" for an unknown
/// key.
pub fn sign_name(key: &str) -> (r: &'static str)
    ensures
        r@ == title_for(pairs_view(zodiac_names()), key@, "Зодиак"@),
{
    let pairs = zodiac_name_pairs();
    lookup_title(&pairs, key, "Зодиак")
}

} // verus!
