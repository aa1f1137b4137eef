//! What the user bot does with an update: who may use it, and which screen
//! a message or a button press leads to.

use vstd::prelude::*;

use crate::config::{is_admin_name, opt_str, Config};
use crate::text::{
    decimal, joined,
    eq_ignore_ascii_case, has_prefix, int_literal_in, parse_usize, same_ignoring_ascii_case,
    split_char, split_on, starts_with, str_eq, strip_prefix, views,
};

verus! {

// ---------------------------------------------------------------------------
// Who may use the bot
// ---------------------------------------------------------------------------

/// A message is let through: no whitelist is set, or the sender's name is
/// the whitelisted one (ASCII case ignored), or the sender is an
/// administrator.
pub open spec fn message_allowed(allowed: Option<Seq<char>>, admins: Seq<String>, username: Option<Seq<char>>) -> bool {
    match allowed {
        None => true,
        Some(a) => (match username {
            Some(u) => same_ignoring_ascii_case(u, a),
            None => false,
        }) || is_admin_name(admins, username),
    }
}

/// A button press is let through: no whitelist is set, or the sender's name
/// is the whitelisted one (ASCII case ignored). Administrators get no
/// exception here.
pub open spec fn callback_allowed(allowed: Option<Seq<char>>, username: Option<Seq<char>>) -> bool {
    match allowed {
        None => true,
        Some(a) => match username {
            Some(u) => same_ignoring_ascii_case(u, a),
            None => false,
        },
    }
}

/// Whether a message from `username` is let through the whitelist.
pub fn message_whitelisted(config: &Config, username: Option<&str>) -> (r: bool)
    ensures
        r == message_allowed(
            crate::models::opt_view(config.allowed_username),
            config.admin_usernames@,
            opt_str(username),
        ),
{
    match &config.allowed_username {
        None => true,
        Some(a) => {
            let same = match username {
                Some(u) => eq_ignore_ascii_case(u, a.as_str()),
                None => false,
            };
            same || config.is_admin(username)
        },
    }
}

/// Whether a button press from `username` is let through the whitelist.
pub fn callback_whitelisted(allowed: Option<&str>, username: Option<&str>) -> (r: bool)
    ensures
        r == callback_allowed(opt_str(allowed), opt_str(username)),
{
    match allowed {
        None => true,
        Some(a) => match username {
            Some(u) => eq_ignore_ascii_case(u, a),
            None => false,
        },
    }
}

// ---------------------------------------------------------------------------
// Messages
// ---------------------------------------------------------------------------

/// What the bot answers to a text message.
#[derive(Clone, Copy, Debug, PartialEq, Eq, Structural)]
pub enum MessageRoute {
    /// The offer is not accepted yet: show it.
    ShowOffer,
    /// `/admin` or `/panel` from the owner: the admin panel.
    AdminPanel,
    /// `/start`, `/menu`, `/restart`, `/reset`: the main menu.
    MainMenu,
    /// `/offer`: the offer text.
    Offer,
    /// Anything else: free text is not accepted.
    RejectText,
}

/// The answer to a text message, once the sender is let through.
pub open spec fn message_route_of(offer_accepted: bool, username: Option<Seq<char>>, text: Seq<char>) -> MessageRoute {
    if !offer_accepted {
        MessageRoute::ShowOffer
    } else if (text == "/admin"@ || text == "/panel"@) && username == Some("Studia_taro"@) {
        MessageRoute::AdminPanel
    } else if text == "/start"@ || text == "/menu"@ || text == "/restart"@ || text == "/reset"@ {
        MessageRoute::MainMenu
    } else if text == "/offer"@ {
        MessageRoute::Offer
    } else {
        MessageRoute::RejectText
    }
}

/// The answer to a text message (an empty text for a message without text).
pub fn message_route(offer_accepted: bool, username: Option<&str>, text: &str) -> (r: MessageRoute)
    ensures
        r == message_route_of(offer_accepted, opt_str(username), text@),
{
    if !offer_accepted {
        return MessageRoute::ShowOffer;
    }
    if str_eq(text, "/admin") || str_eq(text, "/panel") {
        let owner = match username {
            Some(u) => str_eq(u, "Studia_taro"),
            None => false,
        };
        if owner {
            return MessageRoute::AdminPanel;
        }
    }
    if str_eq(text, "/start") || str_eq(text, "/menu") || str_eq(text, "/restart") || str_eq(text, "/reset") {
        return MessageRoute::MainMenu;
    }
    if str_eq(text, "/offer") {
        return MessageRoute::Offer;
    }
    MessageRoute::RejectText
}

/// Until the offer is accepted every message shows the offer. Once it is
/// accepted, `/start`, `/menu`, `/restart` and `/reset` open the main menu
/// for anyone, `/offer` shows the offer text, `/admin` and `/panel` open
/// the admin panel for its owner only, and a text that is no command is
/// refused.
pub proof fn law_commands_once_offer_accepted(username: Option<Seq<char>>, text: Seq<char>)
    ensures
        message_route_of(false, username, text) == MessageRoute::ShowOffer,
        text == "/start"@ ==> message_route_of(true, username, text) == MessageRoute::MainMenu,
        text == "/menu"@ ==> message_route_of(true, username, text) == MessageRoute::MainMenu,
        text == "/restart"@ ==> message_route_of(true, username, text) == MessageRoute::MainMenu,
        text == "/reset"@ ==> message_route_of(true, username, text) == MessageRoute::MainMenu,
        text == "/offer"@ ==> message_route_of(true, username, text) == MessageRoute::Offer,
        (text.len() == 0 || text[0] != '/') ==> message_route_of(true, username, text)
            == MessageRoute::RejectText,
        (text == "/admin"@ || text == "/panel"@) ==> message_route_of(true, username, text) == (if username
            == Some("Studia_taro"@) {
            MessageRoute::AdminPanel
        } else {
            MessageRoute::RejectText
        }),
{
    reveal_strlit("/start");
    reveal_strlit("/menu");
    reveal_strlit("/restart");
    reveal_strlit("/reset");
    reveal_strlit("/offer");
    reveal_strlit("/admin");
    reveal_strlit("/panel");
    assert("/start"@[1] != "/admin"@[1] && "/start"@[1] != "/panel"@[1]);
    assert("/menu"@.len() != "/admin"@.len() && "/menu"@.len() != "/panel"@.len());
    assert("/restart"@.len() != "/admin"@.len() && "/restart"@.len() != "/panel"@.len());
    assert("/reset"@[1] != "/admin"@[1] && "/reset"@[1] != "/panel"@[1]);
    assert("/offer"@[1] != "/admin"@[1] && "/offer"@[1] != "/panel"@[1]);
    assert("/offer"@[1] != "/start"@[1] && "/offer"@.len() != "/menu"@.len());
    assert("/offer"@.len() != "/restart"@.len() && "/offer"@[1] != "/reset"@[1]);
}

// ---------------------------------------------------------------------------
// Button presses
// ---------------------------------------------------------------------------

/// A paid tariff.
#[derive(Clone, Copy, Debug, PartialEq, Eq, Structural)]
pub enum Tariff {
    Pack5,
    Month,
    ThreeMonths,
    Year,
}

/// A request to lay out or read cards:
/// `pick:<sphere>:<question>:<spread>:<needed>:<picked>`.
#[derive(Clone, Debug)]
pub struct PickRequest {
    pub sphere: String,
    pub subtopic: String,
    pub spread: String,
    pub needed: usize,
    pub picked: Vec<usize>,
}

/// The screen a button press leads to.
#[derive(Clone, Debug)]
pub enum CallbackRoute {
    AcceptOffer,
    /// The offer is not accepted and the press is not about it.
    NeedOffer,
    MainMenu,
    Legal,
    LegalOffer(usize),
    LegalPrivacy,
    LegalConsent,
    ContactTarologist,
    Tariffs,
    PayTariff(Tariff),
    Support,
    History,
    PayConsultation,
    CardOfTheDay,
    Offer,
    Profile,
    Settings,
    AdminStats,
    AdminWhitelist,
    Toggle,
    TarotSpheres,
    Sphere(String),
    Subtopic(String, String),
    Spread(String, String, String),
    Pick(PickRequest),
    Astrology,
    AstroSign(String),
    Leela,
    Unknown,
}

/// The positions read from the `-`-separated pieces, unreadable ones
/// skipped.
pub open spec fn positions(pieces: Seq<Seq<char>>) -> Seq<usize>
    decreases pieces.len(),
{
    if pieces.len() == 0 {
        Seq::<usize>::empty()
    } else {
        let rest = positions(pieces.drop_last());
        match int_literal_in(pieces.last(), false, 0, usize::MAX as int) {
            Some(v) => rest.push(v as usize),
            None => rest,
        }
    }
}

/// The number of cards asked for: the number read from the text, or 1.
pub open spec fn needed_of(s: Seq<char>) -> usize {
    match int_literal_in(s, false, 0, usize::MAX as int) {
        Some(v) => v as usize,
        None => 1,
    }
}

/// `p` is the card request written in `rest` (the data after `pick:`): five
/// `:`-separated fields.
pub open spec fn pick_of(p: PickRequest, rest: Seq<char>) -> bool {
    let parts = split_on(rest, ':');
    &&& parts.len() == 5
    &&& p.sphere@ == parts[0]
    &&& p.subtopic@ == parts[1]
    &&& p.spread@ == parts[2]
    &&& p.needed == needed_of(parts[3])
    &&& p.picked@ == positions(split_on(parts[4], '-'))
}

/// The offer page asked for by `legal:offer` (page 1) or
/// `legal:offer:<n>` (page `n`, 1 when unreadable).
pub open spec fn offer_page_of(d: Seq<char>) -> usize {
    if d == "legal:offer"@ {
        1
    } else {
        needed_of(d.skip("legal:offer:"@.len() as int))
    }
}

/// `r` is the screen that the data `d` leads to, for a user who has
/// accepted the offer or when the press is about the offer.
pub open spec fn route_of(r: CallbackRoute, d: Seq<char>) -> bool {
    if d == "nav:main"@ || d == "nav:main_menu"@ || d == "nav:restart"@ {
        r is MainMenu
    } else if d == "nav:legal"@ {
        r is Legal
    } else if d == "legal:offer"@ || has_prefix(d, "legal:offer:"@) {
        r == CallbackRoute::LegalOffer(offer_page_of(d))
    } else if d == "legal:privacy"@ {
        r is LegalPrivacy
    } else if d == "legal:consent"@ {
        r is LegalConsent
    } else if d == "nav:contact_tarologist"@ {
        r is ContactTarologist
    } else if d == "nav:tariffs"@ {
        r is Tariffs
    } else if d == "pay:pack_5"@ {
        r == CallbackRoute::PayTariff(Tariff::Pack5)
    } else if d == "pay:sub_month"@ {
        r == CallbackRoute::PayTariff(Tariff::Month)
    } else if d == "pay:sub_3months"@ {
        r == CallbackRoute::PayTariff(Tariff::ThreeMonths)
    } else if d == "pay:sub_year"@ {
        r == CallbackRoute::PayTariff(Tariff::Year)
    } else if d == "nav:support"@ {
        r is Support
    } else if d == "nav:history"@ {
        r is History
    } else if d == "pay:tarologist_consultation"@ {
        r is PayConsultation
    } else if d == "nav:card_of_the_day"@ {
        r is CardOfTheDay
    } else if d == "nav:offer"@ {
        r is Offer
    } else if d == "nav:profile"@ {
        r is Profile
    } else if d == "nav:settings"@ {
        r is Settings
    } else if d == "admin:stats"@ {
        r is AdminStats
    } else if d == "admin:whitelist"@ {
        r is AdminWhitelist
    } else if d == "toggle:ai_mode"@ || d == "toggle:notifications"@ || d == "toggle:deck_style"@ {
        r is Toggle
    } else if d == "nav:tarot_spheres"@ {
        r is TarotSpheres
    } else if has_prefix(d, "sphere:"@) {
        r matches CallbackRoute::Sphere(k) && k@ == d.skip("sphere:"@.len() as int)
    } else if has_prefix(d, "subtopic:"@) {
        let parts = split_on(d.skip("subtopic:"@.len() as int), ':');
        if parts.len() == 2 {
            r matches CallbackRoute::Subtopic(a, b) && a@ == parts[0] && b@ == parts[1]
        } else {
            r is Unknown
        }
    } else if has_prefix(d, "spread:"@) {
        let parts = split_on(d.skip("spread:"@.len() as int), ':');
        if parts.len() == 3 {
            r matches CallbackRoute::Spread(a, b, c) && a@ == parts[0] && b@ == parts[1] && c@
                == parts[2]
        } else {
            r is Unknown
        }
    } else if has_prefix(d, "pick:"@) {
        if split_on(d.skip("pick:"@.len() as int), ':').len() == 5 {
            r matches CallbackRoute::Pick(p) && pick_of(p, d.skip("pick:"@.len() as int))
        } else {
            r is Unknown
        }
    } else if d == "nav:astrology"@ {
        r is Astrology
    } else if has_prefix(d, "astro:"@) {
        r matches CallbackRoute::AstroSign(k) && k@ == d.skip("astro:"@.len() as int)
    } else if d == "nav:leela"@ {
        r is Leela
    } else {
        r is Unknown
    }
}

/// A press that is let through before the offer is accepted: the offer
/// itself and the legal screens.
pub open spec fn offer_related(d: Seq<char>) -> bool {
    has_prefix(d, "legal:"@) || has_prefix(d, "nav:offer"@) || has_prefix(d, "nav:legal"@) || d
        == "nav:main_menu"@
}

/// The positions read from `-`-separated text, unreadable pieces skipped.
pub fn parse_positions(s: &str) -> (r: Vec<usize>)
    ensures
        r@ == positions(split_on(s@, '-')),
{
    let pieces = split_char(s, '-');
    let n = pieces.len();
    let mut out: Vec<usize> = Vec::new();
    for i in 0..n
        invariant
            n == pieces@.len(),
            views(pieces@) == split_on(s@, '-'),
            out@ == positions(views(pieces@).take(i as int)),
    {
        proof {
            let t = views(pieces@).take(i + 1);
            assert(t.drop_last() =~= views(pieces@).take(i as int));
            assert(t.last() == pieces@[i as int]@);
        }
        match parse_usize(pieces[i].as_str()) {
            Some(v) => out.push(v),
            None => {},
        }
    }
    proof {
        assert(views(pieces@).take(n as int) =~= views(pieces@));
    }
    out
}

/// A number read from text, or 1.
pub fn number_or_one(s: &str) -> (r: usize)
    ensures
        r == needed_of(s@),
{
    match parse_usize(s) {
        Some(v) => v,
        None => 1,
    }
}

/// The card request written after `pick:`, when it has five fields.
pub fn parse_pick(rest: &str) -> (r: Option<PickRequest>)
    ensures
        r is Some <==> split_on(rest@, ':').len() == 5,
        r matches Some(p) ==> pick_of(p, rest@),
{
    let parts = split_char(rest, ':');
    if parts.len() != 5 {
        return None;
    }
    let needed = number_or_one(parts[3].as_str());
    let picked = parse_positions(parts[4].as_str());
    Some(
        PickRequest {
            sphere: parts[0].clone(),
            subtopic: parts[1].clone(),
            spread: parts[2].clone(),
            needed,
            picked,
        },
    )
}

/// The screen that the data of a button press leads to, once the sender
/// is let through: accepting the offer always works; before the offer is
/// accepted only presses about it go on.
pub fn callback_route(offer_accepted: bool, data: &str) -> (r: CallbackRoute)
    ensures
        data@ == "accept_offer"@ ==> r is AcceptOffer,
        data@ != "accept_offer"@ && !offer_accepted && !offer_related(data@) ==> r is NeedOffer,
        data@ != "accept_offer"@ && (offer_accepted || offer_related(data@)) ==> route_of(r, data@),
{
    if str_eq(data, "accept_offer") {
        return CallbackRoute::AcceptOffer;
    }
    if !offer_accepted {
        let allowed = starts_with(data, "legal:") || starts_with(data, "nav:offer") || starts_with(
            data,
            "nav:legal",
        ) || str_eq(data, "nav:main_menu");
        if !allowed {
            return CallbackRoute::NeedOffer;
        }
    }
    route(data)
}

/// The screen that the data of a button press leads to.
pub fn route(d: &str) -> (r: CallbackRoute)
    ensures
        route_of(r, d@),
{
    if str_eq(d, "nav:main") || str_eq(d, "nav:main_menu") || str_eq(d, "nav:restart") {
        return CallbackRoute::MainMenu;
    }
    if str_eq(d, "nav:legal") {
        return CallbackRoute::Legal;
    }
    if str_eq(d, "legal:offer") {
        return CallbackRoute::LegalOffer(1);
    }
    match strip_prefix(d, "legal:offer:") {
        Some(rest) => {
            proof {
                assert(rest@ =~= d@.skip("legal:offer:"@.len() as int));
            }
            return CallbackRoute::LegalOffer(number_or_one(rest));
        },
        None => {},
    }
    if str_eq(d, "legal:privacy") {
        return CallbackRoute::LegalPrivacy;
    }
    if str_eq(d, "legal:consent") {
        return CallbackRoute::LegalConsent;
    }
    if str_eq(d, "nav:contact_tarologist") {
        return CallbackRoute::ContactTarologist;
    }
    if str_eq(d, "nav:tariffs") {
        return CallbackRoute::Tariffs;
    }
    if str_eq(d, "pay:pack_5") {
        return CallbackRoute::PayTariff(Tariff::Pack5);
    }
    if str_eq(d, "pay:sub_month") {
        return CallbackRoute::PayTariff(Tariff::Month);
    }
    if str_eq(d, "pay:sub_3months") {
        return CallbackRoute::PayTariff(Tariff::ThreeMonths);
    }
    if str_eq(d, "pay:sub_year") {
        return CallbackRoute::PayTariff(Tariff::Year);
    }
    if str_eq(d, "nav:support") {
        return CallbackRoute::Support;
    }
    if str_eq(d, "nav:history") {
        return CallbackRoute::History;
    }
    if str_eq(d, "pay:tarologist_consultation") {
        return CallbackRoute::PayConsultation;
    }
    if str_eq(d, "nav:card_of_the_day") {
        return CallbackRoute::CardOfTheDay;
    }
    if str_eq(d, "nav:offer") {
        return CallbackRoute::Offer;
    }
    if str_eq(d, "nav:profile") {
        return CallbackRoute::Profile;
    }
    if str_eq(d, "nav:settings") {
        return CallbackRoute::Settings;
    }
    if str_eq(d, "admin:stats") {
        return CallbackRoute::AdminStats;
    }
    if str_eq(d, "admin:whitelist") {
        return CallbackRoute::AdminWhitelist;
    }
    if str_eq(d, "toggle:ai_mode") || str_eq(d, "toggle:notifications") || str_eq(d, "toggle:deck_style") {
        return CallbackRoute::Toggle;
    }
    if str_eq(d, "nav:tarot_spheres") {
        return CallbackRoute::TarotSpheres;
    }
    if let Some(key) = strip_prefix(d, "sphere:") {
        proof {
            assert(key@ =~= d@.skip("sphere:"@.len() as int));
        }
        return CallbackRoute::Sphere(String::from_str(key));
    }
    if let Some(rest) = strip_prefix(d, "subtopic:") {
        proof {
            assert(rest@ =~= d@.skip("subtopic:"@.len() as int));
        }
        let parts = split_char(rest, ':');
        if parts.len() == 2 {
            return CallbackRoute::Subtopic(parts[0].clone(), parts[1].clone());
        }
        return CallbackRoute::Unknown;
    }
    if let Some(rest) = strip_prefix(d, "spread:") {
        proof {
            assert(rest@ =~= d@.skip("spread:"@.len() as int));
        }
        let parts = split_char(rest, ':');
        if parts.len() == 3 {
            return CallbackRoute::Spread(parts[0].clone(), parts[1].clone(), parts[2].clone());
        }
        return CallbackRoute::Unknown;
    }
    if let Some(rest) = strip_prefix(d, "pick:") {
        proof {
            assert(rest@ =~= d@.skip("pick:"@.len() as int));
        }
        return match parse_pick(rest) {
            Some(p) => CallbackRoute::Pick(p),
            None => CallbackRoute::Unknown,
        };
    }
    if str_eq(d, "nav:astrology") {
        return CallbackRoute::Astrology;
    }
    if let Some(key) = strip_prefix(d, "astro:") {
        proof {
            assert(key@ =~= d@.skip("astro:"@.len() as int));
        }
        return CallbackRoute::AstroSign(String::from_str(key));
    }
    if str_eq(d, "nav:leela") {
        return CallbackRoute::Leela;
    }
    CallbackRoute::Unknown
}

// ---------------------------------------------------------------------------
// Laws: the data of every button leads to the screen it names
// ---------------------------------------------------------------------------

/// Splitting at a separator that was put between two texts splits each of
/// them apart.
pub proof fn lemma_split_concat(a: Seq<char>, b: Seq<char>, sep: char)
    ensures
        split_on(a + seq![sep] + b, sep) == split_on(a, sep) + split_on(b, sep),
    decreases b.len(),
{
    if b.len() == 0 {
        assert(a + seq![sep] + b =~= a.push(sep));
        assert((a.push(sep)).drop_last() =~= a);
        assert(split_on(b, sep) =~= seq![Seq::<char>::empty()]);
        assert(split_on(a, sep) + split_on(b, sep) =~= split_on(a, sep).push(Seq::<char>::empty()));
    } else {
        let b2 = b.drop_last();
        let c = b.last();
        lemma_split_concat(a, b2, sep);
        let x = a + seq![sep] + b;
        assert(x.drop_last() =~= a + seq![sep] + b2);
        assert(x.last() == c);
        lemma_split_nonempty(b2, sep);
        lemma_split_nonempty(a, sep);
        if c == sep {
            assert(split_on(a, sep) + split_on(b, sep) =~= (split_on(a, sep) + split_on(b2, sep)).push(
                Seq::<char>::empty(),
            ));
        } else {
            let p = split_on(a, sep) + split_on(b2, sep);
            let q = split_on(b2, sep);
            assert(split_on(a, sep) + q.update(q.len() - 1, q.last().push(c)) =~= p.update(
                p.len() - 1,
                p.last().push(c),
            ));
        }
    }
}

/// Splitting always gives at least one piece.
pub proof fn lemma_split_nonempty(a: Seq<char>, sep: char)
    ensures
        split_on(a, sep).len() >= 1,
    decreases a.len(),
{
    if a.len() > 0 {
        lemma_split_nonempty(a.drop_last(), sep);
    }
}

/// A text without the separator is one piece.
pub proof fn lemma_split_single(a: Seq<char>, sep: char)
    requires
        !a.contains(sep),
    ensures
        split_on(a, sep) == seq![a],
    decreases a.len(),
{
    if a.len() == 0 {
        assert(a =~= Seq::<char>::empty());
        assert(split_on(a, sep) =~= seq![a]);
    } else {
        let a2 = a.drop_last();
        assert(!a2.contains(sep)) by {
            if a2.contains(sep) {
                let k = choose|k: int| 0 <= k < a2.len() && a2[k] == sep;
                assert(a[k] == sep);
            }
        }
        assert(a.last() != sep) by {
            assert(a[a.len() - 1] == a.last());
        }
        lemma_split_single(a2, sep);
        assert(a2.push(a.last()) =~= a);
        assert(split_on(a, sep) =~= seq![a]);
    }
}

/// Pieces joined with a separator they do not contain split back into the
/// same pieces.
pub proof fn lemma_split_joined(ps: Seq<Seq<char>>, sep: char)
    requires
        ps.len() >= 1,
        forall|i: int| 0 <= i < ps.len() ==> !(#[trigger] ps[i]).contains(sep),
    ensures
        split_on(joined(ps, seq![sep]), sep) == ps,
    decreases ps.len(),
{
    if ps.len() == 1 {
        lemma_split_single(ps[0], sep);
        assert(seq![ps[0]] =~= ps);
    } else {
        let init = ps.drop_last();
        assert forall|i: int| 0 <= i < init.len() implies !(#[trigger] init[i]).contains(sep) by {
            assert(init[i] == ps[i]);
        }
        lemma_split_joined(init, sep);
        assert(!ps[ps.len() - 1].contains(sep));
        lemma_split_single(ps.last(), sep);
        lemma_split_concat(joined(init, seq![sep]), ps.last(), sep);
        assert(init + seq![ps.last()] =~= ps);
    }
}

/// The decimal notation of `n` is a non-empty string of digits worth `n`.
pub proof fn lemma_decimal_digits(n: nat)
    ensures
        decimal(n).len() > 0,
        crate::text::all_digits(decimal(n)),
        crate::text::digits_value(decimal(n)) == n,
    decreases n,
{
    let d = decimal(n);
    if n < 10 {
        assert(d[0] == crate::text::digit_char(n as int));
        assert(d.drop_last() =~= Seq::<char>::empty());
        assert((n as int + 48) as char as int == n as int + 48);
        assert(d.last() == d[0]);
        assert(d.last() as int == n as int + 48);
        assert(crate::text::digits_value(Seq::<char>::empty()) == 0);
    } else {
        lemma_decimal_digits(n / 10);
        let p = decimal(n / 10);
        assert(d.drop_last() =~= p);
        assert(((n % 10) as int + 48) as char as int == (n % 10) as int + 48);
        assert(d.last() == crate::text::digit_char((n % 10) as int));
        assert(d.last() as int == (n % 10) as int + 48);
        assert(n == (n / 10) * 10 + n % 10);
        assert forall|i: int| 0 <= i < d.len() implies crate::text::is_digit(#[trigger] d[i]) by {
            if i < p.len() {
                assert(d[i] == p[i]);
            }
        }
    }
}

/// A decimal number reads back as itself.
pub proof fn lemma_decimal_reads_back(n: usize)
    ensures
        int_literal_in(decimal(n as nat), false, 0, usize::MAX as int) == Some(n as int),
        needed_of(decimal(n as nat)) == n,
        !decimal(n as nat).contains(':'),
        !decimal(n as nat).contains('-'),
{
    lemma_decimal_digits(n as nat);
    let d = decimal(n as nat);
    assert(crate::text::is_digit(d[0]));
    assert(!d.contains(':')) by {
        if d.contains(':') {
            let k = choose|k: int| 0 <= k < d.len() && d[k] == ':';
            assert(crate::text::is_digit(d[k]));
        }
    }
    assert(!d.contains('-')) by {
        if d.contains('-') {
            let k = choose|k: int| 0 <= k < d.len() && d[k] == '-';
            assert(crate::text::is_digit(d[k]));
        }
    }
}

/// Positions written in decimal and joined by `-` read back as the same
/// positions.
pub proof fn lemma_positions_read_back(picked: Seq<usize>)
    ensures
        positions(split_on(crate::keyboards::picked_text(picked), '-')) == picked,
{
    let ps = picked.map_values(|x: usize| decimal(x as nat));
    if picked.len() == 0 {
        assert(ps =~= Seq::<Seq<char>>::empty());
        assert(crate::keyboards::picked_text(picked) =~= Seq::<char>::empty());
        let e = Seq::<char>::empty();
        assert(split_on(e, '-') =~= seq![e]);
        assert(seq![e].drop_last() =~= Seq::<Seq<char>>::empty());
        assert(positions(Seq::<Seq<char>>::empty()) =~= Seq::<usize>::empty());
        assert(seq![e].last() == e);
        assert(int_literal_in(e, false, 0, usize::MAX as int) is None);
        assert(positions(seq![e]) =~= Seq::<usize>::empty());
    } else {
        assert forall|i: int| 0 <= i < ps.len() implies !(#[trigger] ps[i]).contains('-') by {
            lemma_decimal_reads_back(picked[i]);
        }
        lemma_split_joined(ps, '-');
        lemma_positions_of_decimals(picked);
    }
}

proof fn lemma_positions_of_decimals(picked: Seq<usize>)
    ensures
        positions(picked.map_values(|x: usize| decimal(x as nat))) == picked,
    decreases picked.len(),
{
    let ps = picked.map_values(|x: usize| decimal(x as nat));
    if picked.len() == 0 {
        assert(ps =~= Seq::<Seq<char>>::empty());
        assert(picked =~= Seq::<usize>::empty());
    } else {
        let init = picked.drop_last();
        lemma_positions_of_decimals(init);
        assert(ps.drop_last() =~= init.map_values(|x: usize| decimal(x as nat)));
        lemma_decimal_reads_back(picked.last());
        assert(init.push(picked.last()) =~= picked);
    }
}

/// Joining pieces that avoid a character, with a separator that avoids it,
/// gives a text that avoids it.
proof fn lemma_joined_avoids(ps: Seq<Seq<char>>, sep: Seq<char>, c: char)
    requires
        forall|i: int| 0 <= i < ps.len() ==> !(#[trigger] ps[i]).contains(c),
        !sep.contains(c),
    ensures
        !joined(ps, sep).contains(c),
    decreases ps.len(),
{
    if ps.len() >= 2 {
        let init = ps.drop_last();
        assert forall|i: int| 0 <= i < init.len() implies !(#[trigger] init[i]).contains(c) by {
            assert(init[i] == ps[i]);
        }
        lemma_joined_avoids(init, sep, c);
        let j = joined(init, sep);
        let last = ps[ps.len() - 1];
        assert(!last.contains(c));
        let all = j + sep + last;
        assert(!all.contains(c)) by {
            if all.contains(c) {
                let k = choose|k: int| 0 <= k < all.len() && all[k] == c;
                if k < j.len() {
                    assert(j[k] == c);
                } else if k < j.len() + sep.len() {
                    assert(sep[k - j.len()] == c);
                } else {
                    assert(last[k - j.len() - sep.len()] == c);
                }
            }
        }
    } else if ps.len() == 1 {
        assert(!ps[0].contains(c));
    }
}

/// The picked positions, as text, hold no `:`.
proof fn lemma_picked_text_has_no_colon(picked: Seq<usize>)
    ensures
        !crate::keyboards::picked_text(picked).contains(':'),
{
    let ps = picked.map_values(|x: usize| decimal(x as nat));
    assert forall|i: int| 0 <= i < ps.len() implies !(#[trigger] ps[i]).contains(':') by {
        lemma_decimal_reads_back(picked[i]);
    }
    assert(!seq!['-'].contains(':')) by {
        if seq!['-'].contains(':') {
            let k = choose|k: int| 0 <= k < 1 && seq!['-'][k] == ':';
        }
    }
    lemma_joined_avoids(ps, seq!['-'], ':');
}

/// A text starting with `p` loses exactly `p` when `p` is skipped.
proof fn lemma_skip_prefix(p: Seq<char>, x: Seq<char>)
    ensures
        has_prefix(p + x, p),
        (p + x).skip(p.len() as int) == x,
{
    assert((p + x).take(p.len() as int) =~= p);
    assert((p + x).skip(p.len() as int) =~= x);
}

/// The data of a card button leads to reading the same request back:
/// sphere, question, spread, number of cards and picked positions, as long
/// as the three keys hold no `:`.
pub proof fn law_pick_button_round_trip(
    sphere: Seq<char>,
    subtopic: Seq<char>,
    spread: Seq<char>,
    needed: usize,
    picked: Seq<usize>,
    r: CallbackRoute,
)
    requires
        !sphere.contains(':'),
        !subtopic.contains(':'),
        !spread.contains(':'),
        route_of(r, crate::keyboards::pick_data(sphere, subtopic, spread, needed, picked)),
    ensures
        r matches CallbackRoute::Pick(p) && p.sphere@ == sphere && p.subtopic@ == subtopic
            && p.spread@ == spread && p.needed == needed && p.picked@ == picked,
{
    lemma_literal_texts();
    let d = crate::keyboards::pick_data(sphere, subtopic, spread, needed, picked);
    let dec = decimal(needed as nat);
    let tail = crate::keyboards::picked_text(picked);
    let rest = sphere + seq![':'] + subtopic + seq![':'] + spread + seq![':'] + dec + seq![':'] + tail;
    assert(d =~= "pick:"@ + rest);
    lemma_skip_prefix("pick:"@, rest);
    assert(d[0] == 'p' && d[1] == 'i' && d[2] == 'c' && d[3] == 'k' && d[4] == ':');
    lemma_pick_rest_parts(sphere, subtopic, spread, needed, picked);
}

/// The fields of the text after `pick:` in a card button's data.
proof fn lemma_pick_rest_parts(
    sphere: Seq<char>,
    subtopic: Seq<char>,
    spread: Seq<char>,
    needed: usize,
    picked: Seq<usize>,
)
    requires
        !sphere.contains(':'),
        !subtopic.contains(':'),
        !spread.contains(':'),
    ensures
        ({
            let dec = decimal(needed as nat);
            let tail = crate::keyboards::picked_text(picked);
            let rest = sphere + seq![':'] + subtopic + seq![':'] + spread + seq![':'] + dec + seq![':']
                + tail;
            &&& split_on(rest, ':') == seq![sphere, subtopic, spread, dec, tail]
            &&& needed_of(dec) == needed
            &&& positions(split_on(tail, '-')) == picked
        }),
{
    let dec = decimal(needed as nat);
    let tail = crate::keyboards::picked_text(picked);
    let rest = sphere + seq![':'] + subtopic + seq![':'] + spread + seq![':'] + dec + seq![':'] + tail;
    lemma_decimal_reads_back(needed);
    lemma_split_single(sphere, ':');
    lemma_split_single(subtopic, ':');
    lemma_split_single(spread, ':');
    lemma_split_single(dec, ':');
    lemma_split_concat(sphere + seq![':'] + subtopic + seq![':'] + spread + seq![':'] + dec, tail, ':');
    lemma_split_concat(sphere + seq![':'] + subtopic + seq![':'] + spread, dec, ':');
    lemma_split_concat(sphere + seq![':'] + subtopic, spread, ':');
    lemma_split_concat(sphere, subtopic, ':');
    lemma_positions_read_back(picked);
    lemma_picked_text_has_no_colon(picked);
    lemma_split_single(tail, ':');
    assert(split_on(rest, ':') =~= seq![sphere, subtopic, spread, dec, tail]);
}

/// The data of a sphere button leads to that sphere.
pub proof fn law_sphere_button_round_trip(sphere: Seq<char>, r: CallbackRoute)
    requires
        route_of(r, crate::keyboards::sphere_data(sphere)),
    ensures
        r matches CallbackRoute::Sphere(k) && k@ == sphere,
{
    lemma_literal_texts();
    let d = crate::keyboards::sphere_data(sphere);
    lemma_skip_prefix("sphere:"@, sphere);
    assert(d[0] == 's' && d[1] == 'p' && d[2] == 'h');
}

/// The button to part `n` of the offer (`legal:offer:<n>`) opens that part.
pub proof fn law_offer_page_button_opens_its_part(n: usize, r: CallbackRoute)
    requires
        route_of(r, "legal:offer:"@ + decimal(n as nat)),
    ensures
        r == CallbackRoute::LegalOffer(n),
{
    lemma_literal_texts();
    let d = "legal:offer:"@ + decimal(n as nat);
    lemma_skip_prefix("legal:offer:"@, decimal(n as nat));
    lemma_decimal_reads_back(n);
    lemma_decimal_digits(n as nat);
    assert(d[0] == 'l' && d[1] == 'e' && d[2] == 'g' && d[6] == 'o');
    assert(d.len() > 12);
}

/// The data of a question button leads to that question of that sphere, as
/// long as the two keys hold no `:`.
pub proof fn law_subtopic_button_round_trip(sphere: Seq<char>, subtopic: Seq<char>, r: CallbackRoute)
    requires
        !sphere.contains(':'),
        !subtopic.contains(':'),
        route_of(r, crate::keyboards::subtopic_data(sphere, subtopic)),
    ensures
        r matches CallbackRoute::Subtopic(a, b) && a@ == sphere && b@ == subtopic,
{
    lemma_literal_texts();
    let d = crate::keyboards::subtopic_data(sphere, subtopic);
    let rest = sphere + seq![':'] + subtopic;
    assert(d =~= "subtopic:"@ + rest);
    lemma_skip_prefix("subtopic:"@, rest);
    assert(d[0] == 's' && d[1] == 'u');
    lemma_split_single(sphere, ':');
    lemma_split_single(subtopic, ':');
    lemma_split_concat(sphere, subtopic, ':');
    assert(split_on(rest, ':') =~= seq![sphere, subtopic]);
}

/// The data of a spread button leads to that spread of that question, as
/// long as the three keys hold no `:`.
pub proof fn law_spread_button_round_trip(
    sphere: Seq<char>,
    subtopic: Seq<char>,
    spread: Seq<char>,
    r: CallbackRoute,
)
    requires
        !sphere.contains(':'),
        !subtopic.contains(':'),
        !spread.contains(':'),
        route_of(r, crate::keyboards::spread_data(sphere, subtopic, spread)),
    ensures
        r matches CallbackRoute::Spread(a, b, c) && a@ == sphere && b@ == subtopic && c@ == spread,
{
    lemma_literal_texts();
    let d = crate::keyboards::spread_data(sphere, subtopic, spread);
    let rest = sphere + seq![':'] + subtopic + seq![':'] + spread;
    assert(d =~= "spread:"@ + rest);
    lemma_skip_prefix("spread:"@, rest);
    assert(d[0] == 's' && d[1] == 'p' && d[2] == 'r');
    lemma_split_single(sphere, ':');
    lemma_split_single(subtopic, ':');
    lemma_split_single(spread, ':');
    lemma_split_concat(sphere + seq![':'] + subtopic, spread, ':');
    lemma_split_concat(sphere, subtopic, ':');
    assert(split_on(rest, ':') =~= seq![sphere, subtopic, spread]);
}

/// The data of a zodiac button leads to that sign.
pub proof fn law_astro_button_round_trip(sign: Seq<char>, r: CallbackRoute)
    requires
        route_of(r, crate::keyboards::astro_data(sign)),
    ensures
        r matches CallbackRoute::AstroSign(k) && k@ == sign,
{
    lemma_literal_texts();
    let d = crate::keyboards::astro_data(sign);
    lemma_skip_prefix("astro:"@, sign);
    assert(d[0] == 'a' && d[1] == 's');
}

/// The characters of every callback data literal.
proof fn lemma_literal_texts()
    ensures
        "nav:main"@ == seq!['n', 'a', 'v', ':', 'm', 'a', 'i', 'n'],
        "nav:main_menu"@ == seq!['n', 'a', 'v', ':', 'm', 'a', 'i', 'n', '_', 'm', 'e', 'n', 'u'],
        "nav:restart"@ == seq!['n', 'a', 'v', ':', 'r', 'e', 's', 't', 'a', 'r', 't'],
        "nav:legal"@ == seq!['n', 'a', 'v', ':', 'l', 'e', 'g', 'a', 'l'],
        "legal:offer"@ == seq!['l', 'e', 'g', 'a', 'l', ':', 'o', 'f', 'f', 'e', 'r'],
        "legal:offer:"@ == seq!['l', 'e', 'g', 'a', 'l', ':', 'o', 'f', 'f', 'e', 'r', ':'],
        "legal:privacy"@ == seq!['l', 'e', 'g', 'a', 'l', ':', 'p', 'r', 'i', 'v', 'a', 'c', 'y'],
        "legal:consent"@ == seq!['l', 'e', 'g', 'a', 'l', ':', 'c', 'o', 'n', 's', 'e', 'n', 't'],
        "nav:contact_tarologist"@ == seq!['n', 'a', 'v', ':', 'c', 'o', 'n', 't', 'a', 'c', 't', '_', 't', 'a', 'r', 'o', 'l', 'o', 'g', 'i', 's', 't'],
        "nav:tariffs"@ == seq!['n', 'a', 'v', ':', 't', 'a', 'r', 'i', 'f', 'f', 's'],
        "pay:pack_5"@ == seq!['p', 'a', 'y', ':', 'p', 'a', 'c', 'k', '_', '5'],
        "pay:sub_month"@ == seq!['p', 'a', 'y', ':', 's', 'u', 'b', '_', 'm', 'o', 'n', 't', 'h'],
        "pay:sub_3months"@ == seq!['p', 'a', 'y', ':', 's', 'u', 'b', '_', '3', 'm', 'o', 'n', 't', 'h', 's'],
        "pay:sub_year"@ == seq!['p', 'a', 'y', ':', 's', 'u', 'b', '_', 'y', 'e', 'a', 'r'],
        "nav:support"@ == seq!['n', 'a', 'v', ':', 's', 'u', 'p', 'p', 'o', 'r', 't'],
        "nav:history"@ == seq!['n', 'a', 'v', ':', 'h', 'i', 's', 't', 'o', 'r', 'y'],
        "pay:tarologist_consultation"@ == seq!['p', 'a', 'y', ':', 't', 'a', 'r', 'o', 'l', 'o', 'g', 'i', 's', 't', '_', 'c', 'o', 'n', 's', 'u', 'l', 't', 'a', 't', 'i', 'o', 'n'],
        "nav:card_of_the_day"@ == seq!['n', 'a', 'v', ':', 'c', 'a', 'r', 'd', '_', 'o', 'f', '_', 't', 'h', 'e', '_', 'd', 'a', 'y'],
        "nav:offer"@ == seq!['n', 'a', 'v', ':', 'o', 'f', 'f', 'e', 'r'],
        "nav:profile"@ == seq!['n', 'a', 'v', ':', 'p', 'r', 'o', 'f', 'i', 'l', 'e'],
        "nav:settings"@ == seq!['n', 'a', 'v', ':', 's', 'e', 't', 't', 'i', 'n', 'g', 's'],
        "admin:stats"@ == seq!['a', 'd', 'm', 'i', 'n', ':', 's', 't', 'a', 't', 's'],
        "admin:whitelist"@ == seq!['a', 'd', 'm', 'i', 'n', ':', 'w', 'h', 'i', 't', 'e', 'l', 'i', 's', 't'],
        "toggle:ai_mode"@ == seq!['t', 'o', 'g', 'g', 'l', 'e', ':', 'a', 'i', '_', 'm', 'o', 'd', 'e'],
        "toggle:notifications"@ == seq!['t', 'o', 'g', 'g', 'l', 'e', ':', 'n', 'o', 't', 'i', 'f', 'i', 'c', 'a', 't', 'i', 'o', 'n', 's'],
        "toggle:deck_style"@ == seq!['t', 'o', 'g', 'g', 'l', 'e', ':', 'd', 'e', 'c', 'k', '_', 's', 't', 'y', 'l', 'e'],
        "nav:tarot_spheres"@ == seq!['n', 'a', 'v', ':', 't', 'a', 'r', 'o', 't', '_', 's', 'p', 'h', 'e', 'r', 'e', 's'],
        "sphere:"@ == seq!['s', 'p', 'h', 'e', 'r', 'e', ':'],
        "subtopic:"@ == seq!['s', 'u', 'b', 't', 'o', 'p', 'i', 'c', ':'],
        "spread:"@ == seq!['s', 'p', 'r', 'e', 'a', 'd', ':'],
        "pick:"@ == seq!['p', 'i', 'c', 'k', ':'],
        "nav:astrology"@ == seq!['n', 'a', 'v', ':', 'a', 's', 't', 'r', 'o', 'l', 'o', 'g', 'y'],
        "astro:"@ == seq!['a', 's', 't', 'r', 'o', ':'],
        "nav:leela"@ == seq!['n', 'a', 'v', ':', 'l', 'e', 'e', 'l', 'a'],
        ":"@ == seq![':'],
        "-"@ == seq!['-'],
{
    reveal_strlit("nav:main");
    reveal_strlit("nav:main_menu");
    reveal_strlit("nav:restart");
    reveal_strlit("nav:legal");
    reveal_strlit("legal:offer");
    reveal_strlit("legal:offer:");
    reveal_strlit("legal:privacy");
    reveal_strlit("legal:consent");
    reveal_strlit("nav:contact_tarologist");
    reveal_strlit("nav:tariffs");
    reveal_strlit("pay:pack_5");
    reveal_strlit("pay:sub_month");
    reveal_strlit("pay:sub_3months");
    reveal_strlit("pay:sub_year");
    reveal_strlit("nav:support");
    reveal_strlit("nav:history");
    reveal_strlit("pay:tarologist_consultation");
    reveal_strlit("nav:card_of_the_day");
    reveal_strlit("nav:offer");
    reveal_strlit("nav:profile");
    reveal_strlit("nav:settings");
    reveal_strlit("admin:stats");
    reveal_strlit("admin:whitelist");
    reveal_strlit("toggle:ai_mode");
    reveal_strlit("toggle:notifications");
    reveal_strlit("toggle:deck_style");
    reveal_strlit("nav:tarot_spheres");
    reveal_strlit("sphere:");
    reveal_strlit("subtopic:");
    reveal_strlit("spread:");
    reveal_strlit("pick:");
    reveal_strlit("nav:astrology");
    reveal_strlit("astro:");
    reveal_strlit("nav:leela");
    reveal_strlit(":");
    reveal_strlit("-");
}

/// A piece of data that does not start with `l` is no page of the offer.
proof fn lemma_not_offer_page(d: Seq<char>)
    requires
        d.len() > 0,
        d[0] != 'l',
    ensures
        !has_prefix(d, "legal:offer:"@),
{
    lemma_literal_texts();
    if d.len() >= 12 {
        assert(d.take(12)[0] == d[0]);
    }
}

/// Each button of the fixed keyboards (main menu, tariffs, settings, offer,
/// contact) opens the screen its data names; each tariff button asks for
/// the tariff its label names.
#[verifier::rlimit(100)]
pub proof fn law_fixed_buttons_open_their_screens(r: CallbackRoute)
    ensures
        route_of(r, "nav:tarot_spheres"@) ==> r is TarotSpheres,
        route_of(r, "nav:card_of_the_day"@) ==> r is CardOfTheDay,
        route_of(r, "nav:astrology"@) ==> r is Astrology,
        route_of(r, "nav:leela"@) ==> r is Leela,
        route_of(r, "nav:tariffs"@) ==> r is Tariffs,
        route_of(r, "nav:history"@) ==> r is History,
        route_of(r, "nav:profile"@) ==> r is Profile,
        route_of(r, "nav:support"@) ==> r is Support,
        route_of(r, "nav:restart"@) ==> r is MainMenu,
        route_of(r, "nav:main_menu"@) ==> r is MainMenu,
        route_of(r, "pay:pack_5"@) ==> r == CallbackRoute::PayTariff(Tariff::Pack5),
        route_of(r, "pay:sub_month"@) ==> r == CallbackRoute::PayTariff(Tariff::Month),
        route_of(r, "pay:sub_3months"@) ==> r == CallbackRoute::PayTariff(Tariff::ThreeMonths),
        route_of(r, "pay:sub_year"@) ==> r == CallbackRoute::PayTariff(Tariff::Year),
        route_of(r, "toggle:ai_mode"@) ==> r is Toggle,
        route_of(r, "toggle:notifications"@) ==> r is Toggle,
        route_of(r, "toggle:deck_style"@) ==> r is Toggle,
        route_of(r, "nav:offer"@) ==> r is Offer,
        route_of(r, "pay:tarologist_consultation"@) ==> r is PayConsultation,
{
    lemma_literal_texts();
    lemma_not_offer_page("nav:tarot_spheres"@);
    lemma_not_offer_page("nav:card_of_the_day"@);
    lemma_not_offer_page("nav:astrology"@);
    lemma_not_offer_page("nav:leela"@);
    lemma_not_offer_page("nav:tariffs"@);
    lemma_not_offer_page("nav:history"@);
    lemma_not_offer_page("nav:profile"@);
    lemma_not_offer_page("nav:support"@);
    lemma_not_offer_page("nav:restart"@);
    lemma_not_offer_page("nav:main_menu"@);
    lemma_not_offer_page("pay:pack_5"@);
    lemma_not_offer_page("pay:sub_month"@);
    lemma_not_offer_page("pay:sub_3months"@);
    lemma_not_offer_page("pay:sub_year"@);
    lemma_not_offer_page("toggle:ai_mode"@);
    lemma_not_offer_page("toggle:notifications"@);
    lemma_not_offer_page("toggle:deck_style"@);
    lemma_not_offer_page("nav:offer"@);
    lemma_not_offer_page("pay:tarologist_consultation"@);
}

} // verus!
