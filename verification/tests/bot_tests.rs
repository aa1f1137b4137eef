use telegram_bot::config::Config;
use telegram_bot::esoterics::astrology::zodiac_signs;
use telegram_bot::esoterics::leela::LeelaGame;
use telegram_bot::esoterics::tarot::TarotDeck;

#[test]
fn test_tarot_deck_cards() {
    assert_eq!(TarotDeck::cards().len(), 36, "Все карты должны присутствовать в колоде");
    let drawn = TarotDeck::draw_cards(3);
    assert_eq!(drawn.len(), 3, "Должно быть вытянуто ровно 3 карты");
}

#[test]
fn test_astrology_zodiac_signs() {
    let signs = zodiac_signs();
    assert_eq!(signs.len(), 12, "Должно быть ровно 12 знаков Зодиака");
    let aries = signs.iter().find(|s| s.key == "aries");
    assert!(aries.is_some(), "Овен должен находиться в базе знаков");
}

#[test]
fn test_leela_game_cells() {
    let cells = LeelaGame::cells();
    assert!(!cells.is_empty(), "Клетки Лилы должны быть инициализированы");
    let cell_1 = &cells[0];
    assert_eq!(cell_1.number, 1);
}

#[test]
fn test_admin_whitelist_check() {
    let mut config = Config {
        teloxide_token: "test".to_string(),
        database_url: "sqlite::memory:".to_string(),
        ai_base_url: "http://localhost".to_string(),
        ai_api_key: "key".to_string(),
        ai_model: "model".to_string(),
        ai_timeout_secs: 30,
        daily_free_readings: 3,
        max_free_lifetime_readings: 10,
        allowed_username: Some("Studia_taro".to_string()),
        admin_usernames: vec!["mixanik2000".to_string(), "Studia_taro".to_string()],
        user_bot_name: "bot".to_string(),
        admin_bot_name: "admin".to_string(),
    };
    config.admin_usernames = vec!["mixanik2000".to_string(), "Studia_taro".to_string()];

    assert!(config.is_admin(Some("mixanik2000")), "mixanik2000 должен иметь доступ к админке");
    assert!(config.is_admin(Some("@mixanik2000")), "@mixanik2000 с собачкой должен иметь доступ к админке");
    assert!(config.is_admin(Some("Studia_taro")), "Studia_taro должна иметь доступ к админке");
    assert!(!config.is_admin(Some("hacker_1337")), "Посторонний не должен иметь доступ к админке");
}
