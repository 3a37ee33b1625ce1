use eventsub_feed::events::{ChannelGiftMessage, GiftError, NullSubTier};

fn gift(
    is_anonymous: bool,
    user_id: Option<&str>,
    user_login: Option<&str>,
    user_name: Option<&str>,
) -> Result<ChannelGiftMessage, GiftError> {
    ChannelGiftMessage::new(
        "1337".to_string(),
        "cooler_user".to_string(),
        "Cooler_User".to_string(),
        None,
        is_anonymous,
        NullSubTier::Tier1("1000".to_string()),
        2,
        user_id.map(|s| s.to_string()),
        user_login.map(|s| s.to_string()),
        user_name.map(|s| s.to_string()),
    )
}

#[test]
fn anonymous_gift_has_no_gifter() {
    let g = gift(true, None, None, None).unwrap();
    assert!(g.is_anonymous);
    assert!(g.user_id.is_none() && g.user_login.is_none() && g.user_name.is_none());
    assert!(g.has_coupled_gifter());
}

#[test]
fn anonymous_gift_with_gifter_is_refused() {
    let r = gift(true, Some("1"), Some("a"), Some("A"));
    assert!(matches!(r, Err(GiftError::AnonymousWithGifter)));
}

#[test]
fn named_gift_has_all_gifter_fields() {
    let g = gift(false, Some("1234"), Some("cool_user"), Some("Cool_User")).unwrap();
    assert_eq!(g.user_id.as_deref(), Some("1234"));
    assert_eq!(g.user_login.as_deref(), Some("cool_user"));
    assert_eq!(g.user_name.as_deref(), Some("Cool_User"));
    assert_eq!(g.total, 2);
    assert!(g.has_coupled_gifter());
}

#[test]
fn partial_gifter_is_refused() {
    assert!(matches!(gift(false, Some("1234"), None, None), Err(GiftError::PartialGifter)));
    assert!(matches!(gift(false, Some("1234"), Some("cool_user"), None), Err(GiftError::PartialGifter)));
    assert!(matches!(gift(true, None, Some("cool_user"), None), Err(GiftError::PartialGifter)));
}

#[test]
fn named_gift_without_shared_gifter_is_accepted() {
    let g = gift(false, None, None, None).unwrap();
    assert!(!g.is_anonymous);
    assert!(g.has_coupled_gifter());
}

#[test]
fn field_built_gift_is_checked() {
    let mut g = gift(false, Some("1"), Some("a"), Some("A")).unwrap();
    g.is_anonymous = true;
    assert!(!g.has_coupled_gifter());
}
