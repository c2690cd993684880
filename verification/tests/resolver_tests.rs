use mail_to_telegram::resolver::parse_chat_id;

#[test]
fn resolves_digits_before_domain() {
    assert_eq!(parse_chat_id("42@telegram-bot.com", Some(7)), Some(42));
    assert_eq!(parse_chat_id("42@telegram-bot.com", None), Some(42));
    assert_eq!(parse_chat_id("5@telegram-bot.com", None), Some(5));
    assert_eq!(parse_chat_id("0@telegram-bot.com", None), Some(0));
}

#[test]
fn falls_back_when_no_digits() {
    assert_eq!(parse_chat_id("notanumber@telegram-bot.com", Some(7)), Some(7));
    assert_eq!(parse_chat_id("notanumber@telegram-bot.com", None), None);
    assert_eq!(parse_chat_id("@telegram-bot.com", Some(3)), Some(3));
}

#[test]
fn falls_back_when_domain_absent() {
    assert_eq!(parse_chat_id("42@telegram-bot.co", Some(7)), Some(7));
    assert_eq!(parse_chat_id("42@example.com", None), None);
    assert_eq!(parse_chat_id("", Some(1)), Some(1));
}

#[test]
fn takes_maximal_run_directly_before_suffix() {
    // only the digits touching the suffix count
    assert_eq!(parse_chat_id("a1b23@telegram-bot.com", None), Some(23));
    // the suffix may stand mid-string
    assert_eq!(parse_chat_id("5@telegram-bot.com.example", None), Some(5));
}

#[test]
fn first_occurrence_decides() {
    // the first suffix occurrence has no digits before it, so the second
    // (with digits) is never looked at
    assert_eq!(parse_chat_id("x@telegram-bot.com7@telegram-bot.com", Some(9)), Some(9));
}

#[test]
fn u64_bounds() {
    assert_eq!(
        parse_chat_id("18446744073709551615@telegram-bot.com", Some(1)),
        Some(u64::MAX)
    );
    // one past u64::MAX no longer parses: fall back
    assert_eq!(parse_chat_id("18446744073709551616@telegram-bot.com", Some(1)), Some(1));
    assert_eq!(parse_chat_id("99999999999999999999@telegram-bot.com", None), None);
}
