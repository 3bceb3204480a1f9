use ths_adapter::category::{HistoryCategory, OrderSide, QueryCategory};

#[test]
fn query_names_have_fixed_codes() {
    let expected = [
        ("zijin", QueryCategory::Funds, 0),
        ("chicang", QueryCategory::Holdings, 1),
        ("weituo", QueryCategory::PendingOrders, 2),
        ("chengjiao", QueryCategory::FilledOrders, 3),
        ("weituokeche", QueryCategory::CancelableOrders, 4),
        ("gudong", QueryCategory::Shareholders, 5),
    ];
    for (name, category, code) in expected {
        assert_eq!(QueryCategory::from_name(name), Some(category));
        assert_eq!(QueryCategory::from_lowercase(name), Some(category));
        assert_eq!(category.code(), code);
    }
}

#[test]
fn order_names_have_fixed_codes() {
    assert_eq!(OrderSide::from_name("buy"), Some(OrderSide::Buy));
    assert_eq!(OrderSide::from_name("sell"), Some(OrderSide::Sell));
    assert_eq!(OrderSide::Buy.code(), 0);
    assert_eq!(OrderSide::Sell.code(), 1);
}

#[test]
fn history_names_have_fixed_codes() {
    assert_eq!(HistoryCategory::from_name("weituo"), Some(HistoryCategory::Orders));
    assert_eq!(HistoryCategory::from_name("chengjiao"), Some(HistoryCategory::Trades));
    assert_eq!(HistoryCategory::Orders.code(), 0);
    assert_eq!(HistoryCategory::Trades.code(), 1);
}

#[test]
fn names_match_whatever_their_case() {
    assert_eq!(QueryCategory::from_name("ZIJIN"), Some(QueryCategory::Funds));
    assert_eq!(QueryCategory::from_name("ZiJin"), Some(QueryCategory::Funds));
    assert_eq!(QueryCategory::from_name("WeiTuoKeChe"), Some(QueryCategory::CancelableOrders));
    assert_eq!(OrderSide::from_name("BUY"), Some(OrderSide::Buy));
    assert_eq!(OrderSide::from_name("sELL"), Some(OrderSide::Sell));
    assert_eq!(HistoryCategory::from_name("ChengJiao"), Some(HistoryCategory::Trades));
}

#[test]
fn lowercase_form_follows_unicode() {
    // The Kelvin sign has the lowercase form `k`.
    assert_eq!(
        QueryCategory::from_name("weituo\u{212A}eche"),
        Some(QueryCategory::CancelableOrders)
    );
    assert_eq!(QueryCategory::from_lowercase("weituo\u{212A}eche"), None);
}

#[test]
fn exact_match_is_case_sensitive() {
    assert_eq!(QueryCategory::from_lowercase("ZIJIN"), None);
    assert_eq!(OrderSide::from_lowercase("Buy"), None);
    assert_eq!(HistoryCategory::from_lowercase("WEITUO"), None);
}

#[test]
fn other_names_have_no_category() {
    for name in ["unknown", "", "zijin ", " zijin", "zi jin", "zijinx", "0", "weituokech"] {
        assert_eq!(QueryCategory::from_name(name), None);
    }
    for name in ["hold", "", "buysell", "buy "] {
        assert_eq!(OrderSide::from_name(name), None);
    }
    for name in ["zijin", "", "chengjia"] {
        assert_eq!(HistoryCategory::from_name(name), None);
    }
}

#[test]
fn families_do_not_share_names() {
    assert_eq!(QueryCategory::from_name("buy"), None);
    assert_eq!(OrderSide::from_name("zijin"), None);
    assert_eq!(HistoryCategory::from_name("gudong"), None);
    // The same name has a different code in another family.
    assert_eq!(QueryCategory::from_name("weituo").map(|c| c.code()), Some(2));
    assert_eq!(HistoryCategory::from_name("weituo").map(|c| c.code()), Some(0));
    assert_eq!(QueryCategory::from_name("chengjiao").map(|c| c.code()), Some(3));
    assert_eq!(HistoryCategory::from_name("chengjiao").map(|c| c.code()), Some(1));
}
