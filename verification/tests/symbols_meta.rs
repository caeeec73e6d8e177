use order_core::exchange::Exchange;
use order_core::symbols::{Symbol, SYMBOL_DEFAULT_PRECISION};

fn symbol(base: &str, quote: &str, amount_precision: i64, price_precision: i64) -> Symbol {
    Symbol {
        base_currency_code: base.to_string(),
        base_currency_id: base.to_lowercase(),
        quote_currency_code: quote.to_string(),
        quote_currency_id: quote.to_lowercase(),
        amount_precision,
        price_precision,
    }
}

#[test]
fn set_symbols_collapses_adjacent_currency_repetitions() {
    let mut ex = Exchange::new("Binance0".to_string());
    ex.set_symbols(vec![
        symbol("PHB", "BTC", 2, 8),
        symbol("BTC", "USDT", 6, 2),
        symbol("BTC", "BTC", 6, 2),
    ]);
    // Flattened codes PHB BTC BTC USDT BTC BTC, with adjacent repetitions
    // collapsed.
    assert_eq!(ex.currencies, vec!["PHB", "BTC", "USDT", "BTC"]);
    assert_eq!(ex.symbols.len(), 3);
    assert_eq!(ex.symbols[1].quote_currency_code, "USDT");
}

#[test]
fn set_symbols_with_no_symbols_clears_currencies() {
    let mut ex = Exchange::new("Binance0".to_string());
    ex.set_symbols(vec![symbol("PHB", "BTC", 2, 8)]);
    ex.set_symbols(Vec::new());
    assert!(ex.currencies.is_empty());
    assert!(ex.symbols.is_empty());
}

#[test]
fn filter_drops_symbols_with_default_precision() {
    let kept = Exchange::filter_supported_symbols(vec![
        symbol("PHB", "BTC", 2, 8),
        symbol("AAA", "BBB", SYMBOL_DEFAULT_PRECISION, 8),
        symbol("CCC", "DDD", 2, SYMBOL_DEFAULT_PRECISION),
        symbol("BTC", "USDT", 6, 2),
    ]);
    assert_eq!(kept.len(), 2);
    assert_eq!(kept[0].base_currency_code, "PHB");
    assert_eq!(kept[1].base_currency_code, "BTC");
}

#[test]
fn supported_currencies_map_base_and_quote() {
    let symbols = vec![symbol("PHB", "BTC", 2, 8)];
    let pairs = Exchange::get_supported_currencies(&symbols);
    assert_eq!(
        pairs,
        vec![
            ("PHB".to_string(), "phb".to_string()),
            ("BTC".to_string(), "btc".to_string()),
        ]
    );
}

#[test]
fn apply_metadata_keeps_supported_and_fills_currency_map() {
    let mut ex = Exchange::new("Binance0".to_string());
    ex.apply_metadata(vec![
        symbol("PHB", "BTC", 2, 8),
        symbol("AAA", "BBB", SYMBOL_DEFAULT_PRECISION, SYMBOL_DEFAULT_PRECISION),
    ]);
    assert_eq!(ex.supported_symbols.len(), 1);
    assert_eq!(ex.supported_symbols[0].base_currency_code, "PHB");
    assert_eq!(
        ex.supported_currencies.get(&"PHB".to_string()),
        Some("phb".to_string())
    );
    assert_eq!(
        ex.supported_currencies.get(&"BTC".to_string()),
        Some("btc".to_string())
    );
    assert_eq!(ex.supported_currencies.get(&"AAA".to_string()), None);
}

#[test]
fn later_currency_pair_wins_in_the_map() {
    let mut ex = Exchange::new("Binance0".to_string());
    ex.set_supported_currencies(&vec![
        ("PHB".to_string(), "first".to_string()),
        ("PHB".to_string(), "second".to_string()),
    ]);
    assert_eq!(
        ex.supported_currencies.get(&"PHB".to_string()),
        Some("second".to_string())
    );
}
