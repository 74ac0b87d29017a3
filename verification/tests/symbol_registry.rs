use unified_trading::symbol_registry::{
    next_intent_id, next_request_id, next_trace_id, IdCounters, SymbolId, SymbolIdArray,
    SymbolRegistry, MAX_SYMBOLS,
};

#[test]
fn test_symbol_registry_register_and_lookup() {
    let mut registry = SymbolRegistry::new();
    let aapl_id = registry.register("AAPL").unwrap();
    let msft_id = registry.register("MSFT").unwrap();

    assert_eq!(registry.lookup("AAPL"), Some(aapl_id));
    assert_eq!(registry.lookup("MSFT"), Some(msft_id));
    assert_eq!(registry.lookup("GOOGL"), None);
    assert_eq!(registry.count(), 2);
}

#[test]
fn test_symbol_registry_reverse_lookup() {
    let mut registry = SymbolRegistry::new();
    let aapl_id = registry.register("AAPL").unwrap();

    assert_eq!(registry.get_symbol(aapl_id), Some("AAPL"));
}

#[test]
fn test_symbol_registry_duplicate_register() {
    let mut registry = SymbolRegistry::new();
    let id1 = registry.register("AAPL").unwrap();
    let id2 = registry.register("AAPL").unwrap();

    assert_eq!(id1, id2);
    assert_eq!(registry.count(), 1);
}

#[test]
fn test_symbol_id_array() {
    let mut registry = SymbolRegistry::new();
    let aapl_id = registry.register("AAPL").unwrap();

    let mut array = SymbolIdArray::new();
    array.set(aapl_id, 100);
    assert_eq!(array.get(aapl_id), Some(&100));
    assert_eq!(array.remove(aapl_id), Some(100));
    assert_eq!(array.get(aapl_id), None);
}

#[test]
fn test_symbol_id_array_clear() {
    let mut registry = SymbolRegistry::new();
    let aapl_id = registry.register("AAPL").unwrap();
    let msft_id = registry.register("MSFT").unwrap();

    let mut array = SymbolIdArray::new();
    array.set(aapl_id, 100);
    array.set(msft_id, 200);

    array.clear();
    assert_eq!(array.get(aapl_id), None);
    assert_eq!(array.get(msft_id), None);
}

#[test]
fn numbers_stay_as_they_are() {
    let mut registry = SymbolRegistry::default();
    let a = registry.register("A").unwrap();
    for i in 0..50 {
        registry.register(&format!("S{}", i));
    }
    assert_eq!(registry.lookup("A"), Some(a));
    assert_eq!(registry.all_symbols()[0], "A");
    assert!(registry.is_registered("S49"));
    assert!(!registry.is_registered("S50"));
}

#[test]
fn a_table_ignores_numbers_outside() {
    let mut array: SymbolIdArray<u8> = SymbolIdArray::default();
    let outside = SymbolId::from_raw(MAX_SYMBOLS as u16);
    array.set(outside, 1);
    assert_eq!(array.get(outside), None);
    assert_eq!(array.remove(outside), None);
}

#[test]
fn a_symbol_number_shows_itself() {
    let id = SymbolId::from_raw(42);
    assert_eq!(id.to_text(), "SymbolId(42)");
    assert_eq!(id.as_usize(), 42);
}

#[test]
fn identifiers_count_up_from_one() {
    let mut ids = IdCounters::new();
    assert_eq!(next_intent_id(&mut ids), 1);
    assert_eq!(next_intent_id(&mut ids), 2);
    assert_eq!(next_request_id(&mut ids), 1);
    assert_eq!(ids.next_trace(), 1);
    assert_eq!(next_trace_id(&mut ids), 1);
    assert_eq!(next_trace_id(&mut ids), 2);
}

#[test]
fn numbers_and_symbols_agree() {
    let mut registry = SymbolRegistry::new();
    for s in ["A", "B", "A", "C", "B"] {
        registry.register(s);
    }
    assert_eq!(registry.all_symbols(), vec!["A", "B", "C"]);
    for s in registry.all_symbols() {
        let id = registry.lookup(s).unwrap();
        assert_eq!(registry.get_symbol(id), Some(s));
    }
    assert_eq!(registry.get_symbol(SymbolId::from_raw(3)), None);
    assert_eq!(registry.get_symbol(SymbolId::from_raw(u16::MAX)), None);
}

#[test]
fn a_cleared_table_takes_values_everywhere() {
    let mut array: SymbolIdArray<u8> = SymbolIdArray::new();
    let last = SymbolId::from_raw((MAX_SYMBOLS - 1) as u16);
    array.set(last, 1);
    array.clear();
    assert_eq!(array.get(last), None);
    array.set(last, 2);
    assert_eq!(array.get(last), Some(&2));
}
