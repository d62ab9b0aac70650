use cwscript::codegen::symbol_table::{SymbolRecord, SymbolTable, SymbolType};

#[test]
fn added_symbols_can_be_looked_up() {
    let mut table = SymbolTable::new(None, vec![]);
    table.add_symbol("x".to_string(), SymbolType::Variable);
    table.add_symbol("f".to_string(), SymbolType::Function);
    assert_eq!(
        table.lookup("x".to_string(), SymbolType::Variable),
        Some(&SymbolRecord {
            name: "x".to_string(),
            symbol_type: SymbolType::Variable,
        })
    );
    assert_eq!(
        table.lookup("f".to_string(), SymbolType::Function),
        Some(&SymbolRecord {
            name: "f".to_string(),
            symbol_type: SymbolType::Function,
        })
    );
    // the same name under another kind is a different symbol
    assert_eq!(table.lookup("x".to_string(), SymbolType::Function), None);
}

#[test]
fn adding_twice_keeps_one_record() {
    let mut table = SymbolTable::new(None, vec![]);
    table.add_symbol("x".to_string(), SymbolType::Variable);
    table.add_symbol("x".to_string(), SymbolType::Variable);
    table.remove_symbol("x".to_string(), SymbolType::Variable);
    assert_eq!(table.lookup("x".to_string(), SymbolType::Variable), None);
}

#[test]
fn removed_symbols_are_gone() {
    let mut table = SymbolTable::new(None, vec![]);
    table.add_symbol("a".to_string(), SymbolType::UIObject);
    table.add_symbol("b".to_string(), SymbolType::Event);
    table.remove_symbol("a".to_string(), SymbolType::UIObject);
    assert_eq!(table.lookup("a".to_string(), SymbolType::UIObject), None);
    assert!(table.lookup("b".to_string(), SymbolType::Event).is_some());
    // removing a record that is not there changes nothing
    table.remove_symbol("missing".to_string(), SymbolType::Variable);
    assert!(table.lookup("b".to_string(), SymbolType::Event).is_some());
}

#[test]
fn scopes_link_to_their_parent() {
    let outer = SymbolTable::new(None, vec![]);
    let inner = SymbolTable::new(Some(Box::new(outer)), vec![]);
    assert!(inner.upper.is_some());
}
