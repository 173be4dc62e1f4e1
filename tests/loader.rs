use fontcfg::{load_custom_fonts, CustomFontPaths, Table};

fn s(x: &str) -> String {
    x.to_string()
}

#[test]
fn loader_keeps_fonts_read_before_failure() {
    let mut custom = CustomFontPaths::new();
    custom.insert(s("a"), s("valid/path"));
    custom.insert(s("b"), s("missing/path"));
    let mut font_data: Table<Vec<u8>> = Table::new();
    let loaded: Vec<Result<Vec<u8>, String>> = vec![Ok(vec![1u8, 2]), Err(s("missing/path: not found"))];
    let r = load_custom_fonts(&custom, &mut font_data, loaded);
    assert_eq!(r, Err(s("missing/path: not found")));
    assert_eq!(font_data.len(), 1);
    assert_eq!(font_data.get(&s("a")), Some(&vec![1u8, 2]));
    assert!(font_data.get(&s("b")).is_none());
}

#[test]
fn loader_inserts_all_and_overwrites() {
    let mut custom = CustomFontPaths::new();
    custom.insert(s("a"), s("a.ttf"));
    custom.insert(s("b"), s("b.ttf"));
    let mut font_data: Table<Vec<u8>> = Table::new();
    font_data.insert(s("b"), vec![0u8]);
    let loaded: Vec<Result<Vec<u8>, String>> = vec![Ok(vec![1u8]), Ok(vec![2u8])];
    let r = load_custom_fonts(&custom, &mut font_data, loaded);
    assert_eq!(r, Ok(()));
    assert_eq!(font_data.len(), 2);
    assert_eq!(font_data.key_at(0), "b");
    assert_eq!(font_data.value_at(0), &vec![2u8]);
    assert_eq!(font_data.get(&s("a")), Some(&vec![1u8]));
}

#[test]
fn loader_with_empty_registry_does_nothing() {
    let custom = CustomFontPaths::new();
    let mut font_data: Table<Vec<u8>> = Table::new();
    let r = load_custom_fonts(&custom, &mut font_data, Vec::<Result<Vec<u8>, String>>::new());
    assert_eq!(r, Ok(()));
    assert!(font_data.is_empty());
}
