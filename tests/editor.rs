use fontcfg::{
    CustomFontPaths, FontCfgUi, FontCfgWindow, FontConfig, FontDefsUiMsg, Table, UiEvent,
};

fn s(x: &str) -> String {
    x.to_string()
}

fn slots(cfg: &FontConfig<Vec<u8>>, family: &str) -> Vec<String> {
    cfg.families.get(&s(family)).unwrap().clone()
}

fn open_form_with(ui: &mut FontCfgUi, cfg: &mut FontConfig<Vec<u8>>, custom: &mut Option<CustomFontPaths>, name: &str, path: &str) {
    let out = ui.show(
        cfg,
        custom,
        vec![UiEvent::OpenForm, UiEvent::SetName(s(name)), UiEvent::SetPath(s(path))],
    );
    assert_eq!(out.msg, FontDefsUiMsg::NoEvent);
    assert!(!out.apply);
}

#[test]
fn new_editor_is_empty_and_closed() {
    let ui = FontCfgUi::default();
    assert_eq!(ui.name_buf(), "");
    assert_eq!(ui.path_buf(), "");
    assert_eq!(ui.err_msg(), "");
    assert!(!ui.is_adding());
    let w = FontCfgWindow::default();
    assert!(!w.open);
    assert!(!w.ui().is_adding());
}

#[test]
fn add_font_inserts_bytes_and_clears_form() {
    let mut ui = FontCfgUi::new();
    let mut cfg: FontConfig<Vec<u8>> = FontConfig::new();
    let mut custom = Some(CustomFontPaths::new());
    open_form_with(&mut ui, &mut cfg, &mut custom, "sans", "fonts/sans.ttf");
    assert!(ui.is_adding());
    assert_eq!(ui.name_buf(), "sans");
    assert_eq!(ui.path_buf(), "fonts/sans.ttf");
    let out = ui.show(&mut cfg, &mut custom, vec![UiEvent::AddFont(Ok(vec![1u8, 2, 3]))]);
    assert_eq!(out.msg, FontDefsUiMsg::NoEvent);
    assert_eq!(cfg.font_data.len(), 1);
    assert_eq!(cfg.font_data.get(&s("sans")), Some(&vec![1u8, 2, 3]));
    let reg = custom.as_ref().unwrap();
    assert_eq!(reg.get(&s("sans")), Some(&s("fonts/sans.ttf")));
    assert_eq!(ui.name_buf(), "");
    assert_eq!(ui.path_buf(), "");
    assert_eq!(ui.err_msg(), "");
    assert!(!ui.is_adding());
}

#[test]
fn add_font_overwrites_existing_identifier() {
    let mut ui = FontCfgUi::new();
    let mut cfg: FontConfig<Vec<u8>> = FontConfig::new();
    let mut custom = None;
    cfg.font_data.insert(s("a"), vec![0u8]);
    cfg.font_data.insert(s("b"), vec![9u8]);
    open_form_with(&mut ui, &mut cfg, &mut custom, "a", "p");
    ui.show(&mut cfg, &mut custom, vec![UiEvent::AddFont(Ok(vec![7u8]))]);
    assert_eq!(cfg.font_data.len(), 2);
    assert_eq!(cfg.font_data.key_at(0), "a");
    assert_eq!(cfg.font_data.value_at(0), &vec![7u8]);
    assert_eq!(cfg.font_data.value_at(1), &vec![9u8]);
    assert!(custom.is_none());
}

#[test]
fn add_font_failure_keeps_tables_and_form() {
    let mut ui = FontCfgUi::new();
    let mut cfg: FontConfig<Vec<u8>> = FontConfig::new();
    cfg.font_data.insert(s("mono"), vec![5u8]);
    cfg.add_family(s("body"));
    let mut custom = Some(CustomFontPaths::new());
    open_form_with(&mut ui, &mut cfg, &mut custom, "x", "missing/path");
    let out = ui.show(
        &mut cfg,
        &mut custom,
        vec![
            UiEvent::AddFont(Err(s("No such file or directory (os error 2)"))),
            UiEvent::RemoveFont(0),
            UiEvent::Apply,
            UiEvent::Save,
        ],
    );
    assert_eq!(out.msg, FontDefsUiMsg::NoEvent);
    assert!(!out.apply);
    assert_eq!(ui.err_msg(), "No such file or directory (os error 2)");
    assert!(ui.is_adding());
    assert_eq!(ui.name_buf(), "x");
    assert_eq!(ui.path_buf(), "missing/path");
    assert_eq!(cfg.font_data.len(), 1);
    assert_eq!(cfg.font_data.get(&s("mono")), Some(&vec![5u8]));
    assert_eq!(cfg.families.len(), 1);
    assert_eq!(custom.as_ref().unwrap().len(), 0);
}

#[test]
fn opening_form_clears_error_only() {
    let mut ui = FontCfgUi::new();
    let mut cfg: FontConfig<Vec<u8>> = FontConfig::new();
    let mut custom = None;
    open_form_with(&mut ui, &mut cfg, &mut custom, "x", "bad");
    ui.show(&mut cfg, &mut custom, vec![UiEvent::AddFont(Err(s("denied")))]);
    assert_eq!(ui.err_msg(), "denied");
    ui.show(&mut cfg, &mut custom, vec![UiEvent::OpenForm]);
    assert_eq!(ui.err_msg(), "");
    assert!(ui.is_adding());
    assert_eq!(ui.name_buf(), "x");
    assert_eq!(ui.path_buf(), "bad");
}

#[test]
fn form_events_ignored_while_form_closed() {
    let mut ui = FontCfgUi::new();
    let mut cfg: FontConfig<Vec<u8>> = FontConfig::new();
    let mut custom = None;
    let out = ui.show(
        &mut cfg,
        &mut custom,
        vec![
            UiEvent::SetName(s("a")),
            UiEvent::SetPath(s("p")),
            UiEvent::AddFont(Ok(vec![1u8])),
            UiEvent::AddFont(Err(s("e"))),
            UiEvent::Save,
        ],
    );
    assert_eq!(out.msg, FontDefsUiMsg::SaveRequest);
    assert_eq!(ui.name_buf(), "");
    assert_eq!(ui.err_msg(), "");
    assert_eq!(cfg.font_data.len(), 0);
}

#[test]
fn remove_font_clears_registry_and_keeps_references() {
    let mut ui = FontCfgUi::new();
    let mut cfg: FontConfig<Vec<u8>> = FontConfig::new();
    let mut reg = CustomFontPaths::new();
    reg.insert(s("a"), s("a.ttf"));
    reg.insert(s("b"), s("b.ttf"));
    let mut custom = Some(reg);
    cfg.font_data.insert(s("a"), vec![1u8]);
    cfg.font_data.insert(s("b"), vec![2u8]);
    cfg.families.insert(s("body"), vec![s("a"), s("b")]);
    ui.show(&mut cfg, &mut custom, vec![UiEvent::RemoveFont(0)]);
    assert_eq!(cfg.font_data.len(), 1);
    assert!(cfg.font_data.get(&s("a")).is_none());
    assert_eq!(cfg.font_data.get(&s("b")), Some(&vec![2u8]));
    let reg = custom.as_ref().unwrap();
    assert!(reg.get(&s("a")).is_none());
    assert_eq!(reg.get(&s("b")), Some(&s("b.ttf")));
    assert_eq!(slots(&cfg, "body"), vec![s("a"), s("b")]);
}

#[test]
fn remove_builtin_font_without_registry_entry() {
    let mut ui = FontCfgUi::new();
    let mut cfg: FontConfig<Vec<u8>> = FontConfig::new();
    let mut reg = CustomFontPaths::new();
    reg.insert(s("c"), s("c.ttf"));
    let mut custom = Some(reg);
    cfg.font_data.insert(s("builtin"), vec![1u8]);
    ui.show(&mut cfg, &mut custom, vec![UiEvent::RemoveFont(0), UiEvent::RemoveFont(3)]);
    assert_eq!(cfg.font_data.len(), 0);
    assert_eq!(custom.as_ref().unwrap().len(), 1);
}

#[test]
fn append_slot_adds_empty_slot_to_one_family() {
    let mut ui = FontCfgUi::new();
    let mut cfg: FontConfig<Vec<u8>> = FontConfig::new();
    let mut custom = None;
    cfg.families.insert(s("body"), vec![s("x"), s("y")]);
    cfg.families.insert(s("code"), vec![s("m")]);
    ui.show(&mut cfg, &mut custom, vec![UiEvent::AppendSlot(0)]);
    assert_eq!(slots(&cfg, "body"), vec![s("x"), s("y"), s("")]);
    assert_eq!(slots(&cfg, "code"), vec![s("m")]);
}

#[test]
fn remove_slot_keeps_order() {
    let mut ui = FontCfgUi::new();
    let mut cfg: FontConfig<Vec<u8>> = FontConfig::new();
    let mut custom = None;
    cfg.families.insert(s("body"), vec![s("a"), s("b"), s("c"), s("a")]);
    ui.show(&mut cfg, &mut custom, vec![UiEvent::RemoveSlot(0, 1)]);
    assert_eq!(slots(&cfg, "body"), vec![s("a"), s("c"), s("a")]);
    ui.show(&mut cfg, &mut custom, vec![UiEvent::RemoveSlot(0, 7), UiEvent::RemoveSlot(4, 0)]);
    assert_eq!(slots(&cfg, "body"), vec![s("a"), s("c"), s("a")]);
}

#[test]
fn remove_family_then_recreate_is_empty() {
    let mut ui = FontCfgUi::new();
    let mut cfg: FontConfig<Vec<u8>> = FontConfig::new();
    let mut custom = None;
    cfg.families.insert(s("body"), vec![s("a")]);
    cfg.families.insert(s("code"), vec![s("m")]);
    ui.show(&mut cfg, &mut custom, vec![UiEvent::RemoveFamily(0)]);
    assert_eq!(cfg.families.len(), 1);
    assert!(cfg.families.get(&s("body")).is_none());
    assert_eq!(slots(&cfg, "code"), vec![s("m")]);
    cfg.add_family(s("body"));
    assert_eq!(slots(&cfg, "body"), Vec::<String>::new());
}

#[test]
fn apply_twice_same_as_once() {
    let mut ui = FontCfgUi::new();
    let mut cfg: FontConfig<Vec<u8>> = FontConfig::new();
    let mut custom = None;
    cfg.font_data.insert(s("a"), vec![1u8]);
    let once = ui.show(&mut cfg, &mut custom, vec![UiEvent::Apply]);
    assert!(once.apply);
    assert_eq!(once.msg, FontDefsUiMsg::NoEvent);
    let twice = ui.show(&mut cfg, &mut custom, vec![UiEvent::Apply, UiEvent::Apply]);
    assert!(twice.apply);
    assert_eq!(twice.msg, FontDefsUiMsg::NoEvent);
    assert_eq!(cfg.font_data.len(), 1);
    let none = ui.show(&mut cfg, &mut custom, vec![]);
    assert!(!none.apply);
}

#[test]
fn save_repeated_changes_nothing() {
    let mut ui = FontCfgUi::new();
    let mut cfg: FontConfig<Vec<u8>> = FontConfig::new();
    let mut custom = Some(CustomFontPaths::new());
    cfg.font_data.insert(s("a"), vec![1u8]);
    cfg.families.insert(s("body"), vec![s("a")]);
    for _ in 0..3 {
        let out = ui.show(&mut cfg, &mut custom, vec![UiEvent::Save]);
        assert_eq!(out.msg, FontDefsUiMsg::SaveRequest);
        assert!(!out.apply);
        assert_eq!(cfg.font_data.len(), 1);
        assert_eq!(cfg.font_data.get(&s("a")), Some(&vec![1u8]));
        assert_eq!(slots(&cfg, "body"), vec![s("a")]);
        assert_eq!(custom.as_ref().unwrap().len(), 0);
    }
}

#[test]
fn editing_scenario_reproduces_each_state() {
    let mut ui = FontCfgUi::new();
    let mut cfg: FontConfig<Vec<u8>> = FontConfig::new();
    let mut custom = Some(CustomFontPaths::new());
    open_form_with(&mut ui, &mut cfg, &mut custom, "sans", "valid/sans.ttf");
    ui.show(&mut cfg, &mut custom, vec![UiEvent::AddFont(Ok(vec![0u8, 1, 0, 0]))]);
    assert_eq!(cfg.font_data.len(), 1);
    assert_eq!(cfg.font_data.key_at(0), "sans");
    assert_eq!(cfg.font_data.value_at(0), &vec![0u8, 1, 0, 0]);
    cfg.add_family(s("body"));
    assert_eq!(slots(&cfg, "body"), Vec::<String>::new());
    ui.show(&mut cfg, &mut custom, vec![UiEvent::AppendSlot(0)]);
    ui.show(&mut cfg, &mut custom, vec![UiEvent::AppendSlot(0)]);
    assert_eq!(slots(&cfg, "body"), vec![s(""), s("")]);
    ui.show(&mut cfg, &mut custom, vec![UiEvent::EditSlot(0, 0, s("sans"))]);
    assert_eq!(slots(&cfg, "body"), vec![s("sans"), s("")]);
    ui.show(&mut cfg, &mut custom, vec![UiEvent::RemoveSlot(0, 1)]);
    assert_eq!(slots(&cfg, "body"), vec![s("sans")]);
}

#[test]
fn closed_window_shows_nothing() {
    let mut w = FontCfgWindow::new();
    let mut cfg: FontConfig<Vec<u8>> = FontConfig::new();
    let mut custom = None;
    cfg.font_data.insert(s("a"), vec![1u8]);
    let out = w.show(&mut cfg, &mut custom, vec![UiEvent::RemoveFont(0), UiEvent::Save], false);
    assert_eq!(out.msg, FontDefsUiMsg::NoEvent);
    assert_eq!(cfg.font_data.len(), 1);
    assert!(!w.open);
}

#[test]
fn open_window_forwards_and_closes() {
    let mut w = FontCfgWindow::new();
    w.open = true;
    let mut cfg: FontConfig<Vec<u8>> = FontConfig::new();
    let mut custom = None;
    cfg.font_data.insert(s("a"), vec![1u8]);
    let out = w.show(&mut cfg, &mut custom, vec![UiEvent::RemoveFont(0), UiEvent::Save], false);
    assert_eq!(out.msg, FontDefsUiMsg::SaveRequest);
    assert_eq!(cfg.font_data.len(), 0);
    assert!(w.open);
    let out = w.show(&mut cfg, &mut custom, vec![UiEvent::OpenForm], true);
    assert_eq!(out.msg, FontDefsUiMsg::NoEvent);
    assert!(w.ui().is_adding());
    assert!(!w.open);
}

#[test]
fn table_keeps_insertion_order() {
    let mut t: Table<u32> = Table::new();
    assert!(t.is_empty());
    t.insert(s("z"), 1);
    t.insert(s("a"), 2);
    t.insert(s("z"), 3);
    assert_eq!(t.len(), 2);
    assert_eq!(t.key_at(0), "z");
    assert_eq!(*t.value_at(0), 3);
    assert_eq!(t.find(&s("a")), Some(1));
    assert_eq!(t.remove(&s("z")), Some(3));
    assert_eq!(t.remove(&s("z")), None);
    assert_eq!(t.key_at(0), "a");
    *t.value_mut(0) = 8;
    assert_eq!(t.get(&s("a")), Some(&8));
    assert_eq!(t.remove_at(0), (s("a"), 8));
    assert!(t.is_empty());
}
