use serious_clicker::ClickerConfig;
use serious_clicker::ConfigStore;

fn named(name: &str) -> ClickerConfig {
    let mut c = ClickerConfig::default();
    c.name = name.to_string();
    c
}

#[test]
fn from_loaded_none_falls_back_to_one_default() {
    let s = ConfigStore::from_loaded(None);
    assert_eq!(s.configs.len(), 1);
    assert_eq!(s.configs[0].name, "默认配置");
    assert_eq!(s.selected, 0);
}

#[test]
fn from_loaded_empty_list_falls_back_to_one_default() {
    let s = ConfigStore::from_loaded(Some(Vec::new()));
    assert_eq!(s.configs.len(), 1);
    assert_eq!(s.configs[0].name, "默认配置");
    assert_eq!(s.selected, 0);
}

#[test]
fn from_loaded_keeps_stored_records() {
    let s = ConfigStore::from_loaded(Some(vec![named("a"), named("b")]));
    assert_eq!(s.configs.len(), 2);
    assert_eq!(s.configs[0].name, "a");
    assert_eq!(s.configs[1].name, "b");
    assert_eq!(s.selected, 0);
}

#[test]
fn add_config_appends_and_selects() {
    let mut s = ConfigStore::from_loaded(None);
    s.add_config(named("second"));
    assert_eq!(s.configs.len(), 2);
    assert_eq!(s.selected, 1);
    assert_eq!(s.selected_config().name, "second");
}

#[test]
fn update_config_replaces_the_selected_record() {
    let mut s = ConfigStore::from_loaded(Some(vec![named("a"), named("b")]));
    s.select(1);
    s.update_config(named("b2"));
    assert_eq!(s.configs.len(), 2);
    assert_eq!(s.configs[0].name, "a");
    assert_eq!(s.configs[1].name, "b2");
}

#[test]
fn delete_config_removes_and_clamps_the_selection() {
    let mut s = ConfigStore::from_loaded(Some(vec![named("a"), named("b"), named("c")]));
    s.select(2);
    s.delete_config();
    assert_eq!(s.configs.len(), 2);
    assert_eq!(s.selected, 1);
    assert_eq!(s.selected_config().name, "b");

    s.select(0);
    s.delete_config();
    assert_eq!(s.configs.len(), 1);
    assert_eq!(s.selected, 0);
    assert_eq!(s.selected_config().name, "b");
}

#[test]
fn deleting_the_last_record_refills_one_default() {
    let mut s = ConfigStore::from_loaded(Some(vec![named("only")]));
    s.delete_config();
    assert_eq!(s.configs.len(), 1);
    assert_eq!(s.configs[0].name, "默认配置");
    assert_eq!(s.selected, 0);
}

#[test]
fn list_configs_shows_the_whole_list() {
    let s = ConfigStore::from_loaded(Some(vec![named("a"), named("b")]));
    let names: Vec<&str> = s.list_configs().iter().map(|c| c.name.as_str()).collect();
    assert_eq!(names, vec!["a", "b"]);
}
