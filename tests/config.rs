use win_stall_buddy::config::{
    desired_downloads_from_config, get_desired_downloads, load_section, ConfigError,
    ConfigSection,
};

fn entries(pairs: &[(&str, &str)]) -> Vec<(String, String)> {
    pairs.iter().map(|(k, v)| (k.to_string(), v.to_string())).collect()
}

#[test]
fn desired_downloads_keep_section_order() {
    let r = get_desired_downloads(
        entries(&[("Brave", "true"), ("Chrome", "false"), ("Edge", "true")]),
        entries(&[("CPUZ", "TRUE"), ("Parsec", "true")]),
        entries(&[("Nmap", "yes")]),
        entries(&[("7Zip", "true")]),
    );
    assert_eq!(r, vec!["Brave", "Edge", "Parsec", "7Zip"]);
}

#[test]
fn nothing_selected_gives_an_empty_batch() {
    let r = get_desired_downloads(
        entries(&[("Brave", "false"), ("Chrome", "false")]),
        entries(&[]),
        entries(&[("Nmap", "false")]),
        entries(&[("VLC", "")]),
    );
    assert!(r.is_empty());
    let r = get_desired_downloads(vec![], vec![], vec![], vec![]);
    assert!(r.is_empty());
}

#[test]
fn section_keys_and_names() {
    assert_eq!(ConfigSection::Browser.name(), "browser");
    assert_eq!(ConfigSection::System.name(), "system");
    assert_eq!(ConfigSection::Browser.keys().len(), 13);
    assert_eq!(ConfigSection::Gaming.keys().len(), 22);
    assert!(ConfigSection::Browser.keys().contains(&"Librewolf"));
    assert!(!ConfigSection::Gaming.keys().contains(&"ItchIoLauncher"));
    assert_eq!(ConfigSection::Programming.keys().len(), 40);
    assert_eq!(ConfigSection::System.keys(), vec![
        "7Zip", "Audacious", "LibreOffice", "ModernCSV", "NoMacs", "Okular", "Rufus", "VLC", "WinRAR"
    ]);
}

#[test]
fn loading_a_section_defaults_to_false() {
    let ini = ini::Ini::load_from_str("[system]\nVLC = true\n7Zip = false\nUnknown = true\n").unwrap();
    let props = ini.section(Some("system")).unwrap();
    let loaded = load_section(props, ConfigSection::System);
    assert_eq!(loaded.len(), 9);
    assert_eq!(loaded[0], ("7Zip".to_string(), "false".to_string()));
    assert_eq!(loaded[1], ("Audacious".to_string(), "false".to_string()));
    assert_eq!(loaded[7], ("VLC".to_string(), "true".to_string()));
}

#[test]
fn configuration_file_selects_titles() {
    let text = "[browser]\nBrave = true\nChrome = false\n\n[gaming]\nSteamLauncher = true\n\n[programming]\n\n[system]\nWinRAR = true\n";
    let ini = ini::Ini::load_from_str(text).unwrap();
    assert_eq!(
        desired_downloads_from_config(&ini),
        Ok(vec!["Brave".to_string(), "SteamLauncher".to_string(), "WinRAR".to_string()])
    );
    let empty = ini::Ini::load_from_str("[browser]\n[gaming]\n[programming]\n[system]\n").unwrap();
    assert_eq!(desired_downloads_from_config(&empty), Ok(vec![]));
}

#[test]
fn missing_section_is_reported() {
    let ini = ini::Ini::load_from_str("[browser]\nBrave = true\n[gaming]\n[system]\n").unwrap();
    assert_eq!(
        desired_downloads_from_config(&ini),
        Err(ConfigError::MissingSection(ConfigSection::Programming))
    );
    let ini = ini::Ini::load_from_str("").unwrap();
    assert_eq!(
        desired_downloads_from_config(&ini),
        Err(ConfigError::MissingSection(ConfigSection::Browser))
    );
}

#[test]
fn every_section_key_is_a_catalog_identifier() {
    for section in [
        ConfigSection::Browser,
        ConfigSection::Gaming,
        ConfigSection::Programming,
        ConfigSection::System,
    ] {
        for key in section.keys() {
            assert!(
                win_stall_buddy::catalog::map_config_key_to_function_name(key).is_some(),
                "{}",
                key
            );
        }
    }
}
