use manga_reader::config::{Config, ConfigFile, LoadFollowUp, SaveAction, Settings};
use manga_reader::string_map::StringMap;
use manga_reader::string_set::StringSet;

#[test]
fn une_config_illisible_nest_jamais_reecrite() {
    let mut config = Config::default();
    config.read_only = true;
    // Saving succeeds without writing anything: a file that could not be
    // read is never touched.
    assert!(config.save() == SaveAction::Skip);
}

#[test]
fn default_settings_match_the_documented_values() {
    let settings = Settings::default();
    assert!(!settings.prefer_external);
    assert!(settings.auto_mark_read);
    assert_eq!(settings.default_provider, "manual");
    assert!(settings.enable_image_rendering);
    assert_eq!(settings.reader_options.len(), 1);
    assert_eq!(settings.reader_options.get("mode").map(|s| s.as_str()), Some("webtoon"));
    assert_eq!(settings.extra.len(), 0);
}

#[test]
fn default_config_is_empty_and_writable() {
    let config = Config::default();
    assert!(config.last_manga_dir.is_none());
    assert_eq!(config.read_chapters.len(), 0);
    assert!(config.open_command.is_none());
    assert!(config.last_download_url.is_none());
    assert!(config.last_downloaded_chapters.is_empty());
    assert_eq!(config.extra.len(), 0);
    assert!(!config.read_only);
    assert!(config.save() == SaveAction::Write);
}

#[test]
fn marking_read_then_unread_restores_the_chapters() {
    let mut config = Config::default();
    assert!(config.mark_chapter_as_read("/a/Chapitre_001.cbz") == SaveAction::Write);
    assert!(config.read_chapters.contains("/a/Chapitre_001.cbz"));
    assert_eq!(config.read_chapters.len(), 1);
    assert!(config.mark_chapter_as_read("/a/Chapitre_001.cbz") == SaveAction::Write);
    assert_eq!(config.read_chapters.len(), 1);
    assert!(config.mark_chapter_as_read("/a/Chapitre_002.cbz") == SaveAction::Write);
    assert_eq!(config.read_chapters.len(), 2);
    assert!(config.mark_chapter_as_unread("/a/Chapitre_002.cbz") == SaveAction::Write);
    assert_eq!(config.read_chapters.len(), 1);
    assert!(!config.read_chapters.contains("/a/Chapitre_002.cbz"));
    assert!(config.read_chapters.contains("/a/Chapitre_001.cbz"));
}

#[test]
fn unmarking_an_unread_chapter_changes_nothing() {
    let mut config = Config::default();
    config.mark_chapter_as_read("/a/1.cbz");
    assert!(config.mark_chapter_as_unread("/a/2.cbz") == SaveAction::Write);
    assert_eq!(config.read_chapters.len(), 1);
    assert!(config.read_chapters.contains("/a/1.cbz"));
}

#[test]
fn marking_a_read_only_config_never_asks_to_write() {
    let (mut config, follow_up) = Config::load(ConfigFile::Malformed);
    assert!(follow_up == LoadFollowUp::PreserveMalformed);
    assert!(config.read_only);
    assert!(config.mark_chapter_as_read("/a/1.cbz") == SaveAction::Skip);
    assert!(config.mark_chapter_as_unread("/a/1.cbz") == SaveAction::Skip);
    assert!(config.save() == SaveAction::Skip);
    assert!(config.read_only);
}

#[test]
fn a_missing_file_gives_defaults_to_write() {
    let (config, follow_up) = Config::load(ConfigFile::Missing);
    assert!(follow_up == LoadFollowUp::WriteDefaults);
    assert!(!config.read_only);
    assert_eq!(config.read_chapters.len(), 0);
    assert!(config.settings.enable_image_rendering);
    assert!(config.save() == SaveAction::Write);
}

#[test]
fn a_parsed_file_is_kept_and_writable() {
    let mut parsed = Config::default();
    parsed.mark_chapter_as_read("/a/Chapitre_001.cbz");
    parsed.mark_chapter_as_read("/a/Chapitre_002.cbz");
    parsed.open_command = Some("zathura".to_string());
    parsed.read_only = true;
    let (config, follow_up) = Config::load(ConfigFile::Parsed(parsed));
    assert!(follow_up == LoadFollowUp::Nothing);
    assert!(!config.read_only);
    assert_eq!(config.read_chapters.len(), 2);
    assert_eq!(config.open_command.as_deref(), Some("zathura"));
}

#[test]
fn a_string_set_lists_and_rebuilds_its_members() {
    let mut set = StringSet::new();
    assert!(set.insert("b".to_string()));
    assert!(set.insert("a".to_string()));
    assert!(!set.insert("b".to_string()));
    assert_eq!(set.to_vec(), vec!["b".to_string(), "a".to_string()]);
    let rebuilt = StringSet::from_vec(vec!["x".to_string(), "x".to_string(), "y".to_string()]);
    assert_eq!(rebuilt.len(), 2);
    assert!(rebuilt.contains("x") && rebuilt.contains("y"));
    let again = StringSet::from_vec(set.to_vec());
    assert_eq!(again.to_vec(), set.to_vec());
    assert!(set.remove("b"));
    assert!(!set.remove("b"));
    assert_eq!(set.to_vec(), vec!["a".to_string()]);
    let copy = set.clone();
    assert_eq!(copy.to_vec(), vec!["a".to_string()]);
}

#[test]
fn unknown_keys_survive_taking_a_map_apart_and_back() {
    let keys = vec![
        "hyprland_integration".to_string(),
        "wayland_native".to_string(),
        "display_scale".to_string(),
    ];
    let values = vec![
        serde_json::Value::Bool(false),
        serde_json::Value::Bool(false),
        serde_json::Value::from(1.0),
    ];
    let map = StringMap::from_parts(keys, values);
    assert_eq!(map.len(), 3);
    let (keys, values) = map.into_parts();
    assert_eq!(keys, vec!["hyprland_integration", "wayland_native", "display_scale"]);
    assert_eq!(values[0], serde_json::Value::Bool(false));
    assert_eq!(values[2], serde_json::Value::from(1.0));
}

#[test]
fn a_string_map_replaces_and_keeps_the_last_value() {
    let mut map: StringMap<String> = StringMap::new();
    assert_eq!(map.insert("mode".to_string(), "webtoon".to_string()), None);
    assert_eq!(map.insert("zoom".to_string(), "2".to_string()), None);
    assert_eq!(map.insert("mode".to_string(), "pages".to_string()), Some("webtoon".to_string()));
    assert_eq!(map.len(), 2);
    assert_eq!(map.get("mode").map(|s| s.as_str()), Some("pages"));
    assert_eq!(map.get("missing"), None);
    let rebuilt = StringMap::from_parts(
        vec!["a".to_string(), "b".to_string(), "a".to_string()],
        vec!["1".to_string(), "2".to_string(), "3".to_string()],
    );
    assert_eq!(rebuilt.len(), 2);
    assert_eq!(rebuilt.get("a").map(|s| s.as_str()), Some("3"));
    let copy = map.clone();
    let (keys, values) = copy.into_parts();
    assert_eq!(keys, vec!["mode".to_string(), "zoom".to_string()]);
    assert_eq!(values, vec!["pages".to_string(), "2".to_string()]);
}

#[test]
fn unmarking_then_marking_restores_and_repeats_change_nothing() {
    let mut config = Config::default();
    config.mark_chapter_as_read("/a/1.cbz");
    config.mark_chapter_as_read("/a/2.cbz");
    config.mark_chapter_as_unread("/a/1.cbz");
    config.mark_chapter_as_unread("/a/1.cbz");
    assert_eq!(config.read_chapters.len(), 1);
    config.mark_chapter_as_read("/a/1.cbz");
    assert_eq!(config.read_chapters.len(), 2);
    assert!(config.read_chapters.contains("/a/1.cbz"));
    assert!(config.read_chapters.contains("/a/2.cbz"));
}
