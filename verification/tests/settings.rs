use myco_core::settings_store::{
    load, path_in, save, trimmed, SaveStep, SettingChange, Settings, SettingsRead,
};

/// A disk with at most a settings file on it.
struct Disk {
    file: Option<String>,
}

fn text_or_null(text: &Option<String>) -> serde_json::Value {
    match text {
        Some(text) => serde_json::Value::from(text.as_str()),
        None => serde_json::Value::Null,
    }
}

fn read_text(value: &serde_json::Value, key: &str) -> Option<String> {
    value.get(key).and_then(|v| v.as_str()).map(|s| s.to_string())
}

impl Disk {
    fn load(&self) -> Settings {
        load(match &self.file {
            None => SettingsRead::Unreadable,
            Some(raw) => match serde_json::from_str::<serde_json::Value>(raw) {
                Err(_) => SettingsRead::Corrupt,
                Ok(value) => SettingsRead::Parsed(Settings {
                    custom_relay_url: read_text(&value, "customRelayUrl"),
                    custom_blossom_url: read_text(&value, "customBlossomUrl"),
                    aware_data_paths: value
                        .get("awareDataPaths")
                        .and_then(|v| v.as_u64())
                        .map(|n| n as u8),
                }),
            },
        })
    }

    fn save(&mut self, settings: &Settings) {
        let mut map = serde_json::Map::new();
        map.insert("customRelayUrl".to_string(), text_or_null(&settings.custom_relay_url));
        map.insert("customBlossomUrl".to_string(), text_or_null(&settings.custom_blossom_url));
        map.insert(
            "awareDataPaths".to_string(),
            match settings.aware_data_paths {
                Some(n) => serde_json::Value::from(n),
                None => serde_json::Value::Null,
            },
        );
        let json = serde_json::to_vec_pretty(&serde_json::Value::Object(map)).unwrap();
        let mut temporary: Option<(String, Vec<u8>)> = None;
        for step in save("/data", json) {
            match step {
                SaveStep::Write { path, contents } => temporary = Some((path, contents)),
                SaveStep::Rename { from, to } => {
                    let (path, contents) = temporary.take().unwrap();
                    assert_eq!(path, from);
                    assert_eq!(to, path_in("/data"));
                    self.file = Some(String::from_utf8(contents).unwrap());
                }
            }
        }
        assert!(temporary.is_none());
    }
}

#[test]
fn a_missing_file_is_defaults_not_an_error() {
    let disk = Disk { file: None };
    assert!(disk.load().relay_url().is_none());
}

/// A settings file we cannot parse must not stop the app from starting.
#[test]
fn a_corrupt_file_falls_back_to_defaults() {
    let disk = Disk { file: Some("{not json".to_string()) };
    assert!(disk.load().relay_url().is_none());
    assert!(disk.load().blossom_url().is_none());
    assert!(disk.load().aware_data_paths.is_none());
}

#[test]
fn a_url_round_trips_and_empty_clears_it() {
    let mut disk = Disk { file: None };
    disk.save(&Settings {
        custom_relay_url: Some("  ws://10.0.0.5:4869  ".to_string()),
        ..Default::default()
    });
    assert_eq!(
        disk.load().relay_url().as_deref(),
        Some("ws://10.0.0.5:4869"),
        "a pasted URL is trimmed"
    );

    // The UI clears by writing an empty string rather than deleting a key.
    disk.save(&Settings {
        custom_relay_url: Some(String::new()),
        ..Default::default()
    });
    assert!(disk.load().relay_url().is_none(), "empty means built-in");
}

#[test]
fn saved_settings_are_loaded_and_the_last_save_counts() {
    let mut disk = Disk { file: Some("{not json".to_string()) };
    disk.save(&Settings {
        custom_relay_url: Some(" ws://a ".to_string()),
        custom_blossom_url: Some(String::new()),
        aware_data_paths: Some(255),
    });
    let first = disk.load();
    assert_eq!(first.custom_relay_url.as_deref(), Some(" ws://a "));
    assert_eq!(first.custom_blossom_url.as_deref(), Some(""));
    assert_eq!(first.aware_data_paths, Some(255));
    disk.save(&Settings { aware_data_paths: Some(0), ..Default::default() });
    let last = disk.load();
    assert_eq!(last.custom_relay_url, None);
    assert_eq!(last.custom_blossom_url, None);
    assert_eq!(last.aware_data_paths, Some(0));
}

#[test]
fn settings_that_were_read_are_taken_as_they_are() {
    let read = load(SettingsRead::Parsed(Settings {
        custom_relay_url: Some(" a ".to_string()),
        custom_blossom_url: None,
        aware_data_paths: Some(0),
    }));
    assert_eq!(read.custom_relay_url.as_deref(), Some(" a "));
    assert_eq!(read.custom_blossom_url, None);
    assert_eq!(read.aware_data_paths, Some(0));
}

#[test]
fn the_two_urls_are_kept_apart() {
    let settings = Settings {
        custom_relay_url: Some("ws://relay".to_string()),
        custom_blossom_url: Some("\thttp://blobs\r\n".to_string()),
        aware_data_paths: Some(2),
    };
    assert_eq!(settings.relay_url().as_deref(), Some("ws://relay"));
    assert_eq!(settings.blossom_url().as_deref(), Some("http://blobs"));
    let empty = Settings::default();
    assert!(empty.relay_url().is_none());
    assert!(empty.blossom_url().is_none());
}

#[test]
fn trimming_keeps_the_inside_and_drops_blanks() {
    assert_eq!(trimmed(Some(" a b ")).as_deref(), Some("a b"));
    assert_eq!(trimmed(Some("\u{3000}x\u{a0}")).as_deref(), Some("x"));
    assert_eq!(trimmed(Some("")), None);
    assert_eq!(trimmed(Some(" \t\n\u{2003}")), None);
    assert_eq!(trimmed(None), None);
    let once = trimmed(Some("  ws://x ")).unwrap();
    assert_eq!(trimmed(Some(&once)), Some(once.clone()));
}

/// The white space that is trimmed is the Unicode property White_Space.
#[test]
fn white_space_is_the_unicode_property() {
    let spaces = [
        0x9u32, 0xa, 0xb, 0xc, 0xd, 0x20, 0x85, 0xa0, 0x1680, 0x2000, 0x2001, 0x2002, 0x2003,
        0x2004, 0x2005, 0x2006, 0x2007, 0x2008, 0x2009, 0x200a, 0x2028, 0x2029, 0x202f, 0x205f,
        0x3000,
    ];
    for code in 0..=0x10ffffu32 {
        let Some(c) = char::from_u32(code) else {
            continue;
        };
        let text = format!("{c}");
        let expected = if spaces.contains(&code) { None } else { Some(text.clone()) };
        assert_eq!(trimmed(Some(&text)), expected, "U+{code:04X}");
    }
}

#[test]
fn the_settings_file_is_in_the_data_dir() {
    assert_eq!(path_in("/data/app"), "/data/app/settings.json");
    assert_eq!(path_in("/data/app/"), "/data/app/settings.json");
    assert_eq!(path_in(""), "settings.json");
    for dir in ["/data/app", "/data/app/", "", "rel", "/", "\u{e9}"] {
        assert_eq!(
            path_in(dir),
            std::path::Path::new(dir).join("settings.json").to_str().unwrap()
        );
    }
}

#[test]
fn a_save_writes_aside_and_then_replaces() {
    let steps = save("/data/app", vec![1, 2, 3]);
    assert_eq!(steps.len(), 2);
    match (&steps[0], &steps[1]) {
        (SaveStep::Write { path, contents }, SaveStep::Rename { from, to }) => {
            assert_eq!(*contents, vec![1, 2, 3]);
            assert_eq!(path, "/data/app/settings.json.tmp");
            assert_eq!(from, path);
            assert_eq!(to, "/data/app/settings.json");
            let tmp = std::path::Path::new(to).with_extension("json.tmp");
            assert_eq!(tmp.to_str().unwrap(), path);
        }
        _ => panic!("a save writes first and renames last"),
    }
}

#[test]
fn changing_one_setting_keeps_the_others() {
    let start = Settings {
        custom_relay_url: Some("ws://a".to_string()),
        custom_blossom_url: Some("http://b".to_string()),
        aware_data_paths: Some(3),
    };
    let relay = SettingChange::Relay { url: "ws://c".to_string() }.apply(start);
    assert_eq!(relay.custom_relay_url.as_deref(), Some("ws://c"));
    assert_eq!(relay.custom_blossom_url.as_deref(), Some("http://b"));
    assert_eq!(relay.aware_data_paths, Some(3));

    let blobs = SettingChange::Blossom { url: String::new() }.apply(relay);
    assert_eq!(blobs.custom_relay_url.as_deref(), Some("ws://c"));
    assert_eq!(blobs.custom_blossom_url.as_deref(), Some(""));
    assert!(blobs.blossom_url().is_none());
    assert_eq!(blobs.aware_data_paths, Some(3));

    let paths = SettingChange::AwareDataPaths { count: 8 }.apply(blobs);
    assert_eq!(paths.custom_relay_url.as_deref(), Some("ws://c"));
    assert_eq!(paths.custom_blossom_url.as_deref(), Some(""));
    assert_eq!(paths.aware_data_paths, Some(8));
}
