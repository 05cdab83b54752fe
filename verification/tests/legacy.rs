//! Keys that left the state file.
use tensaku::legacy::{
    clear_legacy_preferences, clear_step, is_legacy_preference_key, ClearError, ClearStep, StateText,
};
use toml_edit::DocumentMut;

const LEGACY_PREFERENCE_KEYS: [&str; 11] = [
    "annotation-size-factor",
    "keybinds",
    "invert-scrolling",
    "select-any-annotation",
    "close-on-esc",
    "close-on-copy",
    "close-on-save",
    "hide-default-palette",
    "sticky-session-defaults",
    "park-pointer-during-manual-scroll-capture",
    "keep-window-size-on-crop",
];

#[test]
fn clearing_legacy_preferences_preserves_incidental_state_and_scroll_chord() {
    let content = "# state heading\n\
         annotation-size-factor = 1.5 # migrated\n\
         invert-scrolling = false\n\
         select-any-annotation = true\n\
         close-on-esc = false\n\
         close-on-copy = true\n\
         close-on-save = true\n\
         hide-default-palette = false\n\
         sticky-session-defaults = true\n\
         park-pointer-during-manual-scroll-capture = false\n\
         keep-window-size-on-crop = true # inverse legacy key\n\
         scroll-capture-shortcut = \"ALT+PRINT\" # keep chord\n\
         spotlight-darkness = 0.7\n\
         future-incidental-setting = \"preserve me\" # unknown key\n\
         \n\
         [keybinds]\n\
         pointer = \"p\"\n\
         \n\
         [future-plugin-state]\n\
         enabled = true # unknown table comment\n";

    let output = clear_legacy_preferences(content).expect("legacy cleanup should succeed");

    assert!(output.contains("# state heading"));
    assert!(output.contains("scroll-capture-shortcut = \"ALT+PRINT\" # keep chord"));
    assert!(output.contains("spotlight-darkness = 0.7"));
    assert!(output.contains("future-incidental-setting = \"preserve me\" # unknown key"));
    assert!(output.contains("[future-plugin-state]"));
    assert!(output.contains("enabled = true # unknown table comment"));
    let document = output
        .parse::<DocumentMut>()
        .expect("cleaned state should remain valid TOML");
    for key in LEGACY_PREFERENCE_KEYS {
        assert!(document.get(key).is_none(), "legacy key remained: {key}");
    }
    assert_eq!(
        document["scroll-capture-shortcut"].as_str(),
        Some("ALT+PRINT")
    );
    assert_eq!(
        document["future-incidental-setting"].as_str(),
        Some("preserve me")
    );
    assert_eq!(
        document["future-plugin-state"]["enabled"].as_bool(),
        Some(true)
    );
}

#[test]
fn keys_that_left_are_known() {
    for key in LEGACY_PREFERENCE_KEYS {
        assert!(is_legacy_preference_key(&key.to_string()));
    }
    assert!(!is_legacy_preference_key(&"last-color".to_string()));
}

#[test]
fn a_comment_moves_to_the_next_key() {
    let out = clear_legacy_preferences("# one\nclose-on-esc = true\nlast-color = \"#ff0000\"\n").unwrap();
    assert_eq!(out, "# one\nlast-color = \"#ff0000\"\n");
}

#[test]
fn a_comment_moves_to_the_next_table() {
    let out = clear_legacy_preferences("# one\nclose-on-esc = true\n[other]\na = 1\n").unwrap();
    assert!(out.contains("# one"));
    assert!(out.contains("[other]"));
    assert!(!out.contains("close-on-esc"));
}

#[test]
fn a_comment_at_the_end_stays() {
    let out = clear_legacy_preferences("a = 1\n# one\nclose-on-esc = true\n# two\n").unwrap();
    assert!(out.contains("# one"));
    assert!(out.contains("# two"));
    assert!(!out.contains("close-on-esc"));
}

#[test]
fn other_files_stay_as_they_are() {
    let text = "# heading\na = 1 # x\n\n[t]\nb = [1,  2]\n";
    assert_eq!(clear_legacy_preferences(text).unwrap(), text);
}

#[test]
fn broken_text_is_refused() {
    assert!(matches!(
        clear_legacy_preferences("close-on-esc = = true\n"),
        Err(ClearError::InvalidData(_))
    ));
}

fn read(text: &str) -> toml::Table {
    text.parse::<toml::Table>().expect("the text should be TOML")
}

#[test]
fn what_is_left_reads_as_before() {
    let texts = [
        "# head\r\nclose-on-esc = true # c\r\na.b = 1\r\nc = \"\"\"x\r\ny\"\"\"\r\na.d = 2\r\n\
         [keybinds]\r\nx = 1\r\n\r\n# t\r\n[x.y]\r\nz = 3\r\n[x]\r\nw = 4\r\n[[q]]\r\nn = 1\r\n# end",
        "# one\nkeybinds.pointer = \"p\"\n  # two\na.b.c = 1 # three\n[a.d]\ne = { f = 1, g.h = 2 }\n",
        "[x.y]\nz = 1\n# one\n[keybinds]\nb = 1\n# two\n[[x.q]]\nn = [ 1, # three\n 2 ]\n[x]\nw.v = 4\n",
        "'close-on-copy' = true\n\"quoted key\" = 'v'\n\n[[keybinds]]\na = 1\n[ spaced . 'key' ]\nb = 1979-05-27\n",
        "\u{feff}# only comments\nclose-on-save = true\n# the end",
    ];
    for text in texts {
        let mut expected = read(text);
        let keys: Vec<String> = expected.keys().cloned().collect();
        for key in keys {
            if is_legacy_preference_key(&key) {
                expected.remove(&key);
            }
        }
        let once = clear_legacy_preferences(text).unwrap();
        assert_eq!(read(&once), expected);
        let twice = clear_legacy_preferences(&once).unwrap();
        assert_eq!(read(&twice), expected);
    }
}

#[test]
fn a_missing_file_is_left_missing() {
    assert!(matches!(clear_step(&StateText::Missing), ClearStep::Done));
    assert!(matches!(clear_step(&StateText::Failed), ClearStep::Fail));
    let broken = StateText::Text("a = ".to_string());
    assert!(matches!(
        clear_step(&broken),
        ClearStep::Refuse(ClearError::InvalidData(_))
    ));
    let text = StateText::Text("a = 1\nclose-on-esc = true\n".to_string());
    assert!(matches!(clear_step(&text), ClearStep::Write(s) if s == "a = 1\n"));
}
