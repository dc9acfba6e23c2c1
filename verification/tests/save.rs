use blindtest::clip::Offset;
use blindtest::save::{load, store, ClipSave, Error, SaveFile, Settings};

fn sample() -> SaveFile {
    SaveFile {
        clips: vec![
            ClipSave {
                title: "First \"hit\"".to_string(),
                image_path: "/img/a b.png".to_string(),
                music_path: "C:\\music\\a.mp3".to_string(),
                offset: Offset { secs: 12, nanos: 500 },
            },
            ClipSave {
                title: "Été\n".to_string(),
                image_path: "/img/é.jpg".to_string(),
                music_path: "/music/é.ogg".to_string(),
                offset: Offset { secs: 0, nanos: 0 },
            },
        ],
        timeline: vec![Some("Été\n".to_string()), None, Some("First \"hit\"".to_string())],
        settings: Settings { duration: 30, countdown: Some("/media/count.mp4".to_string()) },
    }
}

#[test]
fn document_of_a_project() {
    let text = store(&sample()).unwrap();
    assert_eq!(
        text,
        "{\"clips\":[{\"title\":\"First \\\"hit\\\"\",\"image_path\":\"/img/a b.png\",\"music_path\":\"C:\\\\music\\\\a.mp3\",\"offset\":{\"secs\":12,\"nanos\":500}},{\"title\":\"Été\\n\",\"image_path\":\"/img/é.jpg\",\"music_path\":\"/music/é.ogg\",\"offset\":{\"secs\":0,\"nanos\":0}}],\"timeline\":[\"Été\\n\",null,\"First \\\"hit\\\"\"],\"settings\":{\"duration\":30,\"countdown\":\"/media/count.mp4\"}}"
    );
}

#[test]
fn document_of_an_empty_project() {
    let save = SaveFile {
        clips: Vec::new(),
        timeline: Vec::new(),
        settings: Settings { duration: 0, countdown: None },
    };
    assert_eq!(
        store(&save).unwrap(),
        "{\"clips\":[],\"timeline\":[],\"settings\":{\"duration\":0,\"countdown\":null}}"
    );
    assert_eq!(load(&store(&save).unwrap()), Ok(save));
}

#[test]
fn document_is_valid_json_with_the_same_values() {
    let text = sample().store().unwrap();
    let value: serde_json::Value = serde_json::from_str(&text).unwrap();
    assert_eq!(value.pointer("/clips/0/title").unwrap().as_str(), Some("First \"hit\""));
    assert_eq!(value.pointer("/clips/1/title").unwrap().as_str(), Some("Été\n"));
    assert_eq!(value.pointer("/clips/0/offset/nanos").unwrap().as_u64(), Some(500));
    assert_eq!(value.pointer("/settings/duration").unwrap().as_u64(), Some(30));
    assert!(value.pointer("/timeline/1").unwrap().is_null());
}

#[test]
fn data_gives_the_length_in_bytes() {
    let (len, text) = sample().data().unwrap();
    assert_eq!(len, text.len());
    assert!(len > text.chars().count());
}

#[test]
fn stored_project_loads_back() {
    let save = sample();
    assert_eq!(load(&store(&save).unwrap()), Ok(save.clone()));
    assert_eq!(SaveFile::load(&save.store().unwrap()), Ok(save));
}

#[test]
fn load_reads_any_layout() {
    let text = r#"
        {
            "version": 3,
            "settings": { "countdown": null, "duration": 45, "theme": "dark" },
            "timeline": [ null, "b" ],
            "clips": [
                { "music_path": "m", "title": "b", "image_path": "i" },
                { "title": "c", "image_path": "i2", "music_path": "m2",
                  "offset": { "nanos": 1500000000, "secs": 2 } }
            ]
        }
    "#;
    let save = load(text).unwrap();
    assert_eq!(save.settings, Settings { duration: 45, countdown: None });
    assert_eq!(save.timeline, vec![None, Some("b".to_string())]);
    assert_eq!(save.clips.len(), 2);
    assert_eq!(save.clips[0].title, "b");
    assert_eq!(save.clips[0].offset, Offset { secs: 0, nanos: 0 });
    assert_eq!(save.clips[1].offset, Offset { secs: 3, nanos: 500_000_000 });
}

#[test]
fn load_takes_a_missing_countdown_for_none() {
    let save = load(r#"{"clips":[],"timeline":[],"settings":{"duration":7}}"#).unwrap();
    assert_eq!(save.settings, Settings { duration: 7, countdown: None });
}

#[test]
fn load_rejects_what_is_not_json() {
    for text in ["", "{", "{\"clips\":[]", "[1,2", "{} trailing", "nul"] {
        assert!(matches!(load(text), Err(Error::Serde(_))), "{:?}", text);
    }
}

#[test]
fn load_rejects_json_that_holds_no_project() {
    for text in [
        "null",
        "{}",
        "[]",
        r#"{"clips":[],"timeline":[]}"#,
        r#"{"clips":[],"settings":{"duration":1}}"#,
        r#"{"timeline":[],"settings":{"duration":1}}"#,
        r#"{"clips":{},"timeline":[],"settings":{"duration":1}}"#,
        r#"{"clips":[],"timeline":[],"settings":{"duration":"1"}}"#,
        r#"{"clips":[],"timeline":[],"settings":{"duration":-1}}"#,
        r#"{"clips":[],"timeline":[],"settings":{"duration":1.5}}"#,
        r#"{"clips":[],"timeline":[],"settings":{"duration":4294967296}}"#,
        r#"{"clips":[],"timeline":[],"settings":{"duration":1,"countdown":3}}"#,
        r#"{"clips":[],"timeline":[3],"settings":{"duration":1}}"#,
        r#"{"clips":[{"title":"a","image_path":"i"}],"timeline":[],"settings":{"duration":1}}"#,
        r#"{"clips":[{"title":1,"image_path":"i","music_path":"m"}],"timeline":[],"settings":{"duration":1}}"#,
        r#"{"clips":[{"title":"a","image_path":"i","music_path":"m","offset":null}],"timeline":[],"settings":{"duration":1}}"#,
        r#"{"clips":[{"title":"a","image_path":"i","music_path":"m","offset":{"secs":1}}],"timeline":[],"settings":{"duration":1}}"#,
        r#"{"clips":[{"title":"a","image_path":"i","music_path":"m","offset":{"secs":1,"nanos":4294967296}}],"timeline":[],"settings":{"duration":1}}"#,
        r#"{"clips":[{"title":"a","image_path":"i","music_path":"m","offset":{"secs":18446744073709551615,"nanos":1000000000}}],"timeline":[],"settings":{"duration":1}}"#,
    ] {
        assert!(matches!(load(text), Err(Error::Serde(_))), "{}", text);
    }
}

#[test]
fn load_accepts_the_largest_values() {
    let text = r#"{"clips":[{"title":"a","image_path":"i","music_path":"m","offset":{"secs":18446744073709551615,"nanos":999999999}}],"timeline":[],"settings":{"duration":4294967295}}"#;
    let save = load(text).unwrap();
    assert_eq!(save.clips[0].offset, Offset { secs: u64::MAX, nanos: 999_999_999 });
    assert_eq!(save.settings.duration, u32::MAX);
}

#[test]
fn from_json_reads_a_parsed_document() {
    let mut clip = serde_json::Map::new();
    clip.insert("title".to_string(), serde_json::Value::from("t"));
    clip.insert("image_path".to_string(), serde_json::Value::from("i"));
    clip.insert("music_path".to_string(), serde_json::Value::from("m"));
    let mut settings = serde_json::Map::new();
    settings.insert("duration".to_string(), serde_json::Value::from(9u32));
    let mut root = serde_json::Map::new();
    root.insert("clips".to_string(), serde_json::Value::Array(vec![serde_json::Value::Object(clip)]));
    root.insert("timeline".to_string(), serde_json::Value::Array(vec![serde_json::Value::Null]));
    root.insert("settings".to_string(), serde_json::Value::Object(settings));
    let save = SaveFile::from_json(&serde_json::Value::Object(root)).unwrap();
    assert_eq!(save.clips[0].music_path, "m");
    assert_eq!(save.timeline, vec![None]);
    assert_eq!(save.settings.duration, 9);
    assert!(SaveFile::from_json(&serde_json::Value::Null).is_err());
}

#[test]
fn error_sentences() {
    assert_eq!(Error::Serde("x".to_string()).message(), "could not read the save file");
    assert_eq!(Error::Io("x".to_string()).message(), "an I/O error occured");
}
