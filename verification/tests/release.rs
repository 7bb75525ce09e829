use hublish::release::{render_wire_json, Release};
use serde::ser::{Serialize, SerializeStruct, Serializer};

fn sample() -> Release {
    Release::new()
        .name("tool v1.2.0".to_string())
        .tag_name("1.2.0".to_string())
        .body("First release.".to_string())
}

#[test]
fn new_descriptor_has_the_defaults() {
    let release = Release::new();
    assert_eq!(release.name, "");
    assert_eq!(release.tag_name, "");
    assert_eq!(release.body, "");
    assert_eq!(release.target_commitsh, "master");
    assert!(!release.draft);
    assert!(!release.prerelease);
    assert_eq!(Release::default(), Release::new());
}

#[test]
fn each_builder_step_sets_one_field() {
    let release = Release::new().name("n".to_string());
    assert_eq!(release, Release { name: "n".to_string(), ..Release::new() });
    let release = Release::new().tag_name("t".to_string());
    assert_eq!(release, Release { tag_name: "t".to_string(), ..Release::new() });
    let release = Release::new().body("b".to_string());
    assert_eq!(release, Release { body: "b".to_string(), ..Release::new() });
    let release = Release::new().target_commitsh("abc123".to_string());
    assert_eq!(release, Release { target_commitsh: "abc123".to_string(), ..Release::new() });
    let release = Release::new().draft(true);
    assert_eq!(release, Release { draft: true, ..Release::new() });
    let release = Release::new().prerelease(true);
    assert_eq!(release, Release { prerelease: true, ..Release::new() });
}

#[test]
fn later_builder_step_wins() {
    let release = Release::new().draft(true).name("a".to_string()).draft(false).name("b".to_string());
    assert_eq!(release, Release { name: "b".to_string(), ..Release::new() });
}

#[test]
fn build_takes_all_six_values() {
    let release = Release::build(
        "n".to_string(),
        "t".to_string(),
        "c".to_string(),
        "b".to_string(),
        true,
        false,
    );
    assert_eq!(
        release,
        Release {
            tag_name: "t".to_string(),
            target_commitsh: "c".to_string(),
            name: "n".to_string(),
            body: "b".to_string(),
            draft: true,
            prerelease: false,
        }
    );
}

#[test]
fn build_takes_empty_strings() {
    let release =
        Release::build(String::new(), String::new(), String::new(), String::new(), false, false);
    assert_eq!(release.target_commitsh, "");
    assert!(!release.is_valid());
}

#[test]
fn descriptor_is_valid_with_name_and_tag() {
    assert!(sample().is_valid());
    assert!(!Release::new().is_valid());
    assert!(!Release::new().name("n".to_string()).is_valid());
    assert!(!Release::new().tag_name("t".to_string()).is_valid());
    assert!(Release::new().name("n".to_string()).tag_name("t".to_string()).is_valid());
}

#[test]
fn wire_json_has_fixed_keys_in_fixed_order() {
    let text = sample().to_json().unwrap();
    assert_eq!(
        text,
        "{\n  \"tag_name\": \"1.2.0\",\n  \"target_commitsh\": \"master\",\n  \"name\": \"tool v1.2.0\",\n  \"body\": \"First release.\",\n  \"draft\": false,\n  \"prerelease\": false\n}"
    );
}

#[test]
fn wire_json_of_the_empty_descriptor() {
    let text = Release::new().to_json().unwrap();
    assert_eq!(
        text,
        "{\n  \"tag_name\": \"\",\n  \"target_commitsh\": \"master\",\n  \"name\": \"\",\n  \"body\": \"\",\n  \"draft\": false,\n  \"prerelease\": false\n}"
    );
}

#[test]
fn wire_json_escapes_its_strings() {
    let release = Release::new()
        .name("say \"hi\"".to_string())
        .tag_name("v\\1".to_string())
        .body("line one\nline two\ttabbed \u{1} é".to_string());
    let text = release.to_json().unwrap();
    assert_eq!(
        text,
        "{\n  \"tag_name\": \"v\\\\1\",\n  \"target_commitsh\": \"master\",\n  \"name\": \"say \\\"hi\\\"\",\n  \"body\": \"line one\\nline two\\ttabbed \\u0001 é\",\n  \"draft\": false,\n  \"prerelease\": false\n}"
    );
}

#[test]
fn each_escape_is_written_as_json_has_it() {
    let release = Release::new().name("\u{8}\u{c}\n\r\t\"\\\u{0}\u{b}\u{1f} \u{7f}/\u{e9}".to_string());
    let text = release.to_json().unwrap();
    let literal = "\"\\b\\f\\n\\r\\t\\\"\\\\\\u0000\\u000b\\u001f \u{7f}/\u{e9}\"";
    assert_eq!(
        text,
        format!(
            "{{\n  \"tag_name\": \"\",\n  \"target_commitsh\": \"master\",\n  \"name\": {},\n  \"body\": \"\",\n  \"draft\": false,\n  \"prerelease\": false\n}}",
            literal
        )
    );
}

#[test]
fn wire_json_is_the_same_every_time() {
    let release = sample().draft(true);
    let first = release.to_json().unwrap();
    let second = release.to_json().unwrap();
    assert_eq!(first, second);
    let rebuilt = Release::build(
        "tool v1.2.0".to_string(),
        "1.2.0".to_string(),
        "master".to_string(),
        "First release.".to_string(),
        true,
        false,
    );
    assert_eq!(rebuilt.to_json().unwrap(), first);
}

#[test]
fn keys_keep_their_order_whatever_the_values() {
    let keys = ["\"tag_name\": ", "\"target_commitsh\": ", "\"name\": ", "\"body\": ", "\"draft\": ", "\"prerelease\": "];
    for release in [sample(), Release::new(), sample().draft(true).prerelease(true)] {
        let text = release.to_json().unwrap();
        let mut from = 0;
        for key in keys {
            let at = text[from..].find(key).expect("key is present");
            from += at + key.len();
        }
    }
}

#[test]
fn flags_round_trip_through_the_wire_form() {
    let text = sample().draft(true).prerelease(false).to_json().unwrap();
    let parsed: serde_json::Value = serde_json::from_str(&text).unwrap();
    assert_eq!(parsed.get("draft").and_then(|v| v.as_bool()), Some(true));
    assert_eq!(parsed.get("prerelease").and_then(|v| v.as_bool()), Some(false));
    let text = sample().draft(false).prerelease(true).to_json().unwrap();
    let parsed: serde_json::Value = serde_json::from_str(&text).unwrap();
    assert_eq!(parsed.get("draft").and_then(|v| v.as_bool()), Some(false));
    assert_eq!(parsed.get("prerelease").and_then(|v| v.as_bool()), Some(true));
}

#[test]
fn texts_round_trip_through_the_wire_form() {
    let release = Release::new()
        .name("say \"hi\"".to_string())
        .tag_name("v\\1".to_string())
        .target_commitsh("abc/123".to_string())
        .body("line one\nline two \u{1f680}".to_string());
    let text = release.to_json().unwrap();
    let parsed: serde_json::Value = serde_json::from_str(&text).unwrap();
    let object = parsed.as_object().unwrap();
    assert_eq!(object.len(), 6);
    assert_eq!(parsed.get("name").and_then(|v| v.as_str()), Some("say \"hi\""));
    assert_eq!(parsed.get("tag_name").and_then(|v| v.as_str()), Some("v\\1"));
    assert_eq!(parsed.get("target_commitsh").and_then(|v| v.as_str()), Some("abc/123"));
    assert_eq!(parsed.get("body").and_then(|v| v.as_str()), Some("line one\nline two \u{1f680}"));
}

#[test]
fn render_frames_the_literals_it_is_given() {
    assert_eq!(
        render_wire_json("\"t\"", "\"c\"", "\"n\"", "\"b\"", true, false),
        "{\n  \"tag_name\": \"t\",\n  \"target_commitsh\": \"c\",\n  \"name\": \"n\",\n  \"body\": \"b\",\n  \"draft\": true,\n  \"prerelease\": false\n}"
    );
    assert_eq!(
        render_wire_json("1", "2", "3", "4", false, true),
        "{\n  \"tag_name\": 1,\n  \"target_commitsh\": 2,\n  \"name\": 3,\n  \"body\": 4,\n  \"draft\": false,\n  \"prerelease\": true\n}"
    );
}

/// The fields of a release as `serde` sees a struct of them.
struct Fields<'a>(&'a Release);

impl<'a> Serialize for Fields<'a> {
    fn serialize<S: Serializer>(&self, serializer: S) -> Result<S::Ok, S::Error> {
        let mut fields = serializer.serialize_struct("Release", 6)?;
        fields.serialize_field("tag_name", &self.0.tag_name)?;
        fields.serialize_field("target_commitsh", &self.0.target_commitsh)?;
        fields.serialize_field("name", &self.0.name)?;
        fields.serialize_field("body", &self.0.body)?;
        fields.serialize_field("draft", &self.0.draft)?;
        fields.serialize_field("prerelease", &self.0.prerelease)?;
        fields.end()
    }
}

#[test]
fn wire_json_is_what_serde_json_writes_for_the_fields() {
    let releases = [
        Release::new(),
        sample(),
        sample().draft(true).prerelease(true),
        Release::build(
            "quote \" backslash \\ slash /".to_string(),
            "tab\t newline\n return\r".to_string(),
            "control \u{0} \u{1f} del \u{7f}".to_string(),
            "unicode é \u{2028} \u{1f680}".to_string(),
            false,
            true,
        ),
    ];
    for release in releases {
        assert_eq!(
            release.to_json().unwrap(),
            serde_json::to_string_pretty(&Fields(&release)).unwrap()
        );
    }
}
