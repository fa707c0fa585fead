//! End-to-end tests of the library: decoding launcher definitions through the
//! real desktop-entry crate, normalization, JSON rendering (cross-checked
//! against serde_json byte for byte), dispatch and the cache read-through.

use eww_dock::driver::{dispatch, plan_list, Command, ListPlan};
use eww_dock::json::{entries_to_json, json_string};
use eww_dock::normalize::{normalize_resolved, produce_eww_entries};
use eww_dock::record::{App, ErrorAppConversion, EwwAppEntry};
use eww_dock::source::{collect_one, raw_app_from_fields};

fn terminal_content() -> String {
    "[Desktop Entry]\nName=Terminal\nIcon=utilities-terminal\nExec=myterm\n".to_string()
}

#[test]
fn json_empty_list() {
    let out = entries_to_json(&Vec::new());
    assert_eq!(out, "[]");
}

#[test]
fn json_single_entry() {
    let entries = vec![EwwAppEntry {
        name: "Terminal".to_string(),
        icon: "/usr/share/icons/utilities-terminal.png".to_string(),
        exec_cmd: "myterm".to_string(),
    }];
    let out = entries_to_json(&entries);
    assert_eq!(
        out,
        r#"[{"name":"Terminal","icon":"/usr/share/icons/utilities-terminal.png","exec":"myterm"}]"#
    );
}

#[test]
fn json_two_entries_in_order() {
    let entries = vec![
        EwwAppEntry {
            name: "A".to_string(),
            icon: "/a.png".to_string(),
            exec_cmd: "a".to_string(),
        },
        EwwAppEntry {
            name: "B".to_string(),
            icon: "/b.png".to_string(),
            exec_cmd: "b".to_string(),
        },
    ];
    let out = entries_to_json(&entries);
    assert_eq!(
        out,
        r#"[{"name":"A","icon":"/a.png","exec":"a"},{"name":"B","icon":"/b.png","exec":"b"}]"#
    );
}

#[test]
fn json_string_escapes_exactly() {
    assert_eq!(json_string(&"plain".to_string()), r#""plain""#);
    assert_eq!(json_string(&"a\"b".to_string()), r#""a\"b""#);
    assert_eq!(json_string(&"a\\b".to_string()), r#""a\\b""#);
    assert_eq!(json_string(&"a\nb\tc\rd".to_string()), r#""a\nb\tc\rd""#);
    assert_eq!(json_string(&"\u{08}\u{0C}".to_string()), r#""\b\f""#);
    assert_eq!(json_string(&"\u{01}\u{1f}".to_string()), r#""\u0001\u001f""#);
    assert_eq!(json_string(&"caf\u{e9} \u{2603}".to_string()), "\"caf\u{e9} \u{2603}\"");
}

#[test]
fn json_string_matches_serde() {
    let samples = [
        "",
        "Terminal",
        "with \"quotes\" and \\backslashes\\",
        "newline\nand\ttab and\rreturn",
        "controls \u{01}\u{02}\u{0b}\u{0e}\u{1f} end",
        "backspace\u{08}formfeed\u{0c}",
        "unicode caf\u{e9} \u{2603} \u{1f600}",
        "slash / stays",
    ];
    for s in samples {
        let ours = json_string(&s.to_string());
        let serde = serde_json::to_string(&serde_json::Value::String(s.to_string())).unwrap();
        assert_eq!(ours, serde, "mismatch for {:?}", s);
    }
}

#[test]
fn json_entries_match_serde() {
    let entries = vec![
        EwwAppEntry {
            name: "We\"ird \u{1f600}\napp".to_string(),
            icon: "/ic\\ons/x.png".to_string(),
            exec_cmd: "run --now\t\u{07}".to_string(),
        },
        EwwAppEntry {
            name: "Plain".to_string(),
            icon: "/p.png".to_string(),
            exec_cmd: "p".to_string(),
        },
    ];
    let mut serde = String::from("[");
    for (i, e) in entries.iter().enumerate() {
        if i > 0 {
            serde.push(',');
        }
        let name = serde_json::to_string(&serde_json::Value::String(e.name.clone())).unwrap();
        let icon = serde_json::to_string(&serde_json::Value::String(e.icon.clone())).unwrap();
        let exec = serde_json::to_string(&serde_json::Value::String(e.exec_cmd.clone())).unwrap();
        serde.push_str(&format!("{{\"name\":{},\"icon\":{},\"exec\":{}}}", name, icon, exec));
    }
    serde.push(']');
    assert_eq!(entries_to_json(&entries), serde);
}

#[test]
fn collect_terminal_entry() {
    let app = collect_one("term.desktop", &terminal_content()).unwrap();
    assert_eq!(app.name, Some("Terminal".to_string()));
    assert_eq!(app.icon, Some("utilities-terminal".to_string()));
    assert_eq!(app.exec_cmd, "myterm");
}

#[test]
fn listed_terminal_entry_renders_exactly() {
    let app = collect_one("term.desktop", &terminal_content()).unwrap();
    let entry = normalize_resolved(app, Some("/resolved/utilities-terminal.png".to_string()))
        .ok()
        .unwrap();
    let out = entries_to_json(&vec![entry]);
    assert_eq!(
        out,
        r#"[{"name":"Terminal","icon":"/resolved/utilities-terminal.png","exec":"myterm"}]"#
    );
}

#[test]
fn collect_skips_missing_exec() {
    let content = "[Desktop Entry]\nName=Terminal\nIcon=utilities-terminal\n";
    assert!(collect_one("term.desktop", content).is_none());
}

#[test]
fn collect_skips_undecodable() {
    assert!(collect_one("term.desktop", "Name=Terminal\nExec=myterm\n").is_none());
    assert!(collect_one("not-a-desktop-file.txt", &terminal_content()).is_none());
}

#[test]
fn collect_keeps_missing_icon_absent() {
    let content = "[Desktop Entry]\nName=Terminal\nExec=myterm\n";
    let app = collect_one("term.desktop", content).unwrap();
    assert_eq!(app.icon, None);
}

#[test]
fn raw_record_requires_exec() {
    assert!(raw_app_from_fields(Some("N".to_string()), Some("i".to_string()), None).is_none());
    let app = raw_app_from_fields(Some("N".to_string()), None, Some("run".to_string())).unwrap();
    assert_eq!(app.name, Some("N".to_string()));
    assert_eq!(app.icon, None);
    assert_eq!(app.exec_cmd, "run");
}

#[test]
fn normalize_populates_all_fields() {
    let app = App {
        name: Some("Terminal".to_string()),
        icon: Some("utilities-terminal".to_string()),
        exec_cmd: "myterm".to_string(),
    };
    let entry = normalize_resolved(app, Some("/icons/t.png".to_string())).ok().unwrap();
    assert_eq!(entry.name, "Terminal");
    assert_eq!(entry.icon, "/icons/t.png");
    assert!(!entry.icon.is_empty());
    assert_eq!(entry.exec_cmd, "myterm");
}

#[test]
fn normalize_missing_name_is_dropped() {
    let app = App { name: None, icon: None, exec_cmd: "run".to_string() };
    let r = normalize_resolved(app, Some("/icons/t.png".to_string()));
    assert!(matches!(r, Err(ErrorAppConversion::ErrMissingAppName)));

    let app2 = App { name: None, icon: Some("x".to_string()), exec_cmd: "run".to_string() };
    assert!(EwwAppEntry::try_from(app2).is_err());
}

#[test]
fn normalize_unresolved_icon_is_dropped() {
    let named = App { name: Some("N".to_string()), icon: None, exec_cmd: "run".to_string() };
    let r = normalize_resolved(named, None);
    assert!(matches!(r, Err(ErrorAppConversion::ErrDefaultIconNotFound)));

    let nameless = App { name: None, icon: None, exec_cmd: "run".to_string() };
    let r2 = normalize_resolved(nameless, None);
    assert!(matches!(r2, Err(ErrorAppConversion::ErrDefaultIconNotFound)));
}

#[test]
fn produce_drops_nameless_records() {
    let apps = vec![
        App { name: None, icon: None, exec_cmd: "a".to_string() },
        App { name: None, icon: Some("x".to_string()), exec_cmd: "b".to_string() },
    ];
    assert!(produce_eww_entries(apps).is_empty());
}

#[test]
fn produce_empty_input() {
    assert!(produce_eww_entries(Vec::new()).is_empty());
}

#[test]
fn dispatch_list_forms_agree() {
    assert_eq!(dispatch(&None), Command::ListApps);
    assert_eq!(dispatch(&Some("-l".to_string())), Command::ListApps);
    assert_eq!(dispatch(&None), dispatch(&Some("-l".to_string())));
    assert_eq!(dispatch(&Some("-L".to_string())), Command::Unimplemented);
    assert_eq!(dispatch(&Some("list".to_string())), Command::Unimplemented);
    assert_eq!(dispatch(&Some("".to_string())), Command::Unimplemented);
}

#[test]
fn plan_list_prints_cache_verbatim() {
    let cached = "[{\"name\":\"A\",\"icon\":\"/a\",\"exec\":\"a\"}]".to_string();
    match plan_list(Some(cached.clone())) {
        ListPlan::PrintCached(t) => assert_eq!(t, cached),
        ListPlan::Recompute => panic!("intact cache must be printed verbatim"),
    }
    match plan_list(None) {
        ListPlan::PrintCached(_) => panic!("missing cache must force recomputation"),
        ListPlan::Recompute => {}
    }
}

#[test]
fn list_twice_with_cache_is_idempotent() {
    let entries = vec![EwwAppEntry {
        name: "A".to_string(),
        icon: "/a.png".to_string(),
        exec_cmd: "a".to_string(),
    }];
    let fresh = entries_to_json(&entries);
    let first = match plan_list(Some(fresh.clone())) {
        ListPlan::PrintCached(t) => t,
        ListPlan::Recompute => panic!("cache was present"),
    };
    let second = match plan_list(Some(first.clone())) {
        ListPlan::PrintCached(t) => t,
        ListPlan::Recompute => panic!("cache was present"),
    };
    assert_eq!(first, second);
    assert_eq!(second, fresh);
}
