use lineage_core::shell::skill::{
    install_targets, installed_version, is_valid_part, resolve, scan_report, scan_targets, version_path, SkillFile,
    SkillInstall, SkillLocation, SkillScan, VERSION_FILE,
};

#[test]
fn resolve_joins_segments_under_the_base() {
    let path = resolve("/home/u", &vec![".codex".into(), "skills".into()]).unwrap();
    assert_eq!(path, "/home/u/.codex/skills");
}

#[test]
fn resolve_rejects_escaping_segments() {
    for segment in ["..", ".", "", "a/b", "a\\b", "C:"] {
        let result = resolve("/home/u", &vec![segment.to_string()]);
        assert!(result.is_err(), "{segment} should be rejected");
    }
}

#[test]
fn resolve_rejects_an_empty_path() {
    assert!(resolve("/home/u", &Vec::new()).is_err());
}

#[test]
fn a_refused_part_is_named() {
    assert_eq!(
        resolve("/home/u", &vec!["ok".into(), "..".into()]),
        Err("配置先として扱えない名前です: ..".to_string())
    );
    assert_eq!(
        resolve("/home/u", &Vec::new()),
        Err("配置先が指定されていません".to_string())
    );
    assert!(is_valid_part(".codex"));
    assert!(!is_valid_part("a:b"));
}

#[test]
fn installed_version_reads_the_version_field() {
    let text = Some(r#"{"name":"lineage","version":"1.2.3"}"#.to_string());
    assert_eq!(installed_version(&text), Some("1.2.3".to_string()));
}

#[test]
fn installed_version_is_none_when_missing_or_broken() {
    assert_eq!(installed_version(&None), None);
    assert_eq!(installed_version(&Some("{ not json".to_string())), None);
    assert_eq!(installed_version(&Some(r#"{"version":3}"#.to_string())), None);
}

#[test]
fn the_version_file_sits_in_the_skill_directory() {
    assert_eq!(version_path("/home/u/.codex/skills/lineage"), "/home/u/.codex/skills/lineage/version.json");
    assert_eq!(VERSION_FILE, "version.json");
}

#[test]
fn a_scan_looks_under_the_home_and_reports_what_it_found() {
    let location = SkillLocation {
        id: "codex".into(),
        directory: vec![".codex".into(), "skills".into(), "lineage".into()],
        marker: vec![".codex".into()],
    };
    let (directory, marker) = scan_targets("/home/u", &location).unwrap();
    assert_eq!(directory, "/home/u/.codex/skills/lineage");
    assert_eq!(marker, "/home/u/.codex");

    let report = scan_report(
        location.id.clone(),
        directory.clone(),
        true,
        &Some(r#"{"version":"2.0.0"}"#.to_string()),
    );
    assert_eq!(
        report,
        SkillScan {
            id: "codex".into(),
            agent_present: true,
            installed_version: Some("2.0.0".into()),
            path: directory,
        }
    );
}

#[test]
fn a_scan_names_the_directory_before_the_marker() {
    let location = SkillLocation { id: "x".into(), directory: vec!["..".into()], marker: Vec::new() };
    assert_eq!(scan_targets("/home/u", &location), Err("配置先として扱えない名前です: ..".to_string()));
    let location = SkillLocation { id: "x".into(), directory: vec!["ok".into()], marker: Vec::new() };
    assert_eq!(scan_targets("/home/u", &location), Err("配置先が指定されていません".to_string()));
}

#[test]
fn an_install_targets_each_file_in_its_directory() {
    let install = SkillInstall {
        id: "codex".into(),
        directory: vec![".codex".into(), "skills".into(), "lineage".into()],
        files: vec![
            SkillFile { name: "SKILL.md".into(), content: "body".into() },
            SkillFile { name: "../escape".into(), content: "x".into() },
        ],
    };
    let (directory, files) = install_targets("/home/u", &install).unwrap();
    assert_eq!(directory, "/home/u/.codex/skills/lineage");
    assert_eq!(
        files,
        vec![
            Ok("/home/u/.codex/skills/lineage/SKILL.md".to_string()),
            Err("配置先として扱えない名前です: ../escape".to_string()),
        ]
    );

    let refused = SkillInstall { id: "codex".into(), directory: Vec::new(), files: Vec::new() };
    assert_eq!(install_targets("/home/u", &refused), Err("配置先が指定されていません".to_string()));
}
