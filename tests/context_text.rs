use codeassist::config::{EditorConfig, GitConfig};
use codeassist::context::ContextManager;
use codeassist::executor::CommandExecutor;
use codeassist::structure::{
    DrupalModuleInfo, ProjectAnalyzer, ProjectScan, ProjectType, RustProjectInfo,
    SpecificProjectInfo,
};

fn rust_structure() -> codeassist::structure::ProjectStructure {
    let analyzer = ProjectAnalyzer;
    let mut scan = ProjectScan::new();
    scan.record_file("Cargo.toml", None);
    scan.record_file("src/main.rs", None);
    scan.record_file("src/util.rs", None);
    let info = RustProjectInfo {
        name: "demo".to_string(),
        version: "0.2.0".to_string(),
        module_count: 1,
        struct_count: 12,
        has_lib: false,
        has_bin: true,
    };
    analyzer.analyze_project_structure(scan, Vec::new(), false, SpecificProjectInfo::Rust(Some(info)))
}

#[test]
fn rust_summary_text() {
    let cm = ContextManager::new();
    let s = rust_structure();
    let mut out = String::from(">");
    cm.add_rust_project_info(&mut out, &s);
    assert_eq!(
        out,
        ">Rust package: demo\nVersion: 0.2.0\nContains 1 modules, 12 structs\nHas binary target (main.rs or bin/)\n"
    );
    let mut none = String::new();
    cm.add_python_project_info(&mut none, &s);
    assert_eq!(none, "");
}

#[test]
fn file_count_text() {
    let cm = ContextManager::new();
    let s = rust_structure();
    let mut out = String::new();
    cm.add_file_count_info(&mut out, &s);
    assert_eq!(out, "Rust files count: 2\n");
}

#[test]
fn type_labels() {
    let cm = ContextManager::new();
    assert_eq!(cm.project_type_label(ProjectType::DrupalModule), "Drupal module");
    assert_eq!(cm.project_type_label(ProjectType::React), "React application");
    assert_eq!(cm.plugin_kind_description("Block"), "Block plugins (content blocks)");
    assert_eq!(cm.plugin_kind_description("Other"), "Custom plugin type");
}

#[test]
fn drupal_site_text() {
    let analyzer = ProjectAnalyzer;
    let mut scan = ProjectScan::new();
    scan.record_dir("core");
    scan.record_file("index.php", Some("<?php".to_string()));
    scan.record_file("web/modules/custom/a/a.info.yml", Some("type: module".to_string()));
    scan.finish(true);
    let modules = vec![
        ("a".to_string(), "/site/web/modules/custom/a".to_string()),
        ("b".to_string(), "/site/web/modules/custom/b".to_string()),
    ];
    let s = analyzer.analyze_project_structure(scan, modules, false, SpecificProjectInfo::NoInfo);
    assert_eq!(s.project_type, Some(ProjectType::Drupal));
    let cm = ContextManager::new();
    let mut out = String::new();
    cm.add_drupal_project_info(&mut out, &s, "/site");
    assert_eq!(
        out,
        "PHP files count: 1\nDrupal module info files: 1\n\nDetected Drupal modules (2):\n- a: web/modules/custom/a\n- b: web/modules/custom/b\n"
    );
}

#[test]
fn drupal_module_text() {
    let analyzer = ProjectAnalyzer;
    let mut scan = ProjectScan::new();
    scan.record_file("a.info.yml", Some("type: module".to_string()));
    let info = DrupalModuleInfo {
        name: "a".to_string(),
        description: String::new(),
        module_file: Some("a.module".to_string()),
        info_file: Some("a.info.yml".to_string()),
        config_schemas: Vec::new(),
        has_plugins: true,
        has_services: false,
        hooks: vec!["hook_cron".to_string()],
    };
    let modules = vec![
        ("a".to_string(), "/m/a".to_string()),
        ("b".to_string(), "/m/b".to_string()),
    ];
    let s = analyzer.analyze_project_structure(
        scan,
        modules,
        true,
        SpecificProjectInfo::Drupal(Some(info)),
    );
    assert_eq!(s.project_type, Some(ProjectType::DrupalModule));
    let cm = ContextManager::new();
    let mut out = String::new();
    cm.add_drupal_module_project_info(&mut out, &s, "/m", "[dirs]\n");
    assert_eq!(
        out,
        "Drupal Module: a\nModule file: a.module\nInfo file: a.info.yml\nImplements hooks:\n- hook_cron\nContains plugins: Yes\n[dirs]\n\nOther Drupal modules in this project (1):\n- b: b\n"
    );
}

#[test]
fn mismatched_summary_is_replaced() {
    let analyzer = ProjectAnalyzer;
    let mut scan = ProjectScan::new();
    scan.record_file("main.go", None);
    let s = analyzer.analyze_project_structure(scan, Vec::new(), false, SpecificProjectInfo::Rust(None));
    assert_eq!(s.project_type, Some(ProjectType::Go));
    assert!(matches!(s.specific_info, SpecificProjectInfo::NoInfo));
    assert!(s.modules.is_empty());
}

#[test]
fn reply_is_cleaned() {
    let ex = CommandExecutor::new();
    let reply = "<think>plan</think>\nHere:\n```json\n{\"action\": \"x\"}\n```\n";
    assert_eq!(ex.clean_llm_response(reply), "{\"action\": \"x\"}");
    assert_eq!(ex.clean_llm_response("plain"), "plain");
    assert_eq!(ex.clean_llm_response("<think>a</think>  rest  "), "rest");
}

#[test]
fn default_settings() {
    assert_eq!(EditorConfig::new().default_editor, "vim");
    assert!(GitConfig::new().enable_git_features);
}
