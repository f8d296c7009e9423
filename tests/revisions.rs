use codeassist::context::{ContextManager, ModuleListing};
use codeassist::parser::CodeParser;
use codeassist::search::CodeSearch;
use codeassist::structure::{ModuleProbe, ProjectAnalyzer};
use codeassist::summary::{DrupalModuleInputs, SourceFile};
use codeassist::text::{chars_of, trimmed};

fn chars(s: &str) -> Vec<char> {
    s.chars().collect()
}

fn kws(words: &[&str]) -> Vec<String> {
    words.iter().map(|w| w.to_string()).collect()
}

#[test]
fn bare_rust_keywords_are_boosted() {
    let search = CodeSearch::new();
    let sig = search.detect_language_signatures(&chars("fn main() { struct x; }"));
    assert_eq!(search.get_language_boost(&chars("struct"), &sig), 3);
    assert_eq!(search.get_language_boost(&chars("impl"), &sig), 3);
}

#[test]
fn site_root_is_never_a_module() {
    let analyzer = ProjectAnalyzer;
    let site = ModuleProbe {
        path: "/srv/modules/custom/site".to_string(),
        has_info_yml_at_root: true,
        has_module_file_at_root: true,
        has_plugin_dir: false,
        composer_json: Some("{\"require\": {\"drupal/core\": \"^10\"}}".to_string()),
        has_core_dir: true,
        has_composer_json: true,
    };
    assert!(!analyzer.is_drupal_module(&site));
    let module = ModuleProbe { has_core_dir: false, ..site };
    assert!(analyzer.is_drupal_module(&module));
}

fn module_inputs(yml: &[&str], module_text: &str) -> DrupalModuleInputs {
    DrupalModuleInputs {
        yml_files: yml.iter().map(|s| s.to_string()).collect(),
        info_content: Some("name: Foo\n".to_string()),
        module_file_exists: true,
        module_file_content: Some(module_text.to_string()),
        services_file_exists: false,
        has_plugin_dir: false,
        php_sources: vec!["<?php\nfunction c_hook_cron() {}\n".to_string()],
    }
}

#[test]
fn module_schemas_and_hooks() {
    let analyzer = ProjectAnalyzer;
    let inputs = module_inputs(
        &["foo.info.yml", "config/schema/foo.schema.yml", "sub/config/schema/bar.schema.yml", "x.yml"],
        "function a_hook_cron() {}\nfunction b_hook_cron() {}\nfunction my_mod_hook_form_alter() {}\n",
    );
    let info = analyzer.gather_drupal_module_info(&inputs).unwrap();
    assert_eq!(
        info.config_schemas,
        vec!["config/schema/foo.schema.yml".to_string(), "sub/config/schema/bar.schema.yml".to_string()]
    );
    assert_eq!(info.hooks, vec!["hook_cron".to_string(), "hook_form_alter".to_string()]);
}

#[test]
fn hook_name_after_multi_part_prefix() {
    let parser = CodeParser::new();
    let fs = parser.analyze_php_file("<?php\nfunction my_module_hook_form_alter() {}\n");
    let m = fs.elements[0].metadata.as_ref().unwrap();
    assert_eq!(fs.elements[0].kind, "drupal_hook");
    assert_eq!(m.hook_name, Some("hook_form_alter".to_string()));
}

#[test]
fn plugin_base_class_on_the_class_line() {
    let parser = CodeParser::new();
    let fs = parser.analyze_php_file("class FooBlock extends BlockBase {\n}\n");
    let e = &fs.elements[0];
    assert_eq!(e.name, "FooBlock");
    assert_eq!(e.kind, "drupal_plugin");
    assert_eq!(e.line, 1);
    let m = e.metadata.as_ref().unwrap();
    assert!(m.is_plugin);
    assert_eq!(m.plugin_type, Some("Block".to_string()));
}

#[test]
fn go_functions_and_receiver_methods() {
    let parser = CodeParser::new();
    let fs = parser.analyze_go_file("package main\nfunc Foo() {}\nfunc (s *S) Bar() {}\n");
    let got: Vec<(&str, &str, usize)> =
        fs.elements.iter().map(|e| (e.name.as_str(), e.kind.as_str(), e.line)).collect();
    assert_eq!(got, vec![("Foo", "function", 2), ("Bar", "method", 3)]);
    for e in &fs.elements {
        assert_eq!(e.metadata.as_ref().unwrap().namespace, Some("main".to_string()));
    }
}

#[test]
fn javascript_symbol_listed_once() {
    let parser = CodeParser::new();
    let src = "import React from 'react';\nclass Foo {}\nclass Foo extends React.Component {\n}\nfunction useBar() {}\nclass useBar {}\n";
    let fs = parser.analyze_javascript_file(src);
    let got: Vec<(&str, &str)> = fs.elements.iter().map(|e| (e.name.as_str(), e.kind.as_str())).collect();
    assert_eq!(got, vec![("Foo", "react_component"), ("useBar", "react_hook")]);
}

#[test]
fn searches_skip_noise_and_ignored_directories() {
    let search = CodeSearch::new();
    let keywords = kws(&["django"]);
    let text = "import django";
    assert_eq!(search.file_relevance("Cargo.lock", 10, text, &keywords), None);
    assert_eq!(search.file_relevance("fonts/a.woff2", 10, text, &keywords), None);
    assert_eq!(search.file_relevance("node_modules/x/a.py", 10, text, &keywords), None);
    assert_eq!(search.file_relevance("src/.cache/a.py", 10, text, &keywords), None);
    assert!(search.should_skip("build/out.py", 1));
    assert!(!search.should_skip("src/app.py", 1));
    assert_eq!(search.file_relevance("src/app.py", 10, text, &keywords), Some(1));
}

#[test]
fn module_directory_description() {
    let cm = ContextManager::new();
    assert_eq!(cm.module_dir_choice(&vec![false, false, true, true]), Some(2));
    assert_eq!(cm.module_dir_choice(&vec![false, false]), None);
    assert_eq!(
        cm.module_dir_candidates("foo"),
        vec![
            "web/modules/custom/foo".to_string(),
            "web/modules/contrib/foo".to_string(),
            "modules/custom/foo".to_string(),
            "modules/contrib/foo".to_string(),
            String::new(),
        ]
    );
    let listing = ModuleListing {
        src_exists: true,
        src_dirs: vec!["Form".to_string(), "Plugin".to_string(), "Misc".to_string()],
        plugin_dirs: vec!["Block".to_string(), "Thing".to_string()],
        templates: Some(vec!["a.html.twig".to_string(), "notes.txt".to_string()]),
        js_files: Some(vec!["x.js".to_string(), "y.css".to_string()]),
        angular_app: false,
        css_exists: true,
        php_count: 3,
    };
    assert_eq!(
        cm.module_analysis_text(&listing),
        "\nModule Structure:\n- Plugin: Contains plugins\n  - Block: Block plugins (content blocks)\n  - Thing: Custom plugin type\n- Form: Contains form definitions\n\nModule Templates:\n- a.html.twig\n\nJavaScript files present\nJavaScript file count: 1\nCSS files present\nPHP file count: 3\n"
    );
}

#[test]
fn unicode_white_space_is_trimmed() {
    assert_eq!(trimmed(&chars_of("\u{3000}x\u{a0}")), chars("x"));
    assert_eq!(trimmed(&chars_of("_x_")), chars("_x_"));
}

#[test]
fn angular_service_counted_by_decorator() {
    let analyzer = ProjectAnalyzer;
    let ts = vec![SourceFile { path: "src/api.ts".to_string(), content: Some("@Injectable()".to_string()) }];
    let a = analyzer.gather_angular_project_info(Some(String::new()), &ts).unwrap();
    assert_eq!((a.component_count, a.service_count), (0, 1));
}
