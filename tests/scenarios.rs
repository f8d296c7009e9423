use codeassist::parser::CodeParser;
use codeassist::search::{CodeSearch, ScoredFile, LARGE_FILE_LIMIT};
use codeassist::structure::{
    ModuleCandidate, ModuleProbe, ProjectAnalyzer, ProjectScan, ProjectType, SpecificProjectInfo,
};
use codeassist::summary::DrupalModuleInputs;

fn kws(words: &[&str]) -> Vec<String> {
    words.iter().map(|w| w.to_string()).collect()
}

fn probe(path: &str) -> ModuleProbe {
    ModuleProbe {
        path: path.to_string(),
        has_info_yml_at_root: false,
        has_module_file_at_root: false,
        has_plugin_dir: false,
        composer_json: None,
        has_core_dir: false,
        has_composer_json: false,
    }
}

#[test]
fn rust_package_with_two_structs_and_one_module() {
    let analyzer = ProjectAnalyzer;
    let mut scan = ProjectScan::new();
    scan.record_file("Cargo.toml", None);
    scan.record_dir("src");
    scan.record_file("src/lib.rs", None);
    scan.finish(false);
    let t = analyzer.determine_project_type(&scan, &Vec::new(), false);
    assert_eq!(t, ProjectType::Rust);
    let info = analyzer
        .gather_rust_project_info(
            Some("[package]\nname = \"demo\"\n".to_string()),
            &vec!["struct A {}\nstruct B {}\nmod c;\n".to_string()],
            true,
            false,
        )
        .unwrap();
    assert_eq!(info.name, "demo");
    assert_eq!(info.struct_count, 2);
    assert_eq!(info.module_count, 1);
    let s = analyzer.analyze_project_structure(
        scan,
        Vec::new(),
        false,
        SpecificProjectInfo::Rust(Some(info)),
    );
    assert_eq!(s.project_type, Some(ProjectType::Rust));
    match s.specific_info {
        SpecificProjectInfo::Rust(Some(i)) => assert_eq!(i.struct_count, 2),
        _ => panic!("expected a Rust summary"),
    }
}

#[test]
fn drupal_module_with_cron_hook() {
    let analyzer = ProjectAnalyzer;
    let root = "/srv/site/web/modules/custom/foo";
    let mut scan = ProjectScan::new();
    let info_text = "name: Foo Module\ntype: module\n";
    let module_text = "<?php\nfunction foo_hook_cron() {}\n";
    assert!(scan.wants_content("foo.info.yml"));
    scan.record_file("foo.info.yml", Some(info_text.to_string()));
    scan.record_file("foo.module", None);
    scan.finish(false);
    assert!(scan.features().has_info_yml);
    assert!(scan.features().has_drupal_module_file);
    assert!(analyzer.wants_drupal_modules(scan.features()));
    let candidates = vec![ModuleCandidate { name: "foo".to_string(), probe: probe(root) }];
    let modules = analyzer.find_all_drupal_modules(&candidates);
    assert_eq!(modules, vec![("foo".to_string(), root.to_string())]);
    let root_is_module = analyzer.is_drupal_module(&probe(root));
    assert!(root_is_module);
    let t = analyzer.determine_project_type(&scan, &modules, root_is_module);
    assert_eq!(t, ProjectType::DrupalModule);
    let inputs = DrupalModuleInputs {
        yml_files: vec!["foo.info.yml".to_string()],
        info_content: Some(info_text.to_string()),
        module_file_exists: true,
        module_file_content: Some(module_text.to_string()),
        services_file_exists: false,
        has_plugin_dir: false,
        php_sources: Vec::new(),
    };
    let info = analyzer.gather_drupal_module_info(&inputs).unwrap();
    assert_eq!(info.name, "Foo Module");
    assert_eq!(info.hooks, vec!["hook_cron".to_string()]);
    assert_eq!(info.module_file, Some("foo.module".to_string()));
    assert_eq!(info.info_file, Some("foo.info.yml".to_string()));
    let s = analyzer.analyze_project_structure(
        scan,
        modules,
        root_is_module,
        codeassist::structure::SpecificProjectInfo::Drupal(Some(info)),
    );
    assert_eq!(s.project_type, Some(ProjectType::DrupalModule));
    assert_eq!(s.modules.len(), 1);
    assert_eq!(s.modules[0].0, "foo");
}

#[test]
fn drupal_hook_function_is_tagged() {
    let parser = CodeParser::new();
    let fs = parser.analyze_content("<?php\nfunction foo_hook_cron() {}\n", "php");
    assert!(fs.is_drupal);
    assert_eq!(fs.elements.len(), 1);
    let e = &fs.elements[0];
    assert_eq!(e.name, "foo_hook_cron");
    assert_eq!(e.kind, "drupal_hook");
    assert_eq!(e.line, 2);
    let m = e.metadata.as_ref().unwrap();
    assert!(m.is_hook);
    assert_eq!(m.hook_name, Some("hook_cron".to_string()));
}

#[test]
fn python_search_scores_python_file_higher() {
    let search = CodeSearch::new();
    let keywords = kws(&["python", "django"]);
    let py = "import django\ndef view():\n    pass\n";
    let plain = "a".repeat(py.len());
    let a = search.calculate_relevance(py, &keywords).unwrap();
    let b = search.calculate_relevance(&plain, &keywords).unwrap();
    assert!(a > b);
    // one occurrence of "django", plus the Python bonus once
    assert_eq!(a, 26);
    assert_eq!(b, 0);
}

#[test]
fn binary_and_large_files_are_never_scored() {
    let search = CodeSearch::new();
    let keywords = kws(&["python", "django"]);
    let text = "import django\ndef view(): python\n";
    assert_eq!(search.file_relevance("tool.exe", 10, text, &keywords), None);
    assert_eq!(search.file_relevance("big.py", LARGE_FILE_LIMIT + 1, text, &keywords), None);
    assert!(search.file_relevance("small.py", 10, text, &keywords).unwrap() > 0);
    assert!(search.is_binary_or_large_file("exe", 10));
    assert!(search.is_binary_or_large_file("py", LARGE_FILE_LIMIT + 1));
    assert!(!search.is_binary_or_large_file("py", LARGE_FILE_LIMIT));
}

#[test]
fn react_class_component_is_listed_once() {
    let parser = CodeParser::new();
    let src = "import React from 'react';\nclass Foo extends React.Component {\n  render() {\n    return (<div/>);\n  }\n}\n";
    let fs = parser.analyze_javascript_file(src);
    let foos: Vec<_> = fs.elements.iter().filter(|e| e.name == "Foo").collect();
    assert_eq!(foos.len(), 1);
    assert_eq!(foos[0].kind, "react_component");
    assert_eq!(foos[0].line, 2);
    assert!(fs.elements.iter().all(|e| e.kind != "class"));
}

#[test]
fn ranking_drops_zero_scores_and_sorts_descending() {
    let search = CodeSearch::new();
    let files = vec![
        ScoredFile { path: "a".to_string(), score: 3 },
        ScoredFile { path: "b".to_string(), score: 0 },
        ScoredFile { path: "c".to_string(), score: 9 },
        ScoredFile { path: "d".to_string(), score: 3 },
    ];
    let r = search.rank_by_relevance(files);
    let paths: Vec<&str> = r.iter().map(|f| f.path.as_str()).collect();
    assert_eq!(paths, vec!["c", "a", "d"]);
}
