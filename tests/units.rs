use codeassist::context::{decimal_string, ContextManager, ProjectMemory, PromptBuilder};
use codeassist::edit::{EditError, FileEdit, FileEditor};
use codeassist::parser::CodeParser;
use codeassist::pattern::{Pattern, PatternError};
use codeassist::search::{CodeSearch, SearchLanguage};
use codeassist::structure::{ProjectAnalyzer, ProjectScan, ProjectType};
use codeassist::summary::SourceFile;
use codeassist::text::{chars_of, string_of, trimmed};

fn kws(words: &[&str]) -> Vec<String> {
    words.iter().map(|w| w.to_string()).collect()
}

fn chars(s: &str) -> Vec<char> {
    s.chars().collect()
}

#[test]
fn cargo_manifest_wins_over_drupal_markers_without_modules() {
    let analyzer = ProjectAnalyzer;
    let mut scan = ProjectScan::new();
    scan.record_dir("core");
    scan.record_file("Cargo.toml", None);
    scan.record_file("x.info.yml", Some("type: module".to_string()));
    scan.finish(true);
    assert!(analyzer.wants_drupal_modules(scan.features()));
    let t = analyzer.determine_project_type(&scan, &Vec::new(), false);
    assert_eq!(t, ProjectType::Rust);
}

#[test]
fn files_under_ignored_directories_are_not_recorded() {
    let mut scan = ProjectScan::new();
    scan.record_dir("node_modules");
    scan.record_file("node_modules/react/index.js", None);
    scan.record_file(".git/config.js", None);
    scan.record_file("target/debug/build.rs", None);
    scan.record_file("src/.cache/x.rs", None);
    scan.record_file("src/app.js", None);
    scan.record_file("logo.png", None);
    assert_eq!(scan.files_by_type().len(), 1);
    assert_eq!(scan.files_by_type()[0].extension, "js");
    assert_eq!(scan.files_by_type()[0].files, vec!["src/app.js".to_string()]);
    assert!(scan.directories().is_empty());
    assert!(!scan.features().has_node_modules);
    assert!(!scan.features().has_rust_files);
}

#[test]
fn files_are_grouped_by_extension() {
    let mut scan = ProjectScan::new();
    scan.record_file("a.rs", None);
    scan.record_file("b/c.rs", None);
    scan.record_file("d.py", None);
    scan.record_file("Makefile", None);
    scan.record_file(".env", None);
    assert_eq!(scan.files_by_type().len(), 2);
    assert_eq!(scan.files_by_type()[0].files, vec!["a.rs".to_string(), "b/c.rs".to_string()]);
    assert_eq!(scan.files_by_type()[1].extension, "py");
    assert!(scan.features().has_rust_files && scan.features().has_python_files);
}

#[test]
fn classification_is_repeatable() {
    let analyzer = ProjectAnalyzer;
    let mut scan = ProjectScan::new();
    scan.record_file("package.json", None);
    scan.record_file("src/App.jsx", None);
    let a = analyzer.determine_project_type(&scan, &Vec::new(), false);
    let b = analyzer.determine_project_type(&scan, &Vec::new(), false);
    assert_eq!(a, ProjectType::React);
    assert_eq!(a, b);
}

#[test]
fn classification_priority_order() {
    let analyzer = ProjectAnalyzer;
    let mut s1 = ProjectScan::new();
    s1.record_file("angular.json", None);
    s1.record_file("package.json", None);
    assert_eq!(analyzer.determine_project_type(&s1, &Vec::new(), false), ProjectType::Angular);
    let mut s2 = ProjectScan::new();
    s2.record_file("requirements.txt", None);
    s2.record_file("main.go", None);
    assert_eq!(analyzer.determine_project_type(&s2, &Vec::new(), false), ProjectType::Python);
    let mut s3 = ProjectScan::new();
    s3.record_file("index.php", Some("<?php echo 1;".to_string()));
    assert_eq!(analyzer.determine_project_type(&s3, &Vec::new(), false), ProjectType::PHP);
    let s4 = ProjectScan::new();
    assert_eq!(analyzer.determine_project_type(&s4, &Vec::new(), false), ProjectType::Generic);
    let mut s5 = ProjectScan::new();
    s5.record_file("package.json", None);
    s5.record_file("lib/react-widget.js", None);
    assert_eq!(analyzer.determine_project_type(&s5, &Vec::new(), false), ProjectType::React);
}

#[test]
fn adding_a_keyword_does_not_lower_relevance() {
    let search = CodeSearch::new();
    let text = "fn main() { let s = Point; }\nstruct Point;\nimpl Point {}\n";
    let before = search.calculate_relevance(text, &kws(&["struct "])).unwrap();
    let after = search.calculate_relevance(text, &kws(&["struct ", "main"])).unwrap();
    assert!(after >= before);
    // one boosted "struct " and one plain "main"; no language is aimed at
    assert_eq!(before, 3);
    assert_eq!(after, 4);
}

#[test]
fn relevance_ignores_case() {
    let search = CodeSearch::new();
    let a = search.calculate_relevance("DJANGO Django django", &kws(&["DJANGO"])).unwrap();
    assert_eq!(a, 3);
}

#[test]
fn empty_keyword_list_scores_nothing() {
    let search = CodeSearch::new();
    assert_eq!(search.calculate_relevance("anything at all", &Vec::new()), Some(0));
}

#[test]
fn drupal_search_halves_plain_javascript() {
    let search = CodeSearch::new();
    let js = "function go() { var x = 1; }\n// block block\n";
    // "block" hints at Drupal; the file is JavaScript with no Drupal marker
    assert_eq!(search.calculate_relevance(js, &kws(&["block"])), Some(1));
}

#[test]
fn search_language_prefers_drupal_on_ties() {
    let search = CodeSearch::new();
    let ks = vec![chars("rust"), chars("drupal")];
    assert_eq!(search.detect_search_language(&ks), SearchLanguage::Drupal);
    let ks = vec![chars("zzz")];
    assert_eq!(search.detect_search_language(&ks), SearchLanguage::Generic);
    let ks = vec![chars("golang")];
    assert_eq!(search.detect_search_language(&ks), SearchLanguage::Go);
}

#[test]
fn language_boost_values() {
    let search = CodeSearch::new();
    let sig = search.detect_language_signatures(&chars("fn main() { struct x; }"));
    assert!(sig.is_rust);
    assert_eq!(search.get_language_boost(&chars("rust"), &sig), 3);
    assert_eq!(search.get_language_boost(&chars("other"), &sig), 1);
    let sig = search.detect_language_signatures(&chars("services:\n  a:\n    class: x"));
    assert!(sig.is_drupal_services);
    assert_eq!(search.get_language_boost(&chars("service"), &sig), 5);
}

#[test]
fn rust_file_elements() {
    let parser = CodeParser::new();
    let fs = parser.analyze_rust_file("mod a;\nstruct B {\n}\n  fn c(x: u8) {}\nstruct ;\n");
    let names: Vec<(&str, &str, usize)> =
        fs.elements.iter().map(|e| (e.name.as_str(), e.kind.as_str(), e.line)).collect();
    assert_eq!(names, vec![("a", "module", 1), ("B", "struct", 2), ("c", "function", 4)]);
}

#[test]
fn python_file_elements() {
    let parser = CodeParser::new();
    let fs = parser.analyze_python_file("class A(Base):\n    def f(self):\n        pass\nclass B:\n");
    let names: Vec<(&str, &str, usize)> =
        fs.elements.iter().map(|e| (e.name.as_str(), e.kind.as_str(), e.line)).collect();
    assert_eq!(names, vec![("A", "class", 1), ("B", "class", 4), ("f", "function", 2)]);
}

#[test]
fn go_file_elements() {
    let parser = CodeParser::new();
    let src = "package shop\n\ntype Cart struct {\n}\ntype Store interface {\n}\nfunc Total(c Cart) int {\n";
    let fs = parser.analyze_go_file(src);
    let names: Vec<(&str, &str, usize)> =
        fs.elements.iter().map(|e| (e.name.as_str(), e.kind.as_str(), e.line)).collect();
    assert_eq!(
        names,
        vec![("Cart", "struct", 3), ("Store", "interface", 5), ("Total", "function", 7)]
    );
    let m = fs.elements[2].metadata.as_ref().unwrap();
    assert_eq!(m.namespace, Some("shop".to_string()));
}

#[test]
fn javascript_hooks_functions_and_classes() {
    let parser = CodeParser::new();
    let src = "import React from 'react';\nfunction useThing() {}\nfunction helper(a) {}\nconst add = (a, b) => a + b;\nclass Plain {}\n";
    let fs = parser.analyze_javascript_file(src);
    let names: Vec<(&str, &str)> =
        fs.elements.iter().map(|e| (e.name.as_str(), e.kind.as_str())).collect();
    assert_eq!(
        names,
        vec![("useThing", "react_hook"), ("Plain", "class"), ("helper", "function"), ("add", "function")]
    );
}

#[test]
fn angular_component_found_by_decorator() {
    let parser = CodeParser::new();
    let src = "@Component({\n  selector: 'x',\n})\nexport class Y {}\nclass HeroComponent {}\n";
    let fs = parser.analyze_javascript_file(src);
    assert_eq!(fs.elements[0].name, "HeroComponent");
    assert_eq!(fs.elements[0].kind, "angular_component");
    assert_eq!(fs.elements[0].line, 1);
}

#[test]
fn php_class_with_doc_comment_and_namespace() {
    let parser = CodeParser::new();
    let src = "<?php\nnamespace Drupal\\foo\\Plugin\\Block;\n/**\n * Shows a greeting.\n * @Block(id = \"hello\")\n */\nclass HelloBlock extends BlockBase {\n}\n";
    let fs = parser.analyze_php_file(src);
    assert!(fs.is_drupal);
    assert_eq!(fs.elements.len(), 1);
    let e = &fs.elements[0];
    assert_eq!(e.name, "HelloBlock");
    assert_eq!(e.kind, "drupal_plugin");
    assert_eq!(e.line, 7);
    assert_eq!(e.description, Some("Shows a greeting.".to_string()));
    let m = e.metadata.as_ref().unwrap();
    assert_eq!(m.namespace, Some("Drupal\\foo\\Plugin\\Block".to_string()));
    assert_eq!(m.annotations, vec!["@Block(id = \"hello\")".to_string()]);
}

#[test]
fn php_plugin_found_by_base_class_on_following_line() {
    let parser = CodeParser::new();
    let src = "<?php\nclass Widget\n  extends FieldItemBase {\n}\n";
    let fs = parser.analyze_php_file(src);
    let m = fs.elements[0].metadata.as_ref().unwrap();
    assert_eq!(fs.elements[0].kind, "drupal_plugin");
    assert_eq!(m.plugin_type, Some("Field".to_string()));
}

#[test]
fn php_hook_from_annotation() {
    let parser = CodeParser::new();
    let src = "<?php\n/**\n * @Implements hook_form_alter\n */\nfunction mymod_alter() {}\n";
    let fs = parser.analyze_php_file(src);
    let e = &fs.elements[0];
    assert_eq!(e.kind, "drupal_hook");
    assert_eq!(e.metadata.as_ref().unwrap().hook_name, Some("hook_form_alter".to_string()));
}

#[test]
fn unknown_extension_has_no_elements() {
    let parser = CodeParser::new();
    let fs = parser.analyze_content("fn main() {}", "txt");
    assert!(fs.elements.is_empty());
    assert!(!fs.is_drupal);
}

#[test]
fn edits_replace_insert_delete() {
    let text = "a\nb\nc\n";
    assert_eq!(FileEditor::replace_lines(text, 2, 2, "B").unwrap(), "a\nB\nc\n");
    assert_eq!(FileEditor::insert_at_line(text, 4, "d\n").unwrap(), "a\nb\nc\nd\n");
    assert_eq!(FileEditor::insert_at_line(text, 1, "z").unwrap(), "z\na\nb\nc\n");
    assert_eq!(FileEditor::delete_lines(text, 1, 2).unwrap(), "c\n");
    assert_eq!(
        FileEditor::replace_lines(text, 0, 1, "x"),
        Err(EditError::InvalidRange { start_line: 0, end_line: 1 })
    );
    assert_eq!(
        FileEditor::delete_lines(text, 2, 4),
        Err(EditError::InvalidRange { start_line: 2, end_line: 4 })
    );
    assert_eq!(FileEditor::insert_at_line(text, 5, "x"), Err(EditError::InvalidLine { line: 5 }));
    let e = FileEdit::Delete { start_line: 3, end_line: 3 };
    assert_eq!(FileEditor::apply_edit(text, &e).unwrap(), "a\nb\n");
}

#[test]
fn keywords_are_long_lowercased_words() {
    let cm = ContextManager::new();
    assert_eq!(
        cm.extract_keywords("Fix the Login  handler in src"),
        vec!["login".to_string(), "handler".to_string()]
    );
}

#[test]
fn prompts_and_numbers() {
    assert_eq!(
        PromptBuilder::build_user_prompt("do it", "ctx"),
        "Command: do it\n\nCurrent context:\nctx"
    );
    assert!(PromptBuilder::build_system_prompt().starts_with("You are CodeAssist"));
    assert_eq!(decimal_string(0), "0");
    assert_eq!(decimal_string(40213), "40213");
}

#[test]
fn memory_collects_files() {
    let mut m = ProjectMemory::new();
    m.add_file("/p/CAULK.md", "hello");
    m.track_file("/p/sub/CAULK.md");
    assert_eq!(m.get_memory(), "\n## From: /p/CAULK.md\n\nhello\n\n");
    assert_eq!(m.get_loaded_files().len(), 2);
}

#[test]
fn patterns_compile_match_and_capture() {
    assert!(matches!(Pattern::new("(unclosed"), Err(PatternError::Invalid)));
    let p = Pattern::new("b(\\d+)").unwrap();
    assert!(p.matches("ab12"));
    assert!(!p.matches("ab"));
    assert_eq!(p.capture("xb7 b8", 1), Some("7".to_string()));
    assert_eq!(p.capture_all("b1 b22", 1), vec![Some("1".to_string()), Some("22".to_string())]);
    let search = CodeSearch::new();
    let r = search.search_in_content("f.rs", "one\nb42 two\nb3\n", &p);
    let got: Vec<(usize, &str)> = r.iter().map(|x| (x.line_number, x.line_content.as_str())).collect();
    assert_eq!(got, vec![(2, "b42 two"), (3, "b3")]);
    assert!(r.iter().all(|x| x.file_path == "f.rs"));
}

#[test]
fn text_helpers_trim_and_rebuild() {
    assert_eq!(trimmed(&chars_of("\t x y \n")), chars("x y"));
    assert_eq!(string_of(&chars("héllo")), "héllo");
}

#[test]
fn angular_and_react_summaries() {
    let analyzer = ProjectAnalyzer;
    let ts = vec![
        SourceFile { path: "src/app/hero.component.ts".to_string(), content: Some("@Component({})".to_string()) },
        SourceFile { path: "src/app/app-routing.module.ts".to_string(), content: None },
        SourceFile { path: "src/app/data.service.ts".to_string(), content: Some("".to_string()) },
    ];
    let a = analyzer
        .gather_angular_project_info(Some("{ \"projects\": { \"shop\": {} } }".to_string()), &ts)
        .unwrap();
    assert_eq!(a.name, "shop");
    // the component file is counted once, by its name
    assert_eq!(a.component_count, 1);
    assert_eq!(a.service_count, 1);
    assert!(a.has_routing);
    assert!(!a.has_ngrx);
    assert!(analyzer.gather_angular_project_info(None, &ts).is_none());
    let scripts = vec![SourceFile {
        path: "src/a.js".to_string(),
        content: Some("import React from 'react'; function A() { return 1; }".to_string()),
    }];
    let r = analyzer
        .gather_react_project_info(
            Some("{ \"name\": \"web\", \"dependencies\": { \"redux\": \"4\" } }".to_string()),
            2,
            1,
            &scripts,
            false,
            true,
        )
        .unwrap();
    assert_eq!(r.name, "web");
    assert_eq!(r.component_count, 4);
    assert!(r.has_redux);
}

#[test]
fn python_summary() {
    let analyzer = ProjectAnalyzer;
    let p = analyzer.gather_python_project_info(
        Some("[project]\nname = \"tool\"\n".to_string()),
        None,
        "dir",
        &vec!["import flask\nclass A:\n    def f(self): pass\ndef g(): pass\n".to_string()],
        false,
    );
    assert_eq!(p.name, "tool");
    assert_eq!(p.class_count, 1);
    assert_eq!(p.function_count, 2);
    assert!(p.has_flask && !p.has_django && !p.has_fastapi);
    let q = analyzer.gather_python_project_info(None, None, "dir", &Vec::new(), true);
    assert_eq!(q.name, "dir");
    assert!(q.has_django);
}

#[test]
fn find_and_replace_literal_and_regex() {
    assert_eq!(
        FileEditor::find_and_replace("a-b-a", "a", "X", false).unwrap(),
        ("X-b-X".to_string(), 2)
    );
    assert_eq!(
        FileEditor::find_and_replace("ab", "", "-", false).unwrap(),
        ("-a-b-".to_string(), 3)
    );
    assert_eq!(
        FileEditor::find_and_replace("a1b22", "(\\d+)", "$1!", true).unwrap(),
        ("a1!b22!".to_string(), 2)
    );
    assert_eq!(FileEditor::find_and_replace("x", "(", "y", true), Err(PatternError::Invalid));
}

#[test]
fn memory_directories_climb_to_the_root() {
    assert_eq!(
        ProjectMemory::directory_and_parents("/a/b"),
        vec!["/a/b".to_string(), "/a".to_string(), "/".to_string()]
    );
    assert_eq!(
        ProjectMemory::directory_and_parents("x/y"),
        vec!["x/y".to_string(), "x".to_string(), "".to_string()]
    );
}
