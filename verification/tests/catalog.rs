use atm_auto_runner::catalog::{
    available_tests, decode_summary, get_default_tests, main_class_for, test_from_groups,
    tests_from_matches, tools_version, version_from_match,
};
use atm_auto_runner::model::TestItem;

fn fields(t: &TestItem) -> (&str, &str, &str, &str, &str, &str) {
    (&t.id, &t.name, &t.jar, &t.main_class, &t.test_type, &t.description)
}

#[test]
fn default_tests_are_the_five_tools() {
    let t = get_default_tests();
    assert_eq!(t.len(), 5);
    assert_eq!(
        fields(&t[0]),
        ("bvt", "BVT", "BVT.jar", "com.bi.BVT.MainForm", "auto",
         "Build Verification Test — Verify permissions, build parameters, CDD compliance")
    );
    assert_eq!(
        fields(&t[1]),
        ("svt", "SVT", "SVT.jar", "com.ast.svt.MainKt", "auto",
         "Screenshot Verification Tool — Verify GMS placement rules")
    );
    assert_eq!(
        fields(&t[2]),
        ("sdt", "SDT", "SDT.jar", "com.sec.atm.Main", "auto",
         "Samsung Device Test — Verify device properties, security, apps")
    );
    assert_eq!(
        fields(&t[3]),
        ("getprop", "Getprop", "Getprop.jar", "com.sec.ui.Main", "auto",
         "Getprop — Verify build properties, security patch level")
    );
    assert_eq!(
        fields(&t[4]),
        ("cscchecker", "CSCChecker", "CSCChecker.jar", "MyApplcaition", "optional",
         "CSC Checker — Verify CSC specifications")
    );
}

#[test]
fn main_classes_by_name() {
    assert_eq!(main_class_for("BVT"), "com.bi.BVT.MainForm");
    assert_eq!(main_class_for("SVT"), "com.ast.svt.MainKt");
    assert_eq!(main_class_for("SDT"), "com.sec.atm.Main");
    assert_eq!(main_class_for("Getprop"), "com.sec.ui.Main");
    assert_eq!(main_class_for("CSCChecker"), "MyApplcaition");
    assert_eq!(main_class_for("bvt"), "com.sec.atm.Main");
    assert_eq!(main_class_for(""), "com.sec.atm.Main");
}

#[test]
fn summary_entities_are_resolved_in_order() {
    assert_eq!(decode_summary("a&#13;&#10;b &amp; c"), "a b & c");
    assert_eq!(decode_summary("&amp;#13;"), "&#13;");
    assert_eq!(decode_summary("&#1&#13;3;"), "&#13;");
    assert_eq!(decode_summary(""), "");
}

fn groups(g: &[Option<&str>]) -> Vec<Option<String>> {
    g.iter().map(|x| x.map(|s| s.to_string())).collect()
}

#[test]
fn test_item_from_match_groups() {
    let t = test_from_groups(&groups(&[Some("<Test ...>"), Some("SVT"), Some(""), Some("Screens&amp;more"), Some("auto")]));
    assert_eq!(fields(&t), ("svt", "SVT", "SVT.jar", "com.ast.svt.MainKt", "auto", "Screens&more"));
    let t = test_from_groups(&groups(&[Some("x"), Some("NewTool"), Some("tools/new.jar"), None, Some("manual")]));
    assert_eq!(fields(&t), ("newtool", "NewTool", "tools/new.jar", "com.sec.atm.Main", "manual", ""));
    let t = test_from_groups(&groups(&[]));
    assert_eq!(fields(&t), ("", "", ".jar", "com.sec.atm.Main", "", ""));
}

#[test]
fn no_match_gives_default_catalogue() {
    let t = tests_from_matches(&Vec::new());
    assert_eq!(t.len(), 5);
    assert_eq!(t[4].id, "cscchecker");
}

const XML: &str = r#"<?xml version="1.0"?>
<TestList version="5.2.1">
  <Test name="BVT" exefile="BVT.jar" summary="Build&#13;&#10;check" type="auto"/>
  <Optional name="CSCChecker" exefile="" summary="CSC &amp; more" type="optional" />
  <Other name="Nope" exefile="n.jar" summary="" type="auto"/>
</TestList>"#;

#[test]
fn tests_read_from_test_info() {
    let t = available_tests(Some(XML));
    assert_eq!(t.len(), 2);
    assert_eq!(fields(&t[0]), ("bvt", "BVT", "BVT.jar", "com.bi.BVT.MainForm", "auto", "Build check"));
    assert_eq!(
        fields(&t[1]),
        ("cscchecker", "CSCChecker", "CSCChecker.jar", "MyApplcaition", "optional", "CSC & more")
    );
}

#[test]
fn missing_or_useless_test_info_gives_defaults() {
    assert_eq!(available_tests(None).len(), 5);
    let t = available_tests(Some("<TestList version=\"1\"></TestList>"));
    assert_eq!(t.len(), 5);
    assert_eq!(t[0].id, "bvt");
}

#[test]
fn tools_version_from_test_info() {
    assert_eq!(tools_version(Some(XML)), "5.2.1");
    assert_eq!(tools_version(Some("<TestList  version=\"v7\">")), "v7");
    assert_eq!(tools_version(Some("<TestList version=\"\">")), "N/A");
    assert_eq!(tools_version(Some("nothing here")), "N/A");
    assert_eq!(tools_version(None), "N/A");
}

#[test]
fn version_from_match_groups() {
    assert_eq!(version_from_match(&None), "N/A");
    assert_eq!(version_from_match(&Some(groups(&[Some("all"), Some("3.0")]))), "3.0");
    assert_eq!(version_from_match(&Some(groups(&[Some("all"), None]))), "N/A");
    assert_eq!(version_from_match(&Some(groups(&[Some("all")]))), "N/A");
}
