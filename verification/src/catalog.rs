//! The catalogue of ATM test tools: the built-in list, and the list read
//! from the suite's `TestInfo.xml`.

use vstd::prelude::*;
use crate::model::{TestItem, TestItemView, items_view};
use crate::platform::{lowercase, to_lowercase};
use crate::regex_engine::{
    Pattern,
    regex_all_matches,
    regex_captures,
    regex_captures_iter,
    regex_compiles,
    regex_first_match,
};
use crate::text::{
    chars_of,
    concat,
    free_of,
    lemma_replaced_around,
    lemma_replaced_untouched,
    replace_all,
    replaced,
    same_text,
    string_of,
};

verus! {

broadcast use vstd::string::group_string_axioms;

/// The catalogue used when no `TestInfo.xml` lists any test.
pub open spec fn default_catalog() -> Seq<TestItemView> {
    seq![
        TestItemView {
            id: "bvt"@,
            name: "BVT"@,
            jar: "BVT.jar"@,
            main_class: "com.bi.BVT.MainForm"@,
            test_type: "auto"@,
            description: "Build Verification Test — Verify permissions, build parameters, CDD compliance"@,
        },
        TestItemView {
            id: "svt"@,
            name: "SVT"@,
            jar: "SVT.jar"@,
            main_class: "com.ast.svt.MainKt"@,
            test_type: "auto"@,
            description: "Screenshot Verification Tool — Verify GMS placement rules"@,
        },
        TestItemView {
            id: "sdt"@,
            name: "SDT"@,
            jar: "SDT.jar"@,
            main_class: "com.sec.atm.Main"@,
            test_type: "auto"@,
            description: "Samsung Device Test — Verify device properties, security, apps"@,
        },
        TestItemView {
            id: "getprop"@,
            name: "Getprop"@,
            jar: "Getprop.jar"@,
            main_class: "com.sec.ui.Main"@,
            test_type: "auto"@,
            description: "Getprop — Verify build properties, security patch level"@,
        },
        TestItemView {
            id: "cscchecker"@,
            name: "CSCChecker"@,
            jar: "CSCChecker.jar"@,
            main_class: "MyApplcaition"@,
            test_type: "optional"@,
            description: "CSC Checker — Verify CSC specifications"@,
        },
    ]
}

fn item(
    id: &str,
    name: &str,
    jar: &str,
    main_class: &str,
    test_type: &str,
    description: &str,
) -> (t: TestItem)
    ensures
        t@ == (TestItemView {
            id: id@,
            name: name@,
            jar: jar@,
            main_class: main_class@,
            test_type: test_type@,
            description: description@,
        }),
{
    TestItem {
        id: id.to_owned(),
        name: name.to_owned(),
        jar: jar.to_owned(),
        main_class: main_class.to_owned(),
        test_type: test_type.to_owned(),
        description: description.to_owned(),
    }
}

/// The built-in catalogue of the five ATM tools.
pub fn get_default_tests() -> (tests: Vec<TestItem>)
    ensures
        items_view(tests@) == default_catalog(),
{
    let mut tests: Vec<TestItem> = Vec::new();
    tests.push(
        item(
            "bvt",
            "BVT",
            "BVT.jar",
            "com.bi.BVT.MainForm",
            "auto",
            "Build Verification Test — Verify permissions, build parameters, CDD compliance",
        ),
    );
    tests.push(
        item(
            "svt",
            "SVT",
            "SVT.jar",
            "com.ast.svt.MainKt",
            "auto",
            "Screenshot Verification Tool — Verify GMS placement rules",
        ),
    );
    tests.push(
        item(
            "sdt",
            "SDT",
            "SDT.jar",
            "com.sec.atm.Main",
            "auto",
            "Samsung Device Test — Verify device properties, security, apps",
        ),
    );
    tests.push(
        item(
            "getprop",
            "Getprop",
            "Getprop.jar",
            "com.sec.ui.Main",
            "auto",
            "Getprop — Verify build properties, security patch level",
        ),
    );
    tests.push(
        item(
            "cscchecker",
            "CSCChecker",
            "CSCChecker.jar",
            "MyApplcaition",
            "optional",
            "CSC Checker — Verify CSC specifications",
        ),
    );
    assert(items_view(tests@) =~= default_catalog());
    tests
}

/// The Java main class of a tool, by its name.
pub open spec fn main_class_of(name: Seq<char>) -> Seq<char> {
    if name == "BVT"@ {
        "com.bi.BVT.MainForm"@
    } else if name == "SVT"@ {
        "com.ast.svt.MainKt"@
    } else if name == "SDT"@ {
        "com.sec.atm.Main"@
    } else if name == "Getprop"@ {
        "com.sec.ui.Main"@
    } else if name == "CSCChecker"@ {
        "MyApplcaition"@
    } else {
        "com.sec.atm.Main"@
    }
}

pub fn main_class_for(name: &str) -> (c: String)
    ensures
        c@ == main_class_of(name@),
{
    if same_text(name, "BVT") {
        "com.bi.BVT.MainForm".to_string()
    } else if same_text(name, "SVT") {
        "com.ast.svt.MainKt".to_string()
    } else if same_text(name, "SDT") {
        "com.sec.atm.Main".to_string()
    } else if same_text(name, "Getprop") {
        "com.sec.ui.Main".to_string()
    } else if same_text(name, "CSCChecker") {
        "MyApplcaition".to_string()
    } else {
        "com.sec.atm.Main".to_string()
    }
}

/// A summary attribute with its character references resolved: `&#13;`
/// dropped, `&#10;` made a space, `&amp;` made `&`, in that order.
pub open spec fn decoded_summary(s: Seq<char>) -> Seq<char> {
    replaced(replaced(replaced(s, "&#13;"@, ""@), "&#10;"@, " "@), "&amp;"@, "&"@)
}

pub fn decode_summary(s: &str) -> (r: String)
    ensures
        r@ == decoded_summary(s@),
{
    proof {
        reveal_strlit("&#13;");
        reveal_strlit("&#10;");
        reveal_strlit("&amp;");
    }
    let v = chars_of(s);
    let a = replace_all(&v, &chars_of("&#13;"), &chars_of(""));
    let b = replace_all(&a, &chars_of("&#10;"), &chars_of(" "));
    let c = replace_all(&b, &chars_of("&amp;"), &chars_of("&"));
    string_of(&c)
}

/// The text of capture group `i`; empty where the group is missing or took
/// no part in the match.
pub open spec fn group_text(groups: Seq<Option<Seq<char>>>, i: int) -> Seq<char> {
    if 0 <= i < groups.len() && groups[i] is Some {
        groups[i]->0
    } else {
        seq![]
    }
}

fn group_string(groups: &Vec<Option<String>>, i: usize) -> (s: String)
    ensures
        s@ == group_text(groups.deep_view(), i as int),
{
    if i < groups.len() {
        match &groups[i] {
            Some(t) => t.clone(),
            None => String::new(),
        }
    } else {
        String::new()
    }
}

/// The test that one match of the `TestInfo.xml` pattern describes: group 1
/// is the name, 2 the jar file, 3 the summary and 4 the type.
pub open spec fn item_from_groups(groups: Seq<Option<Seq<char>>>) -> TestItemView {
    let name = group_text(groups, 1);
    let jar = group_text(groups, 2);
    TestItemView {
        id: lowercase(name),
        name: name,
        jar: if jar.len() == 0 {
            name + ".jar"@
        } else {
            jar
        },
        main_class: main_class_of(name),
        test_type: group_text(groups, 4),
        description: decoded_summary(group_text(groups, 3)),
    }
}

pub fn test_from_groups(groups: &Vec<Option<String>>) -> (t: TestItem)
    ensures
        t@ == item_from_groups(groups.deep_view()),
{
    let name = group_string(groups, 1);
    let jar = group_string(groups, 2);
    let summary = group_string(groups, 3);
    let test_type = group_string(groups, 4);
    let jar = if jar.as_str().is_empty() {
        concat(name.as_str(), ".jar")
    } else {
        jar
    };
    TestItem {
        id: to_lowercase(name.as_str()),
        main_class: main_class_for(name.as_str()),
        name: name,
        jar: jar,
        test_type: test_type,
        description: decode_summary(summary.as_str()),
    }
}

/// The catalogue that the matches of the `TestInfo.xml` pattern describe;
/// the built-in catalogue when there is none.
pub open spec fn catalog_from_matches(matches: Seq<Seq<Option<Seq<char>>>>) -> Seq<
    TestItemView,
> {
    if matches.len() == 0 {
        default_catalog()
    } else {
        matches.map_values(|g: Seq<Option<Seq<char>>>| item_from_groups(g))
    }
}

pub fn tests_from_matches(matches: &Vec<Vec<Option<String>>>) -> (tests: Vec<TestItem>)
    ensures
        items_view(tests@) == catalog_from_matches(matches.deep_view()),
{
    if matches.len() == 0 {
        return get_default_tests();
    }
    let mut tests: Vec<TestItem> = Vec::new();
    let mut i: usize = 0;
    while i < matches.len()
        invariant
            i <= matches.len(),
            items_view(tests@) == matches.deep_view().take(i as int).map_values(
                |g: Seq<Option<Seq<char>>>| item_from_groups(g),
            ),
        decreases matches.len() - i,
    {
        let t = test_from_groups(&matches[i]);
        let ghost before = tests@;
        tests.push(t);
        assert(matches.deep_view()[i as int] == matches@[i as int].deep_view());
        assert(tests@ =~= before.push(t));
        assert(items_view(tests@) =~= items_view(before).push(t@));
        assert(items_view(tests@) =~= matches.deep_view().take(i + 1).map_values(
            |g: Seq<Option<Seq<char>>>| item_from_groups(g),
        ));
        i = i + 1;
    }
    assert(matches.deep_view().take(i as int) =~= matches.deep_view());
    tests
}

/// The pattern of a test entry in `TestInfo.xml`.
pub open spec fn test_entry_pattern() -> Seq<char> {
    r#"<(?:Test|Optional)\s+[^>]*name="([^"]+)"[^>]*exefile="([^"]*)"[^>]*summary="([^"]*)"[^>]*type="([^"]*)"[^>]*/?\s*>"#@
}

/// The pattern of the suite version in `TestInfo.xml`.
pub open spec fn version_pattern() -> Seq<char> {
    r#"TestList\s+version="([^"]+)""#@
}

/// The catalogue for a `TestInfo.xml` with the given content, or for none.
pub open spec fn catalog_for(test_info: Option<Seq<char>>) -> Seq<TestItemView> {
    match test_info {
        None => default_catalog(),
        Some(content) => if regex_compiles(test_entry_pattern()) {
            catalog_from_matches(regex_all_matches(test_entry_pattern(), content))
        } else {
            default_catalog()
        },
    }
}

/// The tests offered for a suite whose `TestInfo.xml` holds `test_info`
/// (`None` where there is no such file, or no ATM folder is set).
pub fn available_tests(test_info: Option<&str>) -> (tests: Vec<TestItem>)
    ensures
        items_view(tests@) == catalog_for(
            match test_info {
                Some(c) => Some(c@),
                None => None,
            },
        ),
{
    match test_info {
        None => get_default_tests(),
        Some(content) => {
            match Pattern::compile(
                r#"<(?:Test|Optional)\s+[^>]*name="([^"]+)"[^>]*exefile="([^"]*)"[^>]*summary="([^"]*)"[^>]*type="([^"]*)"[^>]*/?\s*>"#,
            ) {
                Ok(p) => {
                    let matches = regex_captures_iter(&p, content);
                    tests_from_matches(&matches)
                },
                Err(_) => get_default_tests(),
            }
        },
    }
}

/// The suite version that a match of the version pattern gives: group 1,
/// or `"N/A"`.
pub open spec fn version_from(found: Option<Seq<Option<Seq<char>>>>) -> Seq<char> {
    match found {
        Some(groups) => if 1 < groups.len() && groups[1] is Some {
            groups[1]->0
        } else {
            "N/A"@
        },
        None => "N/A"@,
    }
}

pub fn version_from_match(found: &Option<Vec<Option<String>>>) -> (v: String)
    ensures
        v@ == version_from(found.deep_view()),
{
    match found {
        Some(groups) => {
            if 1 < groups.len() {
                match &groups[1] {
                    Some(v) => v.clone(),
                    None => "N/A".to_string(),
                }
            } else {
                "N/A".to_string()
            }
        },
        None => "N/A".to_string(),
    }
}

/// The suite version for a `TestInfo.xml` with the given content, or for
/// none.
pub open spec fn version_for(test_info: Option<Seq<char>>) -> Seq<char> {
    match test_info {
        None => "N/A"@,
        Some(content) => if regex_compiles(version_pattern()) {
            version_from(regex_first_match(version_pattern(), content))
        } else {
            "N/A"@
        },
    }
}

/// The version of the tool suite: the `version` attribute of `TestList` in
/// `test_info`, or `"N/A"`.
pub fn tools_version(test_info: Option<&str>) -> (v: String)
    ensures
        v@ == version_for(
            match test_info {
                Some(c) => Some(c@),
                None => None,
            },
        ),
{
    match test_info {
        None => "N/A".to_string(),
        Some(content) => {
            match Pattern::compile(r#"TestList\s+version="([^"]+)""#) {
                Ok(p) => {
                    let found = regex_captures(&p, content);
                    version_from_match(&found)
                },
                Err(_) => "N/A".to_string(),
            }
        },
    }
}

/// The catalogue offered is never empty and names a jar file for every
/// test.
pub proof fn law_catalog_complete(test_info: Option<Seq<char>>)
    ensures
        catalog_for(test_info).len() > 0,
        forall|i: int|
            0 <= i < catalog_for(test_info).len() ==> #[trigger] catalog_for(test_info)[i].jar.len()
                > 0,
{
    reveal_strlit(".jar");
    reveal_strlit("BVT.jar");
    reveal_strlit("SVT.jar");
    reveal_strlit("SDT.jar");
    reveal_strlit("Getprop.jar");
    reveal_strlit("CSCChecker.jar");
}

/// A `TestInfo.xml` with test entries gives one test per entry, in order.
pub proof fn law_one_test_per_entry(content: Seq<char>, i: int)
    requires
        regex_compiles(test_entry_pattern()),
        0 <= i < regex_all_matches(test_entry_pattern(), content).len(),
    ensures
        catalog_for(Some(content)).len() == regex_all_matches(test_entry_pattern(), content).len(),
        catalog_for(Some(content))[i] == item_from_groups(
            regex_all_matches(test_entry_pattern(), content)[i],
        ),
{
}

/// The built-in catalogue agrees with the rules applied to `TestInfo.xml`:
/// each jar is the name followed by `.jar`, each main class is the one the
/// name maps to, the ids are pairwise distinct, and every tool is automatic
/// except the CSC checker, which is optional.
pub proof fn law_default_catalog_consistent()
    ensures
        forall|i: int|
            0 <= i < default_catalog().len() ==> {
                let t = #[trigger] default_catalog()[i];
                &&& t.jar == t.name + ".jar"@
                &&& t.main_class == main_class_of(t.name)
                &&& t.test_type == (if i == 4 {
                    "optional"@
                } else {
                    "auto"@
                })
            },
        forall|i: int, j: int|
            0 <= i < j < default_catalog().len() ==> #[trigger] default_catalog()[i].id
                != #[trigger] default_catalog()[j].id,
{
    reveal_strlit(".jar");
    reveal_strlit("BVT");
    reveal_strlit("SVT");
    reveal_strlit("SDT");
    reveal_strlit("Getprop");
    reveal_strlit("CSCChecker");
    reveal_strlit("BVT.jar");
    reveal_strlit("SVT.jar");
    reveal_strlit("SDT.jar");
    reveal_strlit("Getprop.jar");
    reveal_strlit("CSCChecker.jar");
    reveal_strlit("bvt");
    reveal_strlit("svt");
    reveal_strlit("sdt");
    reveal_strlit("getprop");
    reveal_strlit("cscchecker");
    let c = default_catalog();
    assert(c[0].jar =~= c[0].name + ".jar"@);
    assert(c[1].jar =~= c[1].name + ".jar"@);
    assert(c[2].jar =~= c[2].name + ".jar"@);
    assert(c[3].jar =~= c[3].name + ".jar"@);
    assert(c[4].jar =~= c[4].name + ".jar"@);
    assert(c[0].id[0] != c[1].id[0] && c[0].id[0] != c[2].id[0] && c[0].id[0] != c[3].id[0]
        && c[0].id[0] != c[4].id[0]);
    assert(c[1].id[1] != c[2].id[1]);
    assert(c[1].id[0] != c[3].id[0] && c[1].id[0] != c[4].id[0]);
    assert(c[2].id[0] != c[3].id[0] && c[2].id[0] != c[4].id[0]);
    assert(c[3].id[0] != c[4].id[0]);
    assert(c[1].name[0] != "BVT"@[0]);
    assert(c[2].name[0] != "BVT"@[0] && c[2].name[1] != "SVT"@[1]);
    assert(c[3].name[0] != "BVT"@[0] && c[3].name[0] != "SVT"@[0] && c[3].name[0] != "SDT"@[0]);
    assert(c[4].name[0] != "BVT"@[0] && c[4].name[1] != "SVT"@[1] && c[4].name[1] != "SDT"@[1]
        && c[4].name[0] != "Getprop"@[0]);
    assert forall|i: int| 0 <= i < c.len() implies {
        let t = #[trigger] c[i];
        &&& t.jar == t.name + ".jar"@
        &&& t.main_class == main_class_of(t.name)
        &&& t.test_type == (if i == 4 {
            "optional"@
        } else {
            "auto"@
        })
    } by {
        if i == 0 {
        } else if i == 1 {
        } else if i == 2 {
        } else if i == 3 {
        } else {
        }
    }
}

/// Each character reference of a summary is resolved on its own: between
/// texts `a` and `b` that hold no `&`, `&#10;` becomes one space, `&#13;`
/// disappears, `&#13;&#10;` becomes one space, and `&amp;` becomes `&`;
/// a text without `&` is kept as it is.
pub proof fn law_summary_references(a: Seq<char>, b: Seq<char>)
    requires
        free_of(a, '&'),
        free_of(b, '&'),
    ensures
        decoded_summary(a + "&#10;"@ + b) == a + " "@ + b,
        decoded_summary(a + "&#13;"@ + b) == a + b,
        decoded_summary(a + "&#13;&#10;"@ + b) == a + " "@ + b,
        decoded_summary(a + "&amp;"@ + b) == a + "&"@ + b,
        decoded_summary(a) == a,
{
    reveal_strlit("&#13;");
    reveal_strlit("&#10;");
    reveal_strlit("&amp;");
    reveal_strlit("&#13;&#10;");
    reveal_strlit(" ");
    reveal_strlit("&");
    reveal_strlit("");
    let cr = "&#13;"@;
    let lf = "&#10;"@;
    let amp = "&amp;"@;
    let sp = " "@;
    let e = Seq::<char>::empty();
    assert(""@ =~= e);
    assert(cr[3] != lf[3]);
    assert(cr[1] != amp[1] && lf[1] != amp[1]);
    assert(free_of(cr.drop_first(), '&'));
    assert(free_of(lf.drop_first(), '&'));
    assert(free_of(amp.drop_first(), '&'));
    let a_sp_b = a + sp + b;
    assert(free_of(a_sp_b, '&'));
    let a_b = a + b;
    assert(free_of(a_b, '&'));
    // a plain text
    lemma_replaced_untouched(a, cr, ""@);
    lemma_replaced_untouched(a, lf, sp);
    lemma_replaced_untouched(a, amp, "&"@);
    lemma_replaced_untouched(b, cr, ""@);
    lemma_replaced_untouched(b, lf, sp);
    lemma_replaced_untouched(b, amp, "&"@);
    lemma_replaced_untouched(a_sp_b, cr, ""@);
    lemma_replaced_untouched(a_sp_b, lf, sp);
    lemma_replaced_untouched(a_sp_b, amp, "&"@);
    lemma_replaced_untouched(a_b, lf, sp);
    lemma_replaced_untouched(a_b, amp, "&"@);
    // &#10;
    lemma_replaced_around(a, lf, b, cr, ""@);
    lemma_replaced_around(a, lf, b, lf, sp);
    // &#13;
    lemma_replaced_around(a, cr, b, cr, ""@);
    assert(a + e + b =~= a_b);
    // &amp;
    let a_amp_b = a + amp + b;
    lemma_replaced_around(a, amp, b, cr, ""@);
    lemma_replaced_around(a, amp, b, lf, sp);
    lemma_replaced_around(a, amp, b, amp, "&"@);
    // &#13;&#10;
    assert("&#13;&#10;"@ =~= cr + lf);
    assert(a + (cr + lf) + b =~= a + cr + (lf + b));
    lemma_replaced_around(a, cr, lf + b, cr, ""@);
    assert(lf + b =~= e + lf + b);
    lemma_replaced_around(e, lf, b, cr, ""@);
    assert(e + lf + b =~= lf + b);
    assert(a + e + (lf + b) =~= a + lf + b);
}

} // verus!
