//! The Java command line that runs one ATM tool on one device.

use vstd::prelude::*;
use crate::text::same_text;

verus! {

broadcast use vstd::string::group_string_axioms;

/// A file of the tools' `lib` folder, with its extension if it has one.
pub struct LibEntry {
    pub path: String,
    pub extension: Option<String>,
}

pub struct LibEntryView {
    pub path: Seq<char>,
    pub extension: Option<Seq<char>>,
}

impl View for LibEntry {
    type V = LibEntryView;

    open spec fn view(&self) -> LibEntryView {
        LibEntryView {
            path: self.path@,
            extension: match &self.extension {
                Some(e) => Some(e@),
                None => None,
            },
        }
    }
}

pub open spec fn libs_view(v: Seq<LibEntry>) -> Seq<LibEntryView> {
    v.map_values(|l: LibEntry| l@)
}

pub open spec fn texts_view(v: Seq<String>) -> Seq<Seq<char>> {
    v.map_values(|s: String| s@)
}

/// The paths of the `.jar` files among `libs`, in order.
pub open spec fn lib_jars(libs: Seq<LibEntryView>) -> Seq<Seq<char>>
    decreases libs.len(),
{
    if libs.len() == 0 {
        seq![]
    } else {
        let rest = lib_jars(libs.drop_last());
        if libs.last().extension == Some("jar"@) {
            rest.push(libs.last().path)
        } else {
            rest
        }
    }
}

/// The parts joined with `sep` between each two.
pub open spec fn joined(parts: Seq<Seq<char>>, sep: Seq<char>) -> Seq<char>
    decreases parts.len(),
{
    if parts.len() == 0 {
        seq![]
    } else if parts.len() == 1 {
        parts[0]
    } else {
        joined(parts.drop_last(), sep) + sep + parts.last()
    }
}

/// Whether a tool is started through its main class with a class path.
pub open spec fn runs_with_classpath(test_id: Seq<char>) -> bool {
    test_id == "sdt"@ || test_id == "getprop"@ || test_id == "bvt"@
}

/// The main class of a tool started with a class path.
pub open spec fn tool_main_class(test_id: Seq<char>) -> Seq<char> {
    if test_id == "sdt"@ {
        "com.sec.atm.Main"@
    } else if test_id == "getprop"@ {
        "com.sec.ui.Main"@
    } else if test_id == "bvt"@ {
        "com.bi.BVT.MainForm"@
    } else {
        "com.sec.atm.Main"@
    }
}

/// A process to start.
pub struct LaunchCommand {
    pub program: String,
    pub args: Vec<String>,
    /// The folder the process runs in.
    pub working_dir: String,
    /// A folder to create before the process starts.
    pub output_dir: Option<String>,
}

pub struct LaunchCommandView {
    pub program: Seq<char>,
    pub args: Seq<Seq<char>>,
    pub working_dir: Seq<char>,
    pub output_dir: Option<Seq<char>>,
}

impl View for LaunchCommand {
    type V = LaunchCommandView;

    open spec fn view(&self) -> LaunchCommandView {
        LaunchCommandView {
            program: self.program@,
            args: texts_view(self.args@),
            working_dir: self.working_dir@,
            output_dir: match &self.output_dir {
                Some(d) => Some(d@),
                None => None,
            },
        }
    }
}

/// How a tool is run: SVT silently with its own output folder under
/// `results/SVT/<serial>`; SDT, Getprop and BVT through their main class
/// with the jar and the `.jar` files of `lib` on the class path, in automatic
/// mode; any other tool as `java -jar <jar> -s <serial>`. All run in the ATM
/// folder.
pub open spec fn launch_plan(
    test_id: Seq<char>,
    jar_path: Seq<char>,
    serial: Seq<char>,
    atm_path: Seq<char>,
    libs: Seq<LibEntryView>,
    sep: Seq<char>,
) -> LaunchCommandView {
    if test_id == "svt"@ {
        let out = atm_path + "/results/SVT/"@ + serial;
        LaunchCommandView {
            program: "java"@,
            args: seq!["-jar"@, jar_path, "--silent"@, "-s"@, serial, "-o"@, out],
            working_dir: atm_path,
            output_dir: Some(out),
        }
    } else if runs_with_classpath(test_id) {
        LaunchCommandView {
            program: "java"@,
            args: seq![
                "-cp"@,
                joined(seq![jar_path] + lib_jars(libs), sep),
                tool_main_class(test_id),
                "-s"@,
                serial,
                "-auto"@,
                "-e"@,
                "auto-start"@,
            ],
            working_dir: atm_path,
            output_dir: None,
        }
    } else {
        LaunchCommandView {
            program: "java"@,
            args: seq!["-jar"@, jar_path, "-s"@, serial],
            working_dir: atm_path,
            output_dir: None,
        }
    }
}

/// Whether the tool needs the listing of the tools' `lib` folder.
pub fn uses_classpath(test_id: &str) -> (b: bool)
    ensures
        b == runs_with_classpath(test_id@),
{
    same_text(test_id, "sdt") || same_text(test_id, "getprop") || same_text(test_id, "bvt")
}

/// `jar` followed by the `.jar` files of `libs`, joined with `sep`.
pub fn classpath(jar: &str, libs: &Vec<LibEntry>, sep: &str) -> (cp: String)
    ensures
        cp@ == joined(seq![jar@] + lib_jars(libs_view(libs@)), sep@),
{
    let mut cp = jar.to_owned();
    let ghost parts = seq![jar@];
    let mut i: usize = 0;
    assert(libs_view(libs@).take(0) =~= Seq::<LibEntryView>::empty());
    assert(seq![jar@] + lib_jars(Seq::<LibEntryView>::empty()) =~= seq![jar@]);
    while i < libs.len()
        invariant
            i <= libs.len(),
            cp@ == joined(seq![jar@] + lib_jars(libs_view(libs@).take(i as int)), sep@),
        decreases libs.len() - i,
    {
        let ghost pre = seq![jar@] + lib_jars(libs_view(libs@).take(i as int));
        assert(libs_view(libs@).take(i + 1).drop_last() =~= libs_view(libs@).take(i as int));
        assert(libs_view(libs@).take(i + 1).last() == libs@[i as int]@);
        let is_jar = match &libs[i].extension {
            Some(e) => same_text(e.as_str(), "jar"),
            None => false,
        };
        if is_jar {
            cp.append(sep);
            cp.append(libs[i].path.as_str());
            let ghost post = seq![jar@] + lib_jars(libs_view(libs@).take(i + 1));
            assert(post =~= pre.push(libs@[i as int].path@));
            assert(post.drop_last() =~= pre);
        } else {
            assert(seq![jar@] + lib_jars(libs_view(libs@).take(i + 1)) =~= pre);
        }
        i = i + 1;
    }
    assert(libs_view(libs@).take(i as int) =~= libs_view(libs@));
    cp
}

fn main_class_of_tool(test_id: &str) -> (c: String)
    ensures
        c@ == tool_main_class(test_id@),
{
    if same_text(test_id, "sdt") {
        "com.sec.atm.Main".to_string()
    } else if same_text(test_id, "getprop") {
        "com.sec.ui.Main".to_string()
    } else if same_text(test_id, "bvt") {
        "com.bi.BVT.MainForm".to_string()
    } else {
        "com.sec.atm.Main".to_string()
    }
}

/// The command that runs tool `test_id` (its jar at `jar_path`) on device
/// `serial`; `libs` lists the tools' `lib` folder and `sep` is the
/// platform's class path separator.
pub fn launch_command(
    test_id: &str,
    jar_path: &str,
    serial: &str,
    atm_path: &str,
    libs: &Vec<LibEntry>,
    sep: &str,
) -> (c: LaunchCommand)
    ensures
        c@ == launch_plan(test_id@, jar_path@, serial@, atm_path@, libs_view(libs@), sep@),
{
    let mut args: Vec<String> = Vec::new();
    if same_text(test_id, "svt") {
        let mut out = atm_path.to_owned();
        out.append("/results/SVT/");
        out.append(serial);
        args.push("-jar".to_string());
        args.push(jar_path.to_owned());
        args.push("--silent".to_string());
        args.push("-s".to_string());
        args.push(serial.to_owned());
        args.push("-o".to_string());
        args.push(out.clone());
        let c = LaunchCommand {
            program: "java".to_string(),
            args: args,
            working_dir: atm_path.to_owned(),
            output_dir: Some(out),
        };
        assert(c@.args =~= launch_plan(test_id@, jar_path@, serial@, atm_path@, libs_view(libs@), sep@).args);
        c
    } else if uses_classpath(test_id) {
        args.push("-cp".to_string());
        args.push(classpath(jar_path, libs, sep));
        args.push(main_class_of_tool(test_id));
        args.push("-s".to_string());
        args.push(serial.to_owned());
        args.push("-auto".to_string());
        args.push("-e".to_string());
        args.push("auto-start".to_string());
        let c = LaunchCommand {
            program: "java".to_string(),
            args: args,
            working_dir: atm_path.to_owned(),
            output_dir: None,
        };
        assert(c@.args =~= launch_plan(test_id@, jar_path@, serial@, atm_path@, libs_view(libs@), sep@).args);
        c
    } else {
        args.push("-jar".to_string());
        args.push(jar_path.to_owned());
        args.push("-s".to_string());
        args.push(serial.to_owned());
        let c = LaunchCommand {
            program: "java".to_string(),
            args: args,
            working_dir: atm_path.to_owned(),
            output_dir: None,
        };
        assert(c@.args =~= launch_plan(test_id@, jar_path@, serial@, atm_path@, libs_view(libs@), sep@).args);
        c
    }
}

/// Every tool, whatever its id, is run by `java` in the ATM folder, and
/// only SVT gets a folder created for it, under the ATM folder.
pub proof fn law_launch_in_atm_folder(
    test_id: Seq<char>,
    jar_path: Seq<char>,
    serial: Seq<char>,
    atm_path: Seq<char>,
    libs: Seq<LibEntryView>,
    sep: Seq<char>,
)
    ensures
        ({
            let c = launch_plan(test_id, jar_path, serial, atm_path, libs, sep);
            &&& c.program == "java"@
            &&& c.working_dir == atm_path
            &&& c.output_dir is Some <==> test_id == "svt"@
            &&& c.output_dir matches Some(d) ==> d.take(atm_path.len() as int) == atm_path
            &&& c.args.contains(serial)
            &&& (c.args.contains(jar_path) || c.args[1].take(jar_path.len() as int) == jar_path)
        }),
{
    let c = launch_plan(test_id, jar_path, serial, atm_path, libs, sep);
    if test_id == "svt"@ {
        assert((atm_path + "/results/SVT/"@ + serial).take(atm_path.len() as int) =~= atm_path);
        assert(c.args[4] == serial);
        assert(c.args[1] == jar_path);
    } else if runs_with_classpath(test_id) {
        assert(c.args[4] == serial);
        lemma_joined_starts_with_first(seq![jar_path] + lib_jars(libs), sep);
        assert((seq![jar_path] + lib_jars(libs))[0] == jar_path);
    } else {
        assert(c.args[3] == serial);
        assert(c.args[1] == jar_path);
    }
}

proof fn lemma_joined_starts_with_first(parts: Seq<Seq<char>>, sep: Seq<char>)
    requires
        parts.len() > 0,
    ensures
        joined(parts, sep).len() >= parts[0].len(),
        joined(parts, sep).take(parts[0].len() as int) == parts[0],
    decreases parts.len(),
{
    if parts.len() == 1 {
        assert(joined(parts, sep).take(parts[0].len() as int) =~= parts[0]);
    } else {
        lemma_joined_starts_with_first(parts.drop_last(), sep);
        let j = joined(parts.drop_last(), sep);
        assert(parts.drop_last()[0] == parts[0]);
        assert((j + sep + parts.last()).take(parts[0].len() as int) =~= j.take(
            parts[0].len() as int,
        ));
    }
}

} // verus!
