//! The API bridge plan and the host's naming conventions.
//!
//! The host exposes one global table to scripts, holding a `graphics`
//! sub-namespace of native drawing primitives and a fixed set of bundled
//! pure-script libraries under fixed keys.  The construction is a single
//! deterministic build step: this module states the plan (which library
//! lands under which key, and the well-known names scripts rely on), and
//! the surrounding binary carries it out against the live interpreter.
//! The path and argument conventions of the host live here too.

use vstd::prelude::*;
use vstd::string::StringSliceAdditionalSpecFns;

verus! {

/// The single global identifier under which scripts reach the host API and
/// the bundled libraries.
pub fn api_root_name() -> (s: &'static str)
    ensures
        s@ == "pesto"@,
{
    "pesto"
}

/// The key under which a script must define its per-frame callback inside
/// the API root table.
pub fn update_callback_key() -> (s: &'static str)
    ensures
        s@ == "update"@,
{
    "update"
}

/// The bundled pure-script libraries merged into the API root at startup.
#[derive(Debug, Clone, Copy, PartialEq, Eq, Structural)]
pub enum BundledLib {
    Collision,
    Object,
    Tween,
    Inspect,
    Json,
    Utils,
    Timer,
    Ecs,
}

/// The fixed key a bundled library is bound to inside the API root table.
pub fn bundled_lib_key(lib: BundledLib) -> (k: &'static str)
    ensures
        lib is Collision ==> k@ == "collision"@,
        lib is Object ==> k@ == "Object"@,
        lib is Tween ==> k@ == "tween"@,
        lib is Inspect ==> k@ == "inspect"@,
        lib is Json ==> k@ == "json"@,
        lib is Utils ==> k@ == "utils"@,
        lib is Timer ==> k@ == "timer"@,
        lib is Ecs ==> k@ == "ecs"@,
{
    match lib {
        BundledLib::Collision => "collision",
        BundledLib::Object => "Object",
        BundledLib::Tween => "tween",
        BundledLib::Inspect => "inspect",
        BundledLib::Json => "json",
        BundledLib::Utils => "utils",
        BundledLib::Timer => "timer",
        BundledLib::Ecs => "ecs",
    }
}

/// Every bundled library, in the order the merge evaluates them.
pub fn bundled_libs() -> (v: Vec<BundledLib>)
    ensures
        v@ == seq![
            BundledLib::Collision,
            BundledLib::Object,
            BundledLib::Tween,
            BundledLib::Inspect,
            BundledLib::Json,
            BundledLib::Utils,
            BundledLib::Timer,
            BundledLib::Ecs,
        ],
{
    let v: Vec<BundledLib> = vec![
        BundledLib::Collision,
        BundledLib::Object,
        BundledLib::Tween,
        BundledLib::Inspect,
        BundledLib::Json,
        BundledLib::Utils,
        BundledLib::Timer,
        BundledLib::Ecs,
    ];
    assert(v@ =~= seq![
        BundledLib::Collision,
        BundledLib::Object,
        BundledLib::Tween,
        BundledLib::Inspect,
        BundledLib::Json,
        BundledLib::Utils,
        BundledLib::Timer,
        BundledLib::Ecs,
    ]);
    v
}

/// The script directory to run: the single positional argument when exactly
/// one is given (the argument list then has two entries, the process name
/// first), the current directory otherwise.  Any other argument count is
/// deliberately ignored rather than rejected.
pub fn choose_directory(args: &Vec<String>) -> (d: String)
    ensures
        args@.len() == 2 ==> d@ == args@[1]@,
        args@.len() != 2 ==> d@ == "."@,
{
    if args.len() == 2 {
        args[1].clone()
    } else {
        ".".to_owned()
    }
}

/// The path of the entry script inside the script directory.
pub fn entry_script_path(dir: &str) -> (p: String)
    ensures
        p@ == dir@ + "/main.lua"@,
{
    let mut p = dir.to_owned();
    p.append("/main.lua");
    p
}

/// The search-path entry that lets `require`-style module resolution find
/// files under the script directory.
pub fn module_search_entry(dir: &str) -> (p: String)
    ensures
        p@ == dir@ + "/?.lua"@,
{
    let mut p = dir.to_owned();
    p.append("/?.lua");
    p
}

/// A path (as bytes) names a script file: it ends in `.lua` with a nonempty
/// final component before the extension, so a bare `.lua` file or directory
/// does not count.
pub open spec fn is_script_path(b: Seq<u8>) -> bool {
    &&& b.len() >= 5
    &&& b[b.len() - 4] == '.' as u8
    &&& b[b.len() - 3] == 'l' as u8
    &&& b[b.len() - 2] == 'u' as u8
    &&& b[b.len() - 1] == 'a' as u8
    &&& b[b.len() - 5] != '/' as u8
}

/// Decide whether a discovered file is a script file the formatter should
/// rewrite, from its path.
pub fn is_script_file(path: &str) -> (r: bool)
    ensures
        r == is_script_path(path.spec_bytes()),
{
    let b = path.as_bytes();
    let len = b.len();
    len >= 5 && b[len - 4] == ('.' as u8) && b[len - 3] == ('l' as u8) && b[len - 2] == ('u' as u8)
        && b[len - 1] == ('a' as u8) && b[len - 5] != ('/' as u8)
}

} // verus!
