//! Project scaffolding: the fixed file templates a fresh project starts
//! from, and the plan of directories and files that generation produces.
//!
//! Writing the plan to disk is left to the unverified shell; this module
//! fixes exactly which paths are created and what each file holds.

use vstd::prelude::*;
use vstd::string::StringExecFns;

use crate::reader::spec_strip_trailing_slash;
use crate::reader::strip_trailing_slash;

verus! {

pub open spec fn spec_toml_template() -> Seq<char> {
    "ip = \"127.0.0.1\"\nport = 8080\n\n[async]\nsafe_async = true\n\n[documents]\nhello = \"./endpoints/hello.py\"\n    "@
}

pub open spec fn spec_lib_template() -> Seq<char> {
    "import athen_rs\n\ndef register(func=None, mode=\"\"):\n    if func:\n        return athen_rs.register_func(func, \"run\")\n    else:\n        def wrapper(function):\n            return athen_rs.register_func(function, mode)\n        return wrapper\n    "@
}

pub open spec fn spec_rs_lib_template() -> Seq<char> {
    "\n"@
}

pub open spec fn spec_demo_template() -> Seq<char> {
    "from athen import register\n\n@register(mode = \"run\")\ndef run(query: dict) -> str:\n    return \"Hello World!\"\n    "@
}

/// The starter configuration file.
pub fn get_toml_data() -> (r: &'static str)
    ensures
        r@ == spec_toml_template(),
{
    "ip = \"127.0.0.1\"\nport = 8080\n\n[async]\nsafe_async = true\n\n[documents]\nhello = \"./endpoints/hello.py\"\n    "
}

/// The bootstrap library script with the decorator-style sugar around the
/// raw registration bridge.
pub fn get_lib_data() -> (r: &'static str)
    ensures
        r@ == spec_lib_template(),
{
    "import athen_rs\n\ndef register(func=None, mode=\"\"):\n    if func:\n        return athen_rs.register_func(func, \"run\")\n    else:\n        def wrapper(function):\n            return athen_rs.register_func(function, mode)\n        return wrapper\n    "
}

/// The placeholder module the interpreter-side bridge replaces at runtime.
pub fn get_rs_lib_data() -> (r: &'static str)
    ensures
        r@ == spec_rs_lib_template(),
{
    "\n"
}

/// The demo document script.
pub fn get_demo_data() -> (r: &'static str)
    ensures
        r@ == spec_demo_template(),
{
    "from athen import register\n\n@register(mode = \"run\")\ndef run(query: dict) -> str:\n    return \"Hello World!\"\n    "
}

/// What project generation creates: directories to make and files to
/// write, each with its full contents, in order.
pub struct FilePlan {
    pub dirs: Vec<String>,
    pub files: Vec<(String, String)>,
}

/// The exact plan generation produces for a target path.
pub open spec fn spec_plan_for(plan: FilePlan, path: Seq<char>) -> bool {
    let base = spec_strip_trailing_slash(path);
    &&& plan.dirs@.len() == 1
    &&& plan.dirs@[0]@ == "./endpoints/"@
    &&& plan.files@.len() == 4
    &&& plan.files@[0].0@ == base + "/Athen.toml"@
    &&& plan.files@[0].1@ == spec_toml_template()
    &&& plan.files@[1].0@ == base + "/athen.py"@
    &&& plan.files@[1].1@ == spec_lib_template()
    &&& plan.files@[2].0@ == base + "/athen_rs.py"@
    &&& plan.files@[2].1@ == spec_rs_lib_template()
    &&& plan.files@[3].0@ == base + "/endpoints/hello.py"@
    &&& plan.files@[3].1@ == spec_demo_template()
}

/// Plans a fresh project at `path`: the starter configuration, the
/// bootstrap library, the bridge placeholder, and the demo document under
/// a new endpoints directory.
pub fn generate_files(path: &str) -> (plan: FilePlan)
    ensures
        spec_plan_for(plan, path@),
{
    let stripped = strip_trailing_slash(path);

    let toml_path = stripped.clone().concat("/Athen.toml");
    let lib_path = stripped.clone().concat("/athen.py");
    let rs_lib_path = stripped.clone().concat("/athen_rs.py");
    let py_path = stripped.concat("/endpoints/hello.py");

    let mut dirs: Vec<String> = Vec::new();
    dirs.push("./endpoints/".to_owned());

    let mut files: Vec<(String, String)> = Vec::new();
    files.push((toml_path, get_toml_data().to_owned()));
    files.push((lib_path, get_lib_data().to_owned()));
    files.push((rs_lib_path, get_rs_lib_data().to_owned()));
    files.push((py_path, get_demo_data().to_owned()));

    FilePlan { dirs, files }
}

} // verus!
