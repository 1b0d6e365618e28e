//! Where the worker's launchable artifact is looked for, and in which order.
use vstd::prelude::*;
use crate::types::BackendType;

verus! {

#[derive(Debug, Clone, Copy, PartialEq, Eq)]
pub enum Platform {
    Windows,
    MacOs,
    Linux,
}

#[derive(Debug, Clone, Copy, PartialEq, Eq)]
pub enum LocateError {
    /// Neither a binary nor an interpreter with a script was found.
    BackendNotFound,
    /// No interpreter was found.
    PythonNotFound,
}

pub open spec fn exe_suffix(p: Platform) -> Seq<char> {
    if p == Platform::Windows {
        ".exe"@
    } else {
        ""@
    }
}

pub open spec fn binary_name_spec(p: Platform) -> Seq<char> {
    "excel-backend"@ + exe_suffix(p)
}

/// The candidate paths of the binary, in order: the packaged resource (when a resource
/// directory is known), the development tree, then the program's own directory.
pub open spec fn binary_candidates_spec(p: Platform, resource_dir: Option<Seq<char>>) -> Seq<
    Seq<char>,
> {
    let dev = "../backend/excel-backend/"@ + binary_name_spec(p);
    let local = "backend/excel-backend/"@ + binary_name_spec(p);
    match resource_dir {
        Some(d) => seq![d + "/_up_/backend/excel-backend/"@ + binary_name_spec(p), dev, local],
        None => seq![dev, local],
    }
}

/// Interpreters of a local virtual environment, in order.
pub open spec fn venv_candidates_spec(p: Platform) -> Seq<Seq<char>> {
    if p == Platform::Windows {
        seq![
            "../src-python/.venv/Scripts/python.exe"@,
            ".venv/Scripts/python.exe"@,
            "../src-python/.venv/Scripts/python3.exe"@,
            ".venv/Scripts/python3.exe"@,
        ]
    } else {
        seq![
            "../src-python/.venv/bin/python"@,
            ".venv/bin/python"@,
            "../src-python/.venv/bin/python3"@,
            ".venv/bin/python3"@,
        ]
    }
}

/// Interpreter names looked up on the search path, in order.
pub open spec fn system_python_spec(p: Platform) -> Seq<Seq<char>> {
    if p == Platform::Windows {
        seq!["python.exe"@, "python3.exe"@, "python"@]
    } else {
        seq!["python3"@, "python"@]
    }
}

/// Scripts of the development tree, in order.
pub open spec fn script_candidates_spec() -> Seq<Seq<char>> {
    seq!["../src-python/src/main.py"@, "../src-python/main.py"@]
}

pub open spec fn texts(v: Seq<String>) -> Seq<Seq<char>> {
    v.map_values(|s: String| s@)
}

/// `i` is the first index at which `flags` holds.
pub open spec fn is_first_true(flags: Seq<bool>, i: int) -> bool {
    0 <= i < flags.len() && flags[i] && forall|j: int| 0 <= j < i ==> !flags[j]
}

fn text(s: &str) -> (r: String)
    ensures
        r@ == s@,
{
    String::from_str(s)
}

/// `excel-backend`, with `.exe` on Windows.
pub fn binary_name(p: Platform) -> (r: String)
    ensures
        r@ == binary_name_spec(p),
{
    let base = text("excel-backend");
    match p {
        Platform::Windows => base.concat(".exe"),
        _ => {
            proof {
                reveal_strlit("");
                assert(base@ + ""@ =~= base@);
            }
            base
        },
    }
}

pub fn binary_candidates(p: Platform, resource_dir: Option<&str>) -> (r: Vec<String>)
    ensures
        texts(r@) == binary_candidates_spec(p, match resource_dir {
            Some(d) => Some(d@),
            None => None,
        }),
{
    let name = binary_name(p);
    let mut r: Vec<String> = Vec::new();
    if let Some(d) = resource_dir {
        r.push(text(d).concat("/_up_/backend/excel-backend/").concat(name.as_str()));
    }
    r.push(text("../backend/excel-backend/").concat(name.as_str()));
    r.push(text("backend/excel-backend/").concat(name.as_str()));
    assert(texts(r@) =~= binary_candidates_spec(p, match resource_dir {
        Some(d) => Some(d@),
        None => None,
    }));
    r
}

pub fn venv_candidates(p: Platform) -> (r: Vec<String>)
    ensures
        texts(r@) == venv_candidates_spec(p),
{
    let r = match p {
        Platform::Windows => vec![
            text("../src-python/.venv/Scripts/python.exe"),
            text(".venv/Scripts/python.exe"),
            text("../src-python/.venv/Scripts/python3.exe"),
            text(".venv/Scripts/python3.exe"),
        ],
        _ => vec![
            text("../src-python/.venv/bin/python"),
            text(".venv/bin/python"),
            text("../src-python/.venv/bin/python3"),
            text(".venv/bin/python3"),
        ],
    };
    assert(texts(r@) =~= venv_candidates_spec(p));
    r
}

pub fn system_python_names(p: Platform) -> (r: Vec<String>)
    ensures
        texts(r@) == system_python_spec(p),
{
    let r = match p {
        Platform::Windows => vec![text("python.exe"), text("python3.exe"), text("python")],
        _ => vec![text("python3"), text("python")],
    };
    assert(texts(r@) =~= system_python_spec(p));
    r
}

pub fn script_candidates() -> (r: Vec<String>)
    ensures
        texts(r@) == script_candidates_spec(),
{
    let r = vec![text("../src-python/src/main.py"), text("../src-python/main.py")];
    assert(texts(r@) =~= script_candidates_spec());
    r
}

/// Where a packaged resource `folder1/folder2/filename` lies, relative to the program:
/// under `../Resources/_up_` on macOS, under `resources` elsewhere.
pub fn get_bundled_resource_path(p: Platform, folder1: &str, folder2: &str, filename: &str) -> (r:
    String)
    ensures
        r@ == (if p == Platform::MacOs {
            "../Resources/_up_/"@
        } else {
            "resources/"@
        }) + folder1@ + "/"@ + folder2@ + "/"@ + filename@,
{
    let root = match p {
        Platform::MacOs => text("../Resources/_up_/"),
        _ => text("resources/"),
    };
    root.concat(folder1).concat("/").concat(folder2).concat("/").concat(filename)
}

/// The first index whose flag is set: the first candidate that exists wins.
pub fn first_existing(exists: &[bool]) -> (r: Option<usize>)
    ensures
        r is Some ==> is_first_true(exists@, r->0 as int),
        r is None ==> forall|j: int| 0 <= j < exists@.len() ==> !exists@[j],
{
    let mut i: usize = 0;
    while i < exists.len()
        invariant
            0 <= i <= exists@.len(),
            forall|j: int| 0 <= j < i ==> !exists@[j],
        decreases exists@.len() - i,
    {
        if exists[i] {
            return Some(i);
        }
        i += 1;
    }
    None
}

/// The first candidate whose flag is set, if any.
pub fn pick_first(candidates: &Vec<String>, exists: &[bool]) -> (r: Option<String>)
    requires
        candidates@.len() == exists@.len(),
    ensures
        r is Some <==> exists|i: int| 0 <= i < exists@.len() && exists@[i],
        r is Some ==> exists|i: int| is_first_true(exists@, i) && r->0 == candidates@[i],
{
    match first_existing(exists) {
        Some(i) => Some(candidates[i].clone()),
        None => None,
    }
}

/// The interpreter to use: the first virtual-environment interpreter found, else the
/// first found on the search path.
pub fn find_python_executable(venv: Option<String>, system: Option<String>) -> (r: Result<
    String,
    LocateError,
>)
    ensures
        venv is Some ==> r == Ok::<String, LocateError>(venv->0),
        venv is None && system is Some ==> r == Ok::<String, LocateError>(system->0),
        venv is None && system is None ==> r == Err::<String, LocateError>(
            LocateError::PythonNotFound,
        ),
{
    match venv {
        Some(v) => Ok(v),
        None => match system {
            Some(s) => Ok(s),
            None => Err(LocateError::PythonNotFound),
        },
    }
}

/// Release artifacts win over development scripts: a found binary is launched
/// directly; otherwise a script under the found interpreter; otherwise nothing.
pub fn detect_backend(
    binary: Option<String>,
    python: Result<String, LocateError>,
    script: Option<String>,
) -> (r: Result<BackendType, LocateError>)
    ensures
        binary is Some ==> r == Ok::<BackendType, LocateError>(
            BackendType::Binary { binary_path: binary->0 },
        ),
        binary is None && python is Ok && script is Some ==> r == Ok::<BackendType, LocateError>(
            BackendType::PythonScript { python_path: python->Ok_0, script_path: script->0 },
        ),
        binary is None && !(python is Ok && script is Some) ==> r == Err::<
            BackendType,
            LocateError,
        >(LocateError::BackendNotFound),
{
    if let Some(b) = binary {
        return Ok(BackendType::Binary { binary_path: b });
    }
    match (python, script) {
        (Ok(p), Some(s)) => Ok(BackendType::PythonScript { python_path: p, script_path: s }),
        _ => Err(LocateError::BackendNotFound),
    }
}

impl LocateError {
    pub fn message(&self) -> (r: String)
        ensures
            *self == LocateError::BackendNotFound ==> r@
                == "No Python backend found (neither binary nor script)"@,
            *self == LocateError::PythonNotFound ==> r@ == "No Python executable found"@,
            r@.len() > 0,
    {
        proof {
            reveal_strlit("No Python backend found (neither binary nor script)");
            reveal_strlit("No Python executable found");
        }
        match self {
            LocateError::BackendNotFound => text("No Python backend found (neither binary nor script)"),
            LocateError::PythonNotFound => text("No Python executable found"),
        }
    }
}

} // verus!
