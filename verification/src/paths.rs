//! Where the helper programs, scripts and environments are looked for, and
//! how paths are derived from one another.
//!
//! The file system is not read here: a [`HostPaths`] holds what the caller
//! found out about the machine (the program's directory, the working
//! directory, and which of the candidate paths exist), and every lookup is a
//! function of it.

use vstd::prelude::*;

verus! {

/// Text of `std::path::Path::join(base, part)`, following the path rules of
/// the platform the crate is built for.
pub uninterp spec fn joined_path(base: Seq<char>, part: Seq<char>) -> Seq<char>;

/// Text of `std::path::Path::parent(path)`, where there is one.
pub uninterp spec fn parent_path(path: Seq<char>) -> Option<Seq<char>>;

/// Text of `std::path::Path::extension(path)`, where there is one.
pub uninterp spec fn path_extension(path: Seq<char>) -> Option<Seq<char>>;

/// Text that `{:?}` writes for `std::path::Path::new(path)`.
pub uninterp spec fn quoted_path(path: Seq<char>) -> Seq<char>;

/// Calls `std::path::Path::join`; the contract names its result
/// [`joined_path`] and says nothing more of it. A path built from `&str` parts
/// is valid Unicode, so the lossy conversion back to text loses nothing.
#[verifier::external_body]
pub(crate) fn path_join(base: &str, part: &str) -> (r: String)
    ensures
        r@ == joined_path(base@, part@),
{
    std::path::Path::new(base).join(part).to_string_lossy().into_owned()
}

/// Calls `std::path::Path::parent`; the contract names its result
/// [`parent_path`] and says nothing more of it.
#[verifier::external_body]
pub(crate) fn path_parent(path: &str) -> (r: Option<String>)
    ensures
        match r {
            Some(p) => parent_path(path@) == Some(p@),
            None => parent_path(path@) is None,
        },
{
    std::path::Path::new(path).parent().map(|p| p.to_string_lossy().into_owned())
}

/// Calls `std::path::Path::extension`; the contract names its result
/// [`path_extension`] and says nothing more of it.
#[verifier::external_body]
pub(crate) fn extension_of(path: &str) -> (r: Option<String>)
    ensures
        match r {
            Some(e) => path_extension(path@) == Some(e@),
            None => path_extension(path@) is None,
        },
{
    std::path::Path::new(path).extension().map(|e| e.to_string_lossy().into_owned())
}

/// Formats `std::path::Path::new(path)` with `{:?}`; the contract names the
/// text [`quoted_path`] and says nothing more of it.
#[verifier::external_body]
pub(crate) fn path_debug(path: &str) -> (r: String)
    ensures
        r@ == quoted_path(path@),
{
    format!("{:?}", std::path::Path::new(path))
}

/// The operating system the paths belong to.
#[derive(Clone, Copy, PartialEq, Eq, Structural, Debug)]
pub enum Os {
    Windows,
    Other,
}

/// The characters of every string of a sequence.
pub open spec fn texts(v: Seq<String>) -> Seq<Seq<char>> {
    v.map_values(|s: String| s@)
}

/// A `Result` of strings taken by the characters it holds.
pub open spec fn text_result(r: Result<String, String>) -> Result<Seq<char>, Seq<char>> {
    match r {
        Ok(s) => Ok(s@),
        Err(e) => Err(e@),
    }
}

/// What the caller found out about the machine: the directory of the running
/// program (if known), the working directory (if known), and the candidate
/// paths that exist.
pub struct HostPaths {
    pub os: Os,
    pub exe_dir: Option<String>,
    pub cwd: Option<String>,
    pub existing: Vec<String>,
}

/// Whether `p` is among the paths known to exist.
pub open spec fn present(h: &HostPaths, p: Seq<char>) -> bool {
    texts(h.existing@).contains(p)
}

/// The first index from `i` on whose candidate exists.
pub open spec fn first_present_from(h: &HostPaths, cands: Seq<Seq<char>>, i: int) -> Option<int>
    decreases cands.len() - i,
{
    if i < 0 || i >= cands.len() {
        None
    } else if present(h, cands[i]) {
        Some(i)
    } else {
        first_present_from(h, cands, i + 1)
    }
}

/// The first candidate that exists, if any does.
pub open spec fn first_present(h: &HostPaths, cands: Seq<Seq<char>>) -> Option<Seq<char>> {
    match first_present_from(h, cands, 0) {
        Some(k) => Some(cands[k]),
        None => None,
    }
}

/// Search order: what [`first_present_from`] picks exists, and nothing before it does.
pub proof fn lemma_first_present_from(h: &HostPaths, cands: Seq<Seq<char>>, i: int)
    requires
        0 <= i,
    ensures
        match first_present_from(h, cands, i) {
            Some(k) => i <= k < cands.len() && present(h, cands[k]) && forall|j: int|
                i <= j < k ==> !present(h, #[trigger] cands[j]),
            None => forall|j: int| i <= j < cands.len() ==> !present(h, #[trigger] cands[j]),
        },
    decreases cands.len() - i,
{
    if i < cands.len() && !present(h, cands[i]) {
        lemma_first_present_from(h, cands, i + 1);
    }
}

impl HostPaths {
    /// Whether `p` is among the paths known to exist.
    pub fn knows(&self, p: &str) -> (r: bool)
        ensures
            r == present(self, p@),
    {
        let n = self.existing.len();
        let mut i: usize = 0;
        while i < n
            invariant
                n == self.existing@.len(),
                i <= n,
                forall|k: int| 0 <= k < i ==> self.existing@[k]@ != p@,
            decreases n - i,
        {
            if crate::text::same_text(self.existing[i].as_str(), p) {
                assert(texts(self.existing@)[i as int] == p@);
                return true;
            }
            i = i + 1;
        }
        assert(!texts(self.existing@).contains(p@)) by {
            if texts(self.existing@).contains(p@) {
                let k = choose|k: int| 0 <= k < texts(self.existing@).len() && texts(self.existing@)[k] == p@;
                assert(self.existing@[k]@ == p@);
            }
        }
        false
    }

    /// The index of the first candidate that exists.
    pub fn first_existing(&self, cands: &Vec<String>) -> (r: Option<usize>)
        ensures
            match r {
                Some(k) => k < cands@.len() && first_present_from(self, texts(cands@), 0) == Some(
                    k as int,
                ),
                None => first_present_from(self, texts(cands@), 0) is None,
            },
    {
        let n = cands.len();
        let mut i: usize = 0;
        while i < n
            invariant
                n == cands@.len(),
                i <= n,
                first_present_from(self, texts(cands@), 0) == first_present_from(self, texts(cands@), i as int),
            decreases n - i,
        {
            let found = self.knows(cands[i].as_str());
            assert(texts(cands@)[i as int] == cands@[i as int]@);
            if found {
                return Some(i);
            }
            i = i + 1;
        }
        None
    }
}


/// The file name of a helper program: `name.exe` on Windows, `name` elsewhere.
pub open spec fn program_file(os: Os, name: Seq<char>) -> Seq<char> {
    match os {
        Os::Windows => name + ".exe"@,
        Os::Other => name,
    }
}

/// The working directory as the tool search takes it: empty when unknown.
pub open spec fn cwd_or_empty(h: &HostPaths) -> Seq<char> {
    match h.cwd {
        Some(c) => c@,
        None => Seq::empty(),
    }
}

/// Where `name` is looked for, in order: `ffmpeg_bin/` beside the running
/// program, then in the working directory, then in its parent.
pub open spec fn tool_candidate_paths(h: &HostPaths, name: Seq<char>) -> Seq<Seq<char>> {
    let file = program_file(h.os, name);
    let cwd = cwd_or_empty(h);
    let beside = match h.exe_dir {
        Some(d) => seq![joined_path(joined_path(d@, "ffmpeg_bin"@), file)],
        None => Seq::empty(),
    };
    beside + seq![
        joined_path(joined_path(cwd, "ffmpeg_bin"@), file),
        joined_path(joined_path(joined_path(cwd, ".."@), "ffmpeg_bin"@), file),
    ]
}

/// The message given when a helper program is found nowhere.
pub open spec fn tool_missing_message(name: Seq<char>) -> Seq<char> {
    name + " not found in ffmpeg_bin/. Please run the setup script first."@
}

/// The first existing candidate for `name`, or the message saying it is missing.
pub open spec fn tool_lookup(h: &HostPaths, name: Seq<char>) -> Result<Seq<char>, Seq<char>> {
    match first_present(h, tool_candidate_paths(h, name)) {
        Some(p) => Ok(p),
        None => Err(tool_missing_message(name)),
    }
}

/// `name` with `.exe` added on Windows.
pub fn program_file_name(os: Os, name: &str) -> (r: String)
    ensures
        r@ == program_file(os, name@),
{
    match os {
        Os::Windows => String::from_str(name).concat(".exe"),
        Os::Other => String::from_str(name),
    }
}

impl HostPaths {
    /// The candidate paths of a helper program, in search order.
    pub fn tool_candidates(&self, name: &str) -> (r: Vec<String>)
        ensures
            texts(r@) == tool_candidate_paths(self, name@),
    {
        let file = program_file_name(self.os, name);
        let cwd = match &self.cwd {
            Some(c) => c.clone(),
            None => String::new(),
        };
        let mut r: Vec<String> = Vec::new();
        match &self.exe_dir {
            Some(d) => {
                let bin = path_join(d.as_str(), "ffmpeg_bin");
                r.push(path_join(bin.as_str(), file.as_str()));
            },
            None => {},
        }
        let bin = path_join(cwd.as_str(), "ffmpeg_bin");
        r.push(path_join(bin.as_str(), file.as_str()));
        let up = path_join(cwd.as_str(), "..");
        let up_bin = path_join(up.as_str(), "ffmpeg_bin");
        r.push(path_join(up_bin.as_str(), file.as_str()));
        assert(texts(r@) =~= tool_candidate_paths(self, name@));
        r
    }

    /// Finds a helper program: the first of its candidates that exists.
    pub fn find_tool(&self, name: &str) -> (r: Result<String, String>)
        ensures
            text_result(r) == tool_lookup(self, name@),
    {
        let cands = self.tool_candidates(name);
        match self.first_existing(&cands) {
            Some(k) => Ok(cands[k].clone()),
            None => Err(String::from_str(name).concat(
                " not found in ffmpeg_bin/. Please run the setup script first.",
            )),
        }
    }
}

/// Locates `ffmpeg` in the `ffmpeg_bin/` directory beside the program or the
/// working directory.
pub fn ffmpeg_exe(h: &HostPaths) -> (r: Result<String, String>)
    ensures
        text_result(r) == tool_lookup(h, "ffmpeg"@),
{
    h.find_tool("ffmpeg")
}

/// Locates `ffprobe` in the `ffmpeg_bin/` directory beside the program or the
/// working directory.
pub fn ffprobe_exe(h: &HostPaths) -> (r: Result<String, String>)
    ensures
        text_result(r) == tool_lookup(h, "ffprobe"@),
{
    h.find_tool("ffprobe")
}

/// Whether both `ffmpeg` and `ffprobe` were found.
pub fn check_ffmpeg(h: &HostPaths) -> (r: bool)
    ensures
        r == (tool_lookup(h, "ffmpeg"@) is Ok && tool_lookup(h, "ffprobe"@) is Ok),
{
    ffmpeg_exe(h).is_ok() && ffprobe_exe(h).is_ok()
}


/// The directory of a virtual environment that holds its programs.
pub open spec fn venv_bin_subdir(os: Os) -> Seq<char> {
    match os {
        Os::Windows => "Scripts"@,
        Os::Other => "bin"@,
    }
}

/// The file name of the Python interpreter.
pub open spec fn python_file(os: Os) -> Seq<char> {
    match os {
        Os::Windows => "python.exe"@,
        Os::Other => "python"@,
    }
}

/// Where a `.venv` is looked for, in order: beside the running program, in the
/// working directory, and in its parent.
pub open spec fn venv_dirs(h: &HostPaths) -> Seq<Seq<char>> {
    let beside = match h.exe_dir {
        Some(d) => seq![joined_path(d@, ".venv"@)],
        None => Seq::empty(),
    };
    let here = match h.cwd {
        Some(c) => seq![joined_path(c@, ".venv"@), joined_path(joined_path(c@, ".."@), ".venv"@)],
        None => Seq::empty(),
    };
    beside + here
}

/// The program directory of each candidate `.venv`.
pub open spec fn venv_bin_dirs(h: &HostPaths) -> Seq<Seq<char>> {
    venv_dirs(h).map_values(|v: Seq<char>| joined_path(v, venv_bin_subdir(h.os)))
}

/// The interpreter path of each candidate `.venv`.
pub open spec fn venv_python_paths(h: &HostPaths) -> Seq<Seq<char>> {
    venv_bin_dirs(h).map_values(|b: Seq<char>| joined_path(b, python_file(h.os)))
}

/// The program directory of the first `.venv` that holds an interpreter; when
/// none does, that of the first candidate (or of an empty path), so that a
/// later error names a useful place.
pub open spec fn venv_bin_dir(h: &HostPaths) -> Seq<char> {
    match first_present_from(h, venv_python_paths(h), 0) {
        Some(k) => venv_bin_dirs(h)[k],
        None => joined_path(
            if venv_dirs(h).len() > 0 {
                venv_dirs(h)[0]
            } else {
                Seq::empty()
            },
            venv_bin_subdir(h.os),
        ),
    }
}

/// The interpreter inside the chosen `.venv`.
pub open spec fn venv_python(h: &HostPaths) -> Seq<char> {
    joined_path(venv_bin_dir(h), python_file(h.os))
}

/// The result of looking for the interpreter: its path where it exists, else
/// the message asking to set the environment up.
pub open spec fn python_lookup(h: &HostPaths) -> Result<Seq<char>, Seq<char>> {
    if present(h, venv_python(h)) {
        Ok(venv_python(h))
    } else {
        Err("Python not found at "@ + venv_python(h) + ". Please initialize the environment first."@)
    }
}

fn bin_subdir_name(os: Os) -> (r: &'static str)
    ensures
        r@ == venv_bin_subdir(os),
{
    match os {
        Os::Windows => "Scripts",
        Os::Other => "bin",
    }
}

fn python_file_name(os: Os) -> (r: &'static str)
    ensures
        r@ == python_file(os),
{
    match os {
        Os::Windows => "python.exe",
        Os::Other => "python",
    }
}

impl HostPaths {
    /// The candidate `.venv` directories, in search order.
    pub fn venv_candidates(&self) -> (r: Vec<String>)
        ensures
            texts(r@) == venv_dirs(self),
    {
        let mut r: Vec<String> = Vec::new();
        match &self.exe_dir {
            Some(d) => r.push(path_join(d.as_str(), ".venv")),
            None => {},
        }
        match &self.cwd {
            Some(c) => {
                r.push(path_join(c.as_str(), ".venv"));
                let up = path_join(c.as_str(), "..");
                r.push(path_join(up.as_str(), ".venv"));
            },
            None => {},
        }
        assert(texts(r@) =~= venv_dirs(self));
        r
    }

    /// The program directories of the candidate `.venv` directories.
    fn venv_bin_candidates(&self) -> (r: Vec<String>)
        ensures
            texts(r@) == venv_bin_dirs(self),
    {
        let venvs = self.venv_candidates();
        let sub = bin_subdir_name(self.os);
        let mut r: Vec<String> = Vec::new();
        let n = venvs.len();
        let mut i: usize = 0;
        while i < n
            invariant
                n == venvs@.len(),
                texts(venvs@) == venv_dirs(self),
                sub@ == venv_bin_subdir(self.os),
                i <= n,
                texts(r@) =~= venv_bin_dirs(self).subrange(0, i as int),
            decreases n - i,
        {
            assert(texts(venvs@)[i as int] == venvs@[i as int]@);
            let ghost old_r = r@;
            let item = path_join(venvs[i].as_str(), sub);
            r.push(item);
            assert(texts(r@) =~= texts(old_r).push(item@));
            assert(venv_bin_dirs(self).len() == n);
            assert(venv_bin_dirs(self)[i as int] == joined_path(venv_dirs(self)[i as int], sub@));
            assert(texts(r@) =~= venv_bin_dirs(self).subrange(0, i + 1));
            i = i + 1;
        }
        assert(venv_bin_dirs(self).subrange(0, n as int) =~= venv_bin_dirs(self));
        r
    }

    /// The interpreter paths whose existence decides where the environment is.
    pub fn venv_python_candidates(&self) -> (r: Vec<String>)
        ensures
            texts(r@) == venv_python_paths(self),
    {
        let bins = self.venv_bin_candidates();
        let exe = python_file_name(self.os);
        let mut r: Vec<String> = Vec::new();
        let n = bins.len();
        let mut i: usize = 0;
        while i < n
            invariant
                n == bins@.len(),
                texts(bins@) == venv_bin_dirs(self),
                exe@ == python_file(self.os),
                i <= n,
                texts(r@) =~= venv_python_paths(self).subrange(0, i as int),
            decreases n - i,
        {
            assert(texts(bins@)[i as int] == bins@[i as int]@);
            let ghost old_r = r@;
            let item = path_join(bins[i].as_str(), exe);
            r.push(item);
            assert(texts(r@) =~= texts(old_r).push(item@));
            assert(venv_python_paths(self).len() == n);
            assert(venv_python_paths(self)[i as int] == joined_path(venv_bin_dirs(self)[i as int], exe@));
            assert(texts(r@) =~= venv_python_paths(self).subrange(0, i + 1));
            i = i + 1;
        }
        assert(venv_python_paths(self).subrange(0, n as int) =~= venv_python_paths(self));
        r
    }

    /// The program directory of the Python environment; it always succeeds.
    pub fn get_venv_bin_dir(&self) -> (r: Result<String, String>)
        ensures
            text_result(r) == Ok::<Seq<char>, Seq<char>>(venv_bin_dir(self)),
    {
        let pythons = self.venv_python_candidates();
        let bins = self.venv_bin_candidates();
        match self.first_existing(&pythons) {
            Some(k) => {
                proof {
                    lemma_first_present_from(self, texts(pythons@), 0);
                }
                assert(texts(bins@)[k as int] == bins@[k as int]@);
                Ok(bins[k].clone())
            },
            None => {
                let venvs = self.venv_candidates();
                let first = if venvs.len() > 0 {
                    assert(texts(venvs@)[0] == venvs@[0]@);
                    venvs[0].clone()
                } else {
                    String::new()
                };
                Ok(path_join(first.as_str(), bin_subdir_name(self.os)))
            },
        }
    }

    /// Where the environment's Python interpreter is expected.
    pub fn python_path(&self) -> (r: String)
        ensures
            r@ == venv_python(self),
    {
        let bin_dir = match self.get_venv_bin_dir() {
            Ok(b) => b,
            Err(_) => String::new(),
        };
        path_join(bin_dir.as_str(), python_file_name(self.os))
    }

    /// The Python interpreter of the environment, or the message asking to
    /// set the environment up.
    pub fn python_exe(&self) -> (r: Result<String, String>)
        ensures
            text_result(r) == python_lookup(self),
    {
        let exe = self.python_path();
        if self.knows(exe.as_str()) {
            Ok(exe)
        } else {
            let msg = String::from_str("Python not found at ").concat(exe.as_str()).concat(
                ". Please initialize the environment first.",
            );
            Err(msg)
        }
    }

    /// Whether the environment holds a Python interpreter.
    pub fn check_environment(&self) -> (r: bool)
        ensures
            r == present(self, venv_python(self)),
    {
        let exe = self.python_path();
        self.knows(exe.as_str())
    }
}


/// The fallback places of a bundled script, in order: `scripts/` in the working
/// directory (empty when unknown), then in its parent.
pub open spec fn script_fallbacks(h: &HostPaths, name: Seq<char>) -> Seq<Seq<char>> {
    let cwd = cwd_or_empty(h);
    seq![
        joined_path(joined_path(cwd, "scripts"@), name),
        joined_path(joined_path(joined_path(cwd, ".."@), "scripts"@), name),
    ]
}

/// Where a bundled script is: the resource path where it exists, else the
/// first fallback that exists, else a message naming both fallbacks.
pub open spec fn script_lookup(h: &HostPaths, resource: Seq<char>, name: Seq<char>) -> Result<
    Seq<char>,
    Seq<char>,
> {
    let f = script_fallbacks(h, name);
    if present(h, resource) {
        Ok(resource)
    } else if present(h, f[0]) {
        Ok(f[0])
    } else if present(h, f[1]) {
        Ok(f[1])
    } else {
        Err(name + " not found. Searched: "@ + quoted_path(f[0]) + " and "@ + quoted_path(f[1]))
    }
}

impl HostPaths {
    /// The fallback places of a bundled script, in search order.
    pub fn script_candidates(&self, name: &str) -> (r: Vec<String>)
        ensures
            texts(r@) == script_fallbacks(self, name@),
    {
        let cwd = match &self.cwd {
            Some(c) => c.clone(),
            None => String::new(),
        };
        let here = path_join(cwd.as_str(), "scripts");
        let up = path_join(cwd.as_str(), "..");
        let up_scripts = path_join(up.as_str(), "scripts");
        let mut r: Vec<String> = Vec::new();
        r.push(path_join(here.as_str(), name));
        r.push(path_join(up_scripts.as_str(), name));
        assert(texts(r@) =~= script_fallbacks(self, name@));
        r
    }

    /// Finds a bundled script: at the resource path the application resolved,
    /// else under `scripts/` in the working directory or its parent.
    pub fn resolve_script(&self, resource: &str, name: &str) -> (r: Result<String, String>)
        ensures
            text_result(r) == script_lookup(self, resource@, name@),
    {
        if self.knows(resource) {
            return Ok(String::from_str(resource));
        }
        let cands = self.script_candidates(name);
        assert(texts(cands@).len() == cands@.len());
        assert(texts(cands@)[0] == cands@[0]@);
        assert(texts(cands@)[1] == cands@[1]@);
        if self.knows(cands[0].as_str()) {
            Ok(cands[0].clone())
        } else if self.knows(cands[1].as_str()) {
            Ok(cands[1].clone())
        } else {
            let first = path_debug(cands[0].as_str());
            let second = path_debug(cands[1].as_str());
            let msg = String::from_str(name).concat(" not found. Searched: ").concat(
                first.as_str(),
            ).concat(" and ").concat(second.as_str());
            Err(msg)
        }
    }
}

/// The name of the enhancement program.
pub open spec fn deep_filter_file(os: Os) -> Seq<char> {
    match os {
        Os::Windows => "deepFilter.exe"@,
        Os::Other => "deepFilter"@,
    }
}

/// The enhancement program inside an environment's program directory.
pub fn deep_filter_exe(bin_dir: &str, os: Os) -> (r: String)
    ensures
        r@ == joined_path(bin_dir@, deep_filter_file(os)),
{
    match os {
        Os::Windows => path_join(bin_dir, "deepFilter.exe"),
        Os::Other => path_join(bin_dir, "deepFilter"),
    }
}


/// A helper program is found exactly when one of its candidate places holds
/// it, and then it is the first such place in search order.
pub proof fn law_tool_lookup_takes_first_existing(h: &HostPaths, name: Seq<char>)
    ensures
        match tool_lookup(h, name) {
            Ok(p) => exists|k: int|
                0 <= k < tool_candidate_paths(h, name).len() && tool_candidate_paths(h, name)[k]
                    == p && present(h, p) && forall|j: int|
                    0 <= j < k ==> !present(h, #[trigger] tool_candidate_paths(h, name)[j]),
            Err(m) => m == tool_missing_message(name) && forall|j: int|
                0 <= j < tool_candidate_paths(h, name).len() ==> !present(
                    h,
                    #[trigger] tool_candidate_paths(h, name)[j],
                ),
        },
{
    lemma_first_present_from(h, tool_candidate_paths(h, name), 0);
}

/// When some candidate `.venv` holds an interpreter, the chosen environment
/// is the first that does, and its interpreter exists.
pub proof fn law_venv_with_python_is_chosen(h: &HostPaths)
    ensures
        (exists|j: int|
            0 <= j < venv_python_paths(h).len() && present(h, #[trigger] venv_python_paths(h)[j]))
            ==> present(h, venv_python(h)),
{
    lemma_first_present_from(h, venv_python_paths(h), 0);
    match first_present_from(h, venv_python_paths(h), 0) {
        Some(k) => {
            assert(venv_python_paths(h)[k] == joined_path(venv_bin_dirs(h)[k], python_file(h.os)));
        },
        None => {},
    }
}


/// Every place where a helper program is looked for ends in the program's
/// file name for the platform (`name.exe` on Windows, `name` elsewhere); the
/// first place, when the program's directory is known, is `ffmpeg_bin`
/// beside the program.
pub proof fn law_tool_candidates_name_the_program(h: &HostPaths, name: Seq<char>)
    ensures
        program_file(Os::Windows, name) == name + ".exe"@,
        program_file(Os::Other, name) == name,
        forall|i: int|
            #![trigger tool_candidate_paths(h, name)[i]]
            0 <= i < tool_candidate_paths(h, name).len() ==> exists|dir: Seq<char>|
                #[trigger] joined_path(dir, program_file(h.os, name)) == tool_candidate_paths(
                    h,
                    name,
                )[i],
        h.exe_dir matches Some(d) ==> (tool_candidate_paths(h, name).len() == 3
            && tool_candidate_paths(h, name)[0] == joined_path(
            joined_path(d@, "ffmpeg_bin"@),
            program_file(h.os, name),
        )),
        h.exe_dir is None ==> tool_candidate_paths(h, name).len() == 2,
{
    let file = if h.os == Os::Windows {
        name + ".exe"@
    } else {
        name
    };
    assert(file == program_file(h.os, name));
    let cands = tool_candidate_paths(h, name);
    let cwd = cwd_or_empty(h);
    assert forall|i: int| #![trigger cands[i]] 0 <= i < cands.len() implies exists|dir: Seq<char>| #[trigger] joined_path(
        dir,
        program_file(h.os, name),
    ) == cands[i] by {
        let off: int = if h.exe_dir is Some {
            1
        } else {
            0
        };
        if i < off {
            let d = h.exe_dir->0;
            assert(cands[i] == joined_path(joined_path(d@, "ffmpeg_bin"@), file));
        } else if i == off {
            assert(cands[i] == joined_path(joined_path(cwd, "ffmpeg_bin"@), file));
        } else {
            assert(cands[i] == joined_path(
                joined_path(joined_path(cwd, ".."@), "ffmpeg_bin"@),
                file,
            ));
        }
    }
    if h.exe_dir is Some {
        assert(cands.len() == 3);
        assert(cands[0] == joined_path(joined_path(h.exe_dir->0@, "ffmpeg_bin"@), file));
    } else {
        assert(cands.len() == 2);
    }
}

/// A bundled script is only ever found where a path is known to exist: at the
/// resource path when it exists there; otherwise under `scripts` in the
/// working directory, then in its parent; when none exists, the lookup fails.
pub proof fn law_script_found_where_it_exists(h: &HostPaths, resource: Seq<char>, name: Seq<char>)
    ensures
        ({
            let cwd = match h.cwd {
                Some(c) => c@,
                None => Seq::<char>::empty(),
            };
            let root = joined_path(joined_path(cwd, "scripts"@), name);
            let parent = joined_path(joined_path(joined_path(cwd, ".."@), "scripts"@), name);
            let r = script_lookup(h, resource, name);
            &&& (r matches Ok(p) ==> present(h, p))
            &&& (present(h, resource) ==> r == Ok::<Seq<char>, Seq<char>>(resource))
            &&& (!present(h, resource) && present(h, root) ==> r == Ok::<Seq<char>, Seq<char>>(
                root,
            ))
            &&& (!present(h, resource) && !present(h, root) && present(h, parent) ==> r == Ok::<
                Seq<char>,
                Seq<char>,
            >(parent))
            &&& (r is Err <==> !present(h, resource) && !present(h, root) && !present(h, parent))
        }),
{
}


/// The interpreter is only ever reported where it is known to exist, inside
/// the chosen environment's program directory; otherwise the message names
/// the place where it was expected.
pub proof fn law_python_found_where_it_exists(h: &HostPaths)
    ensures
        python_lookup(h) matches Ok(p) ==> present(h, p) && p == joined_path(
            venv_bin_dir(h),
            python_file(h.os),
        ),
        python_lookup(h) is Err <==> !present(h, joined_path(venv_bin_dir(h), python_file(h.os))),
        python_lookup(h) matches Err(m) ==> m == "Python not found at "@ + joined_path(
            venv_bin_dir(h),
            python_file(h.os),
        ) + ". Please initialize the environment first."@,
{
}

} // verus!
