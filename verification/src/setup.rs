//! Setting up the Python environment: which script runs, and how.

use vstd::prelude::*;
use crate::paths::{texts, Os};

verus! {

/// The setup script for each operating system.
pub open spec fn setup_script(os: Os) -> Seq<char> {
    match os {
        Os::Windows => "setup-env.ps1"@,
        Os::Other => "setup-env.sh"@,
    }
}

/// The name of the setup script.
pub fn setup_script_name(os: Os) -> (r: &'static str)
    ensures
        r@ == setup_script(os),
{
    match os {
        Os::Windows => "setup-env.ps1",
        Os::Other => "setup-env.sh",
    }
}

/// The resource path under which a bundled script is looked up first.
pub fn bundled_script_path(name: &str) -> (r: String)
    ensures
        r@ == "scripts/"@ + name@,
{
    String::from_str("scripts/").concat(name)
}

/// The prefix of Windows extended-length paths, `\\?\`.
pub open spec fn verbatim_prefix() -> Seq<char> {
    seq!['\\', '\\', '?', '\\']
}

/// A path without the extended-length prefix, which PowerShell's `-File`
/// does not accept.
pub open spec fn without_verbatim_prefix(p: Seq<char>) -> Seq<char> {
    if p.len() >= 4 && p.subrange(0, 4) == verbatim_prefix() {
        p.subrange(4, p.len() as int)
    } else {
        p
    }
}

/// Removes the extended-length prefix `\\?\` from a path, if it has one.
pub fn strip_verbatim_prefix(p: &str) -> (r: String)
    ensures
        r@ == without_verbatim_prefix(p@),
{
    let n = p.unicode_len();
    if n >= 4 && p.get_char(0) == '\\' && p.get_char(1) == '\\' && p.get_char(2) == '?'
        && p.get_char(3) == '\\' {
        assert(p@.subrange(0, 4) =~= verbatim_prefix());
        String::from_str(p.substring_char(4, n))
    } else {
        assert(n >= 4 ==> p@.subrange(0, 4)[0] == p@[0] && p@.subrange(0, 4)[1] == p@[1]
            && p@.subrange(0, 4)[2] == p@[2] && p@.subrange(0, 4)[3] == p@[3]);
        String::from_str(p)
    }
}

/// A program to run and its arguments.
pub struct ScriptInvocation {
    pub program: String,
    pub args: Vec<String>,
}

/// How the setup script is run: with PowerShell, bypassing the execution
/// policy, on Windows; with `bash` elsewhere.
pub open spec fn is_setup_invocation(inv: ScriptInvocation, os: Os, script: Seq<char>) -> bool {
    let path = without_verbatim_prefix(script);
    match os {
        Os::Windows => inv.program@ == "powershell"@ && texts(inv.args@) == seq![
            "-ExecutionPolicy"@,
            "Bypass"@,
            "-File"@,
            path,
        ],
        Os::Other => inv.program@ == "bash"@ && texts(inv.args@) == seq![path],
    }
}

/// The command that runs the setup script at `script`.
pub fn setup_invocation(os: Os, script: &str) -> (r: ScriptInvocation)
    ensures
        is_setup_invocation(r, os, script@),
{
    let path = strip_verbatim_prefix(script);
    let mut args: Vec<String> = Vec::new();
    match os {
        Os::Windows => {
            args.push(String::from_str("-ExecutionPolicy"));
            args.push(String::from_str("Bypass"));
            args.push(String::from_str("-File"));
            args.push(path);
            let r = ScriptInvocation { program: String::from_str("powershell"), args };
            assert(texts(r.args@) =~= seq![
                "-ExecutionPolicy"@,
                "Bypass"@,
                "-File"@,
                without_verbatim_prefix(script@),
            ]);
            r
        },
        Os::Other => {
            args.push(path);
            let r = ScriptInvocation { program: String::from_str("bash"), args };
            assert(texts(r.args@) =~= seq![without_verbatim_prefix(script@)]);
            r
        },
    }
}

/// The verdict on a finished setup run.
pub fn setup_outcome(success: bool) -> (r: Result<(), String>)
    ensures
        success ==> r is Ok,
        !success ==> (r matches Err(e) && e@ == "Installation script failed"@),
{
    if success {
        Ok(())
    } else {
        Err(String::from_str("Installation script failed"))
    }
}


/// Removing the extended-length prefix removes exactly the four characters
/// `\`, `\`, `?`, `\` from the front of a path that starts with them, and
/// leaves every other path as it is.
pub proof fn law_prefix_removal(p: Seq<char>)
    ensures
        (p.len() >= 4 && p[0] == '\\' && p[1] == '\\' && p[2] == '?' && p[3] == '\\') ==> seq![
            '\\',
            '\\',
            '?',
            '\\',
        ] + without_verbatim_prefix(p) == p,
        !(p.len() >= 4 && p[0] == '\\' && p[1] == '\\' && p[2] == '?' && p[3] == '\\')
            ==> without_verbatim_prefix(p) == p,
{
    if p.len() >= 4 && p[0] == '\\' && p[1] == '\\' && p[2] == '?' && p[3] == '\\' {
        assert(p.subrange(0, 4) =~= verbatim_prefix());
        assert(seq!['\\', '\\', '?', '\\'] + p.subrange(4, p.len() as int) =~= p);
    } else if p.len() >= 4 {
        assert(p.subrange(0, 4)[0] == p[0] && p.subrange(0, 4)[1] == p[1] && p.subrange(0, 4)[2]
            == p[2] && p.subrange(0, 4)[3] == p[3]);
    }
}

} // verus!
