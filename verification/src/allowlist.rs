//! The allowlist of shell commands the assistant may run for the user: a
//! command is allowed when, lowercased, it equals or extends an allowlisted
//! entry. Running the command is the application's work.

use vstd::prelude::*;

use crate::text::seq_has_substring;
use crate::text::seq_starts_with;
use crate::text::str_eq;
use crate::text::str_has_substring;
use crate::text::str_starts_with;

verus! {

/// The lowercase form of a string, as `str::to_lowercase` defines it.
pub uninterp spec fn lower_of(s: Seq<char>) -> Seq<char>;

/// Relies on str::to_lowercase: the lowercase form of a string depends on
/// its characters alone.
#[verifier::external_body]
fn to_lowercase(s: &str) -> (r: String)
    ensures
        r@ == lower_of(s@),
{
    s.to_lowercase()
}

/// The allowlisted command prefixes.
pub open spec fn spec_allowed_commands() -> Seq<Seq<char>> {
    seq![
        "dir"@,
        "ls"@,
        "pwd"@,
        "cd"@,
        "echo"@,
        "type"@,
        "cat"@,
        "head"@,
        "tail"@,
        "Get-Date"@,
        "Get-Location"@,
        "Get-ChildItem"@,
        "Get-Content"@,
        "whoami"@,
        "hostname"@,
        "systeminfo"@,
        "git status"@,
        "git log"@,
        "git branch"@,
        "git diff"@,
        "git remote -v"@,
        "node --version"@,
        "npm --version"@,
        "npm list"@,
        "python --version"@,
        "pip list"@,
    ]
}

/// Whether `cmd` matches one allowlist entry: lowercased, it begins with or
/// equals the lowercased entry.
pub open spec fn allows(cmd: Seq<char>, entry: Seq<char>) -> bool {
    seq_starts_with(lower_of(cmd), lower_of(entry)) || lower_of(cmd) == lower_of(entry)
}

/// The allowlisted command prefixes.
pub fn allowed_commands() -> (v: Vec<&'static str>)
    ensures
        v@.len() == spec_allowed_commands().len(),
        forall|i: int| 0 <= i < v@.len() ==> v@[i]@ == #[trigger] spec_allowed_commands()[i],
{
    let v: Vec<&'static str> = vec![
        "dir",
        "ls",
        "pwd",
        "cd",
        "echo",
        "type",
        "cat",
        "head",
        "tail",
        "Get-Date",
        "Get-Location",
        "Get-ChildItem",
        "Get-Content",
        "whoami",
        "hostname",
        "systeminfo",
        "git status",
        "git log",
        "git branch",
        "git diff",
        "git remote -v",
        "node --version",
        "npm --version",
        "npm list",
        "python --version",
        "pip list",
    ];
    proof {
        assert forall|i: int| 0 <= i < v@.len() implies v@[i]@ == #[trigger] spec_allowed_commands()[i] by {
            assert(spec_allowed_commands()[i] == v@[i]@);
        }
    }
    v
}

/// Fragments that disqualify a command even when it is allowlisted: file
/// destruction, redirection and chaining, and tools that fetch or execute.
pub open spec fn spec_dangerous_patterns() -> Seq<Seq<char>> {
    seq![
        "rm "@,
        "del "@,
        "rmdir"@,
        "format"@,
        "mkfs"@,
        ">"@,
        ">>"@,
        "|"@,
        "||"@,
        "&&"@,
        "&"@,
        ";"@,
        "`"@,
        "$("@,
        "Remove-Item"@,
        "Clear-Content"@,
        "Set-Content"@,
        "Invoke-Expression"@,
        "iex"@,
        "Start-Process"@,
        "curl"@,
        "wget"@,
        "Invoke-WebRequest"@,
    ]
}

/// Whether `cmd` holds the fragment `pattern`, both lowercased.
pub open spec fn holds_pattern(cmd: Seq<char>, pattern: Seq<char>) -> bool {
    seq_has_substring(lower_of(cmd), lower_of(pattern))
}

/// The disqualifying fragments.
pub fn dangerous_patterns() -> (v: Vec<&'static str>)
    ensures
        v@.len() == spec_dangerous_patterns().len(),
        forall|i: int| 0 <= i < v@.len() ==> v@[i]@ == #[trigger] spec_dangerous_patterns()[i],
{
    let v: Vec<&'static str> = vec![
        "rm ",
        "del ",
        "rmdir",
        "format",
        "mkfs",
        ">",
        ">>",
        "|",
        "||",
        "&&",
        "&",
        ";",
        "`",
        "$(",
        "Remove-Item",
        "Clear-Content",
        "Set-Content",
        "Invoke-Expression",
        "iex",
        "Start-Process",
        "curl",
        "wget",
        "Invoke-WebRequest",
    ];
    proof {
        assert forall|i: int|
            0 <= i < v@.len() implies v@[i]@ == #[trigger] spec_dangerous_patterns()[i] by {
            assert(spec_dangerous_patterns()[i] == v@[i]@);
        }
    }
    v
}

/// Finds the first disqualifying fragment the command holds, if any; the
/// command and the fragments are compared lowercased.
pub fn find_dangerous_pattern(command: &str) -> (r: Option<usize>)
    ensures
        match r {
            Some(i) => i < spec_dangerous_patterns().len() && holds_pattern(
                command@,
                spec_dangerous_patterns()[i as int],
            ) && forall|k: int|
                0 <= k < i ==> !holds_pattern(command@, #[trigger] spec_dangerous_patterns()[k]),
            None => forall|k: int|
                0 <= k < spec_dangerous_patterns().len() ==> !holds_pattern(
                    command@,
                    #[trigger] spec_dangerous_patterns()[k],
                ),
        },
{
    let cmd_lower = to_lowercase(command);
    let patterns = dangerous_patterns();
    let mut i: usize = 0;
    while i < patterns.len()
        invariant
            i <= patterns@.len(),
            cmd_lower@ == lower_of(command@),
            patterns@.len() == spec_dangerous_patterns().len(),
            forall|k: int| 0 <= k < patterns@.len() ==> patterns@[k]@
                == #[trigger] spec_dangerous_patterns()[k],
            forall|k: int| 0 <= k < i ==> !holds_pattern(
                command@,
                #[trigger] spec_dangerous_patterns()[k],
            ),
        decreases patterns@.len() - i,
    {
        let pattern_lower = to_lowercase(patterns[i]);
        if str_has_substring(cmd_lower.as_str(), pattern_lower.as_str()) {
            return Some(i);
        }
        i += 1;
    }
    None
}

/// Whether the command is in the allowlist: lowercased, it equals or begins
/// with some allowlisted entry, lowercased.
pub fn is_command_allowed(command: &str) -> (r: bool)
    ensures
        r == exists|i: int|
            0 <= i < spec_allowed_commands().len() && allows(
                command@,
                #[trigger] spec_allowed_commands()[i],
            ),
{
    let cmd_lower = to_lowercase(command);
    let allowed = allowed_commands();
    let mut i: usize = 0;
    while i < allowed.len()
        invariant
            i <= allowed@.len(),
            cmd_lower@ == lower_of(command@),
            allowed@.len() == spec_allowed_commands().len(),
            forall|k: int| 0 <= k < allowed@.len() ==> allowed@[k]@
                == #[trigger] spec_allowed_commands()[k],
            forall|k: int| 0 <= k < i ==> !allows(command@, #[trigger] spec_allowed_commands()[k]),
        decreases allowed@.len() - i,
    {
        let entry_lower = to_lowercase(allowed[i]);
        if str_starts_with(cmd_lower.as_str(), entry_lower.as_str()) || str_eq(
            cmd_lower.as_str(),
            entry_lower.as_str(),
        ) {
            return true;
        }
        i += 1;
    }
    false
}

} // verus!
