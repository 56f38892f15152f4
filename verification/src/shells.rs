//! The fixed set of shells that completion scripts are generated for, their
//! names, and the conventional file name of a completion script under each.

use vstd::prelude::*;
use vstd::string::StringExecFns;

verus! {

/// One supported shell.
#[derive(Clone, Copy, PartialEq, Eq, Structural, Debug)]
pub enum ShellTarget {
    Bash,
    Elvish,
    Fish,
    PowerShell,
    Zsh,
}

/// The supported shells, in the fixed order that generation follows.
pub open spec fn shell_list() -> Seq<ShellTarget> {
    seq![
        ShellTarget::Bash,
        ShellTarget::Elvish,
        ShellTarget::Fish,
        ShellTarget::PowerShell,
        ShellTarget::Zsh,
    ]
}

/// The lowercase name of the shell, used as a path segment.
pub open spec fn shell_name_spec(s: ShellTarget) -> Seq<char> {
    match s {
        ShellTarget::Bash => "bash"@,
        ShellTarget::Elvish => "elvish"@,
        ShellTarget::Fish => "fish"@,
        ShellTarget::PowerShell => "powershell"@,
        ShellTarget::Zsh => "zsh"@,
    }
}

/// The conventional file name of the completion script for command `name`
/// under the shell: `bash`, `elvish` and `fish` read `<name>.<extension>`,
/// `powershell` reads `_<name>.ps1`, and `zsh` reads `_<name>`.
pub open spec fn file_name_spec(s: ShellTarget, name: Seq<char>) -> Seq<char> {
    match s {
        ShellTarget::Bash => name + ".bash"@,
        ShellTarget::Elvish => name + ".elv"@,
        ShellTarget::Fish => name + ".fish"@,
        ShellTarget::PowerShell => "_"@ + name + ".ps1"@,
        ShellTarget::Zsh => "_"@ + name,
    }
}

impl ShellTarget {
    /// The lowercase name of the shell.
    pub fn name(&self) -> (r: String)
        ensures
            r@ == shell_name_spec(*self),
    {
        match self {
            ShellTarget::Bash => String::from_str("bash"),
            ShellTarget::Elvish => String::from_str("elvish"),
            ShellTarget::Fish => String::from_str("fish"),
            ShellTarget::PowerShell => String::from_str("powershell"),
            ShellTarget::Zsh => String::from_str("zsh"),
        }
    }

    /// The conventional file name of the completion script for command
    /// `name` under the shell.
    pub fn completion_file_name(&self, name: &str) -> (r: String)
        ensures
            r@ == file_name_spec(*self, name@),
    {
        match self {
            ShellTarget::Bash => String::from_str(name).concat(".bash"),
            ShellTarget::Elvish => String::from_str(name).concat(".elv"),
            ShellTarget::Fish => String::from_str(name).concat(".fish"),
            ShellTarget::PowerShell => String::from_str("_").concat(name).concat(".ps1"),
            ShellTarget::Zsh => String::from_str("_").concat(name),
        }
    }
}

/// The supported shells as a vector, in generation order.
pub fn all_shells() -> (r: Vec<ShellTarget>)
    ensures
        r@ == shell_list(),
{
    let mut v: Vec<ShellTarget> = Vec::new();
    v.push(ShellTarget::Bash);
    v.push(ShellTarget::Elvish);
    v.push(ShellTarget::Fish);
    v.push(ShellTarget::PowerShell);
    v.push(ShellTarget::Zsh);
    proof {
        assert(v@ =~= shell_list());
    }
    v
}

} // verus!
