//! Completion-script generation: for one command and every supported shell,
//! the directory, the file path and the script bytes that belong to the
//! (command, shell) pair. The paths are computed and proved here; the script
//! bytes come from clap_complete through a trusted wrapper. Writing the
//! files to storage is the caller's part.

use vstd::prelude::*;
use vstd::string::StringExecFns;

use crate::shells::{all_shells, file_name_spec, shell_list, shell_name_spec, ShellTarget};

verus! {

#[verifier::external_type_specification]
#[verifier::external_body]
pub struct ExCommand(clap::Command);

/// The name an outside `clap::Command` value was declared with.
pub uninterp spec fn command_name(c: clap::Command) -> Seq<char>;

/// The completion script that clap_complete renders for the command under
/// the given shell, completing a binary called `bin_name`.
pub uninterp spec fn completion_script(
    shell: ShellTarget,
    bin_name: Seq<char>,
    c: clap::Command,
) -> Seq<u8>;

/// Relies on `clap::Command::get_name`: it returns exactly the name the
/// command was declared with.
#[verifier::external_body]
fn command_name_of(c: &clap::Command) -> (r: String)
    ensures
        r@ == command_name(*c),
{
    c.get_name().to_string()
}

/// Relies on `clap_complete::generate`: it renders the completion script for
/// one shell into a buffer, and the bytes are a deterministic function of the
/// shell, the binary name and the command definition alone. The command is
/// cloned because rendering completes the command's build in place.
#[verifier::external_body]
fn render_completion(shell: &ShellTarget, bin_name: &String, c: &clap::Command) -> (r: Vec<u8>)
    ensures
        r@ == completion_script(*shell, bin_name@, *c),
{
    let mut cmd = c.clone();
    let sh = match shell {
        ShellTarget::Bash => clap_complete::Shell::Bash,
        ShellTarget::Elvish => clap_complete::Shell::Elvish,
        ShellTarget::Fish => clap_complete::Shell::Fish,
        ShellTarget::PowerShell => clap_complete::Shell::PowerShell,
        ShellTarget::Zsh => clap_complete::Shell::Zsh,
    };
    let mut buf: Vec<u8> = Vec::new();
    clap_complete::generate(sh, &mut cmd, bin_name.clone(), &mut buf);
    buf
}

/// One output artifact: the directory it lives in, its full path, and the
/// script bytes to write there.
pub struct GeneratedFile {
    pub dir: String,
    pub path: String,
    pub content: Vec<u8>,
}

/// The shell-scoped directory of the completion script for command `name`:
/// `<root>/<name>/<shell name>`.
pub open spec fn completion_dir(root: Seq<char>, name: Seq<char>, shell: ShellTarget) -> Seq<char> {
    root + "/"@ + name + "/"@ + shell_name_spec(shell)
}

/// The full path of the completion script for command `name`:
/// `<root>/<name>/<shell name>/<conventional file name>`.
pub open spec fn completion_path(root: Seq<char>, name: Seq<char>, shell: ShellTarget) -> Seq<char> {
    completion_dir(root, name, shell) + "/"@ + file_name_spec(shell, name)
}

/// The artifact `g` is exactly the one owed to the pair of command `c` and
/// shell `shell` under `root`.
pub open spec fn file_matches(
    g: GeneratedFile,
    root: Seq<char>,
    shell: ShellTarget,
    c: clap::Command,
) -> bool {
    &&& g.dir@ == completion_dir(root, command_name(c), shell)
    &&& g.path@ == completion_path(root, command_name(c), shell)
    &&& g.content@ == completion_script(shell, command_name(c), c)
}

/// The artifacts `gs` are exactly those owed to command `c` under `root`:
/// one per supported shell, in generation order.
pub open spec fn plan_matches(gs: Seq<GeneratedFile>, root: Seq<char>, c: clap::Command) -> bool {
    &&& gs.len() == shell_list().len()
    &&& forall|j: int|
        0 <= j < gs.len() ==> file_matches(#[trigger] gs[j], root, shell_list()[j], c)
}

/// Computes the completion artifacts for one command: for every supported
/// shell, in order, the shell-scoped directory, the script's path under it,
/// and the script bytes.
pub fn generate_completions(output_root: &str, cmd: &clap::Command) -> (r: Vec<GeneratedFile>)
    ensures
        plan_matches(r@, output_root@, *cmd),
{
    let name = command_name_of(cmd);
    let shells = all_shells();
    let mut out: Vec<GeneratedFile> = Vec::new();
    let mut k: usize = 0;
    while k < shells.len()
        invariant
            shells@ == shell_list(),
            name@ == command_name(*cmd),
            k <= shells@.len(),
            out@.len() == k,
            forall|j: int|
                0 <= j < k ==> file_matches(#[trigger] out@[j], output_root@, shell_list()[j], *cmd),
        decreases shells@.len() - k,
    {
        let sh = shells[k];
        let mut dir = String::from_str(output_root);
        dir.append("/");
        dir.append(name.as_str());
        dir.append("/");
        let sh_name = sh.name();
        dir.append(sh_name.as_str());
        let mut path = dir.clone();
        path.append("/");
        let f_name = sh.completion_file_name(name.as_str());
        path.append(f_name.as_str());
        let content = render_completion(&sh, &name, cmd);
        out.push(GeneratedFile { dir, path, content });
        k += 1;
    }
    out
}

/// The artifacts `gs` are exactly those owed to the commands `cs` under
/// `root`: for each command in order, one artifact per supported shell in
/// generation order.
pub open spec fn all_plans_match(
    gs: Seq<GeneratedFile>,
    root: Seq<char>,
    cs: Seq<clap::Command>,
) -> bool {
    &&& gs.len() == cs.len() * shell_list().len()
    &&& forall|i: int|
        0 <= i < cs.len() ==> plan_matches(
            gs.subrange(5 * i, 5 * i + 5),
            root,
            #[trigger] cs[i],
        )
}

/// Computes the completion artifacts for every command: one artifact per
/// (command, shell) pair, commands in the given order, shells in generation
/// order within each command.
pub fn generate_all(output_root: &str, cmds: &Vec<clap::Command>) -> (r: Vec<GeneratedFile>)
    ensures
        all_plans_match(r@, output_root@, cmds@),
{
    let mut out: Vec<GeneratedFile> = Vec::new();
    let mut i: usize = 0;
    while i < cmds.len()
        invariant
            i <= cmds@.len(),
            out@.len() == 5 * i,
            forall|t: int|
                0 <= t < i ==> plan_matches(
                    out@.subrange(5 * t, 5 * t + 5),
                    output_root@,
                    #[trigger] cmds@[t],
                ),
        decreases cmds@.len() - i,
    {
        let ghost prev = out@;
        let mut plan = generate_completions(output_root, &cmds[i]);
        let ghost plan_view = plan@;
        out.append(&mut plan);
        proof {
            assert(out@.subrange(5 * i as int, 5 * i as int + 5) =~= plan_view);
            assert forall|t: int| 0 <= t < i implies plan_matches(
                out@.subrange(5 * t, 5 * t + 5),
                output_root@,
                #[trigger] cmds@[t],
            ) by {
                assert(out@.subrange(5 * t, 5 * t + 5) =~= prev.subrange(5 * t, 5 * t + 5));
            }
        }
        i += 1;
    }
    proof {
        assert(shell_list().len() == 5);
        assert(out@.len() == cmds@.len() * shell_list().len()) by (nonlinear_arith)
            requires
                out@.len() == 5 * cmds@.len(),
                shell_list().len() == 5,
        ;
    }
    out
}

/// Generation is idempotent: two artifact lists computed for the same output
/// root and the same command agree file for file, byte for byte, so running
/// generation again overwrites every file with identical content.
pub proof fn lemma_generation_idempotent(
    gs1: Seq<GeneratedFile>,
    gs2: Seq<GeneratedFile>,
    root: Seq<char>,
    c: clap::Command,
)
    requires
        plan_matches(gs1, root, c),
        plan_matches(gs2, root, c),
    ensures
        gs1.len() == gs2.len(),
        forall|j: int|
            0 <= j < gs1.len() ==> {
                &&& (#[trigger] gs1[j]).dir@ == gs2[j].dir@
                &&& gs1[j].path@ == gs2[j].path@
                &&& gs1[j].content@ == gs2[j].content@
            },
{
}

} // verus!
