use heif_enc_cli::generate::generate_all;
use heif_enc_cli::generate::generate_completions;
use heif_enc_cli::shells::{all_shells, ShellTarget};

fn sample_command() -> clap::Command {
    clap::Command::new("heif-enc").bin_name("heif-enc").arg(
        clap::Arg::new("quality").short('q').long("quality").help("set output quality"),
    )
}

#[test]
fn shells_are_enumerated_in_order() {
    let shells = all_shells();
    assert_eq!(
        shells,
        vec![
            ShellTarget::Bash,
            ShellTarget::Elvish,
            ShellTarget::Fish,
            ShellTarget::PowerShell,
            ShellTarget::Zsh,
        ]
    );
    let names: Vec<String> = shells.iter().map(|s| s.name()).collect();
    assert_eq!(names, vec!["bash", "elvish", "fish", "powershell", "zsh"]);
}

#[test]
fn completion_file_names_follow_each_convention() {
    assert_eq!(ShellTarget::Bash.completion_file_name("heif-enc"), "heif-enc.bash");
    assert_eq!(ShellTarget::Elvish.completion_file_name("heif-enc"), "heif-enc.elv");
    assert_eq!(ShellTarget::Fish.completion_file_name("heif-enc"), "heif-enc.fish");
    assert_eq!(ShellTarget::PowerShell.completion_file_name("heif-enc"), "_heif-enc.ps1");
    assert_eq!(ShellTarget::Zsh.completion_file_name("heif-enc"), "_heif-enc");
}

#[test]
fn one_file_per_shell_at_deterministic_paths() {
    let cmd = sample_command();
    let plan = generate_completions("./completions", &cmd);
    assert_eq!(plan.len(), 5);
    let paths: Vec<&str> = plan.iter().map(|g| g.path.as_str()).collect();
    assert_eq!(
        paths,
        vec![
            "./completions/heif-enc/bash/heif-enc.bash",
            "./completions/heif-enc/elvish/heif-enc.elv",
            "./completions/heif-enc/fish/heif-enc.fish",
            "./completions/heif-enc/powershell/_heif-enc.ps1",
            "./completions/heif-enc/zsh/_heif-enc",
        ]
    );
    assert_eq!(plan[0].dir, "./completions/heif-enc/bash");
    assert_eq!(plan[4].dir, "./completions/heif-enc/zsh");
}

#[test]
fn generation_is_idempotent() {
    let cmd = sample_command();
    let first = generate_completions("./completions", &cmd);
    let second = generate_completions("./completions", &cmd);
    assert_eq!(first.len(), second.len());
    for (a, b) in first.iter().zip(second.iter()) {
        assert_eq!(a.dir, b.dir);
        assert_eq!(a.path, b.path);
        assert_eq!(a.content, b.content);
    }
}

#[test]
fn rendered_scripts_are_real_completions() {
    let cmd = sample_command();
    let plan = generate_completions("./completions", &cmd);
    // The bytes must be what clap_complete renders, not anything echoed back.
    let mut expected: Vec<u8> = Vec::new();
    clap_complete::generate(
        clap_complete::Shell::Bash,
        &mut sample_command(),
        "heif-enc",
        &mut expected,
    );
    assert!(!expected.is_empty());
    assert_eq!(plan[0].content, expected);
    let mut zsh_expected: Vec<u8> = Vec::new();
    clap_complete::generate(
        clap_complete::Shell::Zsh,
        &mut sample_command(),
        "heif-enc",
        &mut zsh_expected,
    );
    assert_eq!(plan[4].content, zsh_expected);
    assert_ne!(plan[0].content, plan[4].content);
}

#[test]
fn all_commands_times_all_shells() {
    let cmds = vec![sample_command(), clap::Command::new("other-tool")];
    let plan = generate_all("out", &cmds);
    assert_eq!(plan.len(), 10);
    assert_eq!(plan[0].path, "out/heif-enc/bash/heif-enc.bash");
    assert_eq!(plan[5].path, "out/other-tool/bash/other-tool.bash");
    assert_eq!(plan[9].path, "out/other-tool/zsh/_other-tool");
}
