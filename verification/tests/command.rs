use mp_coordination::command::{command_to_string, CommandLine, EnvVar};

fn set(name: &str, value: &str) -> EnvVar {
    EnvVar { name: name.to_string(), value: Some(value.to_string()) }
}

fn cleared(name: &str) -> EnvVar {
    EnvVar { name: name.to_string(), value: None }
}

fn words(of: &[&str]) -> Vec<String> {
    of.iter().map(|word| word.to_string()).collect()
}

#[test]
fn test_command_to_string() {
    let cmd = CommandLine {
        program: "MyCommand".to_string(),
        args: words(&["abc", "123"]),
        envs: vec![
            cleared("CARGO"),
            set("PATH", "pathval"),
            cleared("RUSTC"),
            set("VAR1", "val1"),
            set("VAR2", "val2"),
        ],
    };
    assert_eq!(command_to_string(&cmd), "VAR1=val1 VAR2=val2 MyCommand abc 123");
}

#[test]
fn a_bare_program_is_written_alone() {
    let cmd = CommandLine { program: "ls".to_string(), args: vec![], envs: vec![] };
    assert_eq!(command_to_string(&cmd), "ls");
}

#[test]
fn entries_that_are_not_shown_leave_no_space_behind() {
    let cmd = CommandLine {
        program: "make".to_string(),
        args: words(&["-j", "8"]),
        envs: vec![set("PATH", "/bin"), cleared("CC")],
    };
    assert_eq!(command_to_string(&cmd), "make -j 8");
}

#[test]
fn entries_keep_the_order_they_were_given_in() {
    let cmd = CommandLine {
        program: "run".to_string(),
        args: vec![],
        envs: vec![set("B", "2"), set("A", "1"), set("path", "lower")],
    };
    assert_eq!(command_to_string(&cmd), "B=2 A=1 path=lower run");
}

#[test]
fn empty_words_are_still_set_apart() {
    let cmd = CommandLine {
        program: "".to_string(),
        args: words(&["", "x", ""]),
        envs: vec![set("EMPTY", ""), set("", "v")],
    };
    assert_eq!(command_to_string(&cmd), "EMPTY= =v   x ");
}

#[test]
fn text_beyond_ascii_is_written_as_it_is() {
    let cmd = CommandLine {
        program: "écho".to_string(),
        args: words(&["héllo wörld", "=", "日本"]),
        envs: vec![set("LANG", "de_DE.UTF-8")],
    };
    assert_eq!(command_to_string(&cmd), "LANG=de_DE.UTF-8 écho héllo wörld = 日本");
}
