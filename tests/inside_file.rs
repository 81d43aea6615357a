use filetype::inside_file::{evaluate_shebang, get_type_from_shebang, ScriptType};

#[test]
fn test_evaluate_shebang() {
    assert_eq!(evaluate_shebang("/lorem/bash"), ScriptType::Bash.as_str());
    assert_eq!(evaluate_shebang("tcsh -ipsum"), ScriptType::Tcsh.as_str());
    assert_eq!(evaluate_shebang("export l=s csh"), ScriptType::Csh.as_str());
    assert_eq!(evaluate_shebang("amet/yash"), ScriptType::Yash.as_str());
    assert_eq!(evaluate_shebang("ash --consec"), ScriptType::Ash.as_str());
    assert_eq!(evaluate_shebang("adip; ksh"), ScriptType::Ksh.as_str());
    assert_eq!(evaluate_shebang("elit/zsh"), ScriptType::Zsh.as_str());
    assert_eq!(evaluate_shebang("sed && sh"), ScriptType::Sh.as_str());
    assert_eq!(evaluate_shebang("do python c"), ScriptType::Python.as_str());
}

#[test]
fn test_bad_evaluate_shebang() {
    assert_eq!(evaluate_shebang("unknown"), "unknown");
}

#[test]
fn script_type_names() {
    assert_eq!(ScriptType::Bash.as_str(), "Bourne-Again shell");
    assert_eq!(ScriptType::Tcsh.as_str(), "Tenex C shell");
    assert_eq!(ScriptType::Csh.as_str(), "C shell");
    assert_eq!(ScriptType::Yash.as_str(), "Yet-Another shell");
    assert_eq!(ScriptType::Ash.as_str(), "Neil Brown's ash");
    assert_eq!(ScriptType::Ksh.as_str(), "Korn shell");
    assert_eq!(ScriptType::Zsh.as_str(), "Paul Falstad's zsh");
    assert_eq!(ScriptType::Sh.as_str(), "POSIX shell");
    assert_eq!(ScriptType::Python.as_str(), "Python");
}

#[test]
fn specific_names_come_before_generic_ones() {
    assert_eq!(evaluate_shebang("/lorem/bash"), "Bourne-Again shell");
    assert_eq!(evaluate_shebang("tcsh -ipsum"), "Tenex C shell");
    assert_eq!(evaluate_shebang("/bin/sh"), "POSIX shell");
    assert_eq!(evaluate_shebang("/usr/bin/python3"), "Python");
}

#[test]
fn bash_shebang_line() {
    assert_eq!(
        get_type_from_shebang("#!/bin/bash"),
        Some("Bourne-Again shell".to_string())
    );
    assert_eq!(
        get_type_from_shebang("#!/bin/bash\n"),
        Some("Bourne-Again shell".to_string())
    );
}

#[test]
fn env_python_shebang_line() {
    assert_eq!(
        get_type_from_shebang("#!/usr/bin/env python3\n"),
        Some("Python".to_string())
    );
}

#[test]
fn line_without_marker_is_no_shebang() {
    assert_eq!(get_type_from_shebang("hello world\n"), None);
    assert_eq!(get_type_from_shebang(""), None);
    assert_eq!(get_type_from_shebang("#/bin/sh"), None);
    assert_eq!(get_type_from_shebang(" #!/bin/sh"), None);
}

#[test]
fn shebang_flags_and_white_space() {
    assert_eq!(
        get_type_from_shebang("#!  /bin/zsh -f  \r\n"),
        Some("Paul Falstad's zsh".to_string())
    );
    assert_eq!(
        get_type_from_shebang("#!!/usr/local/bin/ksh"),
        Some("Korn shell".to_string())
    );
}

#[test]
fn unknown_interpreter_is_shown_as_is() {
    assert_eq!(
        get_type_from_shebang("#!/usr/bin/perl -w\n"),
        Some("/usr/bin/perl".to_string())
    );
    assert_eq!(
        get_type_from_shebang("#!/usr/bin/env node --harmony"),
        Some("node --harmony".to_string())
    );
}

#[test]
fn env_as_last_word_takes_first_word() {
    assert_eq!(
        get_type_from_shebang("#!/usr/bin/env env"),
        Some("/usr/bin/env".to_string())
    );
    assert_eq!(
        get_type_from_shebang("#!/usr/bin/env"),
        Some("/usr/bin/env".to_string())
    );
    assert_eq!(
        get_type_from_shebang("#!/usr/bin/env myenv"),
        Some("myenv".to_string())
    );
}

#[test]
fn only_the_two_character_marker_is_dropped() {
    assert_eq!(get_type_from_shebang("#!!foo"), Some("!foo".to_string()));
    assert_eq!(get_type_from_shebang("#!#/bin/prog"), Some("#/bin/prog".to_string()));
    assert_eq!(get_type_from_shebang("#!"), Some("".to_string()));
}

#[test]
fn words_are_split_at_any_white_space() {
    assert_eq!(
        get_type_from_shebang("#!/usr/bin/foo\t-x"),
        Some("/usr/bin/foo".to_string())
    );
    assert_eq!(
        get_type_from_shebang("#!/usr/bin/env node\tenv"),
        Some("/usr/bin/env".to_string())
    );
}
