use torbridge::cli::{get_arg_val, get_args_from_string, get_cli_options};

#[test]
pub fn test_cli() {
    let opts = get_cli_options(&get_args_from_string("command string --log_file=LF -t=TD"));
    assert_eq!(opts.log_file, Some(String::from("LF")));
    assert_eq!(opts.tor_dir, Some(String::from("TD")));
    let opts = get_cli_options(&get_args_from_string("-l=LF"));
    assert_eq!(opts.log_file, Some(String::from("LF")));
    assert_eq!(opts.tor_dir, None);
}

#[test]
fn arg_val_takes_text_between_equals() {
    assert_eq!(get_arg_val("-l=path"), Some(String::from("path")));
    assert_eq!(get_arg_val("-l=a=b"), Some(String::from("a")));
    assert_eq!(get_arg_val("-l="), Some(String::from("")));
    assert_eq!(get_arg_val("plain"), None);
}

#[test]
fn split_keeps_empty_pieces() {
    let args = get_args_from_string("a  b");
    assert_eq!(args, vec![String::from("a"), String::from(""), String::from("b")]);
    let args = get_args_from_string("");
    assert_eq!(args, vec![String::from("")]);
    let args = get_args_from_string("one\ttwo\nthree");
    assert_eq!(args, vec![String::from("one"), String::from("two"), String::from("three")]);
}

#[test]
fn later_flag_overrides_earlier() {
    let args = vec![String::from("-l=A"), String::from("--log_file=B")];
    let opts = get_cli_options(&args);
    assert_eq!(opts.log_file, Some(String::from("B")));
    let args = vec![String::from("--tor-dir=X"), String::from("-t=Y"), String::from("unrelated")];
    let opts = get_cli_options(&args);
    assert_eq!(opts.tor_dir, Some(String::from("Y")));
    assert_eq!(opts.log_file, None);
}
