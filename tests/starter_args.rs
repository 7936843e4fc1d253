use win_stall_buddy::starter::{
    create_starter_args, is_valid_starter_arg, map_arg_str_to_enum, map_enum_to_arg_str,
    ValidStarterArg,
};

#[test]
fn words_round_trip() {
    for arg in [
        ValidStarterArg::DOWNLOAD,
        ValidStarterArg::HELP,
        ValidStarterArg::INSTALL,
        ValidStarterArg::VERSION,
    ] {
        assert_eq!(map_arg_str_to_enum(map_enum_to_arg_str(arg)), arg);
    }
    assert_eq!(map_enum_to_arg_str(ValidStarterArg::VERSION), "version");
}

#[test]
fn unknown_word_means_help() {
    assert_eq!(map_arg_str_to_enum("frobnicate".to_string()), ValidStarterArg::HELP);
    assert_eq!(map_arg_str_to_enum("Download".to_string()), ValidStarterArg::HELP);
    assert_eq!(map_arg_str_to_enum(String::new()), ValidStarterArg::HELP);
}

#[test]
fn starter_args_list() {
    assert_eq!(create_starter_args(), vec!["download", "help", "install", "version"]);
}

#[test]
fn invalid_arg_is_replaced_by_help() {
    let mut arg = "download".to_string();
    assert!(is_valid_starter_arg(create_starter_args(), &mut arg));
    assert_eq!(arg, "download");
    let mut arg = "uninstall".to_string();
    assert!(!is_valid_starter_arg(create_starter_args(), &mut arg));
    assert_eq!(arg, "help");
}
