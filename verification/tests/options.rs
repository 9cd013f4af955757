use brew::{BuildEnv, Options};

#[test]
fn new_options_have_no_flags() {
    let options = Options::new();
    assert!(options.brew_options().is_empty());
    assert!(options.package_options().is_empty());
    assert!(!options.forced());
}

#[test]
fn default_options_have_no_flags() {
    let options = Options::default();
    assert!(options.brew_options().is_empty());
    assert!(options.package_options().is_empty());
}

#[test]
fn default_build_env_is_unset() {
    assert_eq!(BuildEnv::default(), BuildEnv::Unset);
}

#[test]
fn each_switch_gives_its_flag() {
    assert_eq!(Options::new().env_std().brew_options(), vec!["--env=std"]);
    assert_eq!(Options::new().env_super().brew_options(), vec!["--env=super"]);
    assert_eq!(Options::new().ignore_dependencies().brew_options(), vec!["--ignore-dependencies"]);
    assert_eq!(Options::new().build_from_source().brew_options(), vec!["--build-from-source"]);
    assert_eq!(Options::new().include_test().brew_options(), vec!["--include-test"]);
    assert_eq!(Options::new().force_bottle().brew_options(), vec!["--force-bottle"]);
    assert_eq!(Options::new().devel().brew_options(), vec!["--devel"]);
    assert_eq!(Options::new().head().brew_options(), vec!["--HEAD"]);
    assert_eq!(Options::new().keep_tmp().brew_options(), vec!["--keep-tmp"]);
    assert_eq!(Options::new().build_bottle().brew_options(), vec!["--build-bottle"]);
    assert_eq!(Options::new().bottle_arch().brew_options(), vec!["--bottle-arch"]);
    assert_eq!(Options::new().force().brew_options(), vec!["--force"]);
    assert_eq!(Options::new().git().brew_options(), vec!["--git"]);
}

#[test]
fn flags_come_in_a_fixed_order() {
    let options = Options::new()
        .git()
        .force()
        .bottle_arch()
        .build_bottle()
        .keep_tmp()
        .head()
        .devel()
        .force_bottle()
        .include_test()
        .build_from_source()
        .ignore_dependencies()
        .env_std();
    assert_eq!(
        options.brew_options(),
        vec![
            "--env=std",
            "--ignore-dependencies",
            "--build-from-source",
            "--include-test",
            "--force-bottle",
            "--devel",
            "--HEAD",
            "--keep-tmp",
            "--build-bottle",
            "--bottle-arch",
            "--force",
            "--git",
        ]
    );
}

#[test]
fn a_switch_set_twice_gives_one_flag() {
    assert_eq!(Options::new().force().force().brew_options(), vec!["--force"]);
}

#[test]
fn the_last_environment_wins() {
    assert_eq!(Options::new().env_std().env_super().brew_options(), vec!["--env=super"]);
    assert_eq!(Options::new().env_super().env_std().brew_options(), vec!["--env=std"]);
}

#[test]
fn force_is_remembered() {
    assert!(Options::new().force().forced());
    assert!(!Options::new().git().forced());
}

#[test]
fn package_flags_keep_their_order() {
    let options = Options::new().option("--with-b").option("--with-a").option("--with-b");
    assert_eq!(options.package_options(), &vec!["--with-b", "--with-a", "--with-b"]);
    assert!(options.brew_options().is_empty());
}

#[test]
fn many_package_flags_are_appended() {
    let options = Options::new().option("--first").options(&["--second", "--third"]).options(&[]);
    assert_eq!(options.package_options(), &vec!["--first", "--second", "--third"]);
}

#[test]
fn package_flags_leave_the_switches_alone() {
    let options = Options::new().devel().option("--with-x").head();
    assert_eq!(options.brew_options(), vec!["--devel", "--HEAD"]);
    assert_eq!(options.package_options(), &vec!["--with-x"]);
}
