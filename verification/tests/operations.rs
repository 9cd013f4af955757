use brew::{
    install_homebrew, install_homebrew_at, packages, update, BrewError, Installed, Invocation,
    Options, Package, Reply, Running, Script, Step, Version, Versions,
};
use command_builder::Single;
use std::collections::HashMap;

fn installed_with(used_options: &[&str]) -> Installed {
    Installed {
        version: Version::new("1.0.0".to_string()),
        used_options: used_options.iter().map(|flag| flag.to_string()).collect(),
        built_as_bottle: false,
        poured_from_bottle: true,
        runtime_dependencies: vec![],
        installed_as_dependency: false,
        installed_on_request: true,
    }
}

fn package(name: &str, installed: Vec<Installed>, pinned: bool) -> Package {
    Package {
        name: name.to_string(),
        full_name: format!("homebrew/core/{}", name),
        aliases: vec![],
        oldname: None,
        desc: None,
        homepage: None,
        versions: Versions {
            stable: Version::new("1.0.0".to_string()),
            devel: None,
            head: None,
            bottle: true,
        },
        urls: HashMap::new(),
        revision: 0,
        version_scheme: 0,
        bottle: HashMap::new(),
        keg_only: false,
        bottle_disabled: false,
        options: vec![],
        build_dependencies: vec![],
        dependencies: vec![],
        recommended_dependencies: vec![],
        optional_dependencies: vec![],
        uses_from_macos: vec![],
        requirements: vec![],
        conflicts_with: vec![],
        caveats: None,
        installed,
        linked_keg: None,
        pinned,
        outdated: false,
        analytics: None,
    }
}

fn brew(args: &[&str]) -> Single {
    Single::new("brew").args(args)
}

fn no_auto_update(invocation: &Invocation) -> bool {
    invocation.env == vec![("HOMEBREW_NO_AUTO_UPDATE".to_string(), "1".to_string())]
}

/// The command of a step that changes the package `name`.
fn change(step: Step, name: &str, install: bool) -> Single {
    match step {
        Step::Run(Script::One(invocation), Running::Change { name: changed, install: kind }) => {
            assert_eq!(changed, name);
            assert_eq!(kind, install);
            assert!(no_auto_update(&invocation));
            invocation.command
        }
        other => panic!("a change was expected, not {:?}", other),
    }
}

/// The command of a step that asks for the description of a package.
fn query(step: Step) -> Single {
    match step {
        Step::Run(Script::One(invocation), Running::Query { must_be_installed: false }) => {
            assert!(no_auto_update(&invocation));
            invocation.command
        }
        other => panic!("a query was expected, not {:?}", other),
    }
}

#[test]
fn is_installed_goes_by_the_installed_list() {
    assert!(!package("exa", vec![], false).is_installed());
    assert!(package("exa", vec![installed_with(&[])], false).is_installed());
}

#[test]
fn install_options_are_those_of_the_first_installation() {
    assert!(package("exa", vec![], false).install_options().is_none());
    let twice = package("exa", vec![installed_with(&["--a"]), installed_with(&["--b"])], false);
    assert_eq!(twice.install_options().unwrap(), ["--a".to_string()]);
    let bare = package("exa", vec![installed_with(&[])], false);
    assert!(bare.install_options().unwrap().is_empty());
}

#[test]
fn describing_a_package_asks_for_its_info() {
    assert_eq!(
        query(Package::new("exa")),
        Single::new("/usr/local/bin/brew").args(&["info", "exa", "--json=v1"])
    );
}

#[test]
fn a_missing_package_is_installed() {
    let exa = package("exa", vec![], false);
    assert_eq!(change(exa.install(&Options::new()), "exa", true), brew(&["install", "exa"]));
}

#[test]
fn a_missing_package_is_installed_even_when_forced() {
    let exa = package("exa", vec![], false);
    assert_eq!(
        change(exa.install(&Options::new().force()), "exa", true),
        brew(&["install", "--force", "exa"])
    );
}

#[test]
fn install_puts_brew_flags_before_the_name_and_package_flags_after() {
    let exa = package("exa", vec![], false);
    let options = Options::new().option("--with-git").head().env_std().option("--without-x");
    assert_eq!(
        change(exa.install(&options), "exa", true),
        brew(&["install", "--env=std", "--HEAD", "exa", "--with-git", "--without-x"])
    );
}

#[test]
fn an_installed_package_is_reinstalled_when_forced() {
    let exa = package("exa", vec![installed_with(&["--with-git"])], false);
    let options = Options::new().force().option("--with-git");
    assert_eq!(
        change(exa.install(&options), "exa", true),
        brew(&["reinstall", "--force", "exa", "--with-git"])
    );
}

#[test]
fn an_installed_package_is_reinstalled_for_a_new_flag() {
    let exa = package("exa", vec![installed_with(&["--with-git"])], false);
    let options = Options::new().option("--with-git").option("--with-x");
    assert_eq!(
        change(exa.install(&options), "exa", true),
        brew(&["reinstall", "exa", "--with-git", "--with-x"])
    );
}

#[test]
fn an_installed_package_with_the_flags_asked_for_is_only_described() {
    let exa = package("exa", vec![installed_with(&["--with-git", "--with-x"])], false);
    let described = Single::new("/usr/local/bin/brew").args(&["info", "exa", "--json=v1"]);
    assert_eq!(query(exa.install(&Options::new())), described);
    assert_eq!(query(exa.install(&Options::new().option("--with-x"))), described);
    assert_eq!(query(exa.install(&Options::new().git().option("--with-git"))), described);
}

#[test]
fn only_the_first_installation_counts_for_install() {
    let exa = package("exa", vec![installed_with(&[]), installed_with(&["--with-x"])], false);
    assert_eq!(
        change(exa.install(&Options::new().option("--with-x")), "exa", true),
        brew(&["reinstall", "exa", "--with-x"])
    );
}

#[test]
fn uninstall_adds_the_flags_asked_for() {
    let exa = package("exa", vec![installed_with(&[])], false);
    assert_eq!(change(exa.uninstall(false, false), "exa", false), brew(&["uninstall", "exa"]));
    assert_eq!(
        change(exa.uninstall(true, false), "exa", false),
        brew(&["uninstall", "exa", "--force"])
    );
    assert_eq!(
        change(exa.uninstall(false, true), "exa", false),
        brew(&["uninstall", "exa", "--ignore-dependencies"])
    );
    assert_eq!(
        change(exa.uninstall(true, true), "exa", false),
        brew(&["uninstall", "exa", "--force", "--ignore-dependencies"])
    );
}

#[test]
fn pin_runs_only_on_a_package_that_is_not_pinned() {
    let loose = package("exa", vec![], false);
    assert_eq!(change(loose.pin(), "exa", false), brew(&["pin", "exa"]));
    let pinned = package("exa", vec![], true);
    assert!(matches!(pinned.pin(), Step::Done(Ok(Reply::Unchanged))));
}

#[test]
fn unpin_runs_only_on_a_pinned_package() {
    let pinned = package("exa", vec![], true);
    assert_eq!(change(pinned.unpin(), "exa", false), brew(&["unpin", "exa"]));
    let loose = package("exa", vec![], false);
    assert!(matches!(loose.unpin(), Step::Done(Ok(Reply::Unchanged))));
}

#[test]
fn upgrade_needs_an_installed_package() {
    let installed = package("exa", vec![installed_with(&[])], false);
    assert_eq!(change(installed.upgrade(), "exa", false), brew(&["upgrade", "exa"]));
    let missing = package("exa", vec![], false);
    assert!(matches!(missing.upgrade(), Step::Done(Err(BrewError::NotInstalled))));
}

#[test]
fn update_runs_brew_update_in_the_plain_environment() {
    let Step::Run(Script::One(invocation), Running::Update) = update() else {
        panic!("an update was expected");
    };
    assert_eq!(invocation.command, brew(&["update"]));
    assert!(invocation.env.is_empty());
}

#[test]
fn packages_lists_what_the_selector_names() {
    let Step::Run(Script::One(invocation), Running::List) = packages("--installed") else {
        panic!("a listing was expected");
    };
    assert_eq!(invocation.command, brew(&["info", "--json=v1", "--installed"]));
    assert!(no_auto_update(&invocation));
}

#[test]
fn homebrew_is_fetched_and_unpacked_in_the_directory() {
    let Step::Run(Script::AndPipe { dir, first, second, third }, Running::Bootstrap) =
        install_homebrew_at("/opt")
    else {
        panic!("the download was expected");
    };
    assert_eq!(dir, "/opt");
    assert_eq!(first, Single::new("mkdir").arg("homebrew"));
    assert_eq!(
        second,
        Single::new("curl").arg("-L").arg("https://github.com/Homebrew/brew/tarball/master")
    );
    assert_eq!(third, Single::new("tar").args(&["xz", "--strip", "1", "-C", "homebrew"]));
}

#[test]
fn homebrew_goes_to_usr_local_by_default() {
    let Step::Run(Script::AndPipe { dir, .. }, Running::Bootstrap) = install_homebrew() else {
        panic!("the download was expected");
    };
    assert_eq!(dir, "/usr/local");
}
