//! Command line options for installing a package.

use crate::text::{flag_if, occurs_in_either, occurs_in_flag, push_all};
use vstd::prelude::*;

verus! {

/// The build environment that `brew` is asked to use.
#[derive(Clone, Copy, Debug, PartialEq, Eq, Structural)]
pub enum BuildEnv {
    Std,
    Super,
    Unset,
}

impl Default for BuildEnv {
    fn default() -> (env: Self)
        ensures
            env == BuildEnv::Unset,
    {
        BuildEnv::Unset
    }
}

impl BuildEnv {
    /// The flag that selects this environment, if it needs one.
    pub open spec fn flags(self) -> Seq<Seq<char>> {
        match self {
            BuildEnv::Std => seq!["--env=std"@],
            BuildEnv::Super => seq!["--env=super"@],
            BuildEnv::Unset => seq![],
        }
    }
}

/// Represents command line options with which to install a package.
#[derive(Clone, Debug)]
pub struct Options {
    env: BuildEnv,
    ignore_dependencies: bool,
    only_dependencies: bool,
    build_from_source: bool,
    include_test: bool,
    force_bottle: bool,
    devel: bool,
    head: bool,
    keep_tmp: bool,
    build_bottle: bool,
    bottle_arch: bool,
    force: bool,
    git: bool,
    package_options: Vec<String>,
}

/// What a set of options holds: the environment, each switch, and the
/// flags that are handed to the package itself, in the order they were added.
pub struct OptionsView {
    pub env: BuildEnv,
    pub ignore_dependencies: bool,
    pub only_dependencies: bool,
    pub build_from_source: bool,
    pub include_test: bool,
    pub force_bottle: bool,
    pub devel: bool,
    pub head: bool,
    pub keep_tmp: bool,
    pub build_bottle: bool,
    pub bottle_arch: bool,
    pub force: bool,
    pub git: bool,
    pub package_options: Seq<Seq<char>>,
}

impl OptionsView {
    /// No switch set, no environment chosen, no package flag.
    pub open spec fn empty() -> OptionsView {
        OptionsView {
            env: BuildEnv::Unset,
            ignore_dependencies: false,
            only_dependencies: false,
            build_from_source: false,
            include_test: false,
            force_bottle: false,
            devel: false,
            head: false,
            keep_tmp: false,
            build_bottle: false,
            bottle_arch: false,
            force: false,
            git: false,
            package_options: Seq::empty(),
        }
    }

    /// The flags for `brew` itself: the environment first, then one flag for
    /// each switch that is set, always in this order.
    pub open spec fn brew_flags(self) -> Seq<Seq<char>> {
        self.env.flags()
            + flag_if(self.ignore_dependencies, "--ignore-dependencies"@)
            + flag_if(self.build_from_source, "--build-from-source"@)
            + flag_if(self.include_test, "--include-test"@)
            + flag_if(self.force_bottle, "--force-bottle"@)
            + flag_if(self.devel, "--devel"@)
            + flag_if(self.head, "--HEAD"@)
            + flag_if(self.keep_tmp, "--keep-tmp"@)
            + flag_if(self.build_bottle, "--build-bottle"@)
            + flag_if(self.bottle_arch, "--bottle-arch"@)
            + flag_if(self.force, "--force"@)
            + flag_if(self.git, "--git"@)
    }
}

/// A text is among the flags for `brew` exactly when it is the flag of the
/// environment or the flag of a switch that is set.
pub proof fn brew_flags_are_those_set(options: OptionsView, text: Seq<char>)
    ensures
        options.brew_flags().contains(text) == {
            ||| options.env.flags().contains(text)
            ||| options.ignore_dependencies && text == "--ignore-dependencies"@
            ||| options.build_from_source && text == "--build-from-source"@
            ||| options.include_test && text == "--include-test"@
            ||| options.force_bottle && text == "--force-bottle"@
            ||| options.devel && text == "--devel"@
            ||| options.head && text == "--HEAD"@
            ||| options.keep_tmp && text == "--keep-tmp"@
            ||| options.build_bottle && text == "--build-bottle"@
            ||| options.bottle_arch && text == "--bottle-arch"@
            ||| options.force && text == "--force"@
            ||| options.git && text == "--git"@
        },
{
    let f1 = flag_if(options.ignore_dependencies, "--ignore-dependencies"@);
    let f2 = flag_if(options.build_from_source, "--build-from-source"@);
    let f3 = flag_if(options.include_test, "--include-test"@);
    let f4 = flag_if(options.force_bottle, "--force-bottle"@);
    let f5 = flag_if(options.devel, "--devel"@);
    let f6 = flag_if(options.head, "--HEAD"@);
    let f7 = flag_if(options.keep_tmp, "--keep-tmp"@);
    let f8 = flag_if(options.build_bottle, "--build-bottle"@);
    let f9 = flag_if(options.bottle_arch, "--bottle-arch"@);
    let f10 = flag_if(options.force, "--force"@);
    let f11 = flag_if(options.git, "--git"@);
    let s0 = options.env.flags();
    let s1 = s0 + f1;
    let s2 = s1 + f2;
    let s3 = s2 + f3;
    let s4 = s3 + f4;
    let s5 = s4 + f5;
    let s6 = s5 + f6;
    let s7 = s6 + f7;
    let s8 = s7 + f8;
    let s9 = s8 + f9;
    let s10 = s9 + f10;
    occurs_in_either(s0, f1, text);
    occurs_in_either(s1, f2, text);
    occurs_in_either(s2, f3, text);
    occurs_in_either(s3, f4, text);
    occurs_in_either(s4, f5, text);
    occurs_in_either(s5, f6, text);
    occurs_in_either(s6, f7, text);
    occurs_in_either(s7, f8, text);
    occurs_in_either(s8, f9, text);
    occurs_in_either(s9, f10, text);
    occurs_in_either(s10, f11, text);
    occurs_in_flag(options.ignore_dependencies, "--ignore-dependencies"@, text);
    occurs_in_flag(options.build_from_source, "--build-from-source"@, text);
    occurs_in_flag(options.include_test, "--include-test"@, text);
    occurs_in_flag(options.force_bottle, "--force-bottle"@, text);
    occurs_in_flag(options.devel, "--devel"@, text);
    occurs_in_flag(options.head, "--HEAD"@, text);
    occurs_in_flag(options.keep_tmp, "--keep-tmp"@, text);
    occurs_in_flag(options.build_bottle, "--build-bottle"@, text);
    occurs_in_flag(options.bottle_arch, "--bottle-arch"@, text);
    occurs_in_flag(options.force, "--force"@, text);
    occurs_in_flag(options.git, "--git"@, text);
}

impl View for Options {
    type V = OptionsView;

    closed spec fn view(&self) -> OptionsView {
        OptionsView {
            env: self.env,
            ignore_dependencies: self.ignore_dependencies,
            only_dependencies: self.only_dependencies,
            build_from_source: self.build_from_source,
            include_test: self.include_test,
            force_bottle: self.force_bottle,
            devel: self.devel,
            head: self.head,
            keep_tmp: self.keep_tmp,
            build_bottle: self.build_bottle,
            bottle_arch: self.bottle_arch,
            force: self.force,
            git: self.git,
            package_options: self.package_options.deep_view(),
        }
    }
}

impl Default for Options {
    fn default() -> (options: Self)
        ensures
            options@ == OptionsView::empty(),
    {
        let options = Options {
            env: BuildEnv::Unset,
            ignore_dependencies: false,
            only_dependencies: false,
            build_from_source: false,
            include_test: false,
            force_bottle: false,
            devel: false,
            head: false,
            keep_tmp: false,
            build_bottle: false,
            bottle_arch: false,
            force: false,
            git: false,
            package_options: Vec::new(),
        };
        assert(options.package_options.deep_view() =~= Seq::<Seq<char>>::empty());
        options
    }
}

impl Options {
    /// Represents no options added.
    pub fn new() -> (options: Self)
        ensures
            options@ == OptionsView::empty(),
    {
        Options::default()
    }

    /// Adds the `--env=std` option.
    pub fn env_std(self) -> (options: Self)
        ensures
            options@ == (OptionsView { env: BuildEnv::Std, ..self@ }),
    {
        let mut options = self;
        options.env = BuildEnv::Std;
        options
    }

    /// Adds the `--env=super` option.
    pub fn env_super(self) -> (options: Self)
        ensures
            options@ == (OptionsView { env: BuildEnv::Super, ..self@ }),
    {
        let mut options = self;
        options.env = BuildEnv::Super;
        options
    }

    /// Adds the `--ignore-dependencies` flag.
    pub fn ignore_dependencies(self) -> (options: Self)
        ensures
            options@ == (OptionsView { ignore_dependencies: true, ..self@ }),
    {
        let mut options = self;
        options.ignore_dependencies = true;
        options
    }

    /// Adds the `--build-from-source` flag.
    pub fn build_from_source(self) -> (options: Self)
        ensures
            options@ == (OptionsView { build_from_source: true, ..self@ }),
    {
        let mut options = self;
        options.build_from_source = true;
        options
    }

    /// Adds the `--include-test` flag.
    pub fn include_test(self) -> (options: Self)
        ensures
            options@ == (OptionsView { include_test: true, ..self@ }),
    {
        let mut options = self;
        options.include_test = true;
        options
    }

    /// Adds the `--force-bottle` flag.
    pub fn force_bottle(self) -> (options: Self)
        ensures
            options@ == (OptionsView { force_bottle: true, ..self@ }),
    {
        let mut options = self;
        options.force_bottle = true;
        options
    }

    /// Adds the `--devel` flag.
    pub fn devel(self) -> (options: Self)
        ensures
            options@ == (OptionsView { devel: true, ..self@ }),
    {
        let mut options = self;
        options.devel = true;
        options
    }

    /// Adds the `--HEAD` flag.
    pub fn head(self) -> (options: Self)
        ensures
            options@ == (OptionsView { head: true, ..self@ }),
    {
        let mut options = self;
        options.head = true;
        options
    }

    /// Adds the `--keep-tmp` flag.
    pub fn keep_tmp(self) -> (options: Self)
        ensures
            options@ == (OptionsView { keep_tmp: true, ..self@ }),
    {
        let mut options = self;
        options.keep_tmp = true;
        options
    }

    /// Adds the `--build-bottle` flag.
    pub fn build_bottle(self) -> (options: Self)
        ensures
            options@ == (OptionsView { build_bottle: true, ..self@ }),
    {
        let mut options = self;
        options.build_bottle = true;
        options
    }

    /// Adds the `--bottle-arch` flag.
    pub fn bottle_arch(self) -> (options: Self)
        ensures
            options@ == (OptionsView { bottle_arch: true, ..self@ }),
    {
        let mut options = self;
        options.bottle_arch = true;
        options
    }

    /// Adds the `--force` flag.
    pub fn force(self) -> (options: Self)
        ensures
            options@ == (OptionsView { force: true, ..self@ }),
    {
        let mut options = self;
        options.force = true;
        options
    }

    /// Adds the `--git` flag.
    pub fn git(self) -> (options: Self)
        ensures
            options@ == (OptionsView { git: true, ..self@ }),
    {
        let mut options = self;
        options.git = true;
        options
    }

    /// Adds a flag for the package to use directly.
    pub fn option(self, opt: &str) -> (options: Self)
        ensures
            options@ == (OptionsView {
                package_options: self@.package_options.push(opt@),
                ..self@
            }),
    {
        let mut options = self;
        options.package_options.push(opt.to_owned());
        assert(options.package_options.deep_view() =~= self.package_options.deep_view().push(
            opt@,
        ));
        options
    }

    /// Adds multiple flags for the package to use directly, in the order given.
    pub fn options(self, opts: &[&str]) -> (options: Self)
        ensures
            options@ == (OptionsView {
                package_options: self@.package_options + opts.deep_view(),
                ..self@
            }),
    {
        let mut options = self;
        push_all(&mut options.package_options, opts);
        options
    }

    /// Whether `--force` was asked for.
    pub fn forced(&self) -> (forced: bool)
        ensures
            forced == self@.force,
    {
        self.force
    }

    /// The flags that are handed to the package itself.
    pub fn package_options(&self) -> (flags: &Vec<String>)
        ensures
            flags.deep_view() == self@.package_options,
    {
        &self.package_options
    }

    /// The flags for `brew` that these options stand for.
    pub fn brew_options(&self) -> (out: Vec<&'static str>)
        ensures
            out.deep_view() == self@.brew_flags(),
    {
        let mut out: Vec<&'static str> = Vec::new();
        match self.env {
            BuildEnv::Std => out.push("--env=std"),
            BuildEnv::Super => out.push("--env=super"),
            BuildEnv::Unset => {},
        }
        assert(out.deep_view() =~= self.env.flags());
        push_if(&mut out, self.ignore_dependencies, "--ignore-dependencies");
        push_if(&mut out, self.build_from_source, "--build-from-source");
        push_if(&mut out, self.include_test, "--include-test");
        push_if(&mut out, self.force_bottle, "--force-bottle");
        push_if(&mut out, self.devel, "--devel");
        push_if(&mut out, self.head, "--HEAD");
        push_if(&mut out, self.keep_tmp, "--keep-tmp");
        push_if(&mut out, self.build_bottle, "--build-bottle");
        push_if(&mut out, self.bottle_arch, "--bottle-arch");
        push_if(&mut out, self.force, "--force");
        push_if(&mut out, self.git, "--git");
        out
    }
}

/// Appends `text` to `out` if `on` holds, and leaves `out` alone otherwise.
fn push_if(out: &mut Vec<&'static str>, on: bool, text: &'static str)
    ensures
        final(out).deep_view() == old(out).deep_view() + flag_if(on, text@),
{
    if on {
        out.push(text);
    }
    assert(out.deep_view() =~= old(out).deep_view() + flag_if(on, text@));
}

} // verus!
