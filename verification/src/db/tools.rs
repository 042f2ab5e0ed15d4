//! Builders for the command lines of pacman, makepkg and git.

use vstd::prelude::*;

use super::command::{CommandLine, CommandView, Stdio, strings_view};

verus! {

/// An invocation of `pacman`, built one option at a time.
pub struct Pacman(pub CommandLine);

impl Pacman {
    /// The command line of `Pacman::default()`: `/usr/bin/pacman` with no arguments.
    pub open spec fn default_spec() -> CommandView {
        CommandLine::new_spec("/usr/bin/pacman"@)
    }

    /// Appends `--database`.
    pub fn database(self) -> (r: Self)
        ensures
            r.0@ == self.0@.push_arg("--database"@),
    {
        let mut c = self.0;
        c.arg("--database");
        Pacman(c)
    }

    /// Appends `--files`.
    pub fn files(self) -> (r: Self)
        ensures
            r.0@ == self.0@.push_arg("--files"@),
    {
        let mut c = self.0;
        c.arg("--files");
        Pacman(c)
    }

    /// Appends `--query`.
    pub fn query(self) -> (r: Self)
        ensures
            r.0@ == self.0@.push_arg("--query"@),
    {
        let mut c = self.0;
        c.arg("--query");
        Pacman(c)
    }

    /// Appends `--remove`.
    pub fn remove(self) -> (r: Self)
        ensures
            r.0@ == self.0@.push_arg("--remove"@),
    {
        let mut c = self.0;
        c.arg("--remove");
        Pacman(c)
    }

    /// Appends `--sync`.
    pub fn sync(self) -> (r: Self)
        ensures
            r.0@ == self.0@.push_arg("--sync"@),
    {
        let mut c = self.0;
        c.arg("--sync");
        Pacman(c)
    }

    /// Appends `--deptest`.
    pub fn deptest(self) -> (r: Self)
        ensures
            r.0@ == self.0@.push_arg("--deptest"@),
    {
        let mut c = self.0;
        c.arg("--deptest");
        Pacman(c)
    }

    /// Appends `--upgrade`.
    pub fn upgrade(self) -> (r: Self)
        ensures
            r.0@ == self.0@.push_arg("--upgrade"@),
    {
        let mut c = self.0;
        c.arg("--upgrade");
        Pacman(c)
    }

    /// Appends `--changelog`.
    pub fn changelog(self) -> (r: Self)
        ensures
            r.0@ == self.0@.push_arg("--changelog"@),
    {
        let mut c = self.0;
        c.arg("--changelog");
        Pacman(c)
    }

    /// Appends `--deps`.
    pub fn deps(self) -> (r: Self)
        ensures
            r.0@ == self.0@.push_arg("--deps"@),
    {
        let mut c = self.0;
        c.arg("--deps");
        Pacman(c)
    }

    /// Appends `--explicit`.
    pub fn explicit(self) -> (r: Self)
        ensures
            r.0@ == self.0@.push_arg("--explicit"@),
    {
        let mut c = self.0;
        c.arg("--explicit");
        Pacman(c)
    }

    /// Appends `--groups`.
    pub fn groups(self) -> (r: Self)
        ensures
            r.0@ == self.0@.push_arg("--groups"@),
    {
        let mut c = self.0;
        c.arg("--groups");
        Pacman(c)
    }

    /// Appends `--info`.
    pub fn info(self) -> (r: Self)
        ensures
            r.0@ == self.0@.push_arg("--info"@),
    {
        let mut c = self.0;
        c.arg("--info");
        Pacman(c)
    }

    /// Appends `--check`.
    pub fn check(self) -> (r: Self)
        ensures
            r.0@ == self.0@.push_arg("--check"@),
    {
        let mut c = self.0;
        c.arg("--check");
        Pacman(c)
    }

    /// Appends `--list`.
    pub fn list(self) -> (r: Self)
        ensures
            r.0@ == self.0@.push_arg("--list"@),
    {
        let mut c = self.0;
        c.arg("--list");
        Pacman(c)
    }

    /// Appends `--foreign,`.
    pub fn foreign(self) -> (r: Self)
        ensures
            r.0@ == self.0@.push_arg("--foreign,"@),
    {
        let mut c = self.0;
        c.arg("--foreign,");
        Pacman(c)
    }

    /// Appends `--native,`.
    pub fn native(self) -> (r: Self)
        ensures
            r.0@ == self.0@.push_arg("--native,"@),
    {
        let mut c = self.0;
        c.arg("--native,");
        Pacman(c)
    }

    /// Appends `--owns` `<file>`.
    pub fn owns(self, file: &str) -> (r: Self)
        ensures
            r.0@ == self.0@.push_arg("--owns"@).push_arg(file@),
    {
        let mut c = self.0;
        c.arg("--owns");
        c.arg(file);
        Pacman(c)
    }

    /// Appends `--file` `<package>`.
    pub fn file(self, package: &str) -> (r: Self)
        ensures
            r.0@ == self.0@.push_arg("--file"@).push_arg(package@),
    {
        let mut c = self.0;
        c.arg("--file");
        c.arg(package);
        Pacman(c)
    }

    /// Appends `--quiet`.
    pub fn quiet(self) -> (r: Self)
        ensures
            r.0@ == self.0@.push_arg("--quiet"@),
    {
        let mut c = self.0;
        c.arg("--quiet");
        Pacman(c)
    }

    /// Appends `--search` `<regex>`.
    pub fn search(self, regex: &str) -> (r: Self)
        ensures
            r.0@ == self.0@.push_arg("--search"@).push_arg(regex@),
    {
        let mut c = self.0;
        c.arg("--search");
        c.arg(regex);
        Pacman(c)
    }

    /// Appends `--unrequired`.
    pub fn unrequired(self) -> (r: Self)
        ensures
            r.0@ == self.0@.push_arg("--unrequired"@),
    {
        let mut c = self.0;
        c.arg("--unrequired");
        Pacman(c)
    }

    /// Appends `--upgrades`.
    pub fn upgrades(self) -> (r: Self)
        ensures
            r.0@ == self.0@.push_arg("--upgrades"@),
    {
        let mut c = self.0;
        c.arg("--upgrades");
        Pacman(c)
    }

    /// Appends `--cascade`.
    pub fn cascade(self) -> (r: Self)
        ensures
            r.0@ == self.0@.push_arg("--cascade"@),
    {
        let mut c = self.0;
        c.arg("--cascade");
        Pacman(c)
    }

    /// Appends `--nosave`.
    pub fn nosave(self) -> (r: Self)
        ensures
            r.0@ == self.0@.push_arg("--nosave"@),
    {
        let mut c = self.0;
        c.arg("--nosave");
        Pacman(c)
    }

    /// Appends `--recursive`.
    pub fn recursive(self) -> (r: Self)
        ensures
            r.0@ == self.0@.push_arg("--recursive"@),
    {
        let mut c = self.0;
        c.arg("--recursive");
        Pacman(c)
    }

    /// Appends `--unneeded`.
    pub fn unneeded(self) -> (r: Self)
        ensures
            r.0@ == self.0@.push_arg("--unneeded"@),
    {
        let mut c = self.0;
        c.arg("--unneeded");
        Pacman(c)
    }

    /// Appends `--assume-installed` `<package>`.
    pub fn assume_installed(self, package: &str) -> (r: Self)
        ensures
            r.0@ == self.0@.push_arg("--assume-installed"@).push_arg(package@),
    {
        let mut c = self.0;
        c.arg("--assume-installed");
        c.arg(package);
        Pacman(c)
    }

    /// Appends `--cachedir` `<dir>`.
    pub fn cachedir(self, dir: &str) -> (r: Self)
        ensures
            r.0@ == self.0@.push_arg("--cachedir"@).push_arg(dir@),
    {
        let mut c = self.0;
        c.arg("--cachedir");
        c.arg(dir);
        Pacman(c)
    }

    /// Appends `--color` `<when>`.
    pub fn color(self, when: &str) -> (r: Self)
        ensures
            r.0@ == self.0@.push_arg("--color"@).push_arg(when@),
    {
        let mut c = self.0;
        c.arg("--color");
        c.arg(when);
        Pacman(c)
    }

    /// Appends `--config` `<path>`.
    pub fn config(self, path: &str) -> (r: Self)
        ensures
            r.0@ == self.0@.push_arg("--config"@).push_arg(path@),
    {
        let mut c = self.0;
        c.arg("--config");
        c.arg(path);
        Pacman(c)
    }

    /// Appends `--confirm`.
    pub fn confirm(self) -> (r: Self)
        ensures
            r.0@ == self.0@.push_arg("--confirm"@),
    {
        let mut c = self.0;
        c.arg("--confirm");
        Pacman(c)
    }

    /// Appends `--dbonly`.
    pub fn dbonly(self) -> (r: Self)
        ensures
            r.0@ == self.0@.push_arg("--dbonly"@),
    {
        let mut c = self.0;
        c.arg("--dbonly");
        Pacman(c)
    }

    /// Appends `--debug`.
    pub fn debug(self) -> (r: Self)
        ensures
            r.0@ == self.0@.push_arg("--debug"@),
    {
        let mut c = self.0;
        c.arg("--debug");
        Pacman(c)
    }

    /// Appends `--disable-download-timeout`.
    pub fn disable_download_timeout(self) -> (r: Self)
        ensures
            r.0@ == self.0@.push_arg("--disable-download-timeout"@),
    {
        let mut c = self.0;
        c.arg("--disable-download-timeout");
        Pacman(c)
    }

    /// Appends `--gpgdir` `<path>`.
    pub fn gpgdir(self, path: &str) -> (r: Self)
        ensures
            r.0@ == self.0@.push_arg("--gpgdir"@).push_arg(path@),
    {
        let mut c = self.0;
        c.arg("--gpgdir");
        c.arg(path);
        Pacman(c)
    }

    /// Appends `--hookdir` `<dir>`.
    pub fn hookdir(self, dir: &str) -> (r: Self)
        ensures
            r.0@ == self.0@.push_arg("--hookdir"@).push_arg(dir@),
    {
        let mut c = self.0;
        c.arg("--hookdir");
        c.arg(dir);
        Pacman(c)
    }

    /// Appends `--logfile` `<path>`.
    pub fn logfile(self, path: &str) -> (r: Self)
        ensures
            r.0@ == self.0@.push_arg("--logfile"@).push_arg(path@),
    {
        let mut c = self.0;
        c.arg("--logfile");
        c.arg(path);
        Pacman(c)
    }

    /// Appends `--noconfirm`.
    pub fn noconfirm(self) -> (r: Self)
        ensures
            r.0@ == self.0@.push_arg("--noconfirm"@),
    {
        let mut c = self.0;
        c.arg("--noconfirm");
        Pacman(c)
    }

    /// Appends `--noprogressbar`.
    pub fn noprogressbar(self) -> (r: Self)
        ensures
            r.0@ == self.0@.push_arg("--noprogressbar"@),
    {
        let mut c = self.0;
        c.arg("--noprogressbar");
        Pacman(c)
    }

    /// Appends `--noscriptlet`.
    pub fn noscriptlet(self) -> (r: Self)
        ensures
            r.0@ == self.0@.push_arg("--noscriptlet"@),
    {
        let mut c = self.0;
        c.arg("--noscriptlet");
        Pacman(c)
    }

    /// Appends `--print-format` `<string>`.
    pub fn print_format(self, string: &str) -> (r: Self)
        ensures
            r.0@ == self.0@.push_arg("--print-format"@).push_arg(string@),
    {
        let mut c = self.0;
        c.arg("--print-format");
        c.arg(string);
        Pacman(c)
    }

    /// Appends `--sysroot`.
    pub fn sysroot(self) -> (r: Self)
        ensures
            r.0@ == self.0@.push_arg("--sysroot"@),
    {
        let mut c = self.0;
        c.arg("--sysroot");
        Pacman(c)
    }

    /// Appends `--clean`.
    pub fn clean(self) -> (r: Self)
        ensures
            r.0@ == self.0@.push_arg("--clean"@),
    {
        let mut c = self.0;
        c.arg("--clean");
        Pacman(c)
    }

    /// Appends `--sysupgrade`.
    pub fn sysupgrade(self) -> (r: Self)
        ensures
            r.0@ == self.0@.push_arg("--sysupgrade"@),
    {
        let mut c = self.0;
        c.arg("--sysupgrade");
        Pacman(c)
    }

    /// Appends `--refresh`.
    pub fn refresh(self) -> (r: Self)
        ensures
            r.0@ == self.0@.push_arg("--refresh"@),
    {
        let mut c = self.0;
        c.arg("--refresh");
        Pacman(c)
    }

    /// Appends `--asdeps`.
    pub fn asdeps(self) -> (r: Self)
        ensures
            r.0@ == self.0@.push_arg("--asdeps"@),
    {
        let mut c = self.0;
        c.arg("--asdeps");
        Pacman(c)
    }

    /// Appends `--asexplicit`.
    pub fn asexplicit(self) -> (r: Self)
        ensures
            r.0@ == self.0@.push_arg("--asexplicit"@),
    {
        let mut c = self.0;
        c.arg("--asexplicit");
        Pacman(c)
    }

    /// Appends `--ignore` `<pkg>`.
    pub fn ignore(self, pkg: &str) -> (r: Self)
        ensures
            r.0@ == self.0@.push_arg("--ignore"@).push_arg(pkg@),
    {
        let mut c = self.0;
        c.arg("--ignore");
        c.arg(pkg);
        Pacman(c)
    }

    /// Appends `--ignoregroup` `<grp>`.
    pub fn ignoregroup(self, grp: &str) -> (r: Self)
        ensures
            r.0@ == self.0@.push_arg("--ignoregroup"@).push_arg(grp@),
    {
        let mut c = self.0;
        c.arg("--ignoregroup");
        c.arg(grp);
        Pacman(c)
    }

    /// Appends `--needed`.
    pub fn needed(self) -> (r: Self)
        ensures
            r.0@ == self.0@.push_arg("--needed"@),
    {
        let mut c = self.0;
        c.arg("--needed");
        Pacman(c)
    }

    /// Appends `--overwrite` `<glob>`.
    pub fn overwrite(self, glob: &str) -> (r: Self)
        ensures
            r.0@ == self.0@.push_arg("--overwrite"@).push_arg(glob@),
    {
        let mut c = self.0;
        c.arg("--overwrite");
        c.arg(glob);
        Pacman(c)
    }

    /// Appends `--dbpath` `<path>`.
    pub fn dbpath(self, path: &str) -> (r: Self)
        ensures
            r.0@ == self.0@.push_arg("--dbpath"@).push_arg(path@),
    {
        let mut c = self.0;
        c.arg("--dbpath");
        c.arg(path);
        Pacman(c)
    }

    /// Appends `--nodeps`.
    pub fn nodeps(self) -> (r: Self)
        ensures
            r.0@ == self.0@.push_arg("--nodeps"@),
    {
        let mut c = self.0;
        c.arg("--nodeps");
        Pacman(c)
    }

    /// Appends `--print`.
    pub fn print(self) -> (r: Self)
        ensures
            r.0@ == self.0@.push_arg("--print"@),
    {
        let mut c = self.0;
        c.arg("--print");
        Pacman(c)
    }

    /// Appends `--root` `<path>`.
    pub fn root(self, path: &str) -> (r: Self)
        ensures
            r.0@ == self.0@.push_arg("--root"@).push_arg(path@),
    {
        let mut c = self.0;
        c.arg("--root");
        c.arg(path);
        Pacman(c)
    }

    /// Appends `--verbose`.
    pub fn verbose(self) -> (r: Self)
        ensures
            r.0@ == self.0@.push_arg("--verbose"@),
    {
        let mut c = self.0;
        c.arg("--verbose");
        Pacman(c)
    }

    /// Appends `--downloadonly`.
    pub fn downloadonly(self) -> (r: Self)
        ensures
            r.0@ == self.0@.push_arg("--downloadonly"@),
    {
        let mut c = self.0;
        c.arg("--downloadonly");
        Pacman(c)
    }

    /// Appends `--arch` `<arch>`.
    pub fn arch(self, arch: &str) -> (r: Self)
        ensures
            r.0@ == self.0@.push_arg("--arch"@).push_arg(arch@),
    {
        let mut c = self.0;
        c.arg("--arch");
        c.arg(arch);
        Pacman(c)
    }

    /// Appends `<package>`.
    pub fn package(self, package: &str) -> (r: Self)
        ensures
            r.0@ == self.0@.push_arg(package@),
    {
        let mut c = self.0;
        c.arg(package);
        Pacman(c)
    }

    /// Appends a custom argument.
    pub fn arg(self, v: &str) -> (r: Self)
        ensures
            r.0@ == self.0@.push_arg(v@),
    {
        let mut c = self.0;
        c.arg(v);
        Pacman(c)
    }

    /// Appends custom arguments, in order.
    pub fn args(self, v: &Vec<String>) -> (r: Self)
        ensures
            r.0@ == self.0@.push_args(strings_view(v@)),
    {
        let mut c = self.0;
        c.args(v);
        Pacman(c)
    }

    /// An invocation of the tool at `path`.
    pub fn new(path: &str) -> (r: Self)
        ensures
            r.0@ == CommandLine::new_spec(path@),
    {
        Pacman(CommandLine::new(path))
    }

    /// Attaches the streams to the current terminal, or to the null device.
    pub fn attach(self, terminal: bool) -> (r: Self)
        ensures
            r.0@ == self.0@.with_streams(if terminal { Stdio::Inherit } else { Stdio::Null }),
    {
        let mut c = self.0;
        if terminal {
            c.streams(Stdio::Inherit);
        } else {
            c.streams(Stdio::Null);
        }
        Pacman(c)
    }

    /// Captures stdin, stdout and stderr through pipes.
    pub fn capture(self) -> (r: Self)
        ensures
            r.0@ == self.0@.with_streams(Stdio::Piped),
    {
        let mut c = self.0;
        c.streams(Stdio::Piped);
        Pacman(c)
    }

    /// Runs the tool in the directory `at`.
    pub fn at(self, at: &str) -> (r: Self)
        ensures
            r.0@ == self.0@.in_dir(at@),
    {
        let mut c = self.0;
        c.current_dir(at);
        Pacman(c)
    }

    /// The command line built so far.
    pub fn into_raw(self) -> (r: CommandLine)
        ensures
            r@ == self.0@,
    {
        self.0
    }

    /// Continues building from a command line.
    pub fn from_raw(c: CommandLine) -> (r: Self)
        ensures
            r.0@ == c@,
    {
        Pacman(c)
    }
}

impl Default for Pacman {
    /// An invocation of `/usr/bin/pacman`.
    fn default() -> (r: Self)
        ensures
            r.0@ == Pacman::default_spec(),
    {
        Pacman(CommandLine::new("/usr/bin/pacman"))
    }
}

/// An invocation of `makepkg`, built one option at a time.
pub struct Makepkg(pub CommandLine);

impl Makepkg {
    /// The command line of `Makepkg::default()`: `/usr/bin/makepkg` with no arguments.
    pub open spec fn default_spec() -> CommandView {
        CommandLine::new_spec("/usr/bin/makepkg"@)
    }

    /// Appends `--ignorearch`.
    pub fn ignore_arch(self) -> (r: Self)
        ensures
            r.0@ == self.0@.push_arg("--ignorearch"@),
    {
        let mut c = self.0;
        c.arg("--ignorearch");
        Makepkg(c)
    }

    /// Appends `-p` `<file>`.
    pub fn pkgbuild(self, file: &str) -> (r: Self)
        ensures
            r.0@ == self.0@.push_arg("-p"@).push_arg(file@),
    {
        let mut c = self.0;
        c.arg("-p");
        c.arg(file);
        Makepkg(c)
    }

    /// Appends `--clean`.
    pub fn clean_after(self) -> (r: Self)
        ensures
            r.0@ == self.0@.push_arg("--clean"@),
    {
        let mut c = self.0;
        c.arg("--clean");
        Makepkg(c)
    }

    /// Appends `--cleanbuild`.
    pub fn clean_before(self) -> (r: Self)
        ensures
            r.0@ == self.0@.push_arg("--cleanbuild"@),
    {
        let mut c = self.0;
        c.arg("--cleanbuild");
        Makepkg(c)
    }

    /// Appends `--nodeps`.
    pub fn no_dependencies(self) -> (r: Self)
        ensures
            r.0@ == self.0@.push_arg("--nodeps"@),
    {
        let mut c = self.0;
        c.arg("--nodeps");
        Makepkg(c)
    }

    /// Appends `--noextract`.
    pub fn no_extract(self) -> (r: Self)
        ensures
            r.0@ == self.0@.push_arg("--noextract"@),
    {
        let mut c = self.0;
        c.arg("--noextract");
        Makepkg(c)
    }

    /// Appends `--force`.
    pub fn force(self) -> (r: Self)
        ensures
            r.0@ == self.0@.push_arg("--force"@),
    {
        let mut c = self.0;
        c.arg("--force");
        Makepkg(c)
    }

    /// Appends `--geninteg`.
    pub fn generate_integrity(self) -> (r: Self)
        ensures
            r.0@ == self.0@.push_arg("--geninteg"@),
    {
        let mut c = self.0;
        c.arg("--geninteg");
        Makepkg(c)
    }

    /// Appends `--install`.
    pub fn install(self) -> (r: Self)
        ensures
            r.0@ == self.0@.push_arg("--install"@),
    {
        let mut c = self.0;
        c.arg("--install");
        Makepkg(c)
    }

    /// Appends `--log`.
    pub fn log(self) -> (r: Self)
        ensures
            r.0@ == self.0@.push_arg("--log"@),
    {
        let mut c = self.0;
        c.arg("--log");
        Makepkg(c)
    }

    /// Appends `--nocolor`.
    pub fn no_color(self) -> (r: Self)
        ensures
            r.0@ == self.0@.push_arg("--nocolor"@),
    {
        let mut c = self.0;
        c.arg("--nocolor");
        Makepkg(c)
    }

    /// Appends `--nobuild`.
    pub fn no_build(self) -> (r: Self)
        ensures
            r.0@ == self.0@.push_arg("--nobuild"@),
    {
        let mut c = self.0;
        c.arg("--nobuild");
        Makepkg(c)
    }

    /// Appends `--rmdeps`.
    pub fn remove_dependencies(self) -> (r: Self)
        ensures
            r.0@ == self.0@.push_arg("--rmdeps"@),
    {
        let mut c = self.0;
        c.arg("--rmdeps");
        Makepkg(c)
    }

    /// Appends `--repackage`.
    pub fn repackage(self) -> (r: Self)
        ensures
            r.0@ == self.0@.push_arg("--repackage"@),
    {
        let mut c = self.0;
        c.arg("--repackage");
        Makepkg(c)
    }

    /// Appends `--syncdeps`.
    pub fn install_dependencies(self) -> (r: Self)
        ensures
            r.0@ == self.0@.push_arg("--syncdeps"@),
    {
        let mut c = self.0;
        c.arg("--syncdeps");
        Makepkg(c)
    }

    /// Appends `--source`.
    pub fn source_only_no_download(self) -> (r: Self)
        ensures
            r.0@ == self.0@.push_arg("--source"@),
    {
        let mut c = self.0;
        c.arg("--source");
        Makepkg(c)
    }

    /// Appends `--allsource`.
    pub fn source_only(self) -> (r: Self)
        ensures
            r.0@ == self.0@.push_arg("--allsource"@),
    {
        let mut c = self.0;
        c.arg("--allsource");
        Makepkg(c)
    }

    /// Appends `--check`.
    pub fn check(self) -> (r: Self)
        ensures
            r.0@ == self.0@.push_arg("--check"@),
    {
        let mut c = self.0;
        c.arg("--check");
        Makepkg(c)
    }

    /// Appends `--config` `<file>`.
    pub fn config(self, file: &str) -> (r: Self)
        ensures
            r.0@ == self.0@.push_arg("--config"@).push_arg(file@),
    {
        let mut c = self.0;
        c.arg("--config");
        c.arg(file);
        Makepkg(c)
    }

    /// Appends `--holdver`.
    pub fn no_vcs_update(self) -> (r: Self)
        ensures
            r.0@ == self.0@.push_arg("--holdver"@),
    {
        let mut c = self.0;
        c.arg("--holdver");
        Makepkg(c)
    }

    /// Appends `--key` `<key>`.
    pub fn key(self, key: &str) -> (r: Self)
        ensures
            r.0@ == self.0@.push_arg("--key"@).push_arg(key@),
    {
        let mut c = self.0;
        c.arg("--key");
        c.arg(key);
        Makepkg(c)
    }

    /// Appends `--noarchive`.
    pub fn no_archive(self) -> (r: Self)
        ensures
            r.0@ == self.0@.push_arg("--noarchive"@),
    {
        let mut c = self.0;
        c.arg("--noarchive");
        Makepkg(c)
    }

    /// Appends `--nocheck`.
    pub fn no_check(self) -> (r: Self)
        ensures
            r.0@ == self.0@.push_arg("--nocheck"@),
    {
        let mut c = self.0;
        c.arg("--nocheck");
        Makepkg(c)
    }

    /// Appends `--noprepare`.
    pub fn no_prepare(self) -> (r: Self)
        ensures
            r.0@ == self.0@.push_arg("--noprepare"@),
    {
        let mut c = self.0;
        c.arg("--noprepare");
        Makepkg(c)
    }

    /// Appends `--nosign`.
    pub fn no_sign(self) -> (r: Self)
        ensures
            r.0@ == self.0@.push_arg("--nosign"@),
    {
        let mut c = self.0;
        c.arg("--nosign");
        Makepkg(c)
    }

    /// Appends `--packagelist`.
    pub fn package_list(self) -> (r: Self)
        ensures
            r.0@ == self.0@.push_arg("--packagelist"@),
    {
        let mut c = self.0;
        c.arg("--packagelist");
        Makepkg(c)
    }

    /// Appends `--printsrcinfo`.
    pub fn print_srcinfo(self) -> (r: Self)
        ensures
            r.0@ == self.0@.push_arg("--printsrcinfo"@),
    {
        let mut c = self.0;
        c.arg("--printsrcinfo");
        Makepkg(c)
    }

    /// Appends `--sign`.
    pub fn sign(self) -> (r: Self)
        ensures
            r.0@ == self.0@.push_arg("--sign"@),
    {
        let mut c = self.0;
        c.arg("--sign");
        Makepkg(c)
    }

    /// Appends `--skipchecksums`.
    pub fn skip_checksums(self) -> (r: Self)
        ensures
            r.0@ == self.0@.push_arg("--skipchecksums"@),
    {
        let mut c = self.0;
        c.arg("--skipchecksums");
        Makepkg(c)
    }

    /// Appends `--skipinteg`.
    pub fn skip_source_verification(self) -> (r: Self)
        ensures
            r.0@ == self.0@.push_arg("--skipinteg"@),
    {
        let mut c = self.0;
        c.arg("--skipinteg");
        Makepkg(c)
    }

    /// Appends `--skippgpcheck`.
    pub fn skip_pgp(self) -> (r: Self)
        ensures
            r.0@ == self.0@.push_arg("--skippgpcheck"@),
    {
        let mut c = self.0;
        c.arg("--skippgpcheck");
        Makepkg(c)
    }

    /// Appends `--verifysource`.
    pub fn verify_source(self) -> (r: Self)
        ensures
            r.0@ == self.0@.push_arg("--verifysource"@),
    {
        let mut c = self.0;
        c.arg("--verifysource");
        Makepkg(c)
    }

    /// Appends `--asdeps`.
    pub fn asdeps(self) -> (r: Self)
        ensures
            r.0@ == self.0@.push_arg("--asdeps"@),
    {
        let mut c = self.0;
        c.arg("--asdeps");
        Makepkg(c)
    }

    /// Appends `--needed`.
    pub fn needed(self) -> (r: Self)
        ensures
            r.0@ == self.0@.push_arg("--needed"@),
    {
        let mut c = self.0;
        c.arg("--needed");
        Makepkg(c)
    }

    /// Appends `--noconfirm`.
    pub fn noconfirm(self) -> (r: Self)
        ensures
            r.0@ == self.0@.push_arg("--noconfirm"@),
    {
        let mut c = self.0;
        c.arg("--noconfirm");
        Makepkg(c)
    }

    /// Appends `--noprogressbar`.
    pub fn noprogress(self) -> (r: Self)
        ensures
            r.0@ == self.0@.push_arg("--noprogressbar"@),
    {
        let mut c = self.0;
        c.arg("--noprogressbar");
        Makepkg(c)
    }

    /// Appends a custom argument.
    pub fn arg(self, v: &str) -> (r: Self)
        ensures
            r.0@ == self.0@.push_arg(v@),
    {
        let mut c = self.0;
        c.arg(v);
        Makepkg(c)
    }

    /// Appends custom arguments, in order.
    pub fn args(self, v: &Vec<String>) -> (r: Self)
        ensures
            r.0@ == self.0@.push_args(strings_view(v@)),
    {
        let mut c = self.0;
        c.args(v);
        Makepkg(c)
    }

    /// An invocation of the tool at `path`.
    pub fn new(path: &str) -> (r: Self)
        ensures
            r.0@ == CommandLine::new_spec(path@),
    {
        Makepkg(CommandLine::new(path))
    }

    /// Attaches the streams to the current terminal, or to the null device.
    pub fn attach(self, terminal: bool) -> (r: Self)
        ensures
            r.0@ == self.0@.with_streams(if terminal { Stdio::Inherit } else { Stdio::Null }),
    {
        let mut c = self.0;
        if terminal {
            c.streams(Stdio::Inherit);
        } else {
            c.streams(Stdio::Null);
        }
        Makepkg(c)
    }

    /// Captures stdin, stdout and stderr through pipes.
    pub fn capture(self) -> (r: Self)
        ensures
            r.0@ == self.0@.with_streams(Stdio::Piped),
    {
        let mut c = self.0;
        c.streams(Stdio::Piped);
        Makepkg(c)
    }

    /// Runs the tool in the directory `at`.
    pub fn at(self, at: &str) -> (r: Self)
        ensures
            r.0@ == self.0@.in_dir(at@),
    {
        let mut c = self.0;
        c.current_dir(at);
        Makepkg(c)
    }

    /// The command line built so far.
    pub fn into_raw(self) -> (r: CommandLine)
        ensures
            r@ == self.0@,
    {
        self.0
    }

    /// Continues building from a command line.
    pub fn from_raw(c: CommandLine) -> (r: Self)
        ensures
            r.0@ == c@,
    {
        Makepkg(c)
    }
}

impl Default for Makepkg {
    /// An invocation of `/usr/bin/makepkg`.
    fn default() -> (r: Self)
        ensures
            r.0@ == Makepkg::default_spec(),
    {
        Makepkg(CommandLine::new("/usr/bin/makepkg"))
    }
}

/// An invocation of `git`, built one option at a time.
pub struct Git(pub CommandLine);

impl Git {
    /// The command line of `Git::default()`: `/usr/bin/git` with no arguments.
    pub open spec fn default_spec() -> CommandView {
        CommandLine::new_spec("/usr/bin/git"@)
    }

    /// Appends `clone`.
    pub fn clone(self) -> (r: Self)
        ensures
            r.0@ == self.0@.push_arg("clone"@),
    {
        let mut c = self.0;
        c.arg("clone");
        Git(c)
    }

    /// Appends `pull`.
    pub fn pull(self) -> (r: Self)
        ensures
            r.0@ == self.0@.push_arg("pull"@),
    {
        let mut c = self.0;
        c.arg("pull");
        Git(c)
    }

    /// Appends `<url>`.
    pub fn repository(self, url: &str) -> (r: Self)
        ensures
            r.0@ == self.0@.push_arg(url@),
    {
        let mut c = self.0;
        c.arg(url);
        Git(c)
    }

    /// Appends `<dir>`.
    pub fn directory(self, dir: &str) -> (r: Self)
        ensures
            r.0@ == self.0@.push_arg(dir@),
    {
        let mut c = self.0;
        c.arg(dir);
        Git(c)
    }

    /// Appends a custom argument.
    pub fn arg(self, v: &str) -> (r: Self)
        ensures
            r.0@ == self.0@.push_arg(v@),
    {
        let mut c = self.0;
        c.arg(v);
        Git(c)
    }

    /// Appends custom arguments, in order.
    pub fn args(self, v: &Vec<String>) -> (r: Self)
        ensures
            r.0@ == self.0@.push_args(strings_view(v@)),
    {
        let mut c = self.0;
        c.args(v);
        Git(c)
    }

    /// An invocation of the tool at `path`.
    pub fn new(path: &str) -> (r: Self)
        ensures
            r.0@ == CommandLine::new_spec(path@),
    {
        Git(CommandLine::new(path))
    }

    /// Attaches the streams to the current terminal, or to the null device.
    pub fn attach(self, terminal: bool) -> (r: Self)
        ensures
            r.0@ == self.0@.with_streams(if terminal { Stdio::Inherit } else { Stdio::Null }),
    {
        let mut c = self.0;
        if terminal {
            c.streams(Stdio::Inherit);
        } else {
            c.streams(Stdio::Null);
        }
        Git(c)
    }

    /// Captures stdin, stdout and stderr through pipes.
    pub fn capture(self) -> (r: Self)
        ensures
            r.0@ == self.0@.with_streams(Stdio::Piped),
    {
        let mut c = self.0;
        c.streams(Stdio::Piped);
        Git(c)
    }

    /// Runs the tool in the directory `at`.
    pub fn at(self, at: &str) -> (r: Self)
        ensures
            r.0@ == self.0@.in_dir(at@),
    {
        let mut c = self.0;
        c.current_dir(at);
        Git(c)
    }

    /// The command line built so far.
    pub fn into_raw(self) -> (r: CommandLine)
        ensures
            r@ == self.0@,
    {
        self.0
    }

    /// Continues building from a command line.
    pub fn from_raw(c: CommandLine) -> (r: Self)
        ensures
            r.0@ == c@,
    {
        Git(c)
    }
}

impl Default for Git {
    /// An invocation of `/usr/bin/git`.
    fn default() -> (r: Self)
        ensures
            r.0@ == Git::default_spec(),
    {
        Git(CommandLine::new("/usr/bin/git"))
    }
}

} // verus!
