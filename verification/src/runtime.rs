//! Runtimes: the interface that container runtimes implement, the rules
//! for finding and loading them, and the command lines of the docker and
//! script runtimes.

use vstd::prelude::*;

use crate::config::global::GlobalConfig;
use crate::config::options::RuntimeOptions;
use crate::db::command::{spaced_args, strings_view, CommandLine, CommandView, Stdio};
use crate::text::{ends_with, join, join_path, starts_with};

verus! {

/// A common interface for all machine runtime drivers.
pub trait IRuntime {
    /// Runtime driver name
    fn name(&self) -> &'static str;

    /// Runtime driver version
    fn version(&self) -> &'static str;

    /// The version of the runtime API the driver implements; a driver whose
    /// version is not `RT_API_VERSION` is not loaded.
    fn rt_api_version(&self) -> u32;

    /// Ran on driver load; an error stops the program and is reported.
    fn init(&mut self, config: &GlobalConfig) -> Result<(), String>;

    /// Ran on driver unload.
    fn exit(&mut self);

    /// Create or update the builder image.
    fn create_image(&mut self, config: &GlobalConfig) -> Result<(), String>;

    /// Create the builder machine and apply the necessary configuration.
    fn create_machine(&mut self, config: &GlobalConfig) -> Result<(), String>;

    /// Start the builder machine and attach it to the terminal.
    fn start_machine(&mut self, config: &GlobalConfig) -> Result<(), String>;
}

/// The runtime API version that this zeus speaks. Increasing this number
/// means there has been a breaking change in the API.
pub const RT_API_VERSION: u32 = 4;

/// Why a runtime could not be loaded or unloaded.
#[derive(Debug, Clone, Copy, PartialEq, Eq, Structural)]
pub enum LoadError {
    /// The runtime speaks another API version.
    IncompatibleRuntimeApi { found: u32, supported: u32 },
    /// A runtime of that name is already loaded.
    RuntimeAlreadyLoaded,
    /// No runtime of that name is loaded.
    RuntimeNotLoaded,
}

/// Decides whether a runtime reporting API version `found` may be loaded
/// next to the others: its version must be the supported one, and no
/// runtime of its name may be loaded already (checked in that order).
pub fn check_load(found: u32, supported: u32, already_loaded: bool) -> (r: Result<(), LoadError>)
    ensures
        found != supported ==> r == Err::<(), LoadError>(
            LoadError::IncompatibleRuntimeApi { found, supported },
        ),
        found == supported && already_loaded ==> r == Err::<(), LoadError>(
            LoadError::RuntimeAlreadyLoaded,
        ),
        found == supported && !already_loaded ==> r == Ok::<(), LoadError>(()),
{
    if found != supported {
        Err(LoadError::IncompatibleRuntimeApi { found, supported })
    } else if already_loaded {
        Err(LoadError::RuntimeAlreadyLoaded)
    } else {
        Ok(())
    }
}

/// Decides whether a runtime can be unloaded: only a loaded one can.
pub fn check_unload(loaded: bool) -> (r: Result<(), LoadError>)
    ensures
        r == (if loaded { Ok::<(), LoadError>(()) } else { Err(LoadError::RuntimeNotLoaded) }),
{
    if loaded {
        Ok(())
    } else {
        Err(LoadError::RuntimeNotLoaded)
    }
}

/// The file name of the runtime library of the runtime `name`.
pub open spec fn library_file_name(name: Seq<char>) -> Seq<char> {
    "librt_"@ + name + ".so"@
}

/// Runtime libraries are named `librt_<name>.so`.
pub open spec fn is_library_name(file: Seq<char>) -> bool {
    "librt_"@.is_prefix_of(file) && ".so"@.is_suffix_of(file)
}

/// Whether a file name is that of a runtime library.
pub fn is_runtime_library(file_name: &str) -> (r: bool)
    ensures
        r == is_library_name(file_name@),
{
    starts_with(file_name, "librt_") && ends_with(file_name, ".so")
}

/// The path of the library of the runtime `name` under the library
/// directory: `<lib_dir>/runtimes/librt_<name>.so`.
pub fn runtime_library_path(lib_dir: &str, name: &str) -> (r: String)
    ensures
        r@ == join_path(join_path(lib_dir@, "runtimes"@), library_file_name(name@)),
{
    let dir = join(lib_dir, "runtimes");
    let mut file = "librt_".to_owned();
    file.append(name);
    file.append(".so");
    join(dir.as_str(), file.as_str())
}

/// The library of every runtime is recognized as one by its file name.
pub proof fn lemma_library_name_recognized(name: Seq<char>)
    ensures
        is_library_name(library_file_name(name)),
{
    let f = library_file_name(name);
    assert("librt_"@ =~= f.subrange(0, "librt_"@.len() as int));
    assert(".so"@ =~= f.subrange(f.len() - ".so"@.len(), f.len() as int));
}

/// The entries of `names` that are runtime libraries, in order.
pub open spec fn libraries_among(names: Seq<Seq<char>>) -> Seq<Seq<char>>
    decreases names.len(),
{
    if names.len() == 0 {
        Seq::empty()
    } else if is_library_name(names.last()) {
        libraries_among(names.drop_last()).push(names.last())
    } else {
        libraries_among(names.drop_last())
    }
}

/// The runtime operation: when asked to list, the files of the runtime
/// directory (`file_names`) that are runtime libraries, in order, to be
/// test-loaded and reported; otherwise nothing.
pub fn runtime(options: &RuntimeOptions, file_names: &Vec<String>) -> (r: Vec<String>)
    ensures
        strings_view(r@) == (if options.list {
            libraries_among(strings_view(file_names@))
        } else {
            Seq::empty()
        }),
{
    let mut out: Vec<String> = Vec::new();
    if !options.list {
        assert(strings_view(out@) =~= Seq::<Seq<char>>::empty());
        return out;
    }
    let mut i: usize = 0;
    while i < file_names.len()
        invariant
            i <= file_names.len(),
            strings_view(out@) == libraries_among(strings_view(file_names@).subrange(0, i as int)),
        decreases file_names.len() - i,
    {
        let ghost post = strings_view(file_names@).subrange(0, i as int + 1);
        assert(post.drop_last() =~= strings_view(file_names@).subrange(0, i as int));
        assert(post.last() == file_names@[i as int]@);
        let ghost before = strings_view(out@);
        if is_runtime_library(file_names[i].as_str()) {
            out.push(file_names[i].clone());
            assert(strings_view(out@) =~= before.push(file_names@[i as int]@));
        }
        i = i + 1;
    }
    assert(strings_view(file_names@).subrange(0, file_names.len() as int) =~= strings_view(
        file_names@,
    ));
    out
}

/// Whether a process that ended with exit `code` (`None` when it was ended
/// by a signal) counts as successful: a code must be `0`; no code counts
/// as success.
pub fn check_exit_ok(code: Option<i32>) -> (r: bool)
    ensures
        r == match code {
            Some(c) => c == 0,
            None => true,
        },
{
    match code {
        Some(c) => c == 0,
        None => true,
    }
}

/// The exit code to report for a failed run: the code, or `-1` when there
/// is none.
pub fn reported_exit_code(code: Option<i32>) -> (r: i32)
    ensures
        r == match code {
            Some(c) => c as int,
            None => -1,
        },
{
    match code {
        Some(c) => c,
        None => -1,
    }
}

/// The docker runtime driver: where docker and its inputs are.
#[derive(Debug, Clone)]
pub struct DockerRuntime {
    pub docker_bin: String,
    pub build_context: String,
    pub dockerfile: String,
    pub pacman_cache: String,
}

/// The options of the docker runtime in the configuration.
#[derive(Debug, Clone)]
pub struct DockerOptions {
    /// The value of the `DOCKER_BIN` environment variable, if set.
    pub env_docker_bin: Option<String>,
    /// `Program`
    pub program: Option<String>,
    /// `Context`
    pub context: Option<String>,
    /// `Dockerfile`
    pub dockerfile: Option<String>,
    /// `PacmanCache`
    pub pacman_cache: Option<String>,
}

/// The first of two optional values that is present, else `current`.
pub open spec fn override_with(first: Option<String>, second: Option<String>, current: Seq<char>) -> Seq<
    char,
> {
    match first {
        Some(v) => v@,
        None => match second {
            Some(v) => v@,
            None => current,
        },
    }
}

fn overridden(first: &Option<String>, second: &Option<String>, current: &String) -> (r: String)
    ensures
        r@ == override_with(*first, *second, current@),
{
    match first {
        Some(v) => v.clone(),
        None => match second {
            Some(v) => v.clone(),
            None => current.clone(),
        },
    }
}

/// `docker <args>` with the given streams.
fn docker(bin: &str, stdin: Stdio, stdout: Stdio, stderr: Stdio) -> (r: CommandLine)
    ensures
        r@ == (CommandView {
            stdin: Some(stdin),
            stdout: Some(stdout),
            stderr: Some(stderr),
            ..CommandLine::new_spec(bin@)
        }),
{
    let mut c = CommandLine::new(bin);
    c.stdio(stdin, stdout, stderr);
    c
}

impl DockerRuntime {
    /// Docker at `/usr/bin/docker`, building `Dockerfile` in `./`, sharing
    /// the pacman cache at `/var/cache/pacman/pkg`.
    pub fn new() -> (r: DockerRuntime)
        ensures
            r.docker_bin@ == "/usr/bin/docker"@,
            r.build_context@ == "./"@,
            r.dockerfile@ == "Dockerfile"@,
            r.pacman_cache@ == "/var/cache/pacman/pkg"@,
    {
        DockerRuntime {
            docker_bin: "/usr/bin/docker".to_owned(),
            build_context: "./".to_owned(),
            dockerfile: "Dockerfile".to_owned(),
            pacman_cache: "/var/cache/pacman/pkg".to_owned(),
        }
    }

    /// Applies the configuration: the docker program comes from
    /// `DOCKER_BIN`, else from `Program`; the other settings from their
    /// options; anything not given stays as it was.
    pub fn configure(&mut self, opts: &DockerOptions)
        ensures
            final(self).docker_bin@ == override_with(opts.env_docker_bin, opts.program, old(self).docker_bin@),
            final(self).build_context@ == override_with(opts.context, None, old(self).build_context@),
            final(self).dockerfile@ == override_with(opts.dockerfile, None, old(self).dockerfile@),
            final(self).pacman_cache@ == override_with(opts.pacman_cache, None, old(self).pacman_cache@),
    {
        self.docker_bin = overridden(&opts.env_docker_bin, &opts.program, &self.docker_bin);
        self.build_context = overridden(&opts.context, &None, &self.build_context);
        self.dockerfile = overridden(&opts.dockerfile, &None, &self.dockerfile);
        self.pacman_cache = overridden(&opts.pacman_cache, &None, &self.pacman_cache);
    }

    /// `docker version`, which fails without access to docker.
    pub fn version_command(&self) -> (r: CommandLine)
        ensures
            r@.program == self.docker_bin@,
            r@.cwd is None,
            r@.args == seq!["version"@],
            r@.stdin == Some(Stdio::Null) && r@.stdout == Some(Stdio::Null) && r@.stderr == Some(
                Stdio::Inherit,
            ),
    {
        let mut c = docker(self.docker_bin.as_str(), Stdio::Null, Stdio::Null, Stdio::Inherit);
        c.arg("version");
        assert(c@.args =~= seq!["version"@]);
        c
    }

    /// `docker build --pull --force-rm -t <image> -f <dockerfile> -- <context>`.
    pub fn create_image_command(&self, image: &str) -> (r: CommandLine)
        ensures
            r@.program == self.docker_bin@,
            r@.cwd is None,
            r@.args == seq![
                "build"@,
                "--pull"@,
                "--force-rm"@,
                "-t"@,
                image@,
                "-f"@,
                self.dockerfile@,
                "--"@,
                self.build_context@,
            ],
            r@.stdin == Some(Stdio::Inherit) && r@.stdout == Some(Stdio::Inherit) && r@.stderr
                == Some(Stdio::Inherit),
    {
        let mut c = docker(self.docker_bin.as_str(), Stdio::Inherit, Stdio::Inherit, Stdio::Inherit);
        c.arg("build");
        c.arg("--pull");
        c.arg("--force-rm");
        c.arg("-t");
        c.arg(image);
        c.arg("-f");
        c.arg(self.dockerfile.as_str());
        c.arg("--");
        c.arg(self.build_context.as_str());
        assert(c@.args =~= seq![
            "build"@,
            "--pull"@,
            "--force-rm"@,
            "-t"@,
            image@,
            "-f"@,
            self.dockerfile@,
            "--"@,
            self.build_context@,
        ]);
        c
    }

    /// `docker container rm -- <machine>`, with every stream on the null
    /// device; its failure is ignored.
    pub fn remove_machine_command(&self, machine: &str) -> (r: CommandLine)
        ensures
            r@.program == self.docker_bin@,
            r@.cwd is None,
            r@.args == seq!["container"@, "rm"@, "--"@, machine@],
            r@.stdin == Some(Stdio::Null) && r@.stdout == Some(Stdio::Null) && r@.stderr == Some(
                Stdio::Null,
            ),
    {
        let mut c = docker(self.docker_bin.as_str(), Stdio::Null, Stdio::Null, Stdio::Null);
        c.arg("container");
        c.arg("rm");
        c.arg("--");
        c.arg(machine);
        assert(c@.args =~= seq!["container"@, "rm"@, "--"@, machine@]);
        c
    }

    /// `docker container create -i -t --name <machine>` with the pacman
    /// cache and the build directory mounted read-write, every capability
    /// dropped but setuid, setgid and chroot, then `-- <image>`.
    pub fn create_machine_command(&self, machine: &str, image: &str, build_dir: &str) -> (r:
        CommandLine)
        ensures
            r@.program == self.docker_bin@,
            r@.cwd is None,
            r@.args == seq![
                "container"@,
                "create"@,
                "-i"@,
                "-t"@,
                "--name"@,
                machine@,
                "-v"@,
                self.pacman_cache@ + ":/var/cache/pacman/pkg:rw"@,
                "-v"@,
                build_dir@ + ":/build:rw"@,
                "--cap-drop=all"@,
                "--cap-add=CAP_SETUID"@,
                "--cap-add=CAP_SETGID"@,
                "--cap-add=CAP_SYS_CHROOT"@,
                "--"@,
                image@,
            ],
            r@.stdin == Some(Stdio::Inherit) && r@.stdout == Some(Stdio::Inherit) && r@.stderr
                == Some(Stdio::Inherit),
    {
        let mut cache_mount = self.pacman_cache.clone();
        cache_mount.append(":/var/cache/pacman/pkg:rw");
        let mut build_mount = build_dir.to_owned();
        build_mount.append(":/build:rw");
        let mut c = docker(self.docker_bin.as_str(), Stdio::Inherit, Stdio::Inherit, Stdio::Inherit);
        c.arg("container");
        c.arg("create");
        c.arg("-i");
        c.arg("-t");
        c.arg("--name");
        c.arg(machine);
        c.arg("-v");
        c.arg(cache_mount.as_str());
        c.arg("-v");
        c.arg(build_mount.as_str());
        c.arg("--cap-drop=all");
        c.arg("--cap-add=CAP_SETUID");
        c.arg("--cap-add=CAP_SETGID");
        c.arg("--cap-add=CAP_SYS_CHROOT");
        c.arg("--");
        c.arg(image);
        assert(c@.args =~= seq![
            "container"@,
            "create"@,
            "-i"@,
            "-t"@,
            "--name"@,
            machine@,
            "-v"@,
            self.pacman_cache@ + ":/var/cache/pacman/pkg:rw"@,
            "-v"@,
            build_dir@ + ":/build:rw"@,
            "--cap-drop=all"@,
            "--cap-add=CAP_SETUID"@,
            "--cap-add=CAP_SETGID"@,
            "--cap-add=CAP_SYS_CHROOT"@,
            "--"@,
            image@,
        ]);
        c
    }

    /// `docker container start -a -i -- <machine>`, attached to the
    /// terminal.
    pub fn start_machine_command(&self, machine: &str) -> (r: CommandLine)
        ensures
            r@.program == self.docker_bin@,
            r@.cwd is None,
            r@.args == seq!["container"@, "start"@, "-a"@, "-i"@, "--"@, machine@],
            r@.stdin == Some(Stdio::Inherit) && r@.stdout == Some(Stdio::Inherit) && r@.stderr
                == Some(Stdio::Inherit),
    {
        let mut c = docker(self.docker_bin.as_str(), Stdio::Inherit, Stdio::Inherit, Stdio::Inherit);
        c.arg("container");
        c.arg("start");
        c.arg("-a");
        c.arg("-i");
        c.arg("--");
        c.arg(machine);
        assert(c@.args =~= seq!["container"@, "start"@, "-a"@, "-i"@, "--"@, machine@]);
        c
    }
}

/// The line that names a docker run in the log: the program and each
/// argument, separated by spaces.
pub fn run_line(cmd: &CommandLine) -> (r: String)
    ensures
        r@ == cmd@.program + spaced_args(cmd@.args),
{
    cmd.plain_line()
}

/// The script runtime driver: runs scripts from a directory.
#[derive(Debug, Clone)]
pub struct CustomRuntime {
    pub script_dir: String,
}

impl CustomRuntime {
    /// Scripts from `scripts`.
    pub fn new() -> (r: CustomRuntime)
        ensures
            r.script_dir@ == "scripts"@,
    {
        CustomRuntime { script_dir: "scripts".to_owned() }
    }

    /// Applies the configuration: the script directory comes from
    /// `SCRIPT_DIR`, else from `ScriptDir`, else stays as it was.
    pub fn configure(&mut self, env_script_dir: &Option<String>, script_dir: &Option<String>)
        ensures
            final(self).script_dir@ == override_with(*env_script_dir, *script_dir, old(self).script_dir@),
    {
        self.script_dir = overridden(env_script_dir, script_dir, &self.script_dir);
    }

    /// The run of the script `script`, attached to the terminal.
    pub fn script(&self, script: &str) -> (r: CommandLine)
        ensures
            r@ == CommandLine::new_spec(join_path(self.script_dir@, script@)).with_streams(
                Stdio::Inherit,
            ),
    {
        let path = join(self.script_dir.as_str(), script);
        let mut c = CommandLine::new(path.as_str());
        c.streams(Stdio::Inherit);
        c
    }

    /// The script that each operation runs: `init` on load,
    /// `create_image`, and `create_machine` both to create and to start the
    /// machine.
    pub fn operation_script(op: RuntimeOperation) -> (r: &'static str)
        ensures
            r@ == match op {
                RuntimeOperation::Init => "init"@,
                RuntimeOperation::CreateImage => "create_image"@,
                RuntimeOperation::CreateMachine => "create_machine"@,
                RuntimeOperation::StartMachine => "create_machine"@,
            },
    {
        match op {
            RuntimeOperation::Init => "init",
            RuntimeOperation::CreateImage => "create_image",
            RuntimeOperation::CreateMachine => "create_machine",
            RuntimeOperation::StartMachine => "create_machine",
        }
    }
}

/// The operations that a runtime carries out.
#[derive(Debug, Clone, Copy, PartialEq, Eq, Structural)]
pub enum RuntimeOperation {
    Init,
    CreateImage,
    CreateMachine,
    StartMachine,
}

/// A docker image, as `docker image ls` lists it.
#[derive(Debug, Clone)]
pub struct Image {
    pub name: String,
}

/// A docker container, as `docker container ls` lists it.
#[derive(Debug, Clone)]
pub struct Container {
    pub name: String,
}

} // verus!
