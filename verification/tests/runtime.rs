use zeus::config::options::RuntimeOptions;
use zeus::runtime::{
    check_exit_ok, check_load, check_unload, is_runtime_library, reported_exit_code, run_line, runtime,
    runtime_library_path, CustomRuntime, DockerOptions, DockerRuntime, LoadError, RuntimeOperation,
    RT_API_VERSION,
};

#[test]
fn library_names() {
    assert!(is_runtime_library("librt_docker.so"));
    assert!(!is_runtime_library("libdocker.so"));
    assert!(!is_runtime_library("librt_docker.so.1"));
    assert_eq!(runtime_library_path("/usr/lib/zeus", "docker"), "/usr/lib/zeus/runtimes/librt_docker.so");
    let files = vec!["librt_a.so".to_string(), "README".to_string(), "librt_b.so".to_string()];
    assert_eq!(runtime(&RuntimeOptions { list: true }, &files), vec!["librt_a.so", "librt_b.so"]);
    assert!(runtime(&RuntimeOptions { list: false }, &files).is_empty());
}

#[test]
fn loading_rules() {
    assert_eq!(check_load(RT_API_VERSION, RT_API_VERSION, false), Ok(()));
    assert_eq!(check_load(RT_API_VERSION, RT_API_VERSION, true), Err(LoadError::RuntimeAlreadyLoaded));
    assert_eq!(
        check_load(3, RT_API_VERSION, true),
        Err(LoadError::IncompatibleRuntimeApi { found: 3, supported: 4 })
    );
    assert_eq!(check_unload(false), Err(LoadError::RuntimeNotLoaded));
    assert_eq!(check_unload(true), Ok(()));
}

#[test]
fn exit_codes() {
    assert!(check_exit_ok(Some(0)));
    assert!(!check_exit_ok(Some(2)));
    assert!(check_exit_ok(None));
    assert_eq!(reported_exit_code(Some(2)), 2);
    assert_eq!(reported_exit_code(None), -1);
}

#[test]
fn docker_commands() {
    let mut rt = DockerRuntime::new();
    rt.configure(&DockerOptions {
        env_docker_bin: None,
        program: Some("/opt/docker".to_string()),
        context: None,
        dockerfile: Some("Builder.dockerfile".to_string()),
        pacman_cache: None,
    });
    assert_eq!(rt.docker_bin, "/opt/docker");
    assert_eq!(rt.dockerfile, "Builder.dockerfile");
    assert_eq!(rt.build_context, "./");
    assert_eq!(run_line(&rt.version_command()), "/opt/docker version");
    assert_eq!(
        run_line(&rt.create_image_command("zeus-builder")),
        "/opt/docker build --pull --force-rm -t zeus-builder -f Builder.dockerfile -- ./"
    );
    assert_eq!(run_line(&rt.remove_machine_command("m")), "/opt/docker container rm -- m");
    assert_eq!(
        run_line(&rt.create_machine_command("m", "img", "/var/cache/aur")),
        "/opt/docker container create -i -t --name m -v /var/cache/pacman/pkg:/var/cache/pacman/pkg:rw -v /var/cache/aur:/build:rw --cap-drop=all --cap-add=CAP_SETUID --cap-add=CAP_SETGID --cap-add=CAP_SYS_CHROOT -- img"
    );
    assert_eq!(run_line(&rt.start_machine_command("m")), "/opt/docker container start -a -i -- m");
    let mut env_first = DockerRuntime::new();
    env_first.configure(&DockerOptions {
        env_docker_bin: Some("/env/docker".to_string()),
        program: Some("/opt/docker".to_string()),
        context: None,
        dockerfile: None,
        pacman_cache: None,
    });
    assert_eq!(env_first.docker_bin, "/env/docker");
}

#[test]
fn script_runtime() {
    let mut rt = CustomRuntime::new();
    assert_eq!(rt.script_dir, "scripts");
    assert_eq!(run_line(&rt.script("init")), "scripts/init");
    rt.configure(&None, &Some("/etc/zeus/scripts".to_string()));
    assert_eq!(rt.script("init").program, "/etc/zeus/scripts/init");
    assert_eq!(CustomRuntime::operation_script(RuntimeOperation::StartMachine), "create_machine");
    assert_eq!(CustomRuntime::operation_script(RuntimeOperation::CreateImage), "create_image");
}
