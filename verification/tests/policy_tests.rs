use gitingesters::orchestrator::{admit_local, admit_url, SandboxError};
use gitingesters::policy::{
    build_invocation, digest_path, is_trusted_url, runtime_args, BindMount, HostMapping,
    InvocationDescriptor, MountMode, NetworkMode, OperationMode, TmpfsMount,
};

fn strings(words: &[&str]) -> Vec<String> {
    words.iter().map(|w| w.to_string()).collect()
}

fn local(data: &str, out: &str) -> OperationMode {
    OperationMode::Local { data_path: data.to_string(), output_path: out.to_string() }
}

fn remote(url: &str, out: &str) -> OperationMode {
    OperationMode::Url { url: url.to_string(), output_path: out.to_string() }
}

fn count_mode(d: &InvocationDescriptor, mode: MountMode) -> usize {
    d.bind_mounts.iter().filter(|m| m.mode == mode).count()
}

#[test]
fn local_invocation_is_isolated_with_one_input_and_one_output() {
    let d = build_invocation(local("/abs/repo", "/abs/out"));
    assert_eq!(d.image, "gitingest-runner");
    assert_eq!(d.network_mode, NetworkMode::Disabled);
    assert!(d.read_only);
    assert_eq!(
        d.tmpfs_mounts,
        vec![TmpfsMount {
            path: "/tmp".to_string(),
            options: "rw,noexec,nosuid,size=100m".to_string()
        }]
    );
    assert_eq!(
        d.bind_mounts,
        vec![
            BindMount {
                host_path: "/abs/repo".to_string(),
                container_path: "/data".to_string(),
                mode: MountMode::ReadOnly
            },
            BindMount {
                host_path: "/abs/out".to_string(),
                container_path: "/output".to_string(),
                mode: MountMode::ReadWrite
            },
        ]
    );
    assert!(d.extra_hosts.is_empty());
    assert_eq!(d.command_args, strings(&["/data"]));
    assert_eq!(count_mode(&d, MountMode::ReadOnly), 1);
    assert_eq!(count_mode(&d, MountMode::ReadWrite), 1);
}

#[test]
fn local_invocation_holds_for_odd_paths() {
    for (data, out) in [("", ""), ("/a b", "/c:d"), ("/data", "/output"), ("/é", "/ü/ö")] {
        let d = build_invocation(local(data, out));
        assert_eq!(d.network_mode, NetworkMode::Disabled);
        assert!(d.read_only);
        assert_eq!(count_mode(&d, MountMode::ReadOnly), 1);
        assert_eq!(count_mode(&d, MountMode::ReadWrite), 1);
        assert_eq!(d.bind_mounts[0].host_path, data);
        assert_eq!(d.bind_mounts[1].host_path, out);
    }
}

#[test]
fn url_invocation_has_no_input_mount() {
    let d = build_invocation(remote("https://github.com/foo/bar", "/abs/out"));
    assert_eq!(d.image, "gitingest-runner");
    assert_eq!(d.network_mode, NetworkMode::Disabled);
    assert!(d.read_only);
    assert_eq!(d.tmpfs_mounts.len(), 1);
    assert_eq!(
        d.bind_mounts,
        vec![BindMount {
            host_path: "/abs/out".to_string(),
            container_path: "/output".to_string(),
            mode: MountMode::ReadWrite
        }]
    );
    assert_eq!(count_mode(&d, MountMode::ReadOnly), 0);
    assert!(d.bind_mounts.iter().all(|m| m.container_path != "/data"));
    assert_eq!(
        d.extra_hosts,
        vec![
            HostMapping {
                hostname: "github.com".to_string(),
                address: "140.82.112.3".to_string()
            },
            HostMapping {
                hostname: "api.github.com".to_string(),
                address: "140.82.112.6".to_string()
            },
        ]
    );
    assert_eq!(d.command_args, strings(&["https://github.com/foo/bar"]));
}

#[test]
fn local_run_arguments() {
    let d = build_invocation(local("/abs/repo", "/abs/out"));
    assert_eq!(
        runtime_args(&d),
        strings(&[
            "run",
            "--rm",
            "--network",
            "none",
            "--read-only",
            "--tmpfs",
            "/tmp:rw,noexec,nosuid,size=100m",
            "-v",
            "/abs/repo:/data:ro",
            "-v",
            "/abs/out:/output:rw",
            "gitingest-runner",
            "/data",
        ])
    );
    assert_eq!(digest_path("/abs/out"), "/abs/out/digest.md");
}

#[test]
fn url_run_arguments() {
    let d = build_invocation(remote("https://github.com/foo/bar", "/abs/out"));
    assert_eq!(
        runtime_args(&d),
        strings(&[
            "run",
            "--rm",
            "--network",
            "none",
            "--add-host",
            "github.com:140.82.112.3",
            "--add-host",
            "api.github.com:140.82.112.6",
            "--read-only",
            "--tmpfs",
            "/tmp:rw,noexec,nosuid,size=100m",
            "-v",
            "/abs/out:/output:rw",
            "gitingest-runner",
            "https://github.com/foo/bar",
        ])
    );
}

#[test]
fn run_arguments_of_a_bare_descriptor() {
    let d = InvocationDescriptor {
        image: "img".to_string(),
        network_mode: NetworkMode::RuntimeDefault,
        read_only: false,
        tmpfs_mounts: vec![],
        bind_mounts: vec![],
        extra_hosts: vec![],
        command_args: vec![],
    };
    assert_eq!(runtime_args(&d), strings(&["run", "--rm", "img"]));
}

#[test]
fn run_arguments_keep_the_order_of_each_list() {
    let d = InvocationDescriptor {
        image: "img".to_string(),
        network_mode: NetworkMode::RuntimeDefault,
        read_only: true,
        tmpfs_mounts: vec![
            TmpfsMount { path: "/a".to_string(), options: "x".to_string() },
            TmpfsMount { path: "/b".to_string(), options: "y".to_string() },
        ],
        bind_mounts: vec![BindMount {
            host_path: "/h".to_string(),
            container_path: "/c".to_string(),
            mode: MountMode::ReadWrite,
        }],
        extra_hosts: vec![HostMapping { hostname: "h".to_string(), address: "1.2.3.4".to_string() }],
        command_args: strings(&["one", "two"]),
    };
    assert_eq!(
        runtime_args(&d),
        strings(&[
            "run", "--rm", "--add-host", "h:1.2.3.4", "--read-only", "--tmpfs", "/a:x", "--tmpfs",
            "/b:y", "-v", "/h:/c:rw", "img", "one", "two",
        ])
    );
}

#[test]
fn digest_path_appends_the_file_name() {
    assert_eq!(digest_path(""), "/digest.md");
    assert_eq!(digest_path("/o/"), "/o//digest.md");
}

#[test]
fn url_trust_check() {
    assert!(is_trusted_url("https://github.com/foo/bar"));
    assert!(is_trusted_url("https://github.com/"));
    assert!(!is_trusted_url("http://github.com/foo/bar"));
    assert!(!is_trusted_url("https://evil.com/foo/bar"));
    assert!(!is_trusted_url("https://github.com.evil.com/foo/bar"));
    assert!(!is_trusted_url("ftp://github.com/foo/bar"));
    assert!(!is_trusted_url("https://github.com"));
    assert!(!is_trusted_url("HTTPS://GITHUB.COM/foo"));
    assert!(!is_trusted_url(" https://github.com/foo"));
    assert!(!is_trusted_url(""));
}

#[test]
fn trusted_url_is_admitted_with_the_literal_url() {
    let mode = admit_url("https://github.com/foo/bar".to_string(), "/abs/out".to_string());
    assert_eq!(mode, Ok(remote("https://github.com/foo/bar", "/abs/out")));
    let d = build_invocation(mode.unwrap());
    assert_eq!(d.command_args, strings(&["https://github.com/foo/bar"]));
    assert!(d.bind_mounts.iter().all(|m| m.mode != MountMode::ReadOnly));
}

#[test]
fn untrusted_url_is_refused() {
    assert_eq!(
        admit_url("ftp://github.com/foo/bar".to_string(), "/abs/out".to_string()),
        Err(SandboxError::UntrustedSource)
    );
    assert_eq!(
        admit_url("https://github.com.evil.com/x".to_string(), "/abs/out".to_string()),
        Err(SandboxError::UntrustedSource)
    );
}

#[test]
fn local_source_needs_a_directory() {
    assert_eq!(
        admit_local("/abs/repo".to_string(), "/abs/out".to_string(), true),
        Ok(local("/abs/repo", "/abs/out"))
    );
    assert_eq!(
        admit_local("/abs/file".to_string(), "/abs/out".to_string(), false),
        Err(SandboxError::MissingDirectory)
    );
}
