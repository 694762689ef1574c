//! The sandbox policy: which image, mounts, network mode and arguments a
//! sandboxed run gets, and how that is spelled for the container runtime.

use vstd::prelude::*;
use vstd::string::*;
use crate::text::{texts, push_text, starts_with};

verus! {

/// Whether a container gets a network.
#[derive(Clone, Copy, Debug, PartialEq, Eq, Structural)]
pub enum NetworkMode {
    /// No network at all.
    Disabled,
    /// The runtime's default network.
    RuntimeDefault,
}

/// How a bind mount is exposed inside the container.
#[derive(Clone, Copy, Debug, PartialEq, Eq, Structural)]
pub enum MountMode {
    ReadOnly,
    ReadWrite,
}

/// A host directory made visible inside the container.
#[derive(Clone, Debug, PartialEq, Eq)]
pub struct BindMount {
    pub host_path: String,
    pub container_path: String,
    pub mode: MountMode,
}

/// An in-memory scratch filesystem inside the container.
#[derive(Clone, Debug, PartialEq, Eq)]
pub struct TmpfsMount {
    pub path: String,
    pub options: String,
}

/// A host name resolved ahead of time to a literal address.
#[derive(Clone, Debug, PartialEq, Eq)]
pub struct HostMapping {
    pub hostname: String,
    pub address: String,
}

/// Everything a single sandboxed run is started with.
#[derive(Clone, Debug, PartialEq, Eq)]
pub struct InvocationDescriptor {
    pub image: String,
    pub network_mode: NetworkMode,
    pub read_only: bool,
    pub tmpfs_mounts: Vec<TmpfsMount>,
    pub bind_mounts: Vec<BindMount>,
    pub extra_hosts: Vec<HostMapping>,
    pub command_args: Vec<String>,
}

/// What is to be digested, and where the digest goes.
#[derive(Clone, Debug, PartialEq, Eq)]
pub enum OperationMode {
    /// A directory on the host. Both paths are already resolved.
    Local { data_path: String, output_path: String },
    /// A remote repository. The output path is already resolved.
    Url { url: String, output_path: String },
}

pub struct BindMountView {
    pub host_path: Seq<char>,
    pub container_path: Seq<char>,
    pub mode: MountMode,
}

pub struct TmpfsMountView {
    pub path: Seq<char>,
    pub options: Seq<char>,
}

pub struct HostMappingView {
    pub hostname: Seq<char>,
    pub address: Seq<char>,
}

pub struct InvocationView {
    pub image: Seq<char>,
    pub network_mode: NetworkMode,
    pub read_only: bool,
    pub tmpfs_mounts: Seq<TmpfsMountView>,
    pub bind_mounts: Seq<BindMountView>,
    pub extra_hosts: Seq<HostMappingView>,
    pub command_args: Seq<Seq<char>>,
}

pub enum OperationModeView {
    Local { data_path: Seq<char>, output_path: Seq<char> },
    Url { url: Seq<char>, output_path: Seq<char> },
}

impl View for BindMount {
    type V = BindMountView;

    open spec fn view(&self) -> BindMountView {
        BindMountView {
            host_path: self.host_path@,
            container_path: self.container_path@,
            mode: self.mode,
        }
    }
}

impl View for TmpfsMount {
    type V = TmpfsMountView;

    open spec fn view(&self) -> TmpfsMountView {
        TmpfsMountView { path: self.path@, options: self.options@ }
    }
}

impl View for HostMapping {
    type V = HostMappingView;

    open spec fn view(&self) -> HostMappingView {
        HostMappingView { hostname: self.hostname@, address: self.address@ }
    }
}

pub open spec fn tmpfs_views(v: Seq<TmpfsMount>) -> Seq<TmpfsMountView> {
    v.map_values(|m: TmpfsMount| m@)
}

pub open spec fn bind_views(v: Seq<BindMount>) -> Seq<BindMountView> {
    v.map_values(|m: BindMount| m@)
}

pub open spec fn host_views(v: Seq<HostMapping>) -> Seq<HostMappingView> {
    v.map_values(|h: HostMapping| h@)
}

impl View for InvocationDescriptor {
    type V = InvocationView;

    open spec fn view(&self) -> InvocationView {
        InvocationView {
            image: self.image@,
            network_mode: self.network_mode,
            read_only: self.read_only,
            tmpfs_mounts: tmpfs_views(self.tmpfs_mounts@),
            bind_mounts: bind_views(self.bind_mounts@),
            extra_hosts: host_views(self.extra_hosts@),
            command_args: texts(self.command_args@),
        }
    }
}

impl View for OperationMode {
    type V = OperationModeView;

    open spec fn view(&self) -> OperationModeView {
        match self {
            OperationMode::Local { data_path, output_path } => OperationModeView::Local {
                data_path: data_path@,
                output_path: output_path@,
            },
            OperationMode::Url { url, output_path } => OperationModeView::Url {
                url: url@,
                output_path: output_path@,
            },
        }
    }
}

/// The sandbox image.
pub open spec fn sandbox_image() -> Seq<char> {
    "gitingest-runner"@
}

/// The only prefix a remote source may start with.
pub open spec fn trusted_prefix() -> Seq<char> {
    "https://github.com/"@
}

/// Where the input directory appears inside the container.
pub open spec fn input_container_path() -> Seq<char> {
    "/data"@
}

/// Where the output directory appears inside the container.
pub open spec fn output_container_path() -> Seq<char> {
    "/output"@
}

/// The one writable scratch area: size-bounded, no executables, no setuid.
pub open spec fn scratch_mount() -> TmpfsMountView {
    TmpfsMountView { path: "/tmp"@, options: "rw,noexec,nosuid,size=100m"@ }
}

/// The read-only mount of the input directory.
pub open spec fn input_mount(data_path: Seq<char>) -> BindMountView {
    BindMountView {
        host_path: data_path,
        container_path: input_container_path(),
        mode: MountMode::ReadOnly,
    }
}

/// The read-write mount of the output directory.
pub open spec fn output_mount(output_path: Seq<char>) -> BindMountView {
    BindMountView {
        host_path: output_path,
        container_path: output_container_path(),
        mode: MountMode::ReadWrite,
    }
}

/// The host names a remote run is given, each with its fixed address.
pub open spec fn pinned_hosts() -> Seq<HostMappingView> {
    seq![
        HostMappingView { hostname: "github.com"@, address: "140.82.112.3"@ },
        HostMappingView { hostname: "api.github.com"@, address: "140.82.112.6"@ },
    ]
}

/// The policy itself: the invocation that each operation mode gets.
pub open spec fn invocation_for(mode: OperationModeView) -> InvocationView {
    match mode {
        OperationModeView::Local { data_path, output_path } => InvocationView {
            image: sandbox_image(),
            network_mode: NetworkMode::Disabled,
            read_only: true,
            tmpfs_mounts: seq![scratch_mount()],
            bind_mounts: seq![input_mount(data_path), output_mount(output_path)],
            extra_hosts: Seq::empty(),
            command_args: seq![input_container_path()],
        },
        OperationModeView::Url { url, output_path } => InvocationView {
            image: sandbox_image(),
            network_mode: NetworkMode::Disabled,
            read_only: true,
            tmpfs_mounts: seq![scratch_mount()],
            bind_mounts: seq![output_mount(output_path)],
            extra_hosts: pinned_hosts(),
            command_args: seq![url],
        },
    }
}

/// How many of `mounts` have the given mode.
pub open spec fn mounts_with_mode(mounts: Seq<BindMountView>, mode: MountMode) -> nat
    decreases mounts.len(),
{
    if mounts.len() == 0 {
        0
    } else {
        mounts_with_mode(mounts.drop_last(), mode) + if mounts.last().mode == mode {
            1nat
        } else {
            0nat
        }
    }
}

/// How many of `mounts` appear at the given path inside the container.
pub open spec fn mounts_at(mounts: Seq<BindMountView>, container_path: Seq<char>) -> nat
    decreases mounts.len(),
{
    if mounts.len() == 0 {
        0
    } else {
        mounts_at(mounts.drop_last(), container_path) + if mounts.last().container_path
            == container_path {
            1nat
        } else {
            0nat
        }
    }
}

/// Whether `url` names a source that may be handed to the sandbox.
pub fn is_trusted_url(url: &str) -> (r: bool)
    ensures
        r == trusted_prefix().is_prefix_of(url@),
{
    starts_with(url, "https://github.com/")
}

fn scratch() -> (r: TmpfsMount)
    ensures
        r@ == scratch_mount(),
{
    TmpfsMount {
        path: String::from_str("/tmp"),
        options: String::from_str("rw,noexec,nosuid,size=100m"),
    }
}

fn output_bind(output_path: String) -> (r: BindMount)
    ensures
        r@ == output_mount(output_path@),
{
    BindMount {
        host_path: output_path,
        container_path: String::from_str("/output"),
        mode: MountMode::ReadWrite,
    }
}

/// Builds the invocation for `mode`. Every mode runs without a network, on a
/// read-only root, with one scratch area. A local run mounts its input
/// read-only and its output read-write; a remote run mounts only its output.
pub fn build_invocation(mode: OperationMode) -> (d: InvocationDescriptor)
    ensures
        d@ == invocation_for(mode@),
        d@.network_mode == NetworkMode::Disabled,
        d@.read_only,
        mounts_with_mode(d@.bind_mounts, MountMode::ReadWrite) == 1,
        mounts_at(d@.bind_mounts, output_container_path()) == 1,
        mode is Local ==> mounts_with_mode(d@.bind_mounts, MountMode::ReadOnly) == 1 && mounts_at(
            d@.bind_mounts,
            input_container_path(),
        ) == 1,
        mode is Url ==> mounts_with_mode(d@.bind_mounts, MountMode::ReadOnly) == 0 && mounts_at(
            d@.bind_mounts,
            input_container_path(),
        ) == 0,
{
    let mut tmpfs_mounts: Vec<TmpfsMount> = Vec::new();
    tmpfs_mounts.push(scratch());
    let mut bind_mounts: Vec<BindMount> = Vec::new();
    let mut extra_hosts: Vec<HostMapping> = Vec::new();
    let mut command_args: Vec<String> = Vec::new();
    match mode {
        OperationMode::Local { data_path, output_path } => {
            bind_mounts.push(
                BindMount {
                    host_path: data_path,
                    container_path: String::from_str("/data"),
                    mode: MountMode::ReadOnly,
                },
            );
            bind_mounts.push(output_bind(output_path));
            command_args.push(String::from_str("/data"));
        },
        OperationMode::Url { url, output_path } => {
            bind_mounts.push(output_bind(output_path));
            extra_hosts.push(
                HostMapping {
                    hostname: String::from_str("github.com"),
                    address: String::from_str("140.82.112.3"),
                },
            );
            extra_hosts.push(
                HostMapping {
                    hostname: String::from_str("api.github.com"),
                    address: String::from_str("140.82.112.6"),
                },
            );
            command_args.push(url);
        },
    }
    let d = InvocationDescriptor {
        image: String::from_str("gitingest-runner"),
        network_mode: NetworkMode::Disabled,
        read_only: true,
        tmpfs_mounts,
        bind_mounts,
        extra_hosts,
        command_args,
    };
    proof {
        let want = invocation_for(mode@);
        assert(d@.tmpfs_mounts =~= want.tmpfs_mounts);
        assert(d@.bind_mounts =~= want.bind_mounts);
        assert(d@.extra_hosts =~= want.extra_hosts);
        assert(d@.command_args =~= want.command_args);
        lemma_policy_mounts(mode@);
    }
    d
}

/// The policy never grants a network or a writable root, and mounts exactly
/// one directory read-write, at the output path. A local run has exactly one
/// read-only mount, its input; a remote run has no read-only mount and
/// nothing at the input path.
pub proof fn lemma_policy_mounts(mode: OperationModeView)
    ensures
        invocation_for(mode).network_mode == NetworkMode::Disabled,
        invocation_for(mode).read_only,
        mounts_with_mode(invocation_for(mode).bind_mounts, MountMode::ReadWrite) == 1,
        mounts_at(invocation_for(mode).bind_mounts, output_container_path()) == 1,
        mode is Local ==> mounts_with_mode(invocation_for(mode).bind_mounts, MountMode::ReadOnly)
            == 1 && mounts_at(invocation_for(mode).bind_mounts, input_container_path()) == 1,
        mode is Url ==> mounts_with_mode(invocation_for(mode).bind_mounts, MountMode::ReadOnly)
            == 0 && mounts_at(invocation_for(mode).bind_mounts, input_container_path()) == 0,
{
    reveal_with_fuel(mounts_with_mode, 3);
    reveal_with_fuel(mounts_at, 3);
    reveal_strlit("/data");
    reveal_strlit("/output");
    let mounts = invocation_for(mode).bind_mounts;
    assert(input_container_path() != output_container_path()) by {
        assert(input_container_path().len() == 5);
        assert(output_container_path().len() == 7);
    }
    match mode {
        OperationModeView::Local { data_path, output_path } => {
            assert(mounts.drop_last() =~= seq![input_mount(data_path)]);
            assert(mounts.drop_last().drop_last() =~= Seq::<BindMountView>::empty());
        },
        OperationModeView::Url { url, output_path } => {
            assert(mounts.drop_last() =~= Seq::<BindMountView>::empty());
        },
    }
}

/// How a host mapping is spelled for the runtime: `name:address`.
pub open spec fn host_arg(h: HostMappingView) -> Seq<char> {
    h.hostname + ":"@ + h.address
}

/// How a scratch mount is spelled for the runtime: `path:options`.
pub open spec fn tmpfs_arg(m: TmpfsMountView) -> Seq<char> {
    m.path + ":"@ + m.options
}

/// How a mount mode is spelled for the runtime.
pub open spec fn mode_text(mode: MountMode) -> Seq<char> {
    match mode {
        MountMode::ReadOnly => "ro"@,
        MountMode::ReadWrite => "rw"@,
    }
}

/// How a bind mount is spelled for the runtime: `host:container:mode`.
pub open spec fn bind_arg(m: BindMountView) -> Seq<char> {
    m.host_path + ":"@ + m.container_path + ":"@ + mode_text(m.mode)
}

/// The network flags of a run.
pub open spec fn network_args(mode: NetworkMode) -> Seq<Seq<char>> {
    match mode {
        NetworkMode::Disabled => seq!["--network"@, "none"@],
        NetworkMode::RuntimeDefault => Seq::empty(),
    }
}

/// The root-filesystem flag of a run.
pub open spec fn read_only_args(read_only: bool) -> Seq<Seq<char>> {
    if read_only {
        seq!["--read-only"@]
    } else {
        Seq::empty()
    }
}

/// One `--add-host` flag and its value for each mapping, in order.
pub open spec fn host_args(hosts: Seq<HostMappingView>) -> Seq<Seq<char>>
    decreases hosts.len(),
{
    if hosts.len() == 0 {
        Seq::empty()
    } else {
        host_args(hosts.drop_last()).push("--add-host"@).push(host_arg(hosts.last()))
    }
}

/// One `--tmpfs` flag and its value for each scratch mount, in order.
pub open spec fn tmpfs_args(mounts: Seq<TmpfsMountView>) -> Seq<Seq<char>>
    decreases mounts.len(),
{
    if mounts.len() == 0 {
        Seq::empty()
    } else {
        tmpfs_args(mounts.drop_last()).push("--tmpfs"@).push(tmpfs_arg(mounts.last()))
    }
}

/// One `-v` flag and its value for each bind mount, in order.
pub open spec fn bind_args(mounts: Seq<BindMountView>) -> Seq<Seq<char>>
    decreases mounts.len(),
{
    if mounts.len() == 0 {
        Seq::empty()
    } else {
        bind_args(mounts.drop_last()).push("-v"@).push(bind_arg(mounts.last()))
    }
}

/// The full argument list that starts the container described by `d`: the
/// container is discarded when it exits; then come the network flags, the
/// host mappings, the root-filesystem flag, the scratch mounts, the bind
/// mounts, the image and the command.
pub open spec fn run_args(d: InvocationView) -> Seq<Seq<char>> {
    seq!["run"@, "--rm"@] + network_args(d.network_mode) + host_args(d.extra_hosts)
        + read_only_args(d.read_only) + tmpfs_args(d.tmpfs_mounts) + bind_args(d.bind_mounts)
        + seq![d.image] + d.command_args
}

fn join3(a: &str, b: &str, c: &str) -> (r: String)
    ensures
        r@ == a@ + b@ + c@,
{
    let r = String::from_str(a).concat(b).concat(c);
    r
}

fn mode_str(mode: MountMode) -> (r: &'static str)
    ensures
        r@ == mode_text(mode),
{
    match mode {
        MountMode::ReadOnly => "ro",
        MountMode::ReadWrite => "rw",
    }
}

fn append_host_args(out: &mut Vec<String>, hosts: &Vec<HostMapping>)
    ensures
        texts(final(out)@) == texts(old(out)@) + host_args(host_views(hosts@)),
{
    let ghost start = texts(out@);
    let ghost all = host_views(hosts@);
    let mut i: usize = 0;
    assert(all.take(0) =~= Seq::<HostMappingView>::empty());
    assert(start + host_args(all.take(0)) =~= start);
    while i < hosts.len()
        invariant
            i <= hosts.len(),
            all == host_views(hosts@),
            texts(out@) == start + host_args(all.take(i as int)),
        decreases hosts.len() - i,
    {
        let h = &hosts[i];
        let value = join3(h.hostname.as_str(), ":", h.address.as_str());
        push_text(out, String::from_str("--add-host"));
        push_text(out, value);
        proof {
            let next = all.take(i + 1);
            assert(next.drop_last() =~= all.take(i as int));
            assert(next.last() == h@);
            assert(texts(out@) =~= start + host_args(next));
        }
        i += 1;
    }
    assert(all.take(hosts.len() as int) =~= all);
}

fn append_tmpfs_args(out: &mut Vec<String>, mounts: &Vec<TmpfsMount>)
    ensures
        texts(final(out)@) == texts(old(out)@) + tmpfs_args(tmpfs_views(mounts@)),
{
    let ghost start = texts(out@);
    let ghost all = tmpfs_views(mounts@);
    let mut i: usize = 0;
    assert(all.take(0) =~= Seq::<TmpfsMountView>::empty());
    assert(start + tmpfs_args(all.take(0)) =~= start);
    while i < mounts.len()
        invariant
            i <= mounts.len(),
            all == tmpfs_views(mounts@),
            texts(out@) == start + tmpfs_args(all.take(i as int)),
        decreases mounts.len() - i,
    {
        let m = &mounts[i];
        let value = join3(m.path.as_str(), ":", m.options.as_str());
        push_text(out, String::from_str("--tmpfs"));
        push_text(out, value);
        proof {
            let next = all.take(i + 1);
            assert(next.drop_last() =~= all.take(i as int));
            assert(next.last() == m@);
            assert(texts(out@) =~= start + tmpfs_args(next));
        }
        i += 1;
    }
    assert(all.take(mounts.len() as int) =~= all);
}

fn append_bind_args(out: &mut Vec<String>, mounts: &Vec<BindMount>)
    ensures
        texts(final(out)@) == texts(old(out)@) + bind_args(bind_views(mounts@)),
{
    let ghost start = texts(out@);
    let ghost all = bind_views(mounts@);
    let mut i: usize = 0;
    assert(all.take(0) =~= Seq::<BindMountView>::empty());
    assert(start + bind_args(all.take(0)) =~= start);
    while i < mounts.len()
        invariant
            i <= mounts.len(),
            all == bind_views(mounts@),
            texts(out@) == start + bind_args(all.take(i as int)),
        decreases mounts.len() - i,
    {
        let m = &mounts[i];
        let target = join3(m.host_path.as_str(), ":", m.container_path.as_str());
        let value = join3(target.as_str(), ":", mode_str(m.mode));
        push_text(out, String::from_str("-v"));
        push_text(out, value);
        proof {
            let next = all.take(i + 1);
            assert(next.drop_last() =~= all.take(i as int));
            assert(next.last() == m@);
            assert(texts(out@) =~= start + bind_args(next));
        }
        i += 1;
    }
    assert(all.take(mounts.len() as int) =~= all);
}

fn append_texts(out: &mut Vec<String>, more: &Vec<String>)
    ensures
        texts(final(out)@) == texts(old(out)@) + texts(more@),
{
    let ghost start = texts(out@);
    let mut i: usize = 0;
    assert(start + texts(more@.take(0)) =~= start);
    while i < more.len()
        invariant
            i <= more.len(),
            texts(out@) == start + texts(more@.take(i as int)),
        decreases more.len() - i,
    {
        push_text(out, more[i].clone());
        assert(texts(out@) =~= start + texts(more@.take(i + 1)));
        i += 1;
    }
    assert(more@.take(more.len() as int) =~= more@);
}

/// Spells the invocation `d` as the argument list for the container runtime.
pub fn runtime_args(d: &InvocationDescriptor) -> (args: Vec<String>)
    ensures
        texts(args@) == run_args(d@),
{
    let mut args: Vec<String> = Vec::new();
    push_text(&mut args, String::from_str("run"));
    push_text(&mut args, String::from_str("--rm"));
    assert(texts(args@) =~= seq!["run"@, "--rm"@]);
    match d.network_mode {
        NetworkMode::Disabled => {
            push_text(&mut args, String::from_str("--network"));
            push_text(&mut args, String::from_str("none"));
        },
        NetworkMode::RuntimeDefault => {},
    }
    assert(texts(args@) =~= seq!["run"@, "--rm"@] + network_args(d@.network_mode));
    append_host_args(&mut args, &d.extra_hosts);
    let ghost before = texts(args@);
    if d.read_only {
        push_text(&mut args, String::from_str("--read-only"));
    }
    assert(texts(args@) =~= before + read_only_args(d@.read_only));
    append_tmpfs_args(&mut args, &d.tmpfs_mounts);
    append_bind_args(&mut args, &d.bind_mounts);
    let ghost before_image = texts(args@);
    push_text(&mut args, d.image.clone());
    assert(texts(args@) =~= before_image + seq![d@.image]);
    append_texts(&mut args, &d.command_args);
    args
}

/// The file that a successful run leaves behind under `output_path`.
pub open spec fn digest_location(output_path: Seq<char>) -> Seq<char> {
    output_path + "/digest.md"@
}

/// Where the digest of a successful run is found.
pub fn digest_path(output_path: &str) -> (r: String)
    ensures
        r@ == digest_location(output_path@),
{
    String::from_str(output_path).concat("/digest.md")
}

/// Every source under the trusted prefix is trusted. A source under the
/// same host without TLS, under another host, or under a host that merely
/// starts with the trusted host's name, is not.
pub proof fn lemma_trusted_sources(rest: Seq<char>)
    ensures
        trusted_prefix().is_prefix_of(trusted_prefix() + rest),
        !trusted_prefix().is_prefix_of("http://github.com/"@ + rest),
        !trusted_prefix().is_prefix_of("https://evil.com/"@ + rest),
        !trusted_prefix().is_prefix_of("https://github.com.evil.com/"@ + rest),
        !trusted_prefix().is_prefix_of("ftp://github.com/"@ + rest),
{
    reveal_strlit("https://github.com/");
    reveal_strlit("http://github.com/");
    reveal_strlit("https://evil.com/");
    reveal_strlit("https://github.com.evil.com/");
    reveal_strlit("ftp://github.com/");
    let p = trusted_prefix();
    assert(p.len() == 19);
    assert((p + rest).subrange(0, 19) =~= p);
    let a = "http://github.com/"@ + rest;
    if p.is_prefix_of(a) {
        assert(a.subrange(0, 19)[4] == p[4]);
        assert(a[4] == ':');
    }
    let b = "https://evil.com/"@ + rest;
    if p.is_prefix_of(b) {
        assert(b.subrange(0, 19)[8] == p[8]);
        assert(b[8] == 'e');
    }
    let c = "https://github.com.evil.com/"@ + rest;
    if p.is_prefix_of(c) {
        assert(c.subrange(0, 19)[18] == p[18]);
        assert(c[18] == '.');
    }
    let d = "ftp://github.com/"@ + rest;
    if p.is_prefix_of(d) {
        assert(d.subrange(0, 19)[0] == p[0]);
        assert(d[0] == 'f');
    }
}

} // verus!
