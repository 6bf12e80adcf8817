//! The command-line argument builder for the jailer binary.

use vstd::prelude::*;

use crate::numeric::{decimal_rep, u32_to_string};
use crate::vmm::arguments::{flag_args, opt_string_args, push_flag, push_opt_string, push_str, push_string};

verus! {

/// The cgroup version requested from the jailer.
#[derive(Debug, Clone, Copy, PartialEq, Eq, Structural)]
pub enum JailerCgroupVersion {
    V1,
    V2,
}

/// Arguments for the jailer binary. Key/value tables (cgroup settings and
/// resource limits) keep their insertion order, later entries for the same
/// key standing behind earlier ones.
#[derive(Debug, Clone)]
pub struct JailerArguments {
    pub uid: u32,
    pub gid: u32,
    pub jail_id: String,
    pub cgroup_values: Vec<(String, String)>,
    pub cgroup_version: Option<JailerCgroupVersion>,
    pub chroot_base_dir: Option<String>,
    pub daemonize: bool,
    pub network_namespace_path: Option<String>,
    pub exec_in_new_pid_ns: bool,
    pub parent_cgroup: Option<String>,
    pub resource_limits: Vec<(String, String)>,
}

/// The flag/`key=value` argument pairs for a key/value table.
pub open spec fn kv_args(flag: Seq<char>, pairs: Seq<(String, String)>) -> Seq<Seq<char>>
    decreases pairs.len(),
{
    if pairs.len() == 0 {
        seq![]
    } else {
        kv_args(flag, pairs.drop_last()) + seq![
            flag,
            pairs.last().0@ + "="@ + pairs.last().1@,
        ]
    }
}

pub open spec fn cgroup_version_args(v: Option<JailerCgroupVersion>) -> Seq<Seq<char>> {
    match v {
        Some(JailerCgroupVersion::V1) => seq!["--cgroup-version"@, "1"@],
        Some(JailerCgroupVersion::V2) => seq!["--cgroup-version"@, "2"@],
        None => seq![],
    }
}

/// The exact argument list that `JailerArguments::join` produces.
pub open spec fn jailer_arguments_spec(
    a: JailerArguments,
    firecracker_binary_path: Seq<char>,
) -> Seq<Seq<char>> {
    seq![
        "--exec-file"@,
        firecracker_binary_path,
        "--uid"@,
        decimal_rep(a.uid as nat),
        "--gid"@,
        decimal_rep(a.gid as nat),
        "--id"@,
        a.jail_id@,
    ] + kv_args("--cgroup"@, a.cgroup_values@) + cgroup_version_args(a.cgroup_version)
        + opt_string_args("--chroot-base-dir"@, a.chroot_base_dir) + flag_args(
        "--daemonize"@,
        a.daemonize,
    ) + opt_string_args("--netns"@, a.network_namespace_path) + flag_args(
        "--new-pid-ns"@,
        a.exec_in_new_pid_ns,
    ) + opt_string_args("--parent-cgroup"@, a.parent_cgroup) + kv_args(
        "--resource-limit"@,
        a.resource_limits@,
    )
}

/// Appends `flag key=value` to the argument list for every pair of the
/// table, in order.
fn push_kv_args(args: &mut Vec<String>, flag: &str, pairs: &Vec<(String, String)>)
    ensures
        final(args).deep_view() == old(args).deep_view() + kv_args(flag@, pairs@),
{
    let ghost base = args.deep_view();
    let mut i: usize = 0;
    while i < pairs.len()
        invariant
            0 <= i <= pairs@.len(),
            args.deep_view() == base + kv_args(flag@, pairs@.subrange(0, i as int)),
        decreases pairs@.len() - i,
    {
        push_str(args, flag);
        let pair_value = pairs[i].0.clone().concat("=").concat(pairs[i].1.as_str());
        push_string(args, pair_value);
        proof {
            let prefix = pairs@.subrange(0, i as int + 1);
            assert(prefix.drop_last() =~= pairs@.subrange(0, i as int));
            assert(prefix.last() == pairs@[i as int]);
            assert(args.deep_view() =~= base + kv_args(flag@, prefix));
        }
        i = i + 1;
    }
    proof {
        assert(pairs@.subrange(0, pairs@.len() as int) =~= pairs@);
    }
}

fn push_cgroup_version_args(args: &mut Vec<String>, v: Option<JailerCgroupVersion>)
    ensures
        final(args).deep_view() == old(args).deep_view() + cgroup_version_args(v),
{
    match v {
        Some(JailerCgroupVersion::V1) => {
            push_str(args, "--cgroup-version");
            push_str(args, "1");
        },
        Some(JailerCgroupVersion::V2) => {
            push_str(args, "--cgroup-version");
            push_str(args, "2");
        },
        None => {},
    }
    proof {
        assert(args.deep_view() =~= old(args).deep_view() + cgroup_version_args(v));
    }
}

impl JailerArguments {
    pub fn new(uid: u32, gid: u32, jail_id: String) -> (r: Self)
        ensures
            r.uid == uid,
            r.gid == gid,
            r.jail_id@ == jail_id@,
            r.cgroup_values@.len() == 0,
            r.cgroup_version is None,
            r.chroot_base_dir is None,
            r.daemonize == false,
            r.network_namespace_path is None,
            r.exec_in_new_pid_ns == false,
            r.parent_cgroup is None,
            r.resource_limits@.len() == 0,
    {
        JailerArguments {
            uid,
            gid,
            jail_id,
            cgroup_values: Vec::new(),
            cgroup_version: None,
            chroot_base_dir: None,
            daemonize: false,
            network_namespace_path: None,
            exec_in_new_pid_ns: false,
            parent_cgroup: None,
            resource_limits: Vec::new(),
        }
    }

    pub fn cgroup(self, key: String, value: String) -> (r: Self)
        ensures
            r.cgroup_values@ == self.cgroup_values@.push((key, value)),
            r == (Self { cgroup_values: r.cgroup_values, ..self }),
    {
        let mut cgroup_values = self.cgroup_values;
        cgroup_values.push((key, value));
        Self { cgroup_values, ..self }
    }

    pub fn cgroups(self, cgroups: Vec<(String, String)>) -> (r: Self)
        ensures
            r.cgroup_values@ == self.cgroup_values@ + cgroups@,
            r == (Self { cgroup_values: r.cgroup_values, ..self }),
    {
        let mut cgroup_values = self.cgroup_values;
        let mut added = cgroups;
        cgroup_values.append(&mut added);
        Self { cgroup_values, ..self }
    }

    pub fn cgroup_version(self, cgroup_version: JailerCgroupVersion) -> (r: Self)
        ensures
            r == (Self { cgroup_version: Some(cgroup_version), ..self }),
    {
        Self { cgroup_version: Some(cgroup_version), ..self }
    }

    pub fn chroot_base_dir(self, chroot_base_dir: String) -> (r: Self)
        ensures
            r == (Self { chroot_base_dir: Some(chroot_base_dir), ..self }),
    {
        Self { chroot_base_dir: Some(chroot_base_dir), ..self }
    }

    pub fn daemonize(self) -> (r: Self)
        ensures
            r == (Self { daemonize: true, ..self }),
    {
        Self { daemonize: true, ..self }
    }

    pub fn network_namespace_path(self, network_namespace_path: String) -> (r: Self)
        ensures
            r == (Self { network_namespace_path: Some(network_namespace_path), ..self }),
    {
        Self { network_namespace_path: Some(network_namespace_path), ..self }
    }

    pub fn exec_in_new_pid_ns(self) -> (r: Self)
        ensures
            r == (Self { exec_in_new_pid_ns: true, ..self }),
    {
        Self { exec_in_new_pid_ns: true, ..self }
    }

    pub fn parent_cgroup(self, parent_cgroup: String) -> (r: Self)
        ensures
            r == (Self { parent_cgroup: Some(parent_cgroup), ..self }),
    {
        Self { parent_cgroup: Some(parent_cgroup), ..self }
    }

    pub fn resource_limit(self, key: String, value: String) -> (r: Self)
        ensures
            r.resource_limits@ == self.resource_limits@.push((key, value)),
            r == (Self { resource_limits: r.resource_limits, ..self }),
    {
        let mut resource_limits = self.resource_limits;
        resource_limits.push((key, value));
        Self { resource_limits, ..self }
    }

    pub fn resource_limits(self, resource_limits: Vec<(String, String)>) -> (r: Self)
        ensures
            r.resource_limits@ == self.resource_limits@ + resource_limits@,
            r == (Self { resource_limits: r.resource_limits, ..self }),
    {
        let mut limits = self.resource_limits;
        let mut added = resource_limits;
        limits.append(&mut added);
        Self { resource_limits: limits, ..self }
    }

    /// Joins the stored options into the jailer binary's argument list.
    pub fn join(&self, firecracker_binary_path: &str) -> (r: Vec<String>)
        ensures
            r.deep_view() == jailer_arguments_spec(*self, firecracker_binary_path@),
    {
        proof {
            assert(*self == (JailerArguments { uid: self.uid, gid: self.gid, ..*self }));
        }
        self.join_with_owner(self.uid, self.gid, firecracker_binary_path)
    }

    /// Joins the stored options into the jailer binary's argument list, with
    /// the jail's user resolved to the given uid/gid in place of the stored
    /// ones.
    pub fn join_with_owner(&self, uid: u32, gid: u32, firecracker_binary_path: &str) -> (r: Vec<
        String,
    >)
        ensures
            r.deep_view() == jailer_arguments_spec(
                JailerArguments { uid, gid, ..*self },
                firecracker_binary_path@,
            ),
    {
        let mut args: Vec<String> = Vec::new();
        push_str(&mut args, "--exec-file");
        push_str(&mut args, firecracker_binary_path);
        push_str(&mut args, "--uid");
        push_string(&mut args, u32_to_string(uid));
        push_str(&mut args, "--gid");
        push_string(&mut args, u32_to_string(gid));
        push_str(&mut args, "--id");
        push_string(&mut args, self.jail_id.clone());
        proof {
            assert(args.deep_view() =~= seq![
                "--exec-file"@,
                firecracker_binary_path@,
                "--uid"@,
                decimal_rep(uid as nat),
                "--gid"@,
                decimal_rep(gid as nat),
                "--id"@,
                self.jail_id@,
            ]);
        }
        push_kv_args(&mut args, "--cgroup", &self.cgroup_values);
        push_cgroup_version_args(&mut args, self.cgroup_version);
        push_opt_string(&mut args, "--chroot-base-dir", &self.chroot_base_dir);
        push_flag(&mut args, "--daemonize", self.daemonize);
        push_opt_string(&mut args, "--netns", &self.network_namespace_path);
        push_flag(&mut args, "--new-pid-ns", self.exec_in_new_pid_ns);
        push_opt_string(&mut args, "--parent-cgroup", &self.parent_cgroup);
        push_kv_args(&mut args, "--resource-limit", &self.resource_limits);
        args
    }
}

} // verus!
