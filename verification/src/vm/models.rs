//! The device records of a VM configuration. These carry the identifiers
//! and paths that the lifecycle engine reasons about; how they are laid out
//! on the management API's wire is the driver's business.

use vstd::prelude::*;

use crate::vmm::arguments::VmmLogLevel;

verus! {

/// The guest's boot source: a kernel image, an optional initial ramdisk,
/// and optional kernel boot arguments.
#[derive(Debug)]
pub struct BootSource {
    pub kernel_image_path: String,
    pub initrd_path: Option<String>,
    pub boot_args: Option<String>,
}

pub struct BootSourceView {
    pub kernel_image_path: Seq<char>,
    pub initrd_path: Option<Seq<char>>,
    pub boot_args: Option<Seq<char>>,
}

impl DeepView for BootSource {
    type V = BootSourceView;

    open spec fn deep_view(&self) -> BootSourceView {
        BootSourceView {
            kernel_image_path: self.kernel_image_path@,
            initrd_path: self.initrd_path.deep_view(),
            boot_args: self.boot_args.deep_view(),
        }
    }
}

impl BootSource {
    pub fn new(kernel_image_path: String) -> (r: Self)
        ensures
            r == (BootSource { kernel_image_path, initrd_path: None, boot_args: None }),
    {
        BootSource { kernel_image_path, initrd_path: None, boot_args: None }
    }

    pub fn initrd_path(self, initrd_path: String) -> (r: Self)
        ensures
            r == (BootSource { initrd_path: Some(initrd_path), ..self }),
    {
        BootSource { initrd_path: Some(initrd_path), ..self }
    }

    pub fn boot_args(self, boot_args: String) -> (r: Self)
        ensures
            r == (BootSource { boot_args: Some(boot_args), ..self }),
    {
        BootSource { boot_args: Some(boot_args), ..self }
    }
}

impl Clone for BootSource {
    fn clone(&self) -> (r: Self)
        ensures
            r == *self,
    {
        BootSource {
            kernel_image_path: self.kernel_image_path.clone(),
            initrd_path: clone_opt_string(&self.initrd_path),
            boot_args: clone_opt_string(&self.boot_args),
        }
    }
}

/// Clones an optional string; the copy equals the original.
pub(crate) fn clone_opt_string(v: &Option<String>) -> (r: Option<String>)
    ensures
        r == *v,
{
    match v {
        Some(s) => Some(s.clone()),
        None => None,
    }
}

/// Clones a list of strings; the copy's view equals the original's.
pub(crate) fn clone_strings(v: &Vec<String>) -> (r: Vec<String>)
    ensures
        r@ == v@,
{
    let mut r: Vec<String> = Vec::new();
    let mut i: usize = 0;
    while i < v.len()
        invariant
            0 <= i <= v@.len(),
            r@.len() == i,
            forall|j: int| 0 <= j < i ==> r@[j] == v@[j],
        decreases v@.len() - i,
    {
        r.push(v[i].clone());
        i = i + 1;
    }
    proof {
        assert(r@ =~= v@);
    }
    r
}

/// A drive attached to the guest.
#[derive(Debug)]
pub struct Drive {
    pub drive_id: String,
    pub is_root_device: bool,
    pub path_on_host: Option<String>,
    pub is_read_only: bool,
    /// For a vhost-user drive: the socket over which it is served.
    pub socket: Option<String>,
}

pub struct DriveView {
    pub drive_id: Seq<char>,
    pub is_root_device: bool,
    pub path_on_host: Option<Seq<char>>,
    pub is_read_only: bool,
    pub socket: Option<Seq<char>>,
}

impl DeepView for Drive {
    type V = DriveView;

    open spec fn deep_view(&self) -> DriveView {
        DriveView {
            drive_id: self.drive_id@,
            is_root_device: self.is_root_device,
            path_on_host: self.path_on_host.deep_view(),
            is_read_only: self.is_read_only,
            socket: self.socket.deep_view(),
        }
    }
}

impl Drive {
    pub fn new(drive_id: String, is_root_device: bool) -> (r: Self)
        ensures
            r == (Drive {
                drive_id,
                is_root_device,
                path_on_host: None,
                is_read_only: false,
                socket: None,
            }),
    {
        Drive { drive_id, is_root_device, path_on_host: None, is_read_only: false, socket: None }
    }

    pub fn path_on_host(self, path_on_host: String) -> (r: Self)
        ensures
            r == (Drive { path_on_host: Some(path_on_host), ..self }),
    {
        Drive { path_on_host: Some(path_on_host), ..self }
    }

    pub fn is_read_only(self, is_read_only: bool) -> (r: Self)
        ensures
            r == (Drive { is_read_only, ..self }),
    {
        Drive { is_read_only, ..self }
    }

    pub fn socket(self, socket: String) -> (r: Self)
        ensures
            r == (Drive { socket: Some(socket), ..self }),
    {
        Drive { socket: Some(socket), ..self }
    }
}

impl Clone for Drive {
    fn clone(&self) -> (r: Self)
        ensures
            r == *self,
    {
        Drive {
            drive_id: self.drive_id.clone(),
            is_root_device: self.is_root_device,
            path_on_host: clone_opt_string(&self.path_on_host),
            is_read_only: self.is_read_only,
            socket: clone_opt_string(&self.socket),
        }
    }
}

/// Clones a list of drives; the copy's view equals the original's.
pub(crate) fn clone_drives(v: &Vec<Drive>) -> (r: Vec<Drive>)
    ensures
        r@ == v@,
{
    let mut r: Vec<Drive> = Vec::new();
    let mut i: usize = 0;
    while i < v.len()
        invariant
            0 <= i <= v@.len(),
            r@.len() == i,
            forall|j: int| 0 <= j < i ==> r@[j] == v@[j],
        decreases v@.len() - i,
    {
        r.push(v[i].clone());
        i = i + 1;
    }
    proof {
        assert(r@ =~= v@);
    }
    r
}

/// The guest machine's dimensions.
#[derive(Debug, Clone, Copy, PartialEq, Eq, Structural)]
pub struct MachineConfiguration {
    pub vcpu_count: u64,
    pub mem_size_mib: u64,
    pub smt: bool,
}

impl MachineConfiguration {
    pub fn new(vcpu_count: u64, mem_size_mib: u64) -> (r: Self)
        ensures
            r == (MachineConfiguration { vcpu_count, mem_size_mib, smt: false }),
    {
        MachineConfiguration { vcpu_count, mem_size_mib, smt: false }
    }

    pub fn smt(self, smt: bool) -> (r: Self)
        ensures
            r == (MachineConfiguration { smt, ..self }),
    {
        MachineConfiguration { smt, ..self }
    }
}

/// A named CPU template that masks guest-visible CPU features.
#[derive(Debug, Clone, Copy, PartialEq, Eq, Structural)]
pub enum CpuTemplate {
    C3,
    T2,
    T2S,
    T2CL,
    T2A,
    V1N1,
}

/// A network interface attached to the guest.
#[derive(Debug)]
pub struct NetworkInterface {
    pub iface_id: String,
    pub host_dev_name: String,
}

pub struct NetworkInterfaceView {
    pub iface_id: Seq<char>,
    pub host_dev_name: Seq<char>,
}

impl DeepView for NetworkInterface {
    type V = NetworkInterfaceView;

    open spec fn deep_view(&self) -> NetworkInterfaceView {
        NetworkInterfaceView { iface_id: self.iface_id@, host_dev_name: self.host_dev_name@ }
    }
}

impl NetworkInterface {
    pub fn new(iface_id: String, host_dev_name: String) -> (r: Self)
        ensures
            r == (NetworkInterface { iface_id, host_dev_name }),
    {
        NetworkInterface { iface_id, host_dev_name }
    }
}

impl Clone for NetworkInterface {
    fn clone(&self) -> (r: Self)
        ensures
            r == *self,
    {
        NetworkInterface {
            iface_id: self.iface_id.clone(),
            host_dev_name: self.host_dev_name.clone(),
        }
    }
}

/// Clones a list of network interfaces; the copy's view equals the
/// original's.
pub(crate) fn clone_network_interfaces(v: &Vec<NetworkInterface>) -> (r: Vec<NetworkInterface>)
    ensures
        r@ == v@,
{
    let mut r: Vec<NetworkInterface> = Vec::new();
    let mut i: usize = 0;
    while i < v.len()
        invariant
            0 <= i <= v@.len(),
            r@.len() == i,
            forall|j: int| 0 <= j < i ==> r@[j] == v@[j],
        decreases v@.len() - i,
    {
        r.push(v[i].clone());
        i = i + 1;
    }
    proof {
        assert(r@ =~= v@);
    }
    r
}

/// A memory balloon device.
#[derive(Debug, Clone, Copy, PartialEq, Eq, Structural)]
pub struct BalloonDevice {
    pub amount_mib: u64,
    pub deflate_on_oom: bool,
    pub stats_polling_interval_s: u64,
}

impl BalloonDevice {
    pub fn new(amount_mib: u64, deflate_on_oom: bool) -> (r: Self)
        ensures
            r == (BalloonDevice { amount_mib, deflate_on_oom, stats_polling_interval_s: 0 }),
    {
        BalloonDevice { amount_mib, deflate_on_oom, stats_polling_interval_s: 0 }
    }

    pub fn stats_polling_interval_s(self, stats_polling_interval_s: u64) -> (r: Self)
        ensures
            r == (BalloonDevice { stats_polling_interval_s, ..self }),
    {
        BalloonDevice { stats_polling_interval_s, ..self }
    }
}

/// A vsock device: the guest CID and the host-side multiplexer socket that
/// the VMM binds.
#[derive(Debug)]
pub struct VsockDevice {
    pub guest_cid: u64,
    pub uds_path: String,
}

pub struct VsockDeviceView {
    pub guest_cid: u64,
    pub uds_path: Seq<char>,
}

impl DeepView for VsockDevice {
    type V = VsockDeviceView;

    open spec fn deep_view(&self) -> VsockDeviceView {
        VsockDeviceView { guest_cid: self.guest_cid, uds_path: self.uds_path@ }
    }
}

impl VsockDevice {
    pub fn new(guest_cid: u64, uds_path: String) -> (r: Self)
        ensures
            r == (VsockDevice { guest_cid, uds_path }),
    {
        VsockDevice { guest_cid, uds_path }
    }
}

impl Clone for VsockDevice {
    fn clone(&self) -> (r: Self)
        ensures
            r == *self,
    {
        VsockDevice { guest_cid: self.guest_cid, uds_path: self.uds_path.clone() }
    }
}

/// The guest's logging system: where the VMM writes its log (an inner path)
/// and at which level.
#[derive(Debug)]
pub struct LoggerSystem {
    pub log_path: Option<String>,
    pub level: Option<VmmLogLevel>,
}

pub struct LoggerSystemView {
    pub log_path: Option<Seq<char>>,
    pub level: Option<VmmLogLevel>,
}

impl DeepView for LoggerSystem {
    type V = LoggerSystemView;

    open spec fn deep_view(&self) -> LoggerSystemView {
        LoggerSystemView { log_path: self.log_path.deep_view(), level: self.level }
    }
}

impl LoggerSystem {
    pub fn new() -> (r: Self)
        ensures
            r == (LoggerSystem { log_path: None, level: None }),
    {
        LoggerSystem { log_path: None, level: None }
    }

    pub fn log_path(self, log_path: String) -> (r: Self)
        ensures
            r == (LoggerSystem { log_path: Some(log_path), ..self }),
    {
        LoggerSystem { log_path: Some(log_path), ..self }
    }

    pub fn level(self, level: VmmLogLevel) -> (r: Self)
        ensures
            r == (LoggerSystem { level: Some(level), ..self }),
    {
        LoggerSystem { level: Some(level), ..self }
    }
}

impl Clone for LoggerSystem {
    fn clone(&self) -> (r: Self)
        ensures
            r == *self,
    {
        LoggerSystem { log_path: clone_opt_string(&self.log_path), level: self.level }
    }
}

/// The guest's metrics system: where the VMM writes metrics (an inner path).
#[derive(Debug)]
pub struct MetricsSystem {
    pub metrics_path: String,
}

pub struct MetricsSystemView {
    pub metrics_path: Seq<char>,
}

impl DeepView for MetricsSystem {
    type V = MetricsSystemView;

    open spec fn deep_view(&self) -> MetricsSystemView {
        MetricsSystemView { metrics_path: self.metrics_path@ }
    }
}

impl MetricsSystem {
    pub fn new(metrics_path: String) -> (r: Self)
        ensures
            r == (MetricsSystem { metrics_path }),
    {
        MetricsSystem { metrics_path }
    }
}

impl Clone for MetricsSystem {
    fn clone(&self) -> (r: Self)
        ensures
            r == *self,
    {
        MetricsSystem { metrics_path: self.metrics_path.clone() }
    }
}

/// The version of the metadata service exposed to the guest.
#[derive(Debug, Clone, Copy, PartialEq, Eq, Structural)]
pub enum MmdsVersion {
    V1,
    V2,
}

/// The metadata service's configuration: its version, the guest network
/// interfaces allowed to reach it, and its address.
#[derive(Debug)]
pub struct MmdsConfiguration {
    pub version: MmdsVersion,
    pub network_interface_ids: Vec<String>,
    pub ipv4_address: Option<String>,
}

pub struct MmdsConfigurationView {
    pub version: MmdsVersion,
    pub network_interface_ids: Seq<Seq<char>>,
    pub ipv4_address: Option<Seq<char>>,
}

impl DeepView for MmdsConfiguration {
    type V = MmdsConfigurationView;

    open spec fn deep_view(&self) -> MmdsConfigurationView {
        MmdsConfigurationView {
            version: self.version,
            network_interface_ids: self.network_interface_ids.deep_view(),
            ipv4_address: self.ipv4_address.deep_view(),
        }
    }
}

impl MmdsConfiguration {
    pub fn new(version: MmdsVersion, network_interface_ids: Vec<String>) -> (r: Self)
        ensures
            r == (MmdsConfiguration { version, network_interface_ids, ipv4_address: None }),
    {
        MmdsConfiguration { version, network_interface_ids, ipv4_address: None }
    }

    pub fn ipv4_address(self, ipv4_address: String) -> (r: Self)
        ensures
            r == (MmdsConfiguration { ipv4_address: Some(ipv4_address), ..self }),
    {
        MmdsConfiguration { ipv4_address: Some(ipv4_address), ..self }
    }
}

impl Clone for MmdsConfiguration {
    fn clone(&self) -> (r: Self)
        ensures
            r.deep_view() == self.deep_view(),
            r.version == self.version,
            r.network_interface_ids@ == self.network_interface_ids@,
            r.ipv4_address == self.ipv4_address,
    {
        let r = MmdsConfiguration {
            version: self.version,
            network_interface_ids: clone_strings(&self.network_interface_ids),
            ipv4_address: clone_opt_string(&self.ipv4_address),
        };
        proof {
            assert(r.network_interface_ids.deep_view() =~= self.network_interface_ids.deep_view());
        }
        r
    }
}

/// An entropy device that feeds the guest's randomness pool.
#[derive(Debug, Clone, Copy, PartialEq, Eq, Structural)]
pub struct EntropyDevice {}

impl EntropyDevice {
    pub fn new() -> (r: Self)
        ensures
            r == (EntropyDevice {  }),
    {
        EntropyDevice {  }
    }
}

/// How a snapshot's guest memory is provided on restore.
#[derive(Debug, Clone, Copy, PartialEq, Eq, Structural)]
pub enum MemoryBackendType {
    /// A plain memory file.
    File,
    /// A userfault file descriptor served by another process.
    Uffd,
}

/// The memory backend of a snapshot restore.
#[derive(Debug)]
pub struct MemoryBackend {
    pub backend_type: MemoryBackendType,
    pub backend_path: String,
}

pub struct MemoryBackendView {
    pub backend_type: MemoryBackendType,
    pub backend_path: Seq<char>,
}

impl DeepView for MemoryBackend {
    type V = MemoryBackendView;

    open spec fn deep_view(&self) -> MemoryBackendView {
        MemoryBackendView { backend_type: self.backend_type, backend_path: self.backend_path@ }
    }
}

impl MemoryBackend {
    pub fn new(backend_type: MemoryBackendType, backend_path: String) -> (r: Self)
        ensures
            r == (MemoryBackend { backend_type, backend_path }),
    {
        MemoryBackend { backend_type, backend_path }
    }
}

impl Clone for MemoryBackend {
    fn clone(&self) -> (r: Self)
        ensures
            r == *self,
    {
        MemoryBackend { backend_type: self.backend_type, backend_path: self.backend_path.clone() }
    }
}

/// A snapshot-load descriptor: the snapshot file, the memory backend, and
/// the restore options.
#[derive(Debug)]
pub struct LoadSnapshot {
    pub snapshot_path: String,
    pub mem_backend: MemoryBackend,
    pub resume_vm: bool,
    pub enable_diff_snapshots: bool,
}

pub struct LoadSnapshotView {
    pub snapshot_path: Seq<char>,
    pub mem_backend: MemoryBackendView,
    pub resume_vm: bool,
    pub enable_diff_snapshots: bool,
}

impl DeepView for LoadSnapshot {
    type V = LoadSnapshotView;

    open spec fn deep_view(&self) -> LoadSnapshotView {
        LoadSnapshotView {
            snapshot_path: self.snapshot_path@,
            mem_backend: self.mem_backend.deep_view(),
            resume_vm: self.resume_vm,
            enable_diff_snapshots: self.enable_diff_snapshots,
        }
    }
}

impl LoadSnapshot {
    pub fn new(snapshot_path: String, mem_backend: MemoryBackend) -> (r: Self)
        ensures
            r == (LoadSnapshot {
                snapshot_path,
                mem_backend,
                resume_vm: false,
                enable_diff_snapshots: false,
            }),
    {
        LoadSnapshot { snapshot_path, mem_backend, resume_vm: false, enable_diff_snapshots: false }
    }

    pub fn resume_vm(self, resume_vm: bool) -> (r: Self)
        ensures
            r == (LoadSnapshot { resume_vm, ..self }),
    {
        LoadSnapshot { resume_vm, ..self }
    }

    pub fn enable_diff_snapshots(self, enable_diff_snapshots: bool) -> (r: Self)
        ensures
            r == (LoadSnapshot { enable_diff_snapshots, ..self }),
    {
        LoadSnapshot { enable_diff_snapshots, ..self }
    }
}

impl Clone for LoadSnapshot {
    fn clone(&self) -> (r: Self)
        ensures
            r == *self,
    {
        LoadSnapshot {
            snapshot_path: self.snapshot_path.clone(),
            mem_backend: self.mem_backend.clone(),
            resume_vm: self.resume_vm,
            enable_diff_snapshots: self.enable_diff_snapshots,
        }
    }
}

/// A snapshot-creation descriptor: where the VMM writes the snapshot file
/// and the memory file, as inner paths.
#[derive(Debug)]
pub struct CreateSnapshot {
    pub snapshot_path: String,
    pub mem_file_path: String,
}

pub struct CreateSnapshotView {
    pub snapshot_path: Seq<char>,
    pub mem_file_path: Seq<char>,
}

impl DeepView for CreateSnapshot {
    type V = CreateSnapshotView;

    open spec fn deep_view(&self) -> CreateSnapshotView {
        CreateSnapshotView {
            snapshot_path: self.snapshot_path@,
            mem_file_path: self.mem_file_path@,
        }
    }
}

impl CreateSnapshot {
    pub fn new(snapshot_path: String, mem_file_path: String) -> (r: Self)
        ensures
            r == (CreateSnapshot { snapshot_path, mem_file_path }),
    {
        CreateSnapshot { snapshot_path, mem_file_path }
    }
}

/// A change to an attached drive.
#[derive(Debug)]
pub struct UpdateDrive {
    pub drive_id: String,
    pub path_on_host: Option<String>,
}

impl UpdateDrive {
    pub fn new(drive_id: String) -> (r: Self)
        ensures
            r == (UpdateDrive { drive_id, path_on_host: None }),
    {
        UpdateDrive { drive_id, path_on_host: None }
    }

    pub fn path_on_host(self, path_on_host: String) -> (r: Self)
        ensures
            r == (UpdateDrive { path_on_host: Some(path_on_host), ..self }),
    {
        UpdateDrive { path_on_host: Some(path_on_host), ..self }
    }
}

/// A change to an attached network interface.
#[derive(Debug)]
pub struct UpdateNetworkInterface {
    pub iface_id: String,
}

impl UpdateNetworkInterface {
    pub fn new(iface_id: String) -> (r: Self)
        ensures
            r == (UpdateNetworkInterface { iface_id }),
    {
        UpdateNetworkInterface { iface_id }
    }
}

/// A change to the balloon device's target size.
#[derive(Debug, Clone, Copy, PartialEq, Eq, Structural)]
pub struct UpdateBalloonDevice {
    pub amount_mib: u64,
}

impl UpdateBalloonDevice {
    pub fn new(amount_mib: u64) -> (r: Self)
        ensures
            r == (UpdateBalloonDevice { amount_mib }),
    {
        UpdateBalloonDevice { amount_mib }
    }
}

/// A change to the balloon device's statistics polling interval.
#[derive(Debug, Clone, Copy, PartialEq, Eq, Structural)]
pub struct UpdateBalloonStatistics {
    pub stats_polling_interval_s: u64,
}

impl UpdateBalloonStatistics {
    pub fn new(stats_polling_interval_s: u64) -> (r: Self)
        ensures
            r == (UpdateBalloonStatistics { stats_polling_interval_s }),
    {
        UpdateBalloonStatistics { stats_polling_interval_s }
    }
}

} // verus!
