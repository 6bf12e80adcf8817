//! The full configuration of a VM: either new, with a chosen initialization
//! method, or restored from a snapshot. Both carry the same device data.

use vstd::prelude::*;

use crate::vm::models::{
    clone_drives, clone_network_interfaces, BalloonDevice, BootSource, BootSourceView, CpuTemplate,
    Drive, DriveView, EntropyDevice, LoadSnapshot, LoadSnapshotView, LoggerSystem,
    LoggerSystemView, MachineConfiguration, MetricsSystem, MetricsSystemView, MmdsConfiguration,
    MmdsConfigurationView, NetworkInterface, NetworkInterfaceView, VsockDevice, VsockDeviceView,
};

verus! {

/// How a new (not restored) VM is initialized and booted.
#[derive(Debug)]
pub enum InitMethod {
    /// Sequential calls to the management API perform initialization.
    ViaApiCalls,
    /// A JSON configuration document is written at the given inner path and
    /// handed to the VMM, which initializes and boots by itself.
    ViaJsonConfiguration(String),
}

pub enum InitMethodView {
    ViaApiCalls,
    ViaJsonConfiguration(Seq<char>),
}

impl DeepView for InitMethod {
    type V = InitMethodView;

    open spec fn deep_view(&self) -> InitMethodView {
        match self {
            InitMethod::ViaApiCalls => InitMethodView::ViaApiCalls,
            InitMethod::ViaJsonConfiguration(path) => InitMethodView::ViaJsonConfiguration(path@),
        }
    }
}

impl Clone for InitMethod {
    fn clone(&self) -> (r: Self)
        ensures
            r == *self,
    {
        match self {
            InitMethod::ViaApiCalls => InitMethod::ViaApiCalls,
            InitMethod::ViaJsonConfiguration(path) => InitMethod::ViaJsonConfiguration(
                path.clone(),
            ),
        }
    }
}

/// The device data of a VM. It is required in full even when restoring from
/// a snapshot, since the restore must still know the devices' identities and
/// host paths.
#[derive(Debug)]
pub struct VmConfigurationData {
    pub boot_source: BootSource,
    pub drives: Vec<Drive>,
    pub machine_configuration: MachineConfiguration,
    pub cpu_template: Option<CpuTemplate>,
    pub network_interfaces: Vec<NetworkInterface>,
    pub balloon_device: Option<BalloonDevice>,
    pub vsock_device: Option<VsockDevice>,
    pub logger_system: Option<LoggerSystem>,
    pub metrics_system: Option<MetricsSystem>,
    pub mmds_configuration: Option<MmdsConfiguration>,
    pub entropy_device: Option<EntropyDevice>,
}

pub struct VmConfigurationDataView {
    pub boot_source: BootSourceView,
    pub drives: Seq<DriveView>,
    pub machine_configuration: MachineConfiguration,
    pub cpu_template: Option<CpuTemplate>,
    pub network_interfaces: Seq<NetworkInterfaceView>,
    pub balloon_device: Option<BalloonDevice>,
    pub vsock_device: Option<VsockDeviceView>,
    pub logger_system: Option<LoggerSystemView>,
    pub metrics_system: Option<MetricsSystemView>,
    pub mmds_configuration: Option<MmdsConfigurationView>,
    pub entropy_device: Option<EntropyDevice>,
}

impl DeepView for VmConfigurationData {
    type V = VmConfigurationDataView;

    open spec fn deep_view(&self) -> VmConfigurationDataView {
        VmConfigurationDataView {
            boot_source: self.boot_source.deep_view(),
            drives: self.drives.deep_view(),
            machine_configuration: self.machine_configuration,
            cpu_template: self.cpu_template,
            network_interfaces: self.network_interfaces.deep_view(),
            balloon_device: self.balloon_device,
            vsock_device: self.vsock_device.deep_view(),
            logger_system: self.logger_system.deep_view(),
            metrics_system: self.metrics_system.deep_view(),
            mmds_configuration: self.mmds_configuration.deep_view(),
            entropy_device: self.entropy_device,
        }
    }
}

impl VmConfigurationData {
    pub fn new(boot_source: BootSource, machine_configuration: MachineConfiguration) -> (r: Self)
        ensures
            r.boot_source == boot_source,
            r.drives@.len() == 0,
            r.machine_configuration == machine_configuration,
            r.cpu_template is None,
            r.network_interfaces@.len() == 0,
            r.balloon_device is None,
            r.vsock_device is None,
            r.logger_system is None,
            r.metrics_system is None,
            r.mmds_configuration is None,
            r.entropy_device is None,
    {
        VmConfigurationData {
            boot_source,
            drives: Vec::new(),
            machine_configuration,
            cpu_template: None,
            network_interfaces: Vec::new(),
            balloon_device: None,
            vsock_device: None,
            logger_system: None,
            metrics_system: None,
            mmds_configuration: None,
            entropy_device: None,
        }
    }

    pub fn drive(self, drive: Drive) -> (r: Self)
        ensures
            r.drives@ == self.drives@.push(drive),
            r == (VmConfigurationData { drives: r.drives, ..self }),
    {
        let mut drives = self.drives;
        drives.push(drive);
        VmConfigurationData { drives, ..self }
    }

    pub fn drives(self, drives: Vec<Drive>) -> (r: Self)
        ensures
            r.drives@ == self.drives@ + drives@,
            r == (VmConfigurationData { drives: r.drives, ..self }),
    {
        let mut all_drives = self.drives;
        let mut added = drives;
        all_drives.append(&mut added);
        VmConfigurationData { drives: all_drives, ..self }
    }

    pub fn cpu_template(self, cpu_template: CpuTemplate) -> (r: Self)
        ensures
            r == (VmConfigurationData { cpu_template: Some(cpu_template), ..self }),
    {
        VmConfigurationData { cpu_template: Some(cpu_template), ..self }
    }

    pub fn network_interface(self, network_interface: NetworkInterface) -> (r: Self)
        ensures
            r.network_interfaces@ == self.network_interfaces@.push(network_interface),
            r == (VmConfigurationData { network_interfaces: r.network_interfaces, ..self }),
    {
        let mut network_interfaces = self.network_interfaces;
        network_interfaces.push(network_interface);
        VmConfigurationData { network_interfaces, ..self }
    }

    pub fn network_interfaces(self, network_interfaces: Vec<NetworkInterface>) -> (r: Self)
        ensures
            r.network_interfaces@ == self.network_interfaces@ + network_interfaces@,
            r == (VmConfigurationData { network_interfaces: r.network_interfaces, ..self }),
    {
        let mut all_interfaces = self.network_interfaces;
        let mut added = network_interfaces;
        all_interfaces.append(&mut added);
        VmConfigurationData { network_interfaces: all_interfaces, ..self }
    }

    pub fn balloon_device(self, balloon_device: BalloonDevice) -> (r: Self)
        ensures
            r == (VmConfigurationData { balloon_device: Some(balloon_device), ..self }),
    {
        VmConfigurationData { balloon_device: Some(balloon_device), ..self }
    }

    pub fn vsock_device(self, vsock_device: VsockDevice) -> (r: Self)
        ensures
            r == (VmConfigurationData { vsock_device: Some(vsock_device), ..self }),
    {
        VmConfigurationData { vsock_device: Some(vsock_device), ..self }
    }

    pub fn logger_system(self, logger_system: LoggerSystem) -> (r: Self)
        ensures
            r == (VmConfigurationData { logger_system: Some(logger_system), ..self }),
    {
        VmConfigurationData { logger_system: Some(logger_system), ..self }
    }

    pub fn metrics_system(self, metrics_system: MetricsSystem) -> (r: Self)
        ensures
            r == (VmConfigurationData { metrics_system: Some(metrics_system), ..self }),
    {
        VmConfigurationData { metrics_system: Some(metrics_system), ..self }
    }

    pub fn mmds_configuration(self, mmds_configuration: MmdsConfiguration) -> (r: Self)
        ensures
            r == (VmConfigurationData { mmds_configuration: Some(mmds_configuration), ..self }),
    {
        VmConfigurationData { mmds_configuration: Some(mmds_configuration), ..self }
    }

    pub fn entropy_device(self, entropy_device: EntropyDevice) -> (r: Self)
        ensures
            r == (VmConfigurationData { entropy_device: Some(entropy_device), ..self }),
    {
        VmConfigurationData { entropy_device: Some(entropy_device), ..self }
    }

    pub fn get_cpu_template(&self) -> (r: Option<&CpuTemplate>)
        ensures
            r == match self.cpu_template {
                Some(ref t) => Some(t),
                None => None::<&CpuTemplate>,
            },
    {
        self.cpu_template.as_ref()
    }

    pub fn get_drives(&self) -> (r: &Vec<Drive>)
        ensures
            r == &self.drives,
    {
        &self.drives
    }

    pub fn get_network_interfaces(&self) -> (r: &Vec<NetworkInterface>)
        ensures
            r == &self.network_interfaces,
    {
        &self.network_interfaces
    }

    pub fn get_balloon_device(&self) -> (r: Option<&BalloonDevice>)
        ensures
            r == match self.balloon_device {
                Some(ref d) => Some(d),
                None => None::<&BalloonDevice>,
            },
    {
        self.balloon_device.as_ref()
    }

    pub fn get_vsock_device(&self) -> (r: Option<&VsockDevice>)
        ensures
            r == match self.vsock_device {
                Some(ref d) => Some(d),
                None => None::<&VsockDevice>,
            },
    {
        self.vsock_device.as_ref()
    }

    pub fn get_logger_system(&self) -> (r: Option<&LoggerSystem>)
        ensures
            r == match self.logger_system {
                Some(ref s) => Some(s),
                None => None::<&LoggerSystem>,
            },
    {
        self.logger_system.as_ref()
    }

    pub fn get_metrics_system(&self) -> (r: Option<&MetricsSystem>)
        ensures
            r == match self.metrics_system {
                Some(ref s) => Some(s),
                None => None::<&MetricsSystem>,
            },
    {
        self.metrics_system.as_ref()
    }

    pub fn get_mmds_configuration(&self) -> (r: Option<&MmdsConfiguration>)
        ensures
            r == match self.mmds_configuration {
                Some(ref c) => Some(c),
                None => None::<&MmdsConfiguration>,
            },
    {
        self.mmds_configuration.as_ref()
    }

    pub fn get_entropy_device(&self) -> (r: Option<&EntropyDevice>)
        ensures
            r == match self.entropy_device {
                Some(ref d) => Some(d),
                None => None::<&EntropyDevice>,
            },
    {
        self.entropy_device.as_ref()
    }
}

impl Clone for VmConfigurationData {
    fn clone(&self) -> (r: Self)
        ensures
            r.deep_view() == self.deep_view(),
            r.boot_source == self.boot_source,
            r.drives@ == self.drives@,
            r.machine_configuration == self.machine_configuration,
            r.cpu_template == self.cpu_template,
            r.network_interfaces@ == self.network_interfaces@,
            r.balloon_device == self.balloon_device,
            r.vsock_device == self.vsock_device,
            r.logger_system == self.logger_system,
            r.metrics_system == self.metrics_system,
            r.entropy_device == self.entropy_device,
    {
        let mmds_configuration = match &self.mmds_configuration {
            Some(c) => Some(c.clone()),
            None => None,
        };
        let r = VmConfigurationData {
            boot_source: self.boot_source.clone(),
            drives: clone_drives(&self.drives),
            machine_configuration: self.machine_configuration,
            cpu_template: self.cpu_template,
            network_interfaces: clone_network_interfaces(&self.network_interfaces),
            balloon_device: self.balloon_device,
            vsock_device: match &self.vsock_device {
                Some(d) => Some(d.clone()),
                None => None,
            },
            logger_system: match &self.logger_system {
                Some(s) => Some(s.clone()),
                None => None,
            },
            metrics_system: match &self.metrics_system {
                Some(s) => Some(s.clone()),
                None => None,
            },
            mmds_configuration,
            entropy_device: self.entropy_device,
        };
        proof {
            assert(r.drives.deep_view() =~= self.drives.deep_view());
            assert(r.network_interfaces.deep_view() =~= self.network_interfaces.deep_view());
        }
        r
    }
}

/// A configuration for a VM: either a new one, whose initialization this
/// crate drives, or one restored from a snapshot, whose initialization is
/// derived from the snapshot.
#[derive(Debug)]
pub enum VmConfiguration {
    /// The VM is new; it is initialized with the chosen method.
    New { init_method: InitMethod, data: VmConfigurationData },
    /// The VM is restored from the described snapshot.
    RestoredFromSnapshot { load_snapshot: LoadSnapshot, data: VmConfigurationData },
}

pub enum VmConfigurationView {
    New { init_method: InitMethodView, data: VmConfigurationDataView },
    RestoredFromSnapshot { load_snapshot: LoadSnapshotView, data: VmConfigurationDataView },
}

impl DeepView for VmConfiguration {
    type V = VmConfigurationView;

    open spec fn deep_view(&self) -> VmConfigurationView {
        match self {
            VmConfiguration::New { init_method, data } => VmConfigurationView::New {
                init_method: init_method.deep_view(),
                data: data.deep_view(),
            },
            VmConfiguration::RestoredFromSnapshot { load_snapshot, data } => {
                VmConfigurationView::RestoredFromSnapshot {
                    load_snapshot: load_snapshot.deep_view(),
                    data: data.deep_view(),
                }
            },
        }
    }
}

impl VmConfiguration {
    /// An exclusive reference to the device data inside this configuration.
    pub fn data_mut(&mut self) -> &mut VmConfigurationData {
        match self {
            VmConfiguration::New { init_method: _, data } => data,
            VmConfiguration::RestoredFromSnapshot { load_snapshot: _, data } => data,
        }
    }

    /// A shared reference to the device data inside this configuration.
    pub fn data(&self) -> (r: &VmConfigurationData)
        ensures
            r == match self {
                VmConfiguration::New { init_method, data } => data,
                VmConfiguration::RestoredFromSnapshot { load_snapshot, data } => data,
            },
    {
        match self {
            VmConfiguration::New { init_method: _, data } => data,
            VmConfiguration::RestoredFromSnapshot { load_snapshot: _, data } => data,
        }
    }
}

} // verus!
