//! The management-API request model: what the VM layer asks the driver to
//! send, as plain data, and how a response's status is interpreted. The
//! ordered boot protocol for new and restored VMs lives here.

use vstd::prelude::*;

use crate::vm::configuration::{VmConfigurationData, VmConfigurationDataView};
use crate::vm::models::{
    CreateSnapshot, UpdateBalloonDevice, UpdateBalloonStatistics, UpdateDrive,
    UpdateNetworkInterface,
};

verus! {

/// An action requested from the VMM through its actions endpoint.
#[derive(Debug, Clone, Copy, PartialEq, Eq, Structural)]
pub enum VmActionType {
    InstanceStart,
    SendCtrlAltDel,
    FlushMetrics,
}

/// The state that an update of the VM's own state requests.
#[derive(Debug, Clone, Copy, PartialEq, Eq, Structural)]
pub enum UpdatedVmState {
    Paused,
    Resumed,
}

/// What the body of an API request holds. The driver serializes the named
/// record; indices refer to the configuration data that accompanies the
/// request plan.
#[derive(Debug, Clone, Copy, PartialEq, Eq, Structural)]
pub enum ApiRequestBody {
    /// The configuration's boot source.
    BootSource,
    /// The configuration's drive at this position.
    DriveAt(usize),
    /// The configuration's machine configuration.
    MachineConfiguration,
    /// The configuration's CPU template.
    CpuTemplate,
    /// The configuration's network interface at this position.
    NetworkInterfaceAt(usize),
    /// The configuration's balloon device.
    BalloonDevice,
    /// The configuration's vsock device.
    VsockDevice,
    /// The configuration's logging system.
    LoggerSystem,
    /// The configuration's metrics system.
    MetricsSystem,
    /// The configuration's metadata-service configuration.
    MmdsConfiguration,
    /// The configuration's entropy device.
    EntropyDevice,
    /// An action request.
    Action(VmActionType),
    /// The restore descriptor of a restored VM.
    LoadSnapshot,
    /// A request to move the VM itself into the given state.
    UpdateState(UpdatedVmState),
    /// The balloon update handed to the operation.
    UpdateBalloonDevice,
    /// The balloon statistics update handed to the operation.
    UpdateBalloonStatistics,
    /// The drive update handed to the operation.
    UpdateDrive,
    /// The network interface update handed to the operation.
    UpdateNetworkInterface,
    /// The snapshot-creation descriptor handed to the operation.
    CreateSnapshot,
    /// A JSON document supplied by the caller.
    CallerSuppliedJson,
    /// No body.
    Empty,
}

/// One request of the management API: a method, a route, and what the body
/// holds.
#[derive(Debug)]
pub struct ApiRequest {
    pub method: String,
    pub route: String,
    pub body: ApiRequestBody,
}

pub struct ApiRequestView {
    pub method: Seq<char>,
    pub route: Seq<char>,
    pub body: ApiRequestBody,
}

impl DeepView for ApiRequest {
    type V = ApiRequestView;

    open spec fn deep_view(&self) -> ApiRequestView {
        ApiRequestView { method: self.method@, route: self.route@, body: self.body }
    }
}

/// A PUT request of the boot protocol.
pub open spec fn put_request(route: Seq<char>, body: ApiRequestBody) -> ApiRequestView {
    ApiRequestView { method: "PUT"@, route, body }
}

/// A request of the boot protocol that is present only when its device is
/// configured.
pub open spec fn opt_request(present: bool, route: Seq<char>, body: ApiRequestBody) -> Seq<
    ApiRequestView,
> {
    if present {
        seq![put_request(route, body)]
    } else {
        seq![]
    }
}

/// One PUT per configured drive, at its own route, in configuration order.
pub open spec fn drive_requests(data: VmConfigurationDataView) -> Seq<ApiRequestView> {
    Seq::new(
        data.drives.len(),
        |i: int| put_request("/drives/"@ + data.drives[i].drive_id, ApiRequestBody::DriveAt(
            i as usize,
        )),
    )
}

/// One PUT per configured network interface, at its own route, in
/// configuration order.
pub open spec fn network_interface_requests(data: VmConfigurationDataView) -> Seq<ApiRequestView> {
    Seq::new(
        data.network_interfaces.len(),
        |i: int| put_request(
            "/network-interfaces/"@ + data.network_interfaces[i].iface_id,
            ApiRequestBody::NetworkInterfaceAt(i as usize),
        ),
    )
}

/// The ordered boot protocol of a new, API-driven VM: boot source, drives,
/// machine configuration, the optional devices in their fixed order, and
/// finally the instance-start action.
pub open spec fn new_boot_requests_spec(data: VmConfigurationDataView) -> Seq<ApiRequestView> {
    seq![put_request("/boot-source"@, ApiRequestBody::BootSource)] + drive_requests(data) + seq![
        put_request("/machine-config"@, ApiRequestBody::MachineConfiguration),
    ] + opt_request(data.cpu_template is Some, "/cpu-config"@, ApiRequestBody::CpuTemplate)
        + network_interface_requests(data) + opt_request(
        data.balloon_device is Some,
        "/balloon"@,
        ApiRequestBody::BalloonDevice,
    ) + opt_request(data.vsock_device is Some, "/vsock"@, ApiRequestBody::VsockDevice)
        + opt_request(data.logger_system is Some, "/logger"@, ApiRequestBody::LoggerSystem)
        + opt_request(data.metrics_system is Some, "/metrics"@, ApiRequestBody::MetricsSystem)
        + opt_request(
        data.mmds_configuration is Some,
        "/mmds/config"@,
        ApiRequestBody::MmdsConfiguration,
    ) + opt_request(data.entropy_device is Some, "/entropy"@, ApiRequestBody::EntropyDevice) + seq![
        put_request("/actions"@, ApiRequestBody::Action(VmActionType::InstanceStart)),
    ]
}

/// The ordered restore protocol of a VM restored from a snapshot: the
/// logging and metrics systems when configured, then the snapshot load,
/// whose body is the restore descriptor.
pub open spec fn restore_boot_requests_spec(data: VmConfigurationDataView) -> Seq<ApiRequestView> {
    opt_request(data.logger_system is Some, "/logger"@, ApiRequestBody::LoggerSystem)
        + opt_request(data.metrics_system is Some, "/metrics"@, ApiRequestBody::MetricsSystem)
        + seq![put_request("/snapshot/load"@, ApiRequestBody::LoadSnapshot)]
}

/// Appends a PUT request to a request plan.
fn push_put(requests: &mut Vec<ApiRequest>, route: String, body: ApiRequestBody)
    ensures
        final(requests).deep_view() == old(requests).deep_view().push(
            put_request(route@, body),
        ),
{
    requests.push(ApiRequest { method: "PUT".to_owned(), route, body });
    proof {
        assert(requests.deep_view() =~= old(requests).deep_view().push(put_request(route@, body)));
    }
}

/// Appends a PUT request when its device is configured.
fn push_opt(requests: &mut Vec<ApiRequest>, present: bool, route: &str, body: ApiRequestBody)
    ensures
        final(requests).deep_view() == old(requests).deep_view() + opt_request(
            present,
            route@,
            body,
        ),
{
    if present {
        push_put(requests, route.to_owned(), body);
    }
    proof {
        assert(requests.deep_view() =~= old(requests).deep_view() + opt_request(
            present,
            route@,
            body,
        ));
    }
}

/// Plans the ordered API requests that boot a new VM.
pub fn plan_new_boot_requests(data: &VmConfigurationData) -> (r: Vec<ApiRequest>)
    ensures
        r.deep_view() == new_boot_requests_spec(data.deep_view()),
{
    let mut requests: Vec<ApiRequest> = Vec::new();
    push_put(&mut requests, "/boot-source".to_owned(), ApiRequestBody::BootSource);
    let ghost s1 = seq![put_request("/boot-source"@, ApiRequestBody::BootSource)];
    proof {
        assert(requests.deep_view() =~= s1);
    }

    let mut i: usize = 0;
    while i < data.drives.len()
        invariant
            0 <= i <= data.drives@.len(),
            requests.deep_view() == s1 + drive_requests(data.deep_view()).subrange(0, i as int),
        decreases data.drives@.len() - i,
    {
        let route = "/drives/".to_owned().concat(data.drives[i].drive_id.as_str());
        push_put(&mut requests, route, ApiRequestBody::DriveAt(i));
        proof {
            assert(requests.deep_view() =~= s1 + drive_requests(data.deep_view()).subrange(
                0,
                i as int + 1,
            ));
        }
        i = i + 1;
    }
    let ghost s2 = s1 + drive_requests(data.deep_view());
    proof {
        assert(drive_requests(data.deep_view()).subrange(
            0,
            data.drives@.len() as int,
        ) =~= drive_requests(data.deep_view()));
    }

    push_put(&mut requests, "/machine-config".to_owned(), ApiRequestBody::MachineConfiguration);
    let ghost s3 = s2 + seq![
        put_request("/machine-config"@, ApiRequestBody::MachineConfiguration),
    ];
    proof {
        assert(requests.deep_view() =~= s3);
    }

    push_opt(
        &mut requests,
        data.cpu_template.is_some(),
        "/cpu-config",
        ApiRequestBody::CpuTemplate,
    );
    let ghost s4 = s3 + opt_request(
        data.deep_view().cpu_template is Some,
        "/cpu-config"@,
        ApiRequestBody::CpuTemplate,
    );
    proof {
        assert(requests.deep_view() =~= s4);
    }

    let mut i: usize = 0;
    while i < data.network_interfaces.len()
        invariant
            0 <= i <= data.network_interfaces@.len(),
            requests.deep_view() == s4 + network_interface_requests(data.deep_view()).subrange(
                0,
                i as int,
            ),
        decreases data.network_interfaces@.len() - i,
    {
        let route = "/network-interfaces/".to_owned().concat(
            data.network_interfaces[i].iface_id.as_str(),
        );
        push_put(&mut requests, route, ApiRequestBody::NetworkInterfaceAt(i));
        proof {
            assert(requests.deep_view() =~= s4 + network_interface_requests(
                data.deep_view(),
            ).subrange(0, i as int + 1));
        }
        i = i + 1;
    }
    let ghost s5 = s4 + network_interface_requests(data.deep_view());
    proof {
        assert(network_interface_requests(data.deep_view()).subrange(
            0,
            data.network_interfaces@.len() as int,
        ) =~= network_interface_requests(data.deep_view()));
    }

    push_opt(
        &mut requests,
        data.balloon_device.is_some(),
        "/balloon",
        ApiRequestBody::BalloonDevice,
    );
    let ghost s6 = s5 + opt_request(
        data.deep_view().balloon_device is Some,
        "/balloon"@,
        ApiRequestBody::BalloonDevice,
    );
    proof {
        assert(requests.deep_view() =~= s6);
    }
    push_opt(&mut requests, data.vsock_device.is_some(), "/vsock", ApiRequestBody::VsockDevice);
    let ghost s7 = s6 + opt_request(
        data.deep_view().vsock_device is Some,
        "/vsock"@,
        ApiRequestBody::VsockDevice,
    );
    proof {
        assert(requests.deep_view() =~= s7);
    }
    push_opt(&mut requests, data.logger_system.is_some(), "/logger", ApiRequestBody::LoggerSystem);
    let ghost s8 = s7 + opt_request(
        data.deep_view().logger_system is Some,
        "/logger"@,
        ApiRequestBody::LoggerSystem,
    );
    proof {
        assert(requests.deep_view() =~= s8);
    }
    push_opt(
        &mut requests,
        data.metrics_system.is_some(),
        "/metrics",
        ApiRequestBody::MetricsSystem,
    );
    let ghost s9 = s8 + opt_request(
        data.deep_view().metrics_system is Some,
        "/metrics"@,
        ApiRequestBody::MetricsSystem,
    );
    proof {
        assert(requests.deep_view() =~= s9);
    }
    push_opt(
        &mut requests,
        data.mmds_configuration.is_some(),
        "/mmds/config",
        ApiRequestBody::MmdsConfiguration,
    );
    let ghost s10 = s9 + opt_request(
        data.deep_view().mmds_configuration is Some,
        "/mmds/config"@,
        ApiRequestBody::MmdsConfiguration,
    );
    proof {
        assert(requests.deep_view() =~= s10);
    }
    push_opt(
        &mut requests,
        data.entropy_device.is_some(),
        "/entropy",
        ApiRequestBody::EntropyDevice,
    );
    let ghost s11 = s10 + opt_request(
        data.deep_view().entropy_device is Some,
        "/entropy"@,
        ApiRequestBody::EntropyDevice,
    );
    proof {
        assert(requests.deep_view() =~= s11);
    }
    push_put(
        &mut requests,
        "/actions".to_owned(),
        ApiRequestBody::Action(VmActionType::InstanceStart),
    );
    let ghost s12 = s11 + seq![
        put_request("/actions"@, ApiRequestBody::Action(VmActionType::InstanceStart)),
    ];
    proof {
        assert(requests.deep_view() =~= s12);
    }
    requests
}

/// Plans the ordered API requests that restore a VM from a snapshot.
pub fn plan_restore_boot_requests(data: &VmConfigurationData) -> (r: Vec<ApiRequest>)
    ensures
        r.deep_view() == restore_boot_requests_spec(data.deep_view()),
{
    let mut requests: Vec<ApiRequest> = Vec::new();
    proof {
        assert(requests.deep_view() =~= Seq::<ApiRequestView>::empty());
    }
    push_opt(&mut requests, data.logger_system.is_some(), "/logger", ApiRequestBody::LoggerSystem);
    push_opt(
        &mut requests,
        data.metrics_system.is_some(),
        "/metrics",
        ApiRequestBody::MetricsSystem,
    );
    push_put(&mut requests, "/snapshot/load".to_owned(), ApiRequestBody::LoadSnapshot);
    proof {
        assert(requests.deep_view() =~= restore_boot_requests_spec(data.deep_view()));
    }
    requests
}

/// A steady-state operation of the management API. The routes and bodies
/// are fixed; operations that change what the VM believes about itself
/// (pausing, resuming) do so only on a successful response.
#[derive(Debug)]
pub enum VmApiOperation {
    /// Fetch general information about the VM.
    GetInfo,
    /// Flush the metrics file.
    FlushMetrics,
    /// Fetch the balloon device.
    GetBalloonDevice,
    /// Reconfigure the balloon device.
    UpdateBalloonDevice(UpdateBalloonDevice),
    /// Fetch the balloon device's statistics.
    GetBalloonStatistics,
    /// Reconfigure the balloon device's statistics polling.
    UpdateBalloonStatistics(UpdateBalloonStatistics),
    /// Reconfigure an attached drive.
    UpdateDrive(UpdateDrive),
    /// Reconfigure an attached network interface.
    UpdateNetworkInterface(UpdateNetworkInterface),
    /// Fetch the machine configuration.
    GetMachineConfiguration,
    /// Take a snapshot of the paused VM.
    CreateSnapshot(CreateSnapshot),
    /// Fetch the VMM's version.
    GetFirecrackerVersion,
    /// Fetch the effective configuration.
    GetEffectiveConfiguration,
    /// Pause the running VM.
    Pause,
    /// Resume the paused VM.
    Resume,
    /// Write the metadata-service contents.
    CreateMmds,
    /// Amend the metadata-service contents.
    UpdateMmds,
    /// Fetch the metadata-service contents.
    GetMmds,
}

/// The request that each API operation sends.
pub open spec fn api_request_spec(op: VmApiOperation) -> ApiRequestView {
    match op {
        VmApiOperation::GetInfo => ApiRequestView {
            method: "GET"@,
            route: "/"@,
            body: ApiRequestBody::Empty,
        },
        VmApiOperation::FlushMetrics => ApiRequestView {
            method: "PUT"@,
            route: "/actions"@,
            body: ApiRequestBody::Action(VmActionType::FlushMetrics),
        },
        VmApiOperation::GetBalloonDevice => ApiRequestView {
            method: "GET"@,
            route: "/balloon"@,
            body: ApiRequestBody::Empty,
        },
        VmApiOperation::UpdateBalloonDevice(_) => ApiRequestView {
            method: "PATCH"@,
            route: "/balloon"@,
            body: ApiRequestBody::UpdateBalloonDevice,
        },
        VmApiOperation::GetBalloonStatistics => ApiRequestView {
            method: "GET"@,
            route: "/balloon/statistics"@,
            body: ApiRequestBody::Empty,
        },
        VmApiOperation::UpdateBalloonStatistics(_) => ApiRequestView {
            method: "PATCH"@,
            route: "/balloon/statistics"@,
            body: ApiRequestBody::UpdateBalloonStatistics,
        },
        VmApiOperation::UpdateDrive(update) => ApiRequestView {
            method: "PATCH"@,
            route: "/drives/"@ + update.drive_id@,
            body: ApiRequestBody::UpdateDrive,
        },
        VmApiOperation::UpdateNetworkInterface(update) => ApiRequestView {
            method: "PATCH"@,
            route: "/network-interfaces/"@ + update.iface_id@,
            body: ApiRequestBody::UpdateNetworkInterface,
        },
        VmApiOperation::GetMachineConfiguration => ApiRequestView {
            method: "GET"@,
            route: "/machine-config"@,
            body: ApiRequestBody::Empty,
        },
        VmApiOperation::CreateSnapshot(_) => ApiRequestView {
            method: "PUT"@,
            route: "/snapshot/create"@,
            body: ApiRequestBody::CreateSnapshot,
        },
        VmApiOperation::GetFirecrackerVersion => ApiRequestView {
            method: "GET"@,
            route: "/version"@,
            body: ApiRequestBody::Empty,
        },
        VmApiOperation::GetEffectiveConfiguration => ApiRequestView {
            method: "GET"@,
            route: "/vm/config"@,
            body: ApiRequestBody::Empty,
        },
        VmApiOperation::Pause => ApiRequestView {
            method: "PATCH"@,
            route: "/vm"@,
            body: ApiRequestBody::UpdateState(UpdatedVmState::Paused),
        },
        VmApiOperation::Resume => ApiRequestView {
            method: "PATCH"@,
            route: "/vm"@,
            body: ApiRequestBody::UpdateState(UpdatedVmState::Resumed),
        },
        VmApiOperation::CreateMmds => ApiRequestView {
            method: "PUT"@,
            route: "/mmds"@,
            body: ApiRequestBody::CallerSuppliedJson,
        },
        VmApiOperation::UpdateMmds => ApiRequestView {
            method: "PATCH"@,
            route: "/mmds"@,
            body: ApiRequestBody::CallerSuppliedJson,
        },
        VmApiOperation::GetMmds => ApiRequestView {
            method: "GET"@,
            route: "/mmds"@,
            body: ApiRequestBody::Empty,
        },
    }
}

fn request(method: &str, route: String, body: ApiRequestBody) -> (r: ApiRequest)
    ensures
        r.deep_view() == (ApiRequestView { method: method@, route: route@, body }),
{
    ApiRequest { method: method.to_owned(), route, body }
}

/// Builds the request that an API operation sends.
pub fn api_request_for(op: &VmApiOperation) -> (r: ApiRequest)
    ensures
        r.deep_view() == api_request_spec(*op),
{
    match op {
        VmApiOperation::GetInfo => request("GET", "/".to_owned(), ApiRequestBody::Empty),
        VmApiOperation::FlushMetrics => request(
            "PUT",
            "/actions".to_owned(),
            ApiRequestBody::Action(VmActionType::FlushMetrics),
        ),
        VmApiOperation::GetBalloonDevice => request(
            "GET",
            "/balloon".to_owned(),
            ApiRequestBody::Empty,
        ),
        VmApiOperation::UpdateBalloonDevice(_) => request(
            "PATCH",
            "/balloon".to_owned(),
            ApiRequestBody::UpdateBalloonDevice,
        ),
        VmApiOperation::GetBalloonStatistics => request(
            "GET",
            "/balloon/statistics".to_owned(),
            ApiRequestBody::Empty,
        ),
        VmApiOperation::UpdateBalloonStatistics(_) => request(
            "PATCH",
            "/balloon/statistics".to_owned(),
            ApiRequestBody::UpdateBalloonStatistics,
        ),
        VmApiOperation::UpdateDrive(update) => request(
            "PATCH",
            "/drives/".to_owned().concat(update.drive_id.as_str()),
            ApiRequestBody::UpdateDrive,
        ),
        VmApiOperation::UpdateNetworkInterface(update) => request(
            "PATCH",
            "/network-interfaces/".to_owned().concat(update.iface_id.as_str()),
            ApiRequestBody::UpdateNetworkInterface,
        ),
        VmApiOperation::GetMachineConfiguration => request(
            "GET",
            "/machine-config".to_owned(),
            ApiRequestBody::Empty,
        ),
        VmApiOperation::CreateSnapshot(_) => request(
            "PUT",
            "/snapshot/create".to_owned(),
            ApiRequestBody::CreateSnapshot,
        ),
        VmApiOperation::GetFirecrackerVersion => request(
            "GET",
            "/version".to_owned(),
            ApiRequestBody::Empty,
        ),
        VmApiOperation::GetEffectiveConfiguration => request(
            "GET",
            "/vm/config".to_owned(),
            ApiRequestBody::Empty,
        ),
        VmApiOperation::Pause => request(
            "PATCH",
            "/vm".to_owned(),
            ApiRequestBody::UpdateState(UpdatedVmState::Paused),
        ),
        VmApiOperation::Resume => request(
            "PATCH",
            "/vm".to_owned(),
            ApiRequestBody::UpdateState(UpdatedVmState::Resumed),
        ),
        VmApiOperation::CreateMmds => request(
            "PUT",
            "/mmds".to_owned(),
            ApiRequestBody::CallerSuppliedJson,
        ),
        VmApiOperation::UpdateMmds => request(
            "PATCH",
            "/mmds".to_owned(),
            ApiRequestBody::CallerSuppliedJson,
        ),
        VmApiOperation::GetMmds => request("GET", "/mmds".to_owned(), ApiRequestBody::Empty),
    }
}

} // verus!
