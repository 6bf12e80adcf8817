//! The command-line argument builder for the VMM binary, and the command
//! modifier chain that callers use to run it under a wrapper binary.

use vstd::prelude::*;

use crate::numeric::{decimal_rep, u32_to_string};

verus! {

/// A configuration of the VMM's API Unix socket.
#[derive(Debug, Clone)]
pub enum VmmApiSocket {
    /// The socket is disabled with the no-API flag.
    Disabled,
    /// The socket is enabled at the given path.
    Enabled(String),
}

/// A level of logging applied by the VMM.
#[derive(Debug, Clone, Copy, PartialEq, Eq, Structural)]
pub enum VmmLogLevel {
    Off,
    Trace,
    Debug,
    Info,
    Warn,
    Error,
}

pub open spec fn log_level_rep(l: VmmLogLevel) -> Seq<char> {
    match l {
        VmmLogLevel::Off => "Off"@,
        VmmLogLevel::Trace => "Trace"@,
        VmmLogLevel::Debug => "Debug"@,
        VmmLogLevel::Info => "Info"@,
        VmmLogLevel::Warn => "Warn"@,
        VmmLogLevel::Error => "Error"@,
    }
}

impl VmmLogLevel {
    /// The level's name, as the VMM's command line expects it.
    pub fn as_string(&self) -> (r: String)
        ensures
            r@ == log_level_rep(*self),
    {
        match *self {
            VmmLogLevel::Off => "Off".to_owned(),
            VmmLogLevel::Trace => "Trace".to_owned(),
            VmmLogLevel::Debug => "Debug".to_owned(),
            VmmLogLevel::Info => "Info".to_owned(),
            VmmLogLevel::Warn => "Warn".to_owned(),
            VmmLogLevel::Error => "Error".to_owned(),
        }
    }
}

/// An override applied to the configuration file handed to the VMM. The VM
/// layer uses it to enforce a configuration file of its own when booting via
/// a JSON configuration.
#[derive(Debug, Clone)]
pub enum VmmConfigurationOverride {
    /// The configuration file stored in the arguments, if any, is used.
    NoOverride,
    /// No configuration file is passed, whatever the arguments store.
    Disable,
    /// The given path is passed as the configuration file.
    Enable(String),
}

/// Arguments for the main VMM binary.
#[derive(Debug, Clone)]
pub struct VmmArguments {
    // main
    pub api_socket: VmmApiSocket,
    pub config_path: Option<String>,
    // logging
    pub log_level: Option<VmmLogLevel>,
    pub log_path: Option<String>,
    pub show_log_origin: bool,
    pub log_module: Option<String>,
    pub show_log_level: bool,
    // misc
    pub enable_boot_timer: bool,
    pub api_max_payload_bytes: Option<u32>,
    pub metadata_path: Option<String>,
    pub metrics_path: Option<String>,
    pub mmds_size_limit: Option<u32>,
    pub disable_seccomp: bool,
    pub seccomp_path: Option<String>,
}

pub open spec fn flag_args(flag: Seq<char>, enabled: bool) -> Seq<Seq<char>> {
    if enabled {
        seq![flag]
    } else {
        seq![]
    }
}

pub open spec fn opt_string_args(flag: Seq<char>, value: Option<String>) -> Seq<Seq<char>> {
    match value {
        Some(v) => seq![flag, v@],
        None => seq![],
    }
}

pub open spec fn opt_u32_args(flag: Seq<char>, value: Option<u32>) -> Seq<Seq<char>> {
    match value {
        Some(v) => seq![flag, decimal_rep(v as nat)],
        None => seq![],
    }
}

pub open spec fn opt_level_args(value: Option<VmmLogLevel>) -> Seq<Seq<char>> {
    match value {
        Some(l) => seq!["--level"@, log_level_rep(l)],
        None => seq![],
    }
}

pub open spec fn socket_args(socket: VmmApiSocket) -> Seq<Seq<char>> {
    match socket {
        VmmApiSocket::Disabled => seq!["--no-api"@],
        VmmApiSocket::Enabled(path) => seq!["--api-sock"@, path@],
    }
}

pub open spec fn config_file_args(
    config_path: Option<String>,
    config_override: VmmConfigurationOverride,
) -> Seq<Seq<char>> {
    match config_override {
        VmmConfigurationOverride::NoOverride => opt_string_args("--config-file"@, config_path),
        VmmConfigurationOverride::Disable => seq![],
        VmmConfigurationOverride::Enable(path) => seq!["--config-file"@, path@],
    }
}

/// The exact argument list that `VmmArguments::join` produces.
pub open spec fn vmm_arguments_spec(
    a: VmmArguments,
    config_override: VmmConfigurationOverride,
) -> Seq<Seq<char>> {
    socket_args(a.api_socket) + config_file_args(a.config_path, config_override) + opt_level_args(
        a.log_level,
    ) + opt_string_args("--log-path"@, a.log_path) + flag_args(
        "--show-log-origin"@,
        a.show_log_origin,
    ) + opt_string_args("--module"@, a.log_module) + flag_args("--show-level"@, a.show_log_level)
        + flag_args("--boot-timer"@, a.enable_boot_timer) + opt_u32_args(
        "--http-api-max-payload-size"@,
        a.api_max_payload_bytes,
    ) + opt_string_args("--metadata"@, a.metadata_path) + opt_string_args(
        "--metrics-path"@,
        a.metrics_path,
    ) + opt_u32_args("--mmds-size-limit"@, a.mmds_size_limit) + flag_args(
        "--no-seccomp"@,
        a.disable_seccomp,
    ) + opt_string_args("--seccomp-filter"@, a.seccomp_path)
}

/// Appends a borrowed string to an argument list.
pub(crate) fn push_str(args: &mut Vec<String>, s: &str)
    ensures
        final(args).deep_view() == old(args).deep_view().push(s@),
{
    args.push(s.to_owned());
    proof {
        assert(args.deep_view() =~= old(args).deep_view().push(s@));
    }
}

/// Appends an owned string to an argument list.
pub(crate) fn push_string(args: &mut Vec<String>, s: String)
    ensures
        final(args).deep_view() == old(args).deep_view().push(s@),
{
    args.push(s);
    proof {
        assert(args.deep_view() =~= old(args).deep_view().push(s@));
    }
}

/// Appends every given string to an argument list, in order.
pub(crate) fn append_strings(args: &mut Vec<String>, mut added: Vec<String>)
    ensures
        final(args).deep_view() == old(args).deep_view() + added.deep_view(),
{
    let ghost added0 = added.deep_view();
    args.append(&mut added);
    proof {
        assert(args.deep_view() =~= old(args).deep_view() + added0);
    }
}

/// Appends a lone flag when it is enabled.
pub(crate) fn push_flag(args: &mut Vec<String>, flag: &str, enabled: bool)
    ensures
        final(args).deep_view() == old(args).deep_view() + flag_args(flag@, enabled),
{
    if enabled {
        push_str(args, flag);
    }
    proof {
        assert(args.deep_view() =~= old(args).deep_view() + flag_args(flag@, enabled));
    }
}

/// Appends a flag and its string value when the value is set.
pub(crate) fn push_opt_string(args: &mut Vec<String>, flag: &str, value: &Option<String>)
    ensures
        final(args).deep_view() == old(args).deep_view() + opt_string_args(flag@, *value),
{
    if let Some(v) = value {
        push_str(args, flag);
        push_string(args, v.clone());
    }
    proof {
        assert(args.deep_view() =~= old(args).deep_view() + opt_string_args(flag@, *value));
    }
}

/// Appends a flag and its numeric value when the value is set.
pub(crate) fn push_opt_u32(args: &mut Vec<String>, flag: &str, value: Option<u32>)
    ensures
        final(args).deep_view() == old(args).deep_view() + opt_u32_args(flag@, value),
{
    if let Some(v) = value {
        push_str(args, flag);
        push_string(args, u32_to_string(v));
    }
    proof {
        assert(args.deep_view() =~= old(args).deep_view() + opt_u32_args(flag@, value));
    }
}

fn push_opt_level(args: &mut Vec<String>, value: &Option<VmmLogLevel>)
    ensures
        final(args).deep_view() == old(args).deep_view() + opt_level_args(*value),
{
    if let Some(l) = value {
        push_str(args, "--level");
        push_string(args, l.as_string());
    }
    proof {
        assert(args.deep_view() =~= old(args).deep_view() + opt_level_args(*value));
    }
}

fn push_socket_args(args: &mut Vec<String>, socket: &VmmApiSocket)
    ensures
        final(args).deep_view() == old(args).deep_view() + socket_args(*socket),
{
    match socket {
        VmmApiSocket::Disabled => {
            push_str(args, "--no-api");
        },
        VmmApiSocket::Enabled(socket_path) => {
            push_str(args, "--api-sock");
            push_string(args, socket_path.clone());
        },
    }
    proof {
        assert(args.deep_view() =~= old(args).deep_view() + socket_args(*socket));
    }
}

fn push_config_file_args(
    args: &mut Vec<String>,
    config_path: &Option<String>,
    config_override: &VmmConfigurationOverride,
)
    ensures
        final(args).deep_view() == old(args).deep_view() + config_file_args(
            *config_path,
            *config_override,
        ),
{
    match config_override {
        VmmConfigurationOverride::NoOverride => {
            if let Some(config_path) = config_path {
                push_str(args, "--config-file");
                push_string(args, config_path.clone());
            }
        },
        VmmConfigurationOverride::Disable => {},
        VmmConfigurationOverride::Enable(path) => {
            push_str(args, "--config-file");
            push_string(args, path.clone());
        },
    }
    proof {
        assert(args.deep_view() =~= old(args).deep_view() + config_file_args(
            *config_path,
            *config_override,
        ));
    }
}

impl VmmArguments {
    pub fn new(api_socket: VmmApiSocket) -> (r: Self)
        ensures
            r.api_socket == api_socket,
            r.config_path is None,
            r.log_level is None,
            r.log_path is None,
            r.show_log_origin == false,
            r.log_module is None,
            r.show_log_level == false,
            r.enable_boot_timer == false,
            r.api_max_payload_bytes is None,
            r.metadata_path is None,
            r.metrics_path is None,
            r.mmds_size_limit is None,
            r.disable_seccomp == false,
            r.seccomp_path is None,
    {
        VmmArguments {
            api_socket,
            config_path: None,
            log_level: None,
            log_path: None,
            show_log_origin: false,
            log_module: None,
            show_log_level: false,
            enable_boot_timer: false,
            api_max_payload_bytes: None,
            metadata_path: None,
            metrics_path: None,
            mmds_size_limit: None,
            disable_seccomp: false,
            seccomp_path: None,
        }
    }

    pub fn config_path(self, config_path: String) -> (r: Self)
        ensures
            r == (Self { config_path: Some(config_path), ..self }),
    {
        Self { config_path: Some(config_path), ..self }
    }

    pub fn log_level(self, log_level: VmmLogLevel) -> (r: Self)
        ensures
            r == (Self { log_level: Some(log_level), ..self }),
    {
        Self { log_level: Some(log_level), ..self }
    }

    pub fn log_path(self, log_path: String) -> (r: Self)
        ensures
            r == (Self { log_path: Some(log_path), ..self }),
    {
        Self { log_path: Some(log_path), ..self }
    }

    pub fn show_log_level(self) -> (r: Self)
        ensures
            r == (Self { show_log_level: true, ..self }),
    {
        Self { show_log_level: true, ..self }
    }

    pub fn show_log_origin(self) -> (r: Self)
        ensures
            r == (Self { show_log_origin: true, ..self }),
    {
        Self { show_log_origin: true, ..self }
    }

    pub fn log_module(self, log_module: String) -> (r: Self)
        ensures
            r == (Self { log_module: Some(log_module), ..self }),
    {
        Self { log_module: Some(log_module), ..self }
    }

    pub fn enable_boot_timer(self) -> (r: Self)
        ensures
            r == (Self { enable_boot_timer: true, ..self }),
    {
        Self { enable_boot_timer: true, ..self }
    }

    pub fn api_max_payload_bytes(self, amount: u32) -> (r: Self)
        ensures
            r == (Self { api_max_payload_bytes: Some(amount), ..self }),
    {
        Self { api_max_payload_bytes: Some(amount), ..self }
    }

    pub fn metadata_path(self, metadata_path: String) -> (r: Self)
        ensures
            r == (Self { metadata_path: Some(metadata_path), ..self }),
    {
        Self { metadata_path: Some(metadata_path), ..self }
    }

    pub fn metrics_path(self, metrics_path: String) -> (r: Self)
        ensures
            r == (Self { metrics_path: Some(metrics_path), ..self }),
    {
        Self { metrics_path: Some(metrics_path), ..self }
    }

    pub fn mmds_size_limit(self, mmds_size_limit: u32) -> (r: Self)
        ensures
            r == (Self { mmds_size_limit: Some(mmds_size_limit), ..self }),
    {
        Self { mmds_size_limit: Some(mmds_size_limit), ..self }
    }

    pub fn disable_seccomp(self) -> (r: Self)
        ensures
            r == (Self { disable_seccomp: true, ..self }),
    {
        Self { disable_seccomp: true, ..self }
    }

    pub fn seccomp_path(self, seccomp_path: String) -> (r: Self)
        ensures
            r == (Self { seccomp_path: Some(seccomp_path), ..self }),
    {
        Self { seccomp_path: Some(seccomp_path), ..self }
    }

    /// Joins the stored options into the VMM binary's argument list, applying
    /// the given configuration-file override.
    pub fn join(&self, config_override: VmmConfigurationOverride) -> (r: Vec<String>)
        ensures
            r.deep_view() == vmm_arguments_spec(*self, config_override),
    {
        let mut args: Vec<String> = Vec::new();
        push_socket_args(&mut args, &self.api_socket);
        proof {
            assert(args.deep_view() =~= socket_args(self.api_socket));
        }
        push_config_file_args(&mut args, &self.config_path, &config_override);
        push_opt_level(&mut args, &self.log_level);
        push_opt_string(&mut args, "--log-path", &self.log_path);
        push_flag(&mut args, "--show-log-origin", self.show_log_origin);
        push_opt_string(&mut args, "--module", &self.log_module);
        push_flag(&mut args, "--show-level", self.show_log_level);
        push_flag(&mut args, "--boot-timer", self.enable_boot_timer);
        push_opt_u32(&mut args, "--http-api-max-payload-size", self.api_max_payload_bytes);
        push_opt_string(&mut args, "--metadata", &self.metadata_path);
        push_opt_string(&mut args, "--metrics-path", &self.metrics_path);
        push_opt_u32(&mut args, "--mmds-size-limit", self.mmds_size_limit);
        push_flag(&mut args, "--no-seccomp", self.disable_seccomp);
        push_opt_string(&mut args, "--seccomp-filter", &self.seccomp_path);
        args
    }
}

/// One step of the command-modifier chain: a caller-supplied rewrite of the
/// binary path and argument list, used to run the VMM under a wrapper.
#[derive(Debug, Clone)]
pub enum CommandModifier {
    /// Runs the command under another binary: the wrapper becomes the binary
    /// and the original binary becomes one of its arguments.
    Wrap { wrapper_path: String, wrapper_arguments: Vec<String> },
    /// Appends fixed arguments to the command.
    AppendArguments { arguments: Vec<String> },
}

/// What one command modifier does to a binary path and argument list.
pub open spec fn apply_modifier_spec(
    m: CommandModifier,
    binary: Seq<char>,
    args: Seq<Seq<char>>,
) -> (Seq<char>, Seq<Seq<char>>) {
    match m {
        CommandModifier::Wrap { wrapper_path, wrapper_arguments } => (
            wrapper_path@,
            wrapper_arguments.deep_view() + seq![binary] + args,
        ),
        CommandModifier::AppendArguments { arguments } => (binary, args + arguments.deep_view()),
    }
}

/// What a whole command-modifier chain does, applied first to last.
pub open spec fn apply_chain_spec(
    chain: Seq<CommandModifier>,
    binary: Seq<char>,
    args: Seq<Seq<char>>,
) -> (Seq<char>, Seq<Seq<char>>)
    decreases chain.len(),
{
    if chain.len() == 0 {
        (binary, args)
    } else {
        let stepped = apply_modifier_spec(chain[0], binary, args);
        apply_chain_spec(chain.skip(1), stepped.0, stepped.1)
    }
}

impl CommandModifier {
    /// Rewrites the binary path and argument list of a command.
    pub fn apply(&self, binary_path: String, arguments: Vec<String>) -> (r: (String, Vec<String>))
        ensures
            r.0@ == apply_modifier_spec(*self, binary_path@, arguments.deep_view()).0,
            r.1.deep_view() == apply_modifier_spec(*self, binary_path@, arguments.deep_view()).1,
    {
        broadcast use vstd::std_specs::vec::vec_clone_deep_view_proof;

        let ghost binary0 = binary_path@;
        let ghost args0 = arguments.deep_view();
        match self {
            CommandModifier::Wrap { wrapper_path, wrapper_arguments } => {
                let mut new_args = wrapper_arguments.clone();
                assert(new_args.deep_view() == wrapper_arguments.deep_view());
                new_args.push(binary_path);
                let mut rest = arguments;
                new_args.append(&mut rest);
                proof {
                    assert(new_args.deep_view() =~= wrapper_arguments.deep_view() + seq![binary0]
                        + args0);
                }
                (wrapper_path.clone(), new_args)
            },
            CommandModifier::AppendArguments { arguments: extra } => {
                let mut new_args = arguments;
                let mut extra_clone = extra.clone();
                assert(extra_clone.deep_view() == extra.deep_view());
                new_args.append(&mut extra_clone);
                proof {
                    assert(new_args.deep_view() =~= args0 + extra.deep_view());
                }
                (binary_path, new_args)
            },
        }
    }
}

/// Applies every modifier of the chain, first to last.
pub fn apply_command_modifier_chain(
    chain: &Vec<CommandModifier>,
    binary_path: String,
    arguments: Vec<String>,
) -> (r: (String, Vec<String>))
    ensures
        r.0@ == apply_chain_spec(chain@, binary_path@, arguments.deep_view()).0,
        r.1.deep_view() == apply_chain_spec(chain@, binary_path@, arguments.deep_view()).1,
{
    let ghost binary0 = binary_path@;
    let ghost args0 = arguments.deep_view();
    let mut binary = binary_path;
    let mut args = arguments;
    let mut i: usize = 0;
    proof {
        assert(chain@.skip(0) =~= chain@);
    }
    while i < chain.len()
        invariant
            0 <= i <= chain@.len(),
            apply_chain_spec(chain@.skip(i as int), binary@, args.deep_view()) == apply_chain_spec(
                chain@,
                binary0,
                args0,
            ),
        decreases chain@.len() - i,
    {
        proof {
            assert(chain@.skip(i as int)[0] == chain@[i as int]);
            assert(chain@.skip(i as int).skip(1) =~= chain@.skip(i as int + 1));
        }
        let stepped = chain[i].apply(binary, args);
        binary = stepped.0;
        args = stepped.1;
        i = i + 1;
    }
    proof {
        assert(chain@.skip(i as int) =~= Seq::<CommandModifier>::empty());
    }
    (binary, args)
}

} // verus!
