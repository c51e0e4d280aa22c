//! The libkrun backend: runs the container's process inside a micro-VM
//! through the libkrun library. This module holds its decisions; loading
//! the library and calling into it happen around them.
use crate::executor::{ExecutorError, ExecutorValidationError, KrunStep};
use crate::runtime::{
    annotation, is_default_linux, is_default_resources, spec_annotation, Linux, LinuxDevice, LinuxDeviceCgroup,
    LinuxDeviceType, Spec,
};
use crate::text::{parse_unsigned, parse_unsigned_str, trim, trim_str};
use vstd::prelude::*;

verus! {

pub const EXECUTOR_NAME: &'static str = "libkrun";

/// Name of the copy of the specification written below the container root.
pub const KRUN_CONFIG_FILE: &'static str = ".krun_config.json";

/// The hardware virtualization device.
pub const KVM_DEVICE_PATH: &'static str = "/dev/kvm";

/// The annotation that selects an executor, and the value that selects
/// this one.
pub const HANDLER_ANNOTATION: &'static str = "run.oci.handler";

pub const HANDLER_NAME: &'static str = "krun";

/// Annotations that configure the VM and the library.
pub const CPUS_ANNOTATION: &'static str = "krun.cpus";

pub const RAM_ANNOTATION: &'static str = "krun.ram_mib";

pub const LOG_LEVEL_ANNOTATION: &'static str = "krun.log_level";

pub const LIBRARY_PATH_ANNOTATION: &'static str = "krun.libkrun.path";

pub const DEFAULT_LIBKRUN_PATH: &'static str = "libkrun.so.1";

pub const DEFAULT_VCPUS: u8 = 1;

pub const DEFAULT_RAM_MIB: u32 = 2 * 1024;

pub const DEFAULT_LOG_LEVEL: u32 = 1;

/// The specification selects this backend by its handler annotation.
pub open spec fn spec_can_handle(spec: Spec) -> bool {
    spec_annotation(spec, HANDLER_ANNOTATION@) == Some(HANDLER_NAME@)
}

/// Whether this backend is the one the specification asks for: the handler
/// annotation names it exactly.
pub fn can_handle(spec: &Spec) -> (r: bool)
    ensures
        r == spec_can_handle(*spec),
{
    match annotation(spec, HANDLER_ANNOTATION) {
        Some(handler) => handler == HANDLER_NAME.to_owned(),
        None => false,
    }
}

/// Why the specification could not be prepared for the VM.
#[derive(Clone, Debug, PartialEq, Eq)]
pub enum KrunError {
    Other(String),
}

/// What a look at the host's virtualization device node found.
#[derive(Clone, Debug, PartialEq, Eq)]
pub enum DeviceProbe {
    Found { major: i64, minor: i64 },
    NotFound,
    /// The look failed for another reason, described by the text.
    Failed(String),
}

/// The error reported when the device node could not be examined.
pub open spec fn is_stat_error(e: KrunError, msg: Seq<char>) -> bool {
    e matches KrunError::Other(m) && m@ == "stat `/dev/kvm`: "@ + msg
}

fn stat_error(msg: &String) -> (e: KrunError)
    ensures
        is_stat_error(e, msg@),
{
    let mut m = "stat `/dev/kvm`: ".to_owned();
    m.append(msg.as_str());
    KrunError::Other(m)
}

/// The devices listed in a Linux section, if any.
pub open spec fn devices_of(l: Option<Linux>) -> Option<Vec<LinuxDevice>> {
    match l {
        Some(x) => x.devices,
        None => None,
    }
}

pub open spec fn device_seq(d: Option<Vec<LinuxDevice>>) -> Seq<LinuxDevice> {
    match d {
        Some(v) => v@,
        None => Seq::empty(),
    }
}

/// Some device of the list sits at the virtualization device's path.
pub open spec fn has_kvm_device(d: Option<Vec<LinuxDevice>>) -> bool {
    exists|i: int| 0 <= i < device_seq(d).len() && (#[trigger] device_seq(d)[i]).path@ == KVM_DEVICE_PATH@
}

/// `d` is the entry added for the virtualization device: a character
/// device, readable and writable by all, owned by root.
pub open spec fn is_kvm_device(d: LinuxDevice, major: i64, minor: i64) -> bool {
    &&& d.path@ == KVM_DEVICE_PATH@
    &&& d.typ == LinuxDeviceType::C
    &&& d.major == major
    &&& d.minor == minor
    &&& d.file_mode == Some(0o666u32)
    &&& d.uid == Some(0u32)
    &&& d.gid == Some(0u32)
}

/// `after` is `before`'s Linux section, or the default one where `before` has none.
pub open spec fn linux_or_default(before: Option<Linux>, after: Linux) -> bool {
    match before {
        Some(o) => after == o,
        None => is_default_linux(after),
    }
}

/// Fields that device injection never touches are the same.
pub open spec fn same_outside_linux(before: Spec, after: Spec) -> bool {
    after.process == before.process && after.root == before.root && after.annotations == before.annotations
}

/// `after` is `before` with the virtualization device (numbers `major`, `minor`)
/// listed, added at the end unless a device at its path is there already.
pub open spec fn device_injected(before: Spec, after: Spec, major: i64, minor: i64) -> bool {
    &&& same_outside_linux(before, after)
    &&& after.linux matches Some(nl)
    &&& if has_kvm_device(devices_of(before.linux)) {
        linux_or_default(before.linux, nl)
    } else {
        &&& match before.linux {
            Some(o) => nl.resources == o.resources,
            None => is_default_resources(nl.resources),
        }
        &&& nl.devices matches Some(v)
        &&& v@.len() == device_seq(devices_of(before.linux)).len() + 1
        &&& v@.drop_last() == device_seq(devices_of(before.linux))
        &&& is_kvm_device(v@.last(), major, minor)
    }
}

fn make_oci_spec_device(
    path: String,
    dev_type: LinuxDeviceType,
    major_num: i64,
    minor_num: i64,
    file_mode: u32,
    uid: u32,
    gid: u32,
) -> (r: Result<LinuxDevice, KrunError>)
    ensures
        r matches Ok(d) && (d.path == path && d.typ == dev_type && d.major == major_num && d.minor
            == minor_num && d.file_mode == Some(file_mode) && d.uid == Some(uid) && d.gid == Some(
            gid)),
{
    Ok(
        LinuxDevice {
            path,
            typ: dev_type,
            major: major_num,
            minor: minor_num,
            file_mode: Some(file_mode),
            uid: Some(uid),
            gid: Some(gid),
        },
    )
}

fn has_device_at(devices: &Vec<LinuxDevice>, path: &str) -> (r: bool)
    ensures
        r == exists|i: int| 0 <= i < devices@.len() && (#[trigger] devices@[i]).path@ == path@,
{
    let p = path.to_owned();
    let mut i: usize = 0;
    while i < devices.len()
        invariant
            i <= devices@.len(),
            p@ == path@,
            forall|j: int| 0 <= j < i ==> (#[trigger] devices@[j]).path@ != path@,
        decreases devices@.len() - i,
    {
        if devices[i].path == p {
            return true;
        }
        i = i + 1;
    }
    false
}

/// Lists the virtualization device in `linux.devices`, so that the VM can
/// use it. A host without the device leaves the devices as they are; a
/// specification without a Linux section gets the default one either way.
pub fn modify_spec_device(spec: &mut Spec, kvm: &DeviceProbe) -> (r: Result<(), KrunError>)
    ensures
        match kvm {
            DeviceProbe::Failed(msg) => r matches Err(e) && is_stat_error(e, msg@) && *final(spec)
                == *old(spec),
            DeviceProbe::NotFound => r is Ok && same_outside_linux(*old(spec), *final(spec)) && (
            final(spec).linux matches Some(nl) && linux_or_default(old(spec).linux, nl)),
            DeviceProbe::Found { major, minor } => r is Ok && device_injected(
                *old(spec),
                *final(spec),
                *major,
                *minor,
            ),
        },
{
    let (major, minor) = match kvm {
        DeviceProbe::Failed(msg) => return Err(stat_error(msg)),
        DeviceProbe::NotFound => {
            if spec.linux.is_none() {
                spec.linux = Some(Linux::default());
            }
            return Ok(());
        },
        DeviceProbe::Found { major, minor } => (*major, *minor),
    };
    let mut linux = match spec.linux.take() {
        Some(l) => l,
        None => Linux::default(),
    };
    let exists = match &linux.devices {
        Some(v) => has_device_at(v, KVM_DEVICE_PATH),
        None => false,
    };
    if !exists {
        let device = make_oci_spec_device(
            KVM_DEVICE_PATH.to_owned(),
            LinuxDeviceType::C,
            major,
            minor,
            0o666u32,
            0u32,
            0u32,
        )?;
        let mut devices = match linux.devices.take() {
            Some(v) => v,
            None => Vec::new(),
        };
        devices.push(device);
        proof {
            assert(devices@.drop_last() =~= device_seq(devices_of(old(spec).linux)));
        }
        linux.devices = Some(devices);
    }
    spec.linux = Some(linux);
    Ok(())
}

/// Running device injection a second time changes nothing: the device is
/// listed after the first run, so it is never listed twice.
pub proof fn lemma_device_injection_idempotent(
    s0: Spec,
    s1: Spec,
    s2: Spec,
    major: i64,
    minor: i64,
)
    requires
        device_injected(s0, s1, major, minor),
        device_injected(s1, s2, major, minor),
    ensures
        has_kvm_device(devices_of(s1.linux)),
        s2 == s1,
{
    let nl = s1.linux->Some_0;
    if !has_kvm_device(devices_of(s0.linux)) {
        let v = nl.devices->Some_0;
        assert(device_seq(devices_of(s1.linux))[v@.len() - 1] == v@.last());
    }
}

/// The device-cgroup rules of a Linux section, if any.
pub open spec fn rules_of(l: Option<Linux>) -> Option<Vec<LinuxDeviceCgroup>> {
    match l {
        Some(x) => match x.resources {
            Some(r) => r.devices,
            None => None,
        },
        None => None,
    }
}

/// The specification restricts devices by a non-empty list of rules.
pub open spec fn has_device_rules(spec: Spec) -> bool {
    rules_of(spec.linux) matches Some(v) && v@.len() > 0
}

/// `c` allows read, write and mknod on the virtualization device.
pub open spec fn is_kvm_rule(c: LinuxDeviceCgroup, major: i64, minor: i64) -> bool {
    &&& c.allow
    &&& c.typ == Some(LinuxDeviceType::C)
    &&& c.major == Some(major)
    &&& c.minor == Some(minor)
    &&& c.access matches Some(a) && a@ == "rwm"@
}

/// `after` is `before` with an allow rule for the virtualization device added at
/// the end of its device-cgroup rules, and nothing else changed.
pub open spec fn rule_injected(before: Spec, after: Spec, major: i64, minor: i64) -> bool {
    &&& same_outside_linux(before, after)
    &&& before.linux matches Some(ol)
    &&& after.linux matches Some(nl)
    &&& nl.devices == ol.devices
    &&& ol.resources matches Some(ores)
    &&& nl.resources matches Some(nres)
    &&& nres.pids == ores.pids
    &&& ores.devices matches Some(ov)
    &&& nres.devices matches Some(nv)
    &&& nv@.len() == ov@.len() + 1
    &&& nv@.drop_last() == ov@
    &&& is_kvm_rule(nv@.last(), major, minor)
}

fn make_oci_spec_dev_cgroup(
    dev_type: LinuxDeviceType,
    major_num: i64,
    minor_num: i64,
    allow: bool,
    access: &str,
) -> (r: Result<LinuxDeviceCgroup, KrunError>)
    ensures
        r matches Ok(c) && (c.allow == allow && c.typ == Some(dev_type) && c.major == Some(major_num)
            && c.minor == Some(minor_num) && (c.access matches Some(a) && a@ == access@)),
{
    Ok(
        LinuxDeviceCgroup {
            allow,
            typ: Some(dev_type),
            major: Some(major_num),
            minor: Some(minor_num),
            access: Some(access.to_owned()),
        },
    )
}

/// Adds an allow rule for the virtualization device to the device-cgroup
/// rules. A missing or empty rule list allows every device already and is
/// left as it is; so is everything on a host without the device.
pub fn modify_spec_resource_device(spec: &mut Spec, kvm: &DeviceProbe) -> (r: Result<
    (),
    KrunError,
>)
    ensures
        !has_device_rules(*old(spec)) ==> r is Ok && *final(spec) == *old(spec),
        has_device_rules(*old(spec)) ==> match kvm {
            DeviceProbe::Failed(msg) => r matches Err(e) && is_stat_error(e, msg@) && *final(spec)
                == *old(spec),
            DeviceProbe::NotFound => r is Ok && *final(spec) == *old(spec),
            DeviceProbe::Found { major, minor } => r is Ok && rule_injected(
                *old(spec),
                *final(spec),
                *major,
                *minor,
            ),
        },
{
    let has_rules = match &spec.linux {
        Some(l) => match &l.resources {
            Some(res) => match &res.devices {
                Some(v) => v.len() > 0,
                None => false,
            },
            None => false,
        },
        None => false,
    };
    if !has_rules {
        return Ok(());
    }
    let (major, minor) = match kvm {
        DeviceProbe::Failed(msg) => return Err(stat_error(msg)),
        DeviceProbe::NotFound => return Ok(()),
        DeviceProbe::Found { major, minor } => (*major, *minor),
    };
    let rule = make_oci_spec_dev_cgroup(LinuxDeviceType::C, major, minor, true, "rwm")?;
    let mut linux = spec.linux.take().unwrap();
    let mut res = linux.resources.take().unwrap();
    let mut rules = res.devices.take().unwrap();
    rules.push(rule);
    assert(rules@.drop_last() =~= rules_of(old(spec).linux)->Some_0@);
    res.devices = Some(rules);
    linux.resources = Some(res);
    spec.linux = Some(linux);
    Ok(())
}

/// `e` with the name of the step that failed put in front of its message.
fn in_step(step: &str, e: KrunError) -> (r: KrunError)
    ensures
        e matches KrunError::Other(inner) ==> (r matches KrunError::Other(m) && m@ == step@
            + inner@),
{
    match e {
        KrunError::Other(inner) => {
            let mut m = step.to_owned();
            m.append(inner.as_str());
            KrunError::Other(m)
        },
    }
}

/// Prepares the specification for the VM: lists the virtualization
/// device and allows it in the device cgroup. A failed step's error names
/// that step. Returns the root path, below which the prepared specification
/// is then stored.
pub fn modify_spec_for_libkrun(spec: &mut Spec, kvm: &DeviceProbe) -> (r: Result<
    String,
    KrunError,
>)
    ensures
        old(spec).root is None ==> (r matches Err(KrunError::Other(m)) && m@ == "missing root in spec"@)
            && *final(spec) == *old(spec),
        old(spec).root matches Some(root) ==> match kvm {
            DeviceProbe::Failed(msg) => (r matches Err(KrunError::Other(m)) && m@
                == "modify_spec_device: "@ + ("stat `/dev/kvm`: "@ + msg@)) && *final(spec)
                == *old(spec),
            DeviceProbe::NotFound => r matches Ok(p) && p@ == root.path@ && same_outside_linux(
                *old(spec),
                *final(spec),
            ) && (final(spec).linux matches Some(nl) && linux_or_default(old(spec).linux, nl)),
            DeviceProbe::Found { major, minor } => r matches Ok(p) && p@ == root.path@ && exists|
                mid: Spec,
            |
                device_injected(*old(spec), mid, *major, *minor) && if has_device_rules(mid) {
                    rule_injected(mid, *final(spec), *major, *minor)
                } else {
                    *final(spec) == mid
                },
        },
{
    let rootfs = match &spec.root {
        Some(root) => root.path.clone(),
        None => return Err(KrunError::Other("missing root in spec".to_owned())),
    };
    if let Err(e) = modify_spec_device(spec, kvm) {
        return Err(in_step("modify_spec_device: ", e));
    }
    if let Err(e) = modify_spec_resource_device(spec, kvm) {
        return Err(in_step("modify_spec_resource_device: ", e));
    }
    Ok(rootfs)
}

/// The annotation under `key`, trimmed and read as a number up to `max`.
pub open spec fn annotation_number(spec: Spec, key: Seq<char>, max: nat) -> Option<nat> {
    match spec_annotation(spec, key) {
        Some(v) => parse_unsigned(trim(v), max),
        None => None,
    }
}

/// Virtual CPUs and memory in MiB: both from the annotations when both
/// read as numbers, else both defaults.
pub open spec fn spec_vm_config(spec: Spec) -> (u8, u32) {
    match (
        annotation_number(spec, CPUS_ANNOTATION@, u8::MAX as nat),
        annotation_number(spec, RAM_ANNOTATION@, u32::MAX as nat),
    ) {
        (Some(c), Some(r)) => (c as u8, r as u32),
        _ => (DEFAULT_VCPUS, DEFAULT_RAM_MIB),
    }
}

/// The backend's log level: the annotation when it reads as a number, else
/// the default.
pub open spec fn spec_log_level(spec: Spec) -> u32 {
    match annotation_number(spec, LOG_LEVEL_ANNOTATION@, u32::MAX as nat) {
        Some(l) => l as u32,
        None => DEFAULT_LOG_LEVEL,
    }
}

/// Where the backend library is loaded from: the trimmed annotation, else
/// the default library name.
pub open spec fn spec_library_path(spec: Spec) -> Seq<char> {
    match spec_annotation(spec, LIBRARY_PATH_ANNOTATION@) {
        Some(v) => trim(v),
        None => DEFAULT_LIBKRUN_PATH@,
    }
}

fn read_annotation_number(spec: &Spec, key: &str, max: u32) -> (r: Option<u32>)
    ensures
        r matches Some(v) ==> annotation_number(*spec, key@, max as nat) == Some(v as nat),
        r is None ==> annotation_number(*spec, key@, max as nat) is None,
{
    match annotation(spec, key) {
        Some(v) => parse_unsigned_str(trim_str(v.as_str()), max),
        None => None,
    }
}

/// Virtual CPU count and memory size in MiB for the VM. The two are taken
/// together: when either annotation is missing or malformed, both are the
/// defaults.
pub fn read_krun_vm_config_from_annotations(spec: &Spec) -> (r: (u8, u32))
    ensures
        r == spec_vm_config(*spec),
        annotation_number(*spec, CPUS_ANNOTATION@, u8::MAX as nat) is None ==> r == (
            DEFAULT_VCPUS,
            DEFAULT_RAM_MIB,
        ),
        annotation_number(*spec, RAM_ANNOTATION@, u32::MAX as nat) is None ==> r == (
            DEFAULT_VCPUS,
            DEFAULT_RAM_MIB,
        ),
{
    let cpus = read_annotation_number(spec, CPUS_ANNOTATION, u8::MAX as u32);
    let ram = read_annotation_number(spec, RAM_ANNOTATION, u32::MAX);
    match (cpus, ram) {
        (Some(c), Some(r)) => (c as u8, r),
        _ => (DEFAULT_VCPUS, DEFAULT_RAM_MIB),
    }
}

/// The backend's log level.
pub fn read_krun_log_level_from_annotations(spec: &Spec) -> (r: u32)
    ensures
        r == spec_log_level(*spec),
{
    match read_annotation_number(spec, LOG_LEVEL_ANNOTATION, u32::MAX) {
        Some(l) => l,
        None => DEFAULT_LOG_LEVEL,
    }
}

/// The path the backend library is loaded from.
pub fn read_krun_path_from_annotations(spec: &Spec) -> (r: String)
    ensures
        r@ == spec_library_path(*spec),
{
    match annotation(spec, LIBRARY_PATH_ANNOTATION) {
        Some(v) => trim_str(v.as_str()).to_owned(),
        None => DEFAULT_LIBKRUN_PATH.to_owned(),
    }
}

/// `e` says that this executor does not handle the specification.
pub open spec fn is_cant_handle(e: ExecutorError) -> bool {
    e matches ExecutorError::CantHandle(n) && n@ == EXECUTOR_NAME@
}

fn cant_handle() -> (e: ExecutorError)
    ensures
        is_cant_handle(e),
{
    ExecutorError::CantHandle(EXECUTOR_NAME.to_owned())
}

/// Accepts exactly the specifications that select this backend.
pub fn validate(spec: &Spec) -> (r: Result<(), ExecutorValidationError>)
    ensures
        r is Ok <==> spec_can_handle(*spec),
        r matches Err(ExecutorValidationError::CantHandle(n)) ==> n@ == EXECUTOR_NAME@,
{
    if !can_handle(spec) {
        return Err(ExecutorValidationError::CantHandle(EXECUTOR_NAME.to_owned()));
    }
    Ok(())
}

/// The first check of `pre_exec`: the specification must select this
/// backend.
pub fn check_selected(spec: &Spec) -> (r: Result<(), ExecutorError>)
    ensures
        r is Ok <==> spec_can_handle(*spec),
        r matches Err(e) ==> is_cant_handle(e),
{
    if !can_handle(spec) {
        return Err(cant_handle());
    }
    Ok(())
}

/// Reads the status of a backend call: negative is a failure of `step`.
pub fn check_status(step: KrunStep, rc: i32) -> (r: Result<(), ExecutorError>)
    ensures
        rc < 0 ==> r == Err::<(), ExecutorError>(ExecutorError::Foreign { step, rc }),
        rc >= 0 ==> r is Ok,
{
    if rc < 0 {
        Err(ExecutorError::Foreign { step, rc })
    } else {
        Ok(())
    }
}

/// The context id that context creation returned: a negative value is an
/// error code.
pub fn context_from_status(rc: i32) -> (r: Result<u32, ExecutorError>)
    ensures
        rc < 0 ==> r == Err::<u32, ExecutorError>(
            ExecutorError::Foreign { step: KrunStep::CreateCtx, rc },
        ),
        rc >= 0 ==> r == Ok::<u32, ExecutorError>(rc as u32),
{
    check_status(KrunStep::CreateCtx, rc)?;
    Ok(rc as u32)
}

/// Records the backend context once: `current` is what was recorded
/// before; a second recording is refused.
pub fn claim_context(current: Option<u32>, id: u32) -> (r: Result<u32, ExecutorError>)
    ensures
        current is None ==> r == Ok::<u32, ExecutorError>(id),
        current is Some ==> r == Err::<u32, ExecutorError>(ExecutorError::ContextAlreadyInitialized),
{
    match current {
        Some(_) => Err(ExecutorError::ContextAlreadyInitialized),
        None => Ok(id),
    }
}

/// The specification names at least one process argument.
pub open spec fn has_args(spec: Spec) -> bool {
    spec.process matches Some(p) && (p.args matches Some(a) && a@.len() > 0)
}

/// How far the launch of the VM has come: the backend call whose status is
/// awaited next.
#[derive(Clone, Copy, Debug, PartialEq, Eq, Structural)]
pub enum LaunchStage {
    LogLevel,
    VmConfig,
    Root,
    Enter,
    Finished,
}

/// A backend call to make, or the end of the launch.
#[derive(Clone, Debug, PartialEq, Eq)]
pub enum KrunAction {
    SetLogLevel { level: u32 },
    SetVmConfig { ctx_id: u32, vcpus: u8, ram_mib: u32 },
    SetRoot { ctx_id: u32, root: String },
    StartEnter { ctx_id: u32 },
    /// The VM has run: the process ends with this status.
    Exit { status: i32 },
    /// The launch failed; no further backend call is made.
    Fail(ExecutorError),
}

/// The launch of the VM in `exec`: the settings taken from the
/// specification, and the stage reached. Each backend status is handed to
/// `on_status`, which names the next call.
#[derive(Clone, Copy, Debug, PartialEq, Eq, Structural)]
pub struct KrunLaunch {
    pub ctx_id: u32,
    pub log_level: u32,
    pub vcpus: u8,
    pub ram_mib: u32,
    pub stage: LaunchStage,
}

/// The backend step whose status is awaited at `stage`.
pub open spec fn step_at(stage: LaunchStage) -> KrunStep {
    match stage {
        LaunchStage::LogLevel => KrunStep::SetLogLevel,
        LaunchStage::VmConfig => KrunStep::SetVmConfig,
        LaunchStage::Root => KrunStep::SetRoot,
        _ => KrunStep::StartEnter,
    }
}

impl KrunLaunch {
    /// Starts `exec`: checks the specification and the state of the backend,
    /// in that order, and on success names the first backend call. The
    /// failures come before any call into the backend.
    pub fn start(spec: &Spec, lib_loaded: bool, ctx_id: Option<u32>) -> (r: Result<
        (KrunLaunch, KrunAction),
        ExecutorError,
    >)
        ensures
            !spec_can_handle(*spec) ==> (r matches Err(e) && is_cant_handle(e)),
            spec_can_handle(*spec) && !has_args(*spec) ==> r == Err::<
                (KrunLaunch, KrunAction),
                ExecutorError,
            >(ExecutorError::InvalidArg),
            spec_can_handle(*spec) && has_args(*spec) && !lib_loaded ==> r == Err::<
                (KrunLaunch, KrunAction),
                ExecutorError,
            >(ExecutorError::LibraryNotLoaded),
            spec_can_handle(*spec) && has_args(*spec) && lib_loaded && ctx_id is None ==> r == Err::<
                (KrunLaunch, KrunAction),
                ExecutorError,
            >(ExecutorError::ContextNotInitialized),
            spec_can_handle(*spec) && has_args(*spec) && lib_loaded && ctx_id is Some ==> r == Ok::<
                (KrunLaunch, KrunAction),
                ExecutorError,
            >(
                (
                    KrunLaunch {
                        ctx_id: ctx_id->Some_0,
                        log_level: spec_log_level(*spec),
                        vcpus: spec_vm_config(*spec).0,
                        ram_mib: spec_vm_config(*spec).1,
                        stage: LaunchStage::LogLevel,
                    },
                    KrunAction::SetLogLevel { level: spec_log_level(*spec) },
                ),
            ),
    {
        if !can_handle(spec) {
            return Err(cant_handle());
        }
        let has_args = match &spec.process {
            Some(p) => match &p.args {
                Some(a) => a.len() > 0,
                None => false,
            },
            None => false,
        };
        if !has_args {
            return Err(ExecutorError::InvalidArg);
        }
        if !lib_loaded {
            return Err(ExecutorError::LibraryNotLoaded);
        }
        let ctx_id = match ctx_id {
            Some(id) => id,
            None => return Err(ExecutorError::ContextNotInitialized),
        };
        let log_level = read_krun_log_level_from_annotations(spec);
        let (vcpus, ram_mib) = read_krun_vm_config_from_annotations(spec);
        let launch = KrunLaunch { ctx_id, log_level, vcpus, ram_mib, stage: LaunchStage::LogLevel };
        Ok((launch, KrunAction::SetLogLevel { level: log_level }))
    }

    /// Takes the status of the call just made and names the next action:
    /// log level, then VM resources, then the root `/`, then entering the
    /// VM, whose status becomes the exit status. A negative status ends the
    /// launch with the failure of that step.
    pub fn on_status(&mut self, rc: i32) -> (a: KrunAction)
        requires
            old(self).stage != LaunchStage::Finished,
        ensures
            final(self).ctx_id == old(self).ctx_id,
            final(self).log_level == old(self).log_level,
            final(self).vcpus == old(self).vcpus,
            final(self).ram_mib == old(self).ram_mib,
            rc < 0 ==> final(self).stage == LaunchStage::Finished && a == KrunAction::Fail(
                ExecutorError::Foreign { step: step_at(old(self).stage), rc },
            ),
            rc >= 0 ==> match old(self).stage {
                LaunchStage::LogLevel => final(self).stage == LaunchStage::VmConfig && a
                    == KrunAction::SetVmConfig {
                    ctx_id: old(self).ctx_id,
                    vcpus: old(self).vcpus,
                    ram_mib: old(self).ram_mib,
                },
                LaunchStage::VmConfig => final(self).stage == LaunchStage::Root && (a matches KrunAction::SetRoot {
                    ctx_id,
                    root,
                } && (ctx_id == old(self).ctx_id && root@ == "/"@)),
                LaunchStage::Root => final(self).stage == LaunchStage::Enter && a
                    == KrunAction::StartEnter { ctx_id: old(self).ctx_id },
                _ => final(self).stage == LaunchStage::Finished && a == KrunAction::Exit {
                    status: rc,
                },
            },
    {
        let step = match self.stage {
            LaunchStage::LogLevel => KrunStep::SetLogLevel,
            LaunchStage::VmConfig => KrunStep::SetVmConfig,
            LaunchStage::Root => KrunStep::SetRoot,
            _ => KrunStep::StartEnter,
        };
        if let Err(e) = check_status(step, rc) {
            self.stage = LaunchStage::Finished;
            return KrunAction::Fail(e);
        }
        match self.stage {
            LaunchStage::LogLevel => {
                self.stage = LaunchStage::VmConfig;
                KrunAction::SetVmConfig {
                    ctx_id: self.ctx_id,
                    vcpus: self.vcpus,
                    ram_mib: self.ram_mib,
                }
            },
            LaunchStage::VmConfig => {
                self.stage = LaunchStage::Root;
                KrunAction::SetRoot { ctx_id: self.ctx_id, root: "/".to_owned() }
            },
            LaunchStage::Root => {
                self.stage = LaunchStage::Enter;
                KrunAction::StartEnter { ctx_id: self.ctx_id }
            },
            _ => {
                self.stage = LaunchStage::Finished;
                KrunAction::Exit { status: rc }
            },
        }
    }
}

} // verus!
