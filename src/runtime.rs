//! The parts of an OCI runtime specification that resource enforcement and
//! backend selection read or change.
use vstd::prelude::*;

verus! {

/// Kind of a device node.
#[derive(Clone, Copy, Debug, PartialEq, Eq, Structural)]
pub enum LinuxDeviceType {
    /// All kinds.
    A,
    /// Block, buffered.
    B,
    /// Character, unbuffered.
    C,
    /// Character, unbuffered.
    U,
    /// FIFO.
    P,
}

/// A device node created inside the container.
#[derive(Clone, Debug, PartialEq, Eq)]
pub struct LinuxDevice {
    pub path: String,
    pub typ: LinuxDeviceType,
    pub major: i64,
    pub minor: i64,
    pub file_mode: Option<u32>,
    pub uid: Option<u32>,
    pub gid: Option<u32>,
}

/// An allow or deny rule of the device cgroup.
#[derive(Clone, Debug, PartialEq, Eq)]
pub struct LinuxDeviceCgroup {
    pub allow: bool,
    pub typ: Option<LinuxDeviceType>,
    pub major: Option<i64>,
    pub minor: Option<i64>,
    pub access: Option<String>,
}

/// Process-count limit; zero or negative means no limit.
#[derive(Clone, Copy, Debug, PartialEq, Eq, Structural)]
pub struct LinuxPids {
    pub limit: i64,
}

/// Resource limits of the container.
#[derive(Clone, Debug, PartialEq, Eq)]
pub struct LinuxResources {
    pub devices: Option<Vec<LinuxDeviceCgroup>>,
    pub pids: Option<LinuxPids>,
}

/// The Linux section of a specification.
#[derive(Clone, Debug, PartialEq, Eq)]
pub struct Linux {
    pub devices: Option<Vec<LinuxDevice>>,
    pub resources: Option<LinuxResources>,
}

/// The container's initial process.
#[derive(Clone, Debug, PartialEq, Eq)]
pub struct Process {
    pub args: Option<Vec<String>>,
}

/// The container's root filesystem.
#[derive(Clone, Debug, PartialEq, Eq)]
pub struct Root {
    pub path: String,
}

/// A container specification. Annotations are key/value pairs; where a key
/// is listed more than once, its first entry counts.
#[derive(Clone, Debug, PartialEq, Eq)]
pub struct Spec {
    pub process: Option<Process>,
    pub root: Option<Root>,
    pub annotations: Option<Vec<(String, String)>>,
    pub linux: Option<Linux>,
}

/// Resources with no process limit and an empty list of device rules.
pub open spec fn is_default_resources(r: Option<LinuxResources>) -> bool {
    r matches Some(res) && (res.pids is None && (res.devices matches Some(d) && d@.len() == 0))
}

/// `l` is the Linux section that a specification without one gets: no
/// devices, and default resources.
pub open spec fn is_default_linux(l: Linux) -> bool {
    l.devices is None && is_default_resources(l.resources)
}

impl Default for Linux {
    fn default() -> (r: Linux)
        ensures
            is_default_linux(r),
    {
        Linux {
            devices: None,
            resources: Some(LinuxResources { devices: Some(Vec::new()), pids: None }),
        }
    }
}

/// The value of the first annotation under `key`.
pub open spec fn annotation_value(anns: Seq<(String, String)>, key: Seq<char>) -> Option<Seq<char>>
    decreases anns.len(),
{
    if anns.len() == 0 {
        None
    } else if anns[0].0@ == key {
        Some(anns[0].1@)
    } else {
        annotation_value(anns.drop_first(), key)
    }
}

/// The annotation of `spec` under `key`, if there is one.
pub open spec fn spec_annotation(spec: Spec, key: Seq<char>) -> Option<Seq<char>> {
    match spec.annotations {
        Some(anns) => annotation_value(anns@, key),
        None => None,
    }
}

/// The annotation of `spec` under `key`, if there is one.
pub fn annotation(spec: &Spec, key: &str) -> (r: Option<String>)
    ensures
        r matches Some(v) ==> spec_annotation(*spec, key@) == Some(v@),
        r is None ==> spec_annotation(*spec, key@) is None,
{
    let anns = match &spec.annotations {
        Some(a) => a,
        None => return None,
    };
    let k = key.to_owned();
    let n = anns.len();
    let mut i: usize = 0;
    assert(anns@.subrange(0, n as int) =~= anns@);
    while i < n
        invariant
            n == anns@.len(),
            i <= n,
            k@ == key@,
            spec_annotation(*spec, key@) == annotation_value(anns@, key@),
            annotation_value(anns@, key@) == annotation_value(anns@.subrange(i as int, n as int), key@),
        decreases n - i,
    {
        assert(anns@.subrange(i as int, n as int)[0] == anns@[i as int]);
        if anns[i].0 == k {
            let v = anns[i].1.clone();
            assert(annotation_value(anns@.subrange(i as int, n as int), key@) == Some(v@));
            return Some(v);
        }
        assert(anns@.subrange(i as int, n as int).drop_first() =~= anns@.subrange(i + 1, n as int));
        i = i + 1;
    }
    None
}

} // verus!
