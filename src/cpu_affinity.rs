//! Parsing of CPU lists such as `0-3,8`, the form that process affinity
//! settings take.
use crate::text::{parse_unsigned, parse_unsigned_str};
use vstd::prelude::*;

verus! {

/// Why a CPU list was refused, or why applying one failed.
#[derive(Clone, Debug, PartialEq, Eq)]
pub enum IntermediateProcessError {
    /// One bound of a range is not a number; holds that bound's text.
    InvalidNumber(String),
    /// A range whose start lies above its end; holds the range.
    StartAfterEnd(String),
    /// A single entry is not a number; holds the entry.
    InvalidCpu(String),
    /// The kernel refused the affinity mask; holds the OS error number.
    Syscall(i32),
}

/// The kinds of refusal that parsing a CPU list can give.
#[derive(Clone, Copy, Debug, PartialEq, Eq, Structural)]
pub enum CpusetFault {
    InvalidNumber,
    StartAfterEnd,
    InvalidCpu,
}

/// `e` reports fault `f`: its kind and the offending text.
pub open spec fn is_fault(e: IntermediateProcessError, f: (CpusetFault, Seq<char>)) -> bool {
    match e {
        IntermediateProcessError::InvalidNumber(t) => f.0 == CpusetFault::InvalidNumber && t@ == f.1,
        IntermediateProcessError::StartAfterEnd(t) => f.0 == CpusetFault::StartAfterEnd && t@ == f.1,
        IntermediateProcessError::InvalidCpu(t) => f.0 == CpusetFault::InvalidCpu && t@ == f.1,
        IntermediateProcessError::Syscall(_) => false,
    }
}

/// `i` is the position of the first `c` in `s`.
pub open spec fn is_first(s: Seq<char>, c: char, i: int) -> bool {
    0 <= i < s.len() && s[i] == c && forall|j: int| 0 <= j < i ==> s[j] != c
}

/// The pieces of `s` between its commas, as `str::split(',')` yields them.
pub open spec fn split_parts(s: Seq<char>) -> Seq<Seq<char>>
    decreases s.len(),
{
    if exists|i: int| is_first(s, ',', i) {
        let i = choose|i: int| is_first(s, ',', i);
        seq![s.subrange(0, i)] + split_parts(s.subrange(i + 1, s.len() as int))
    } else {
        seq![s]
    }
}

/// The CPUs `lo` to `hi`, both included.
pub open spec fn cpu_range(lo: nat, hi: nat) -> Seq<u32> {
    Seq::new((hi + 1 - lo) as nat, |k: int| (lo + k) as u32)
}

/// One entry of a CPU list: a single CPU, or a range `lo-hi` split at its
/// first dash.
pub open spec fn part_result(p: Seq<char>) -> Result<Seq<u32>, (CpusetFault, Seq<char>)> {
    if exists|i: int| is_first(p, '-', i) {
        let i = choose|i: int| is_first(p, '-', i);
        let a = p.subrange(0, i);
        let b = p.subrange(i + 1, p.len() as int);
        match (parse_unsigned(a, u32::MAX as nat), parse_unsigned(b, u32::MAX as nat)) {
            (None, _) => Err((CpusetFault::InvalidNumber, a)),
            (Some(_), None) => Err((CpusetFault::InvalidNumber, b)),
            (Some(lo), Some(hi)) => if lo > hi {
                Err((CpusetFault::StartAfterEnd, p))
            } else {
                Ok(cpu_range(lo, hi))
            },
        }
    } else {
        match parse_unsigned(p, u32::MAX as nat) {
            Some(v) => Ok(seq![v as u32]),
            None => Err((CpusetFault::InvalidCpu, p)),
        }
    }
}

/// The entries in order, concatenated; the first refused entry decides.
pub open spec fn parts_result(parts: Seq<Seq<char>>) -> Result<Seq<u32>, (CpusetFault, Seq<char>)>
    decreases parts.len(),
{
    if parts.len() == 0 {
        Ok(Seq::empty())
    } else {
        match part_result(parts[0]) {
            Err(f) => Err(f),
            Ok(v) => match parts_result(parts.drop_first()) {
                Ok(w) => Ok(v + w),
                Err(f) => Err(f),
            },
        }
    }
}

/// What a CPU list stands for.
pub open spec fn cpuset_result(s: Seq<char>) -> Result<Seq<u32>, (CpusetFault, Seq<char>)> {
    parts_result(split_parts(s))
}

spec fn prefixed(acc: Seq<u32>, r: Result<Seq<u32>, (CpusetFault, Seq<char>)>) -> Result<
    Seq<u32>,
    (CpusetFault, Seq<char>),
> {
    match r {
        Ok(w) => Ok(acc + w),
        Err(f) => Err(f),
    }
}

proof fn lemma_first_unique(s: Seq<char>, c: char, i: int, j: int)
    requires
        is_first(s, c, i),
        is_first(s, c, j),
    ensures
        i == j,
{
    if i < j {
        assert(s[i] != c);
    } else if j < i {
        assert(s[j] != c);
    }
}

/// The position of the first `c` in `s`, if any.
fn find_char(s: &str, c: char) -> (r: Option<usize>)
    ensures
        r matches Some(i) ==> is_first(s@, c, i as int),
        r is None ==> forall|i: int| 0 <= i < s@.len() ==> s@[i] != c,
{
    let n = s.unicode_len();
    let mut i: usize = 0;
    while i < n
        invariant
            n == s@.len(),
            i <= n,
            forall|j: int| 0 <= j < i ==> s@[j] != c,
        decreases n - i,
    {
        if s.get_char(i) == c {
            return Some(i);
        }
        i = i + 1;
    }
    None
}

/// Appends the CPUs `lo` to `hi`, both included.
fn push_range(cpus: &mut Vec<u32>, lo: u32, hi: u32)
    requires
        lo <= hi,
    ensures
        final(cpus)@ == old(cpus)@ + cpu_range(lo as nat, hi as nat),
{
    let ghost before = cpus@;
    let mut cpu: u32 = lo;
    loop
        invariant_except_break
            lo <= cpu <= hi,
            cpus@ =~= before + cpu_range(lo as nat, cpu as nat).drop_last(),
        ensures
            cpus@ =~= before + cpu_range(lo as nat, hi as nat),
        decreases hi - cpu,
    {
        cpus.push(cpu);
        assert(cpu_range(lo as nat, cpu as nat) =~= cpu_range(lo as nat, cpu as nat).drop_last().push(
            cpu,
        ));
        if cpu == hi {
            break;
        }
        assert(cpu_range(lo as nat, (cpu + 1) as nat).drop_last() =~= cpu_range(
            lo as nat,
            cpu as nat,
        ));
        cpu = cpu + 1;
    }
}

/// Parses one entry of a CPU list and appends its CPUs.
fn parse_part(part: &str, cpus: &mut Vec<u32>) -> (r: Result<(), IntermediateProcessError>)
    ensures
        match part_result(part@) {
            Ok(v) => r is Ok && final(cpus)@ == old(cpus)@ + v,
            Err(f) => r matches Err(e) && is_fault(e, f),
        },
{
    let n = part.unicode_len();
    match find_char(part, '-') {
        Some(i) => {
            proof {
                assert forall|j: int| is_first(part@, '-', j) implies j == i by {
                    lemma_first_unique(part@, '-', i as int, j);
                }
            }
            let start = part.substring_char(0, i);
            let end = part.substring_char(i + 1, n);
            let lo = match parse_unsigned_str(start, u32::MAX) {
                Some(v) => v,
                None => return Err(IntermediateProcessError::InvalidNumber(start.to_owned())),
            };
            let hi = match parse_unsigned_str(end, u32::MAX) {
                Some(v) => v,
                None => return Err(IntermediateProcessError::InvalidNumber(end.to_owned())),
            };
            if lo > hi {
                return Err(IntermediateProcessError::StartAfterEnd(part.to_owned()));
            }
            push_range(cpus, lo, hi);
            Ok(())
        },
        None => {
            let cpu = match parse_unsigned_str(part, u32::MAX) {
                Some(v) => v,
                None => return Err(IntermediateProcessError::InvalidCpu(part.to_owned())),
            };
            cpus.push(cpu);
            Ok(())
        },
    }
}

/// Parses a comma-separated list of CPU indices and inclusive `lo-hi`
/// ranges into the CPUs it names, in order, repeats kept.
pub fn parse_cpuset_string(cpuset: &str) -> (r: Result<Vec<u32>, IntermediateProcessError>)
    ensures
        match cpuset_result(cpuset@) {
            Ok(v) => r matches Ok(cpus) && cpus@ == v,
            Err(f) => r matches Err(e) && is_fault(e, f),
        },
{
    let mut cpus: Vec<u32> = Vec::new();
    let mut rest: &str = cpuset;
    loop
        invariant
            cpuset_result(cpuset@) == prefixed(cpus@, cpuset_result(rest@)),
        decreases rest@.len(),
    {
        let n = rest.unicode_len();
        let ghost acc = cpus@;
        match find_char(rest, ',') {
            Some(i) => {
                let part = rest.substring_char(0, i);
                let tail = rest.substring_char(i + 1, n);
                proof {
                    assert forall|j: int| is_first(rest@, ',', j) implies j == i by {
                        lemma_first_unique(rest@, ',', i as int, j);
                    }
                    let parts = split_parts(rest@);
                    assert(parts == seq![part@] + split_parts(tail@));
                    assert(parts[0] == part@);
                    assert(parts.drop_first() =~= split_parts(tail@));
                }
                parse_part(part, &mut cpus)?;
                proof {
                    let v = part_result(part@)->Ok_0;
                    assert(acc + (v + cpus@.subrange(0, 0)) =~= cpus@ + cpus@.subrange(0, 0));
                    match cpuset_result(tail@) {
                        Ok(w) => assert(acc + (v + w) =~= cpus@ + w),
                        Err(_) => {},
                    }
                }
                rest = tail;
            },
            None => {
                proof {
                    assert(!exists|j: int| is_first(rest@, ',', j));
                    assert(split_parts(rest@) == seq![rest@]);
                    assert(seq![rest@].drop_first() =~= Seq::<Seq<char>>::empty());
                    assert(parts_result(Seq::<Seq<char>>::empty()) == Ok::<Seq<u32>, (CpusetFault, Seq<char>)>(Seq::empty()));
                }
                parse_part(rest, &mut cpus)?;
                proof {
                    let v = part_result(rest@)->Ok_0;
                    assert(v + Seq::<u32>::empty() =~= v);
                    assert(acc + v =~= cpus@);
                }
                return Ok(cpus);
            },
        }
    }
}

} // verus!
