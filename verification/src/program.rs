//! The built program as the kernel factory reads it: exported kernel names,
//! one build result per device, and per-device argument descriptors.

use vstd::prelude::*;

use crate::types::{descs_match, ArgDescriptor, Device, Error};

verus! {

/// What the build pipeline exports for one kernel name, independent of the
/// device: its name, its attribute string, and the work-group size the
/// source requires (a zero entry means unconstrained).
#[derive(Debug)]
pub struct KernelInfo {
    pub name: String,
    pub attributes: String,
    pub work_group_size: Vec<usize>,
}

/// What one device's build carries for one kernel name.
#[derive(Debug)]
pub struct KernelDevInfo {
    pub args: Vec<ArgDescriptor>,
    pub local_mem_size: u64,
    pub priv_mem_size: u64,
}

/// One device associated with a program, with that device's build outcome
/// and, per exported kernel name, the compiled signature and footprints.
#[derive(Debug)]
pub struct DeviceBuild {
    pub device: Device,
    pub built: bool,
    pub kernels: Vec<KernelDevInfo>,
}

/// A program after the build pipeline ran: immutable from this core's view.
#[derive(Debug)]
pub struct Program {
    pub context_id: usize,
    pub kernels: Vec<KernelInfo>,
    pub builds: Vec<DeviceBuild>,
}

impl Program {
    /// At least one associated device; per-device kernel tables parallel to
    /// the exported names; well-formed devices with distinct identities;
    /// distinct exported names; three work-group-size entries per name.
    pub open spec fn wf(self) -> bool {
        &&& self.builds@.len() >= 1
        &&& (forall|b: int|
            0 <= b < self.builds@.len() ==> (#[trigger] self.builds@[b]).device.wf())
        &&& (forall|b: int|
            0 <= b < self.builds@.len() ==> (#[trigger] self.builds@[b]).kernels@.len()
                == self.kernels@.len())
        &&& (forall|b1: int, b2: int|
            0 <= b1 < b2 < self.builds@.len() ==> self.builds@[b1].device.id
                != self.builds@[b2].device.id)
        &&& (forall|j: int|
            0 <= j < self.kernels@.len() ==> (#[trigger] self.kernels@[j]).work_group_size@.len()
                == 3)
        &&& (forall|j1: int, j2: int|
            0 <= j1 < j2 < self.kernels@.len() ==> self.kernels@[j1].name@
                != self.kernels@[j2].name@)
    }

    /// Some device holds a successful build.
    pub open spec fn has_built_device(self) -> bool {
        exists|b: int| 0 <= b < self.builds@.len() && self.builds@[b].built
    }

    /// The device with the given identity holds a successful build.
    pub open spec fn built_for(self, dev_id: usize) -> bool {
        exists|b: int|
            0 <= b < self.builds@.len() && self.builds@[b].device.id == dev_id
                && self.builds@[b].built
    }

    /// The device with the given identity is associated with the program,
    /// whether or not its build succeeded.
    pub open spec fn has_device(self, dev_id: usize) -> bool {
        exists|b: int| 0 <= b < self.builds@.len() && self.builds@[b].device.id == dev_id
    }

    /// The first successfully built device, as an index into `builds`
    /// (the length when no device built).
    pub open spec fn first_built(self) -> int {
        first_built_from(self.builds@, 0)
    }

    /// The program exports a kernel of this name.
    pub open spec fn exports(self, name: Seq<char>) -> bool {
        exists|j: int| 0 <= j < self.kernels@.len() && self.kernels@[j].name@ == name
    }

    /// The index of the exported kernel of this name (the number of names
    /// when it is not exported).
    pub open spec fn name_index(self, name: Seq<char>) -> int {
        name_index_from(self.kernels@, name, 0)
    }

    /// Among the devices with a successful build, the argument descriptors
    /// for kernel `j` agree in full. A single kernel handle has one binding
    /// contract; names whose signatures diverge across devices get none.
    pub open spec fn args_consistent(self, j: int) -> bool {
        forall|b1: int, b2: int|
            0 <= b1 < self.builds@.len() && 0 <= b2 < self.builds@.len()
                && (#[trigger] self.builds@[b1]).built && (#[trigger] self.builds@[b2]).built
                ==> descs_match(self.builds@[b1].kernels@[j].args@, self.builds@[b2].kernels@[j].args@)
    }
}

/// The least index `b >= i` with a successful build, or the length.
pub open spec fn first_built_from(builds: Seq<DeviceBuild>, i: int) -> int
    decreases builds.len() - i,
{
    if i < 0 || i >= builds.len() {
        builds.len() as int
    } else if builds[i].built {
        i
    } else {
        first_built_from(builds, i + 1)
    }
}

/// The least index `j >= i` whose kernel carries this name, or the length.
pub open spec fn name_index_from(kernels: Seq<KernelInfo>, name: Seq<char>, i: int) -> int
    decreases kernels.len() - i,
{
    if i < 0 || i >= kernels.len() {
        kernels.len() as int
    } else if kernels[i].name@ == name {
        i
    } else {
        name_index_from(kernels, name, i + 1)
    }
}

pub proof fn lemma_first_built_from(builds: Seq<DeviceBuild>, i: int)
    requires
        0 <= i <= builds.len(),
    ensures
        i <= first_built_from(builds, i) <= builds.len(),
        first_built_from(builds, i) < builds.len() ==> builds[first_built_from(builds, i)].built,
        forall|b: int| i <= b < first_built_from(builds, i) ==> !builds[b].built,
        (exists|b: int| i <= b < builds.len() && builds[b].built) <==> first_built_from(
            builds,
            i,
        ) < builds.len(),
    decreases builds.len() - i,
{
    if i < builds.len() && !builds[i].built {
        lemma_first_built_from(builds, i + 1);
    }
}

pub proof fn lemma_name_index_from(kernels: Seq<KernelInfo>, name: Seq<char>, i: int)
    requires
        0 <= i <= kernels.len(),
    ensures
        i <= name_index_from(kernels, name, i) <= kernels.len(),
        name_index_from(kernels, name, i) < kernels.len() ==> kernels[name_index_from(
            kernels,
            name,
            i,
        )].name@ == name,
        forall|j: int| i <= j < name_index_from(kernels, name, i) ==> kernels[j].name@ != name,
        (exists|j: int| i <= j < kernels.len() && kernels[j].name@ == name) <==> name_index_from(
            kernels,
            name,
            i,
        ) < kernels.len(),
    decreases kernels.len() - i,
{
    if i < kernels.len() && kernels[i].name@ != name {
        lemma_name_index_from(kernels, name, i + 1);
    }
}

/// The indices of the devices whose build succeeded, in ascending order;
/// `InvalidProgramExecutable` when no build succeeded at all.
pub fn get_devices_with_valid_build(p: &Program) -> (r: Result<Vec<usize>, Error>)
    ensures
        match r {
            Ok(devs) => {
                &&& p.has_built_device()
                &&& devs@.len() >= 1
                &&& (forall|t: int|
                    0 <= t < devs@.len() ==> 0 <= #[trigger] devs@[t] < p.builds@.len()
                        && p.builds@[devs@[t] as int].built)
                &&& (forall|b: int|
                    0 <= b < p.builds@.len() && p.builds@[b].built ==> devs@.contains(b as usize))
                &&& (forall|t1: int, t2: int|
                    0 <= t1 < t2 < devs@.len() ==> devs@[t1] < devs@[t2])
            },
            Err(e) => e == Error::InvalidProgramExecutable && !p.has_built_device(),
        },
{
    let mut devs: Vec<usize> = Vec::new();
    let n = p.builds.len();
    for b in 0..n
        invariant
            n == p.builds@.len(),
            forall|t: int|
                0 <= t < devs@.len() ==> 0 <= #[trigger] devs@[t] < b && p.builds@[devs@[t] as int].built,
            forall|b2: int| 0 <= b2 < b && p.builds@[b2].built ==> devs@.contains(b2 as usize),
            forall|t1: int, t2: int| 0 <= t1 < t2 < devs@.len() ==> devs@[t1] < devs@[t2],
    {
        if p.builds[b].built {
            let ghost pre = devs@;
            devs.push(b);
            proof {
                assert forall|b2: int| 0 <= b2 < b + 1 && p.builds@[b2].built implies devs@.contains(
                    b2 as usize,
                ) by {
                    if b2 == b {
                        assert(devs@[pre.len() as int] == b2 as usize);
                    } else {
                        assert(pre.contains(b2 as usize));
                        let t = choose|t: int| 0 <= t < pre.len() && pre[t] == b2 as usize;
                        assert(devs@[t] == b2 as usize);
                    }
                }
            }
        }
    }
    if devs.len() == 0 {
        assert(!p.has_built_device()) by {
            if p.has_built_device() {
                let b = choose|b: int| 0 <= b < p.builds@.len() && p.builds@[b].built;
                assert(devs@.contains(b as usize));
            }
        }
        return Err(Error::InvalidProgramExecutable);
    }
    assert(p.builds@[devs@[0] as int].built);
    Ok(devs)
}

} // verus!
