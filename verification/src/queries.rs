//! Read-only introspection of a live kernel: its name and metadata, its
//! per-argument descriptors and bindings, and per-device work-group data.

use vstd::prelude::*;

use crate::kernel::{copy_vec, Kernel};
use crate::types::{ArgDescriptor, ArgValue, Error};

verus! {

/// The answer to a per-device work-group query: the work-group size the
/// source compiled in, the kernel's local and private memory footprints on
/// that device, and the device's scheduling granularity.
#[derive(Debug)]
pub struct WorkGroupQuery {
    pub compile_work_group_size: Vec<usize>,
    pub local_mem_size: u64,
    pub priv_mem_size: u64,
    pub preferred_work_group_size_multiple: u32,
    pub work_group_size: u32,
}

/// The query answer `r` reports build entry `b` of the kernel's program.
pub open spec fn wg_query_matches(k: Kernel, b: int, r: WorkGroupQuery) -> bool {
    &&& r.compile_work_group_size@ == k.work_group_size@
    &&& r.local_mem_size == (*k.prog).builds@[b].kernels@[k.kernel_index as int].local_mem_size
    &&& r.priv_mem_size == (*k.prog).builds@[b].kernels@[k.kernel_index as int].priv_mem_size
    &&& r.preferred_work_group_size_multiple == (*k.prog).builds@[b].device.subgroups
    &&& r.work_group_size == (*k.prog).builds@[b].device.subgroups
}

impl Kernel {
    /// The name of the compiled function this handle invokes.
    pub fn function_name(&self) -> (r: &String)
        ensures
            r@ == self.name@,
    {
        &self.name
    }

    /// The attribute string the source declared for the function.
    pub fn kernel_attributes(&self) -> (r: &String)
        ensures
            r@ == self.attributes@,
    {
        &self.attributes
    }

    /// The number of declared arguments.
    pub fn num_args(&self) -> (n: usize)
        ensures
            n == self.args@.len(),
    {
        self.args.len()
    }

    /// The identity of the context the parent program lives in.
    pub fn context_id(&self) -> (c: usize)
        ensures
            c == (*self.prog).context_id,
    {
        self.prog.context_id
    }

    /// The descriptor of one argument — its kind, declared size, name, type
    /// and qualifiers — or `InvalidArgIndex` beyond the declared count.
    pub fn arg_info(&self, index: usize) -> (r: Result<&ArgDescriptor, Error>)
        ensures
            index < self.args@.len() ==> (r matches Ok(d) && *d == self.args@[index as int]),
            index >= self.args@.len() ==> r == Err::<&ArgDescriptor, Error>(Error::InvalidArgIndex),
    {
        if index < self.args.len() {
            Ok(&self.args[index])
        } else {
            Err(Error::InvalidArgIndex)
        }
    }

    /// The value currently bound at one argument slot, or `InvalidArgIndex`
    /// beyond the declared count.
    pub fn arg_binding(&self, index: usize) -> (r: Result<&ArgValue, Error>)
        ensures
            index < self.values@.len() ==> (r matches Ok(v) && v@ == self.slots()[index as int]),
            index >= self.values@.len() ==> r == Err::<&ArgValue, Error>(Error::InvalidArgIndex),
    {
        if index < self.values.len() {
            Ok(&self.values[index])
        } else {
            Err(Error::InvalidArgIndex)
        }
    }

    /// The per-device work-group data of this kernel. With no device named,
    /// the program's one device answers, and more than one associated device
    /// is `InvalidDevice`; a named device must be associated with the
    /// program, built or not, else `InvalidDevice`.
    pub fn work_group_query(&self, dev_id: Option<usize>) -> (r: Result<WorkGroupQuery, Error>)
        requires
            self.wf(),
        ensures
            match dev_id {
                None => if (*self.prog).builds@.len() > 1 {
                    r == Err::<WorkGroupQuery, Error>(Error::InvalidDevice)
                } else {
                    r matches Ok(w) && wg_query_matches(*self, 0, w)
                },
                Some(id) => if !(*self.prog).has_device(id) {
                    r == Err::<WorkGroupQuery, Error>(Error::InvalidDevice)
                } else {
                    r matches Ok(w) && forall|b: int|
                        0 <= b < (*self.prog).builds@.len() && (#[trigger] (
                        *self.prog).builds@[b]).device.id == id ==> wg_query_matches(*self, b, w)
                },
            },
    {
        let prog: &crate::program::Program = &*self.prog;
        let b: usize = match dev_id {
            None => {
                if prog.builds.len() > 1 {
                    return Err(Error::InvalidDevice);
                }
                0
            },
            Some(id) => {
                let n = prog.builds.len();
                let mut t: usize = 0;
                let mut found = false;
                while !found && t < n
                    invariant
                        n == prog.builds@.len(),
                        prog == &(*self.prog),
                        0 <= t <= n,
                        forall|u: int| 0 <= u < t ==> prog.builds@[u].device.id != id,
                        found ==> t < n && prog.builds@[t as int].device.id == id,
                    decreases n - t + (if found {
                        0int
                    } else {
                        1int
                    }),
                {
                    if prog.builds[t].device.id == id {
                        found = true;
                    } else {
                        t += 1;
                    }
                }
                if !found {
                    assert(!prog.has_device(id));
                    return Err(Error::InvalidDevice);
                }
                t
            },
        };
        let w = WorkGroupQuery {
            compile_work_group_size: copy_vec(&self.work_group_size),
            local_mem_size: prog.builds[b].kernels[self.kernel_index].local_mem_size,
            priv_mem_size: prog.builds[b].kernels[self.kernel_index].priv_mem_size,
            preferred_work_group_size_multiple: prog.builds[b].device.subgroups,
            work_group_size: prog.builds[b].device.subgroups,
        };
        proof {
            if dev_id is Some {
                let id = dev_id->0;
                assert forall|b2: int|
                    0 <= b2 < prog.builds@.len() && (#[trigger] prog.builds@[b2]).device.id == id
                        implies wg_query_matches(*self, b2, w) by {
                    if b2 != b {
                        assert(prog.builds@[b as int].device.id == prog.builds@[b2].device.id);
                    }
                }
            }
        }
        Ok(w)
    }

    /// Sub-group queries are unsupported: every one fails
    /// `InvalidOperation`.
    pub fn sub_group_query(&self, _dev_id: Option<usize>) -> (r: Result<(), Error>)
        ensures
            r == Err::<(), Error>(Error::InvalidOperation),
    {
        Err(Error::InvalidOperation)
    }
}

} // verus!
