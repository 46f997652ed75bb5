//! Validation and dispatch of an NDRange launch: the ordered per-launch and
//! per-dimension checks, and the unit of work handed to the queue when they
//! pass.

use vstd::prelude::*;

use crate::kernel::{clone_values, Kernel};
use crate::types::{address_max, ArgValue, ArgValueModel, Error, Queue};

verus! {

/// The entry of an optional work array at one dimension: an absent array
/// counts as all zero.
pub open spec fn work_at(arr: Option<Seq<usize>>, i: int) -> usize {
    match arr {
        Some(s) => s[i],
        None => 0,
    }
}

/// The view of an optional work array as the caller handed it.
pub open spec fn opt_view(arr: Option<&Vec<usize>>) -> Option<Seq<usize>> {
    match arr {
        Some(v) => Some(v@),
        None => None,
    }
}

/// The per-dimension rules, in the order they apply: the local size within
/// the device's work-item limit; the global size evenly divisible by a
/// non-zero local size; a non-zero local size equal to the work-group size
/// the kernel requires for that dimension, where it requires one; the global
/// size representable within the device's address width; and the global
/// size plus the global offset representable as well — the sum taken over
/// the unbounded integers, so a wrapped machine sum can never slip through.
pub open spec fn dim_check(
    device: crate::types::Device,
    required: Seq<usize>,
    gwo: Option<Seq<usize>>,
    gws: Option<Seq<usize>>,
    lws: Option<Seq<usize>>,
    i: int,
) -> Result<(), Error> {
    let l = work_at(lws, i);
    let g = work_at(gws, i);
    let o = work_at(gwo, i);
    if l > device.max_block_sizes@[i] {
        Err(Error::InvalidWorkItemSize)
    } else if l != 0 && g % l != 0 {
        Err(Error::InvalidWorkGroupSize)
    } else if l != 0 && required[i] != 0 && l != required[i] {
        Err(Error::InvalidWorkGroupSize)
    } else if g > address_max(device.address_bits) {
        Err(Error::InvalidGlobalWorkSize)
    } else if g + o > address_max(device.address_bits) {
        Err(Error::InvalidGlobalOffset)
    } else {
        Ok(())
    }
}

/// The dimensions checked in ascending order from `i` up to `n`: the first
/// failing dimension decides the error.
pub open spec fn dims_check_from(
    device: crate::types::Device,
    required: Seq<usize>,
    gwo: Option<Seq<usize>>,
    gws: Option<Seq<usize>>,
    lws: Option<Seq<usize>>,
    n: int,
    i: int,
) -> Result<(), Error>
    decreases n - i,
{
    if i >= n {
        Ok(())
    } else {
        match dim_check(device, required, gwo, gws, lws, i) {
            Ok(_) => dims_check_from(device, required, gwo, gws, lws, n, i + 1),
            Err(e) => Err(e),
        }
    }
}

/// Some dimension of the launch grid is empty: an absent global size counts
/// as all zero.
pub open spec fn has_zero_dim(gws: Option<Seq<usize>>, n: int) -> bool {
    match gws {
        Some(s) => exists|i: int| 0 <= i < n && s[i] == 0,
        None => true,
    }
}

/// Every slot of a live (non-dead) argument holds a value.
pub open spec fn all_args_bound(k: Kernel) -> bool {
    forall|i: int|
        0 <= i < k.values@.len() ==> (k.args@[i].dead || !((#[trigger] k.slots()[i]) is Unbound))
}

/// One optional work array resolved to one entry per dimension.
pub open spec fn resolved(arr: Option<Seq<usize>>, n: int) -> Seq<usize> {
    Seq::new(n as nat, |i: int| work_at(arr, i))
}

/// What an accepted launch hands to the queue, mathematically: either a
/// no-op that only signals completion, or a dispatch of the captured grid
/// and argument values.
pub enum LaunchPlan {
    NoOp,
    Dispatch {
        work_dim: u32,
        global_work_offset: Seq<usize>,
        global_work_size: Seq<usize>,
        local_work_size: Seq<usize>,
        arg_values: Seq<ArgValueModel>,
    },
}

/// What an accepted launch hands to the queue: a deferred unit of work that
/// the queue runs once the launch's event dependencies are satisfied. A
/// `NoOp` raises only the completion signal; a `Dispatch` carries everything
/// the device submission needs — the resolved grid and a snapshot of the
/// bound arguments, so later binds on the kernel cannot reach work already
/// enqueued.
pub enum LaunchCommand {
    NoOp,
    Dispatch {
        work_dim: u32,
        global_work_offset: Vec<usize>,
        global_work_size: Vec<usize>,
        local_work_size: Vec<usize>,
        arg_values: Vec<ArgValue>,
    },
}

impl View for LaunchCommand {
    type V = LaunchPlan;

    open spec fn view(&self) -> LaunchPlan {
        match self {
            LaunchCommand::NoOp => LaunchPlan::NoOp,
            LaunchCommand::Dispatch {
                work_dim,
                global_work_offset,
                global_work_size,
                local_work_size,
                arg_values,
            } => LaunchPlan::Dispatch {
                work_dim: *work_dim,
                global_work_offset: global_work_offset@,
                global_work_size: global_work_size@,
                local_work_size: local_work_size@,
                arg_values: arg_values.deep_view(),
            },
        }
    }
}

/// The whole launch-validation algorithm, in its required order: the queue
/// and the kernel's program must share one context; the program must hold a
/// successful build for the queue's device; every live argument must be
/// bound; the dimensionality must be between one and the device's maximum;
/// each dimension must pass `dim_check`; and an accepted launch degenerates
/// to a no-op exactly when some global dimension is zero.
pub open spec fn enqueue_spec(
    q: Queue,
    k: Kernel,
    work_dim: u32,
    gwo: Option<Seq<usize>>,
    gws: Option<Seq<usize>>,
    lws: Option<Seq<usize>>,
) -> Result<LaunchPlan, Error> {
    if q.context_id != (*k.prog).context_id {
        Err(Error::InvalidContext)
    } else if !(*k.prog).built_for(q.device.id) {
        Err(Error::InvalidProgramExecutable)
    } else if !all_args_bound(k) {
        Err(Error::InvalidKernelArgs)
    } else if work_dim == 0 || work_dim > q.device.max_grid_dimensions {
        Err(Error::InvalidWorkDimension)
    } else {
        match dims_check_from(
            q.device,
            k.work_group_size@,
            gwo,
            gws,
            lws,
            work_dim as int,
            0,
        ) {
            Err(e) => Err(e),
            Ok(_) => if has_zero_dim(gws, work_dim as int) {
                Ok(LaunchPlan::NoOp)
            } else {
                Ok(
                    LaunchPlan::Dispatch {
                        work_dim,
                        global_work_offset: resolved(gwo, work_dim as int),
                        global_work_size: resolved(gws, work_dim as int),
                        local_work_size: resolved(lws, work_dim as int),
                        arg_values: k.slots(),
                    },
                )
            },
        }
    }
}

/// The entry of an optional work array at one dimension.
fn work_item_at(arr: Option<&Vec<usize>>, i: usize) -> (r: usize)
    requires
        arr matches Some(v) ==> i < v@.len(),
    ensures
        r == work_at(opt_view(arr), i as int),
{
    match arr {
        Some(v) => v[i],
        None => 0,
    }
}

/// An optional work array resolved into one owned entry per dimension.
fn resolve_work_arr(arr: Option<&Vec<usize>>, n: u32) -> (r: Vec<usize>)
    requires
        arr matches Some(v) ==> n <= v@.len(),
    ensures
        r@ == resolved(opt_view(arr), n as int),
{
    let mut r: Vec<usize> = Vec::new();
    let n_us = n as usize;
    for i in 0..n_us
        invariant
            n_us == n,
            arr matches Some(v) ==> n <= v@.len(),
            r@.len() == i,
            forall|t: int| 0 <= t < i ==> r@[t] == work_at(opt_view(arr), t),
    {
        r.push(work_item_at(arr, i));
    }
    proof {
        assert(r@ =~= resolved(opt_view(arr), n as int));
    }
    r
}

/// Checking dimensions `0..n` equals checking `i..n` while the first `i`
/// dimensions pass.
pub proof fn lemma_dims_check_prefix(
    device: crate::types::Device,
    required: Seq<usize>,
    gwo: Option<Seq<usize>>,
    gws: Option<Seq<usize>>,
    lws: Option<Seq<usize>>,
    n: int,
    i: int,
)
    requires
        0 <= i <= n,
        forall|j: int| 0 <= j < i ==> dim_check(device, required, gwo, gws, lws, j) is Ok,
    ensures
        dims_check_from(device, required, gwo, gws, lws, n, 0) == dims_check_from(
            device,
            required,
            gwo,
            gws,
            lws,
            n,
            i,
        ),
    decreases i,
{
    if i > 0 {
        lemma_dims_check_prefix(device, required, gwo, gws, lws, n, i - 1);
        assert(dim_check(device, required, gwo, gws, lws, i - 1) is Ok);
    }
}

/// Validates an NDRange launch of the kernel on the queue and, when every
/// rule passes, returns the unit of work to enqueue: a no-op completion
/// whenever some global dimension is zero (no device work is submitted),
/// otherwise a dispatch capturing the resolved grid and the bound argument
/// values. The result equals `enqueue_spec` on the same inputs, error for
/// error. The caller's arrays, where present, must carry at least
/// `work_dim` entries, as the surface API demands of a well-formed call.
#[verifier::loop_isolation(false)]
pub fn enqueue_ndrange_kernel(
    q: &Queue,
    k: &Kernel,
    work_dim: u32,
    global_work_offset: Option<&Vec<usize>>,
    global_work_size: Option<&Vec<usize>>,
    local_work_size: Option<&Vec<usize>>,
) -> (r: Result<LaunchCommand, Error>)
    requires
        q.wf(),
        k.wf(),
        global_work_offset matches Some(v) ==> work_dim <= v@.len(),
        global_work_size matches Some(v) ==> work_dim <= v@.len(),
        local_work_size matches Some(v) ==> work_dim <= v@.len(),
    ensures
        match enqueue_spec(
            *q,
            *k,
            work_dim,
            opt_view(global_work_offset),
            opt_view(global_work_size),
            opt_view(local_work_size),
        ) {
            Ok(plan) => r matches Ok(c) && c@ == plan,
            Err(e) => r == Err::<LaunchCommand, Error>(e),
        },
{
    let ghost gwo = opt_view(global_work_offset);
    let ghost gws = opt_view(global_work_size);
    let ghost lws = opt_view(local_work_size);
    let prog: &crate::program::Program = &*k.prog;
    if q.context_id != prog.context_id {
        return Err(Error::InvalidContext);
    }
    let n_builds = prog.builds.len();
    let mut built = false;
    for b in 0..n_builds
        invariant
            n_builds == prog.builds@.len(),
            prog == &(*k.prog),
            built == exists|t: int|
                0 <= t < b && prog.builds@[t].device.id == q.device.id && prog.builds@[t].built,
    {
        if prog.builds[b].device.id == q.device.id && prog.builds[b].built {
            built = true;
        }
    }
    if !built {
        return Err(Error::InvalidProgramExecutable);
    }
    let n_args = k.values.len();
    for i in 0..n_args
        invariant
            n_args == k.values@.len(),
            k.wf(),
            forall|t: int|
                0 <= t < i ==> (k.args@[t].dead || !((#[trigger] k.slots()[t]) is Unbound)),
    {
        let unbound = match &k.values[i] {
            ArgValue::Unbound => true,
            _ => false,
        };
        if !k.args[i].dead && unbound {
            assert(k.slots()[i as int] is Unbound);
            assert(!all_args_bound(*k));
            return Err(Error::InvalidKernelArgs);
        }
    }
    assert(all_args_bound(*k));
    if work_dim == 0 || work_dim > q.device.max_grid_dimensions {
        return Err(Error::InvalidWorkDimension);
    }
    let shift: u32 = 64 - q.device.address_bits;
    let device_max: u64 = u64::MAX >> shift;
    assert(device_max == address_max(q.device.address_bits));
    let n_dims = work_dim as usize;
    for i in 0..n_dims
        invariant
            n_dims == work_dim,
            q.wf(),
            k.wf(),
            work_dim <= q.device.max_grid_dimensions,
            device_max == address_max(q.device.address_bits),
            gwo == opt_view(global_work_offset),
            gws == opt_view(global_work_size),
            lws == opt_view(local_work_size),
            global_work_offset matches Some(v) ==> work_dim <= v@.len(),
            global_work_size matches Some(v) ==> work_dim <= v@.len(),
            local_work_size matches Some(v) ==> work_dim <= v@.len(),
            forall|j: int|
                0 <= j < i ==> dim_check(q.device, k.work_group_size@, gwo, gws, lws, j) is Ok,
    {
        let l = work_item_at(local_work_size, i);
        let g = work_item_at(global_work_size, i);
        let o = work_item_at(global_work_offset, i);
        if l > q.device.max_block_sizes[i] {
            proof {
                lemma_dims_check_prefix(
                    q.device,
                    k.work_group_size@,
                    gwo,
                    gws,
                    lws,
                    work_dim as int,
                    i as int,
                );
            }
            return Err(Error::InvalidWorkItemSize);
        }
        if l != 0 && g % l != 0 {
            proof {
                lemma_dims_check_prefix(
                    q.device,
                    k.work_group_size@,
                    gwo,
                    gws,
                    lws,
                    work_dim as int,
                    i as int,
                );
            }
            return Err(Error::InvalidWorkGroupSize);
        }
        if l != 0 && k.work_group_size[i] != 0 && l != k.work_group_size[i] {
            proof {
                lemma_dims_check_prefix(
                    q.device,
                    k.work_group_size@,
                    gwo,
                    gws,
                    lws,
                    work_dim as int,
                    i as int,
                );
            }
            return Err(Error::InvalidWorkGroupSize);
        }
        if g as u64 > device_max {
            proof {
                lemma_dims_check_prefix(
                    q.device,
                    k.work_group_size@,
                    gwo,
                    gws,
                    lws,
                    work_dim as int,
                    i as int,
                );
            }
            return Err(Error::InvalidGlobalWorkSize);
        }
        let within = match (g as u64).checked_add(o as u64) {
            Some(sum) => sum <= device_max,
            None => false,
        };
        if !within {
            proof {
                lemma_dims_check_prefix(
                    q.device,
                    k.work_group_size@,
                    gwo,
                    gws,
                    lws,
                    work_dim as int,
                    i as int,
                );
            }
            return Err(Error::InvalidGlobalOffset);
        }
        assert(dim_check(q.device, k.work_group_size@, gwo, gws, lws, i as int) is Ok);
    }
    proof {
        lemma_dims_check_prefix(
            q.device,
            k.work_group_size@,
            gwo,
            gws,
            lws,
            work_dim as int,
            work_dim as int,
        );
    }
    let noop = match global_work_size {
        Some(v) => {
            let mut any_zero = false;
            for i in 0..n_dims
                invariant
                    n_dims == work_dim,
                    work_dim <= v@.len(),
                    any_zero == exists|t: int| 0 <= t < i && v@[t] == 0,
            {
                if v[i] == 0 {
                    any_zero = true;
                }
            }
            any_zero
        },
        None => true,
    };
    assert(noop == has_zero_dim(gws, work_dim as int));
    if noop {
        return Ok(LaunchCommand::NoOp);
    }
    Ok(
        LaunchCommand::Dispatch {
            work_dim,
            global_work_offset: resolve_work_arr(global_work_offset, work_dim),
            global_work_size: resolve_work_arr(global_work_size, work_dim),
            local_work_size: resolve_work_arr(local_work_size, work_dim),
            arg_values: clone_values(&k.values),
        },
    )
}

/// A single-work-item launch: one dimension, no offset, a global and local
/// size of one, forwarded to the NDRange algorithm — no independent logic.
pub fn enqueue_task(q: &Queue, k: &Kernel) -> (r: Result<LaunchCommand, Error>)
    requires
        q.wf(),
        k.wf(),
    ensures
        match enqueue_spec(*q, *k, 1, None, Some(seq![1usize]), Some(seq![1usize])) {
            Ok(plan) => r matches Ok(c) && c@ == plan,
            Err(e) => r == Err::<LaunchCommand, Error>(e),
        },
{
    let mut ones: Vec<usize> = Vec::new();
    ones.push(1);
    proof {
        assert(ones@ =~= seq![1usize]);
    }
    enqueue_ndrange_kernel(q, k, 1, None, Some(&ones), Some(&ones))
}

/// A launch whose dimensionality is zero, or exceeds the device's maximum
/// grid dimensionality, is rejected as `InvalidWorkDimension` whenever the
/// checks ordered before it pass.
pub proof fn lemma_invalid_work_dimension(
    q: Queue,
    k: Kernel,
    work_dim: u32,
    gwo: Option<Seq<usize>>,
    gws: Option<Seq<usize>>,
    lws: Option<Seq<usize>>,
)
    requires
        q.context_id == (*k.prog).context_id,
        (*k.prog).built_for(q.device.id),
        all_args_bound(k),
        work_dim == 0 || work_dim > q.device.max_grid_dimensions,
    ensures
        enqueue_spec(q, k, work_dim, gwo, gws, lws) == Err::<LaunchPlan, Error>(
            Error::InvalidWorkDimension,
        ),
{
}

/// Whenever a launch with an empty grid dimension is accepted at all, it is
/// accepted as a no-op: no device work is dispatched, only completion is
/// signalled. An empty dimension lifts none of the ordered checks — a launch
/// that fails one of them is still rejected.
pub proof fn lemma_zero_global_is_noop(
    q: Queue,
    k: Kernel,
    work_dim: u32,
    gwo: Option<Seq<usize>>,
    gws: Option<Seq<usize>>,
    lws: Option<Seq<usize>>,
)
    requires
        enqueue_spec(q, k, work_dim, gwo, gws, lws) is Ok,
        has_zero_dim(gws, work_dim as int),
    ensures
        enqueue_spec(q, k, work_dim, gwo, gws, lws) == Ok::<LaunchPlan, Error>(LaunchPlan::NoOp),
{
}

/// Conversely, an accepted launch that dispatches device work has no empty
/// grid dimension.
pub proof fn lemma_dispatch_has_no_zero_dim(
    q: Queue,
    k: Kernel,
    work_dim: u32,
    gwo: Option<Seq<usize>>,
    gws: Option<Seq<usize>>,
    lws: Option<Seq<usize>>,
)
    requires
        enqueue_spec(q, k, work_dim, gwo, gws, lws) matches Ok(plan) && plan is Dispatch,
    ensures
        !has_zero_dim(gws, work_dim as int),
{
}

/// In a dimension whose non-zero local size does not evenly divide its
/// global size, the launch fails `InvalidWorkGroupSize` — provided the
/// checks ordered before that rule pass: the whole-launch checks, the
/// dimensions before `i`, and the work-item limit at `i`.
pub proof fn lemma_indivisible_local_rejected(
    q: Queue,
    k: Kernel,
    work_dim: u32,
    gwo: Option<Seq<usize>>,
    gws: Option<Seq<usize>>,
    lws: Option<Seq<usize>>,
    i: int,
)
    requires
        q.context_id == (*k.prog).context_id,
        (*k.prog).built_for(q.device.id),
        all_args_bound(k),
        1 <= work_dim <= q.device.max_grid_dimensions,
        0 <= i < work_dim,
        forall|j: int| 0 <= j < i ==> dim_check(q.device, k.work_group_size@, gwo, gws, lws, j) is Ok,
        work_at(lws, i) <= q.device.max_block_sizes@[i],
        work_at(lws, i) != 0,
        work_at(gws, i) % work_at(lws, i) != 0,
    ensures
        enqueue_spec(q, k, work_dim, gwo, gws, lws) == Err::<LaunchPlan, Error>(
            Error::InvalidWorkGroupSize,
        ),
{
    lemma_dims_check_prefix(q.device, k.work_group_size@, gwo, gws, lws, work_dim as int, i);
    assert(dim_check(q.device, k.work_group_size@, gwo, gws, lws, i) == Err::<(), Error>(
        Error::InvalidWorkGroupSize,
    ));
}

/// In a dimension where the global size plus the global offset exceeds what
/// the device's address width can represent — the wrapped machine sum
/// included, since the rule is stated over the unbounded integers — the
/// launch fails `InvalidGlobalOffset`, provided the checks ordered before
/// that rule pass.
pub proof fn lemma_offset_overflow_rejected(
    q: Queue,
    k: Kernel,
    work_dim: u32,
    gwo: Option<Seq<usize>>,
    gws: Option<Seq<usize>>,
    lws: Option<Seq<usize>>,
    i: int,
)
    requires
        q.context_id == (*k.prog).context_id,
        (*k.prog).built_for(q.device.id),
        all_args_bound(k),
        1 <= work_dim <= q.device.max_grid_dimensions,
        0 <= i < work_dim,
        forall|j: int| 0 <= j < i ==> dim_check(q.device, k.work_group_size@, gwo, gws, lws, j) is Ok,
        work_at(lws, i) <= q.device.max_block_sizes@[i],
        work_at(lws, i) != 0 ==> work_at(gws, i) % work_at(lws, i) == 0,
        work_at(lws, i) != 0 && k.work_group_size@[i] != 0 ==> work_at(lws, i)
            == k.work_group_size@[i],
        work_at(gws, i) <= address_max(q.device.address_bits),
        work_at(gws, i) + work_at(gwo, i) > address_max(q.device.address_bits),
    ensures
        enqueue_spec(q, k, work_dim, gwo, gws, lws) == Err::<LaunchPlan, Error>(
            Error::InvalidGlobalOffset,
        ),
{
    lemma_dims_check_prefix(q.device, k.work_group_size@, gwo, gws, lws, work_dim as int, i);
    assert(dim_check(q.device, k.work_group_size@, gwo, gws, lws, i) == Err::<(), Error>(
        Error::InvalidGlobalOffset,
    ));
}

} // verus!
