//! The argument-binding contract: which binds are legal for each argument
//! kind, and what the slot holds afterwards.

use vstd::prelude::*;

use crate::kernel::Kernel;
use crate::types::{
    ArgDescriptor, ArgKind, ArgSource, ArgValue, ArgValueModel, Error, MEM_HANDLE_SIZE,
};

verus! {

/// The size rule for one bind: a local allocation must be non-zero; a
/// global memory object takes exactly a handle; every other kind takes
/// exactly the declared size.
pub open spec fn arg_size_ok(d: ArgDescriptor, size: usize) -> bool {
    match d.kind {
        ArgKind::LocalMemory => size != 0,
        ArgKind::GlobalMemoryObject => size == MEM_HANDLE_SIZE,
        _ => size == d.size,
    }
}

/// The presence rule for one bind: a local argument must come with no
/// value; constant data and samplers must come with one.
pub open spec fn arg_value_ok(d: ArgDescriptor, v: ArgSource) -> bool {
    match d.kind {
        ArgKind::LocalMemory => v is Null,
        ArgKind::ConstantData | ArgKind::Sampler => !(v is Null),
        _ => true,
    }
}

/// What a well-formed caller pointer guarantees: wherever the bind step of
/// a live (non-dead) argument would read through the pointer — that is,
/// once the size and presence rules have passed — the handed value has the
/// shape the argument's kind dictates.
pub open spec fn source_fits(d: ArgDescriptor, size: usize, v: ArgSource) -> bool {
    arg_size_ok(d, size) && arg_value_ok(d, v) && !d.dead ==> match d.kind {
        ArgKind::ConstantData => v matches ArgSource::Bytes(b) && b@.len() == size,
        ArgKind::GlobalMemoryObject | ArgKind::ConstantMemoryObject => v is Null
            || v is MemHandle,
        ArgKind::LocalMemory => true,
        ArgKind::ImageReadOnly | ArgKind::ImageReadWrite | ArgKind::Texture => (v matches
        ArgSource::MemHandle(m) && m is Some),
        ArgKind::Sampler => v is SamplerHandle,
    }
}

/// The value the slot receives once the rules have passed: nothing for a
/// dead argument; an owned copy of the bytes for constant data; the shared
/// object for memory-object kinds, or nothing when the caller handed a null
/// pointer or a null handle (a legal way to leave an optional global
/// unbound); the requested byte size for local memory, whose storage exists
/// only at launch; the shared object for images, textures and samplers.
pub open spec fn bound_value(d: ArgDescriptor, size: usize, v: ArgSource) -> ArgValueModel {
    if d.dead {
        ArgValueModel::Unbound
    } else {
        match d.kind {
            ArgKind::ConstantData => match v {
                ArgSource::Bytes(b) => ArgValueModel::Constant(b@),
                _ => ArgValueModel::Unbound,
            },
            ArgKind::GlobalMemoryObject | ArgKind::ConstantMemoryObject => match v {
                ArgSource::MemHandle(Some(m)) => ArgValueModel::MemObject(m),
                _ => ArgValueModel::Unbound,
            },
            ArgKind::LocalMemory => ArgValueModel::LocalMem(size),
            ArgKind::ImageReadOnly | ArgKind::ImageReadWrite | ArgKind::Texture => match v {
                ArgSource::MemHandle(Some(m)) => ArgValueModel::MemObject(m),
                _ => ArgValueModel::Unbound,
            },
            ArgKind::Sampler => match v {
                ArgSource::SamplerHandle(s) => ArgValueModel::Sampler(s),
                _ => ArgValueModel::Unbound,
            },
        }
    }
}

/// The whole outcome of one bind on the slot contents: the index rule, the
/// size rule, and the presence rule apply in that order; when all pass, the
/// addressed slot — and only that slot — is replaced.
pub open spec fn set_arg_result(
    args: Seq<ArgDescriptor>,
    slots: Seq<ArgValueModel>,
    index: usize,
    size: usize,
    v: ArgSource,
) -> Result<Seq<ArgValueModel>, Error> {
    if index >= args.len() {
        Err(Error::InvalidArgIndex)
    } else if !arg_size_ok(args[index as int], size) {
        Err(Error::InvalidArgSize)
    } else if !arg_value_ok(args[index as int], v) {
        Err(Error::InvalidArgValue)
    } else {
        Ok(slots.update(index as int, bound_value(args[index as int], size, v)))
    }
}

/// Binds one argument of the kernel. On failure no slot changes; on success
/// the addressed slot holds exactly what `bound_value` says and every other
/// slot keeps its content. Descriptors, name, program and required
/// work-group size never change, so one slot per descriptor is preserved.
pub fn set_kernel_arg(k: &mut Kernel, arg_index: usize, arg_size: usize, arg_value: ArgSource) -> (r:
    Result<(), Error>)
    requires
        old(k).wf(),
        arg_index < old(k).args@.len() ==> source_fits(
            old(k).args@[arg_index as int],
            arg_size,
            arg_value,
        ),
    ensures
        final(k).wf(),
        final(k).name == old(k).name,
        final(k).kernel_index == old(k).kernel_index,
        final(k).prog == old(k).prog,
        final(k).args == old(k).args,
        final(k).work_group_size == old(k).work_group_size,
        final(k).attributes == old(k).attributes,
        (match set_arg_result(old(k).args@, old(k).slots(), arg_index, arg_size, arg_value) {
            Ok(slots) => r is Ok && final(k).slots() == slots,
            Err(e) => r == Err::<(), Error>(e) && *final(k) == *old(k),
        }),
{
    if arg_index >= k.args.len() {
        return Err(Error::InvalidArgIndex);
    }
    let kind = k.args[arg_index].kind;
    let dead = k.args[arg_index].dead;
    let declared = k.args[arg_index].size;
    let size_ok = match kind {
        ArgKind::LocalMemory => arg_size != 0,
        ArgKind::GlobalMemoryObject => arg_size == MEM_HANDLE_SIZE,
        _ => arg_size == declared,
    };
    if !size_ok {
        return Err(Error::InvalidArgSize);
    }
    let value_ok = match kind {
        ArgKind::LocalMemory => (match &arg_value {
            ArgSource::Null => true,
            _ => false,
        }),
        ArgKind::ConstantData | ArgKind::Sampler => (match &arg_value {
            ArgSource::Null => false,
            _ => true,
        }),
        _ => true,
    };
    if !value_ok {
        return Err(Error::InvalidArgValue);
    }
    let newv: ArgValue = if dead {
        ArgValue::Unbound
    } else {
        match kind {
            ArgKind::ConstantData => (match arg_value {
                ArgSource::Bytes(b) => ArgValue::Constant(b),
                _ => ArgValue::Unbound,
            }),
            ArgKind::GlobalMemoryObject | ArgKind::ConstantMemoryObject => (match arg_value {
                ArgSource::MemHandle(Some(m)) => ArgValue::MemObject(m),
                _ => ArgValue::Unbound,
            }),
            ArgKind::LocalMemory => ArgValue::LocalMem(arg_size),
            ArgKind::ImageReadOnly | ArgKind::ImageReadWrite | ArgKind::Texture => (
            match arg_value {
                ArgSource::MemHandle(Some(m)) => ArgValue::MemObject(m),
                _ => ArgValue::Unbound,
            }),
            ArgKind::Sampler => (match arg_value {
                ArgSource::SamplerHandle(s) => ArgValue::Sampler(s),
                _ => ArgValue::Unbound,
            }),
        }
    };
    k.values.set(arg_index, newv);
    proof {
        assert(k.slots() =~= old(k).slots().update(
            arg_index as int,
            bound_value(old(k).args@[arg_index as int], arg_size, arg_value),
        ));
    }
    Ok(())
}

/// A bind whose size breaks the size rule of its descriptor's kind fails
/// with `InvalidArgSize`, whatever the kind and whatever value came along.
pub proof fn lemma_size_mismatch_rejected(
    args: Seq<ArgDescriptor>,
    slots: Seq<ArgValueModel>,
    index: usize,
    size: usize,
    v: ArgSource,
)
    requires
        index < args.len(),
        !arg_size_ok(args[index as int], size),
    ensures
        set_arg_result(args, slots, index, size, v) == Err::<Seq<ArgValueModel>, Error>(
            Error::InvalidArgSize,
        ),
{
}

/// Binding constant data and reading the slot back yields byte-identical
/// content: the accepted bind stores exactly the bytes that were handed in.
pub proof fn lemma_constant_round_trip(
    args: Seq<ArgDescriptor>,
    slots: Seq<ArgValueModel>,
    index: usize,
    size: usize,
    bytes: Vec<u8>,
)
    requires
        index < args.len(),
        slots.len() == args.len(),
        args[index as int].kind is ConstantData,
        !args[index as int].dead,
        size == args[index as int].size,
    ensures
        set_arg_result(args, slots, index, size, ArgSource::Bytes(bytes)) matches Ok(slots2)
            && slots2[index as int] == ArgValueModel::Constant(bytes@),
{
}

} // verus!
