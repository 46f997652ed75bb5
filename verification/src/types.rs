//! Plain-value model of the objects that surround a kernel: error codes,
//! argument metadata, argument values, devices and queues.

use vstd::prelude::*;

verus! {

/// The validation failures that the entry points report. Every one is a
/// terminal, locally detected caller-input error; nothing is retried.
#[derive(Clone, Copy, Debug, PartialEq, Eq, Structural)]
pub enum Error {
    InvalidValue,
    InvalidProgramExecutable,
    InvalidKernelName,
    InvalidKernelDefinition,
    InvalidArgIndex,
    InvalidArgSize,
    InvalidArgValue,
    InvalidContext,
    InvalidKernelArgs,
    InvalidWorkDimension,
    InvalidWorkItemSize,
    InvalidWorkGroupSize,
    InvalidGlobalWorkSize,
    InvalidGlobalOffset,
    InvalidDevice,
    InvalidOperation,
}

/// The closed set of argument kinds a kernel signature can declare.
/// Each kind fixes which size and value rules apply when the argument is bound.
#[derive(Clone, Copy, Debug, PartialEq, Eq, Structural)]
pub enum ArgKind {
    ConstantData,
    GlobalMemoryObject,
    ConstantMemoryObject,
    LocalMemory,
    ImageReadOnly,
    ImageReadWrite,
    Texture,
    Sampler,
}

/// A shared, reference-counted memory object, stood for by its identity.
/// The object itself (its storage, flags, lifetime) lives outside this core.
#[derive(Clone, Copy, Debug, PartialEq, Eq, Structural)]
pub struct MemRef {
    pub id: usize,
}

/// A shared, reference-counted sampler object, stood for by its identity.
#[derive(Clone, Copy, Debug, PartialEq, Eq, Structural)]
pub struct SamplerRef {
    pub id: usize,
}

/// The size in bytes of a memory-object handle on the platform: binding a
/// global memory object demands exactly this argument size.
pub const MEM_HANDLE_SIZE: usize = 8;

/// Static per-argument metadata, fixed when the program was built.
/// `size` is the declared byte size, meaningful for `ConstantData`; `dead`
/// marks an argument the compiler optimized away but kept in the signature.
#[derive(Debug)]
pub struct ArgDescriptor {
    pub kind: ArgKind,
    pub size: usize,
    pub dead: bool,
    pub name: String,
    pub type_string: String,
    pub access_qualifier: u32,
    pub address_qualifier: u32,
    pub type_qualifier: u64,
}

impl ArgDescriptor {
    /// Two descriptors agree when every field carries the same content.
    pub open spec fn matches(self, other: ArgDescriptor) -> bool {
        &&& self.kind == other.kind
        &&& self.size == other.size
        &&& self.dead == other.dead
        &&& self.name@ == other.name@
        &&& self.type_string@ == other.type_string@
        &&& self.access_qualifier == other.access_qualifier
        &&& self.address_qualifier == other.address_qualifier
        &&& self.type_qualifier == other.type_qualifier
    }
}

/// Whole descriptor sequences agree index by index.
pub open spec fn descs_match(a: Seq<ArgDescriptor>, b: Seq<ArgDescriptor>) -> bool {
    a.len() == b.len() && forall|i: int| 0 <= i < a.len() ==> #[trigger] a[i].matches(b[i])
}

/// The value held by one argument slot: at most one value at a time,
/// `Unbound` until the caller binds one; rebinding replaces it.
#[derive(Debug)]
pub enum ArgValue {
    Unbound,
    Constant(Vec<u8>),
    MemObject(MemRef),
    LocalMem(usize),
    Sampler(SamplerRef),
}

/// The mathematical content of one argument slot: a bound constant as its
/// byte sequence, a bound object as its identity.
pub enum ArgValueModel {
    Unbound,
    Constant(Seq<u8>),
    MemObject(MemRef),
    LocalMem(usize),
    Sampler(SamplerRef),
}

impl View for ArgValue {
    type V = ArgValueModel;

    open spec fn view(&self) -> ArgValueModel {
        match self {
            ArgValue::Unbound => ArgValueModel::Unbound,
            ArgValue::Constant(b) => ArgValueModel::Constant(b@),
            ArgValue::MemObject(m) => ArgValueModel::MemObject(*m),
            ArgValue::LocalMem(s) => ArgValueModel::LocalMem(*s),
            ArgValue::Sampler(s) => ArgValueModel::Sampler(*s),
        }
    }
}

impl DeepView for ArgValue {
    type V = ArgValueModel;

    open spec fn deep_view(&self) -> ArgValueModel {
        self.view()
    }
}

/// What the caller hands to an argument bind, already lifted from the raw
/// pointer of the surface API: `Null` is a null pointer; `Bytes` is the
/// buffer a constant-data pointer addresses; `MemHandle` is a pointer to a
/// memory-object handle, `None` when that inner handle is null; and
/// `SamplerHandle` is a pointer to a sampler handle.
#[derive(Debug)]
pub enum ArgSource {
    Null,
    Bytes(Vec<u8>),
    MemHandle(Option<MemRef>),
    SamplerHandle(SamplerRef),
}

/// The capability summary of one device, as the launch validator reads it.
#[derive(Debug)]
pub struct Device {
    pub id: usize,
    pub address_bits: u32,
    pub max_grid_dimensions: u32,
    pub max_block_sizes: Vec<usize>,
    pub subgroups: u32,
}

impl Device {
    /// An address width of 1..=64 bits, a grid of at most three dimensions,
    /// and one work-item limit per possible dimension.
    pub open spec fn wf(self) -> bool {
        &&& 1 <= self.address_bits <= 64
        &&& self.max_grid_dimensions <= 3
        &&& self.max_block_sizes@.len() == 3
    }
}

/// The largest global coordinate a device of the given address width can
/// represent: the all-ones value of that many bits.
pub open spec fn address_max(bits: u32) -> u64
    recommends
        1 <= bits <= 64,
{
    u64::MAX >> (64u32 - bits)
}

/// A command queue, reduced to what launch validation reads of it: the
/// context it shares and the device it feeds.
#[derive(Debug)]
pub struct Queue {
    pub context_id: usize,
    pub device: Device,
}

impl Queue {
    pub open spec fn wf(self) -> bool {
        self.device.wf()
    }
}

} // verus!
