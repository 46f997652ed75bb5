//! The kernel handle and the factory that derives it from a built program.

use vstd::prelude::*;

use std::rc::Rc;

use crate::program::{
    get_devices_with_valid_build, lemma_first_built_from, lemma_name_index_from, Program,
};
use crate::types::{ArgDescriptor, ArgValue, ArgValueModel, Error};

verus! {

/// A handle to one compiled, invocable function: its name, a shared owning
/// reference to its parent program, the argument descriptors of its
/// signature, and one binding slot per descriptor. The slot array is owned
/// exclusively by this handle; two handles never share slots.
#[derive(Debug)]
pub struct Kernel {
    pub name: String,
    pub kernel_index: usize,
    pub prog: Rc<Program>,
    pub args: Vec<ArgDescriptor>,
    pub values: Vec<ArgValue>,
    pub work_group_size: Vec<usize>,
    pub attributes: String,
}

impl Kernel {
    /// The mathematical content of the argument slots.
    pub open spec fn slots(self) -> Seq<ArgValueModel> {
        self.values.deep_view()
    }

    /// One slot per descriptor — established at creation and preserved by
    /// every operation — a well-formed parent program, the kernel's place in
    /// that program's export list, and a three-entry required work-group size.
    pub open spec fn wf(self) -> bool {
        &&& (*self.prog).wf()
        &&& self.args@.len() == self.values@.len()
        &&& self.work_group_size@.len() == 3
        &&& self.kernel_index < (*self.prog).kernels@.len()
    }
}

/// The kernel `k` is exactly what creation derives for export `j` of program
/// `p`: the name and metadata of that export, the descriptors of the first
/// successfully built device, and every slot unbound.
pub open spec fn kernel_at(p: Program, j: int, k: Kernel) -> bool {
    &&& k.wf()
    &&& *k.prog == p
    &&& k.kernel_index == j
    &&& k.name@ == p.kernels@[j].name@
    &&& k.attributes@ == p.kernels@[j].attributes@
    &&& k.work_group_size@ == p.kernels@[j].work_group_size@
    &&& k.args@ == p.builds@[p.first_built()].kernels@[j].args@
    &&& forall|i: int| 0 <= i < k.slots().len() ==> k.slots()[i] is Unbound
}

/// Relies on alloc::rc::Rc::clone: the returned handle shares the same
/// allocation as the argument, so it carries the same program value.
#[verifier::external_body]
fn share_program(p: &Rc<Program>) -> (r: Rc<Program>)
    ensures
        r == *p,
{
    Rc::clone(p)
}

/// A kernel always carries exactly one binding slot per argument
/// descriptor: creation establishes the parity and every operation keeps it.
pub proof fn lemma_descriptor_slot_parity(k: Kernel)
    requires
        k.wf(),
    ensures
        k.args@.len() == k.slots().len(),
{
}

/// An element-wise copy of a vector of plain values.
pub(crate) fn copy_vec<T: Copy>(v: &Vec<T>) -> (r: Vec<T>)
    ensures
        r@ == v@,
{
    let mut r: Vec<T> = Vec::new();
    let n = v.len();
    for i in 0..n
        invariant
            n == v@.len(),
            r@ == v@.subrange(0, i as int),
    {
        r.push(v[i]);
        proof {
            assert(r@ =~= v@.subrange(0, i + 1));
        }
    }
    proof {
        assert(r@ =~= v@);
    }
    r
}

/// A copy of one descriptor, equal to the original in every field.
fn clone_descriptor(d: &ArgDescriptor) -> (r: ArgDescriptor)
    ensures
        r == *d,
{
    ArgDescriptor {
        kind: d.kind,
        size: d.size,
        dead: d.dead,
        name: d.name.clone(),
        type_string: d.type_string.clone(),
        access_qualifier: d.access_qualifier,
        address_qualifier: d.address_qualifier,
        type_qualifier: d.type_qualifier,
    }
}

/// A copy of a descriptor sequence, element-wise equal to the original.
fn clone_descriptors(v: &Vec<ArgDescriptor>) -> (r: Vec<ArgDescriptor>)
    ensures
        r@ == v@,
{
    let mut r: Vec<ArgDescriptor> = Vec::new();
    let n = v.len();
    for i in 0..n
        invariant
            n == v@.len(),
            r@ == v@.subrange(0, i as int),
    {
        r.push(clone_descriptor(&v[i]));
        proof {
            assert(r@ =~= v@.subrange(0, i + 1));
        }
    }
    proof {
        assert(r@ =~= v@);
    }
    r
}

/// A copy of one slot value with the same content; a bound memory or
/// sampler object is shared, not duplicated.
fn clone_value(a: &ArgValue) -> (r: ArgValue)
    ensures
        r@ == a@,
{
    match a {
        ArgValue::Unbound => ArgValue::Unbound,
        ArgValue::Constant(b) => ArgValue::Constant(copy_vec(b)),
        ArgValue::MemObject(m) => ArgValue::MemObject(*m),
        ArgValue::LocalMem(s) => ArgValue::LocalMem(*s),
        ArgValue::Sampler(s) => ArgValue::Sampler(*s),
    }
}

/// A deep copy of a slot array: same contents, independent storage.
pub(crate) fn clone_values(v: &Vec<ArgValue>) -> (r: Vec<ArgValue>)
    ensures
        r@.len() == v@.len(),
        r.deep_view() == v.deep_view(),
{
    let mut r: Vec<ArgValue> = Vec::new();
    let n = v.len();
    for i in 0..n
        invariant
            n == v@.len(),
            r@.len() == i,
            forall|t: int| 0 <= t < i ==> r@[t]@ == v@[t]@,
    {
        r.push(clone_value(&v[i]));
    }
    proof {
        assert(r.deep_view() =~= v.deep_view());
    }
    r
}

/// A fresh slot array of the given length, every slot unbound.
fn make_unbound_slots(n: usize) -> (r: Vec<ArgValue>)
    ensures
        r@.len() == n,
        forall|i: int| 0 <= i < n ==> r.deep_view()[i] is Unbound,
{
    let mut r: Vec<ArgValue> = Vec::new();
    for i in 0..n
        invariant
            r@.len() == i,
            forall|t: int| 0 <= t < i ==> r@[t]@ is Unbound,
    {
        r.push(ArgValue::Unbound);
    }
    r
}

/// Whether two descriptor lists agree in full.
fn descriptors_equal(a: &Vec<ArgDescriptor>, b: &Vec<ArgDescriptor>) -> (r: bool)
    ensures
        r == crate::types::descs_match(a@, b@),
{
    if a.len() != b.len() {
        return false;
    }
    let n = a.len();
    for i in 0..n
        invariant
            n == a@.len() == b@.len(),
            forall|t: int| 0 <= t < i ==> #[trigger] a@[t].matches(b@[t]),
    {
        let x = &a[i];
        let y = &b[i];
        let same = x.kind == y.kind && x.size == y.size && x.dead == y.dead && x.name == y.name
            && x.type_string == y.type_string && x.access_qualifier == y.access_qualifier
            && x.address_qualifier == y.address_qualifier && x.type_qualifier == y.type_qualifier;
        if !same {
            assert(!crate::types::descs_match(a@, b@)) by {
                assert(!a@[i as int].matches(b@[i as int]));
            }
            return false;
        }
        assert(a@[i as int].matches(b@[i as int]));
    }
    true
}

/// Whether the argument descriptors for export `j` agree across every
/// device with a successful build. `devs` must be the indices that
/// `get_devices_with_valid_build` returned.
fn args_agree(p: &Program, devs: &Vec<usize>, j: usize) -> (r: bool)
    requires
        p.wf(),
        j < p.kernels@.len(),
        devs@.len() >= 1,
        forall|t: int|
            0 <= t < devs@.len() ==> 0 <= #[trigger] devs@[t] < p.builds@.len()
                && p.builds@[devs@[t] as int].built,
        forall|b: int| 0 <= b < p.builds@.len() && p.builds@[b].built ==> devs@.contains(b as usize),
    ensures
        r == p.args_consistent(j as int),
{
    let first = devs[0];
    let n = devs.len();
    let mut t: usize = 1;
    while t < n
        invariant
            p.wf(),
            j < p.kernels@.len(),
            n == devs@.len() >= 1,
            1 <= t <= n,
            first == devs@[0],
            forall|u: int|
                0 <= u < devs@.len() ==> 0 <= #[trigger] devs@[u] < p.builds@.len()
                    && p.builds@[devs@[u] as int].built,
            forall|b: int|
                0 <= b < p.builds@.len() && p.builds@[b].built ==> devs@.contains(b as usize),
            forall|u: int|
                0 <= u < t ==> crate::types::descs_match(
                    p.builds@[#[trigger] devs@[u] as int].kernels@[j as int].args@,
                    p.builds@[devs@[0] as int].kernels@[j as int].args@,
                ),
        decreases n - t,
    {
        let d = devs[t];
        if !descriptors_equal(&p.builds[d].kernels[j].args, &p.builds[first].kernels[j].args) {
            assert(!p.args_consistent(j as int)) by {
                assert(p.builds@[d as int].built && p.builds@[first as int].built);
            }
            return false;
        }
        t += 1;
    }
    assert forall|b1: int, b2: int|
        0 <= b1 < p.builds@.len() && 0 <= b2 < p.builds@.len() && (#[trigger] p.builds@[b1]).built
            && (#[trigger] p.builds@[b2]).built implies crate::types::descs_match(
        p.builds@[b1].kernels@[j as int].args@,
        p.builds@[b2].kernels@[j as int].args@,
    ) by {
        assert(devs@.contains(b1 as usize));
        assert(devs@.contains(b2 as usize));
        let u1 = choose|u: int| 0 <= u < devs@.len() && devs@[u] == b1 as usize;
        let u2 = choose|u: int| 0 <= u < devs@.len() && devs@[u] == b2 as usize;
        assert(0 <= u1 < devs@.len() && devs@[u1] == b1 as usize);
        assert(0 <= u2 < devs@.len() && devs@[u2] == b2 as usize);
        assert(p.builds@.len() <= usize::MAX) by {
            vstd::std_specs::vec::axiom_spec_len(&p.builds);
        }
        assert(devs@[u1] as int == b1);
        assert(devs@[u2] as int == b2);
        let s1 = p.builds@[b1].kernels@[j as int].args@;
        let s2 = p.builds@[b2].kernels@[j as int].args@;
        let s0 = p.builds@[devs@[0] as int].kernels@[j as int].args@;
        assert(crate::types::descs_match(s1, s0));
        assert(crate::types::descs_match(s2, s0));
        assert forall|i: int| 0 <= i < s1.len() implies #[trigger] s1[i].matches(s2[i]) by {
            assert(s1[i].matches(s0[i]));
            assert(s2[i].matches(s0[i]));
        }
    }
    true
}

/// The first entry of the ascending, complete list of built-device indices
/// is exactly the first successfully built device.
proof fn lemma_devs_head_is_first_built(p: Program, devs: Seq<usize>)
    requires
        devs.len() >= 1,
        forall|t: int|
            0 <= t < devs.len() ==> 0 <= #[trigger] devs[t] < p.builds@.len()
                && p.builds@[devs[t] as int].built,
        forall|b: int| 0 <= b < p.builds@.len() && p.builds@[b].built ==> devs.contains(b as usize),
        forall|t1: int, t2: int| 0 <= t1 < t2 < devs.len() ==> devs[t1] < devs[t2],
    ensures
        devs[0] == p.first_built(),
        p.first_built() < p.builds@.len(),
{
    lemma_first_built_from(p.builds@, 0);
    let f = p.first_built();
    assert(p.builds@[devs[0] as int].built);
    assert(f < p.builds@.len());
    assert(devs[0] >= f) by {
        if devs[0] < f {
            assert(!p.builds@[devs[0] as int].built);
        }
    }
    assert(p.builds@[f].built);
    assert(devs.contains(f as usize));
    let t = choose|t: int| 0 <= t < devs.len() && devs[t] == f as usize;
    if t > 0 {
        assert(devs[0] < devs[t]);
    }
}

/// Builds the kernel handle for export `j`, copying the signature of the
/// first successfully built device and leaving every slot unbound.
fn make_kernel_at(program: &Rc<Program>, first: usize, j: usize) -> (k: Kernel)
    requires
        (**program).wf(),
        j < (**program).kernels@.len(),
        first == (**program).first_built(),
        first < (**program).builds@.len(),
    ensures
        kernel_at(**program, j as int, k),
{
    let p: &Program = &**program;
    let args = clone_descriptors(&p.builds[first].kernels[j].args);
    let n_args = args.len();
    Kernel {
        name: p.kernels[j].name.clone(),
        kernel_index: j,
        prog: share_program(program),
        args,
        values: make_unbound_slots(n_args),
        work_group_size: copy_vec(&p.kernels[j].work_group_size),
        attributes: p.kernels[j].attributes.clone(),
    }
}

/// Derives a kernel handle for the named exported function of a built
/// program. Fails `InvalidValue` on an empty name, `InvalidProgramExecutable`
/// when no device built successfully, `InvalidKernelName` when the name is
/// not exported, and `InvalidKernelDefinition` when the built devices
/// disagree on the argument signature; otherwise returns a fresh kernel with
/// every slot unbound, sharing ownership of the program.
pub fn create_kernel(program: &Rc<Program>, kernel_name: &String) -> (r: Result<Kernel, Error>)
    requires
        (**program).wf(),
    ensures
        match r {
            Ok(k) => {
                &&& kernel_name@.len() > 0
                &&& (**program).has_built_device()
                &&& (**program).exports(kernel_name@)
                &&& (**program).args_consistent((**program).name_index(kernel_name@))
                &&& kernel_at(**program, (**program).name_index(kernel_name@), k)
                &&& k.name@ == kernel_name@
            },
            Err(e) => {
                if kernel_name@.len() == 0 {
                    e == Error::InvalidValue
                } else if !(**program).has_built_device() {
                    e == Error::InvalidProgramExecutable
                } else if !(**program).exports(kernel_name@) {
                    e == Error::InvalidKernelName
                } else {
                    e == Error::InvalidKernelDefinition && !(**program).args_consistent(
                        (**program).name_index(kernel_name@),
                    )
                }
            },
        },
        r is Err <==> !(kernel_name@.len() > 0 && (**program).has_built_device()
            && (**program).exports(kernel_name@) && (**program).args_consistent(
            (**program).name_index(kernel_name@),
        )),
{
    let p: &Program = &**program;
    if kernel_name.as_str().unicode_len() == 0 {
        return Err(Error::InvalidValue);
    }
    let devs = match get_devices_with_valid_build(p) {
        Ok(devs) => devs,
        Err(e) => {
            return Err(e);
        },
    };
    let n_names = p.kernels.len();
    let mut j: usize = 0;
    let mut found = false;
    while !found && j < n_names
        invariant
            n_names == p.kernels@.len(),
            0 <= j <= n_names,
            forall|t: int| 0 <= t < j ==> p.kernels@[t].name@ != kernel_name@,
            found ==> j < n_names && p.kernels@[j as int].name@ == kernel_name@,
        decreases n_names - j + (if found { 0int } else { 1int }),
    {
        if p.kernels[j].name.eq(kernel_name) {
            found = true;
        } else {
            j += 1;
        }
    }
    proof {
        lemma_name_index_from(p.kernels@, kernel_name@, 0);
    }
    if !found {
        assert(!p.exports(kernel_name@));
        return Err(Error::InvalidKernelName);
    }
    assert(p.name_index(kernel_name@) == j);
    if !args_agree(p, &devs, j) {
        return Err(Error::InvalidKernelDefinition);
    }
    let first = devs[0];
    proof {
        lemma_devs_head_is_first_built(*p, devs@);
    }
    Ok(make_kernel_at(program, first, j))
}

/// The indices of the exported names, below `n`, whose signatures agree
/// across the built devices — the kernels a whole-program creation produces,
/// in export order.
pub open spec fn consistent_upto(p: Program, n: int) -> Seq<int>
    decreases n,
{
    if n <= 0 {
        Seq::empty()
    } else if p.args_consistent(n - 1) {
        consistent_upto(p, n - 1).push(n - 1)
    } else {
        consistent_upto(p, n - 1)
    }
}

/// The export indices that a whole-program creation instantiates.
pub open spec fn consistent_indices(p: Program) -> Seq<int> {
    consistent_upto(p, p.kernels@.len() as int)
}

/// Derives one kernel per exported name whose signature agrees across the
/// built devices, skipping disagreeing names silently. Fails
/// `InvalidProgramExecutable` when no device built; when an output capacity
/// is supplied and is smaller than the number of kernels that would be
/// produced, fails `InvalidValue` up front. Returns the produced kernels
/// (none when no capacity was supplied — the caller asked only for the
/// count) and the true count.
pub fn create_kernels_in_program(program: &Rc<Program>, capacity: Option<usize>) -> (r: Result<
    (Vec<Kernel>, usize),
    Error,
>)
    requires
        (**program).wf(),
    ensures
        match r {
            Ok((ks, count)) => {
                &&& (**program).has_built_device()
                &&& count == consistent_indices(**program).len()
                &&& (match capacity {
                    Some(c) => {
                        &&& count <= c
                        &&& ks@.len() == count
                        &&& forall|t: int|
                            0 <= t < ks@.len() ==> kernel_at(
                                **program,
                                consistent_indices(**program)[t],
                                #[trigger] ks@[t],
                            )
                    },
                    None => ks@.len() == 0,
                })
            },
            Err(e) => {
                if !(**program).has_built_device() {
                    e == Error::InvalidProgramExecutable
                } else {
                    &&& e == Error::InvalidValue
                    &&& capacity matches Some(c) && c < consistent_indices(**program).len()
                }
            },
        },
{
    let p: &Program = &**program;
    let devs = match get_devices_with_valid_build(p) {
        Ok(devs) => devs,
        Err(e) => {
            return Err(e);
        },
    };
    let first = devs[0];
    proof {
        lemma_devs_head_is_first_built(*p, devs@);
    }
    let n_names = p.kernels.len();
    let mut count: usize = 0;
    for j in 0..n_names
        invariant
            n_names == p.kernels@.len(),
            count == consistent_upto(*p, j as int).len(),
            count <= j,
            (**program).wf(),
            p == &(**program),
            devs@.len() >= 1,
            forall|t: int|
                0 <= t < devs@.len() ==> 0 <= #[trigger] devs@[t] < p.builds@.len()
                    && p.builds@[devs@[t] as int].built,
            forall|b: int|
                0 <= b < p.builds@.len() && p.builds@[b].built ==> devs@.contains(b as usize),
    {
        if args_agree(p, &devs, j) {
            count += 1;
        }
    }
    if let Some(c) = capacity {
        if count > c {
            return Err(Error::InvalidValue);
        }
    }
    let mut ks: Vec<Kernel> = Vec::new();
    if capacity.is_some() {
        for j in 0..n_names
            invariant
                n_names == p.kernels@.len(),
                (**program).wf(),
                p == &(**program),
                first == p.first_built(),
                first < p.builds@.len(),
                devs@.len() >= 1,
                forall|t: int|
                    0 <= t < devs@.len() ==> 0 <= #[trigger] devs@[t] < p.builds@.len()
                        && p.builds@[devs@[t] as int].built,
                forall|b: int|
                    0 <= b < p.builds@.len() && p.builds@[b].built ==> devs@.contains(b as usize),
                ks@.len() == consistent_upto(*p, j as int).len(),
                forall|t: int|
                    0 <= t < ks@.len() ==> kernel_at(
                        **program,
                        consistent_upto(*p, j as int)[t],
                        #[trigger] ks@[t],
                    ),
        {
            if args_agree(p, &devs, j) {
                ks.push(make_kernel_at(program, first, j));
            }
        }
        proof {
            lemma_consistent_upto_len(*p, n_names as int);
        }
    }
    proof {
        lemma_consistent_upto_len(*p, n_names as int);
    }
    Ok((ks, count))
}

/// Every entry of `consistent_upto` is an export index below `n`, and the
/// entries ascend, so there are at most `n` of them.
pub proof fn lemma_consistent_upto_len(p: Program, n: int)
    requires
        n >= 0,
    ensures
        consistent_upto(p, n).len() <= n,
        forall|t: int|
            0 <= t < consistent_upto(p, n).len() ==> 0 <= #[trigger] consistent_upto(p, n)[t] < n,
    decreases n,
{
    if n > 0 {
        lemma_consistent_upto_len(p, n - 1);
    }
}

/// An independent kernel with the same name, descriptors, required
/// work-group size, and slot contents as the source at the moment of the
/// call, sharing the same program; later binds on either handle leave the
/// other untouched, since each owns its slot array.
pub fn clone_kernel(k: &Kernel) -> (r: Kernel)
    requires
        k.wf(),
    ensures
        r.wf(),
        r.name@ == k.name@,
        r.kernel_index == k.kernel_index,
        r.prog == k.prog,
        r.args@ == k.args@,
        r.slots() == k.slots(),
        r.work_group_size@ == k.work_group_size@,
        r.attributes@ == k.attributes@,
{
    Kernel {
        name: k.name.clone(),
        kernel_index: k.kernel_index,
        prog: share_program(&k.prog),
        args: clone_descriptors(&k.args),
        values: clone_values(&k.values),
        work_group_size: copy_vec(&k.work_group_size),
        attributes: k.attributes.clone(),
    }
}

} // verus!
