use std::rc::Rc;

use kernel_launch::binding::set_kernel_arg;
use kernel_launch::kernel::{create_kernel, Kernel};
use kernel_launch::program::{DeviceBuild, KernelDevInfo, KernelInfo, Program};
use kernel_launch::types::{
    ArgDescriptor, ArgKind, ArgSource, ArgValue, Device, Error, MemRef, SamplerRef,
};

fn device(id: usize, bits: u32) -> Device {
    Device {
        id,
        address_bits: bits,
        max_grid_dimensions: 3,
        max_block_sizes: vec![1024, 1024, 1024],
        subgroups: 32,
    }
}

fn desc(kind: ArgKind, size: usize, dead: bool) -> ArgDescriptor {
    ArgDescriptor {
        kind,
        size,
        dead,
        name: String::from("a"),
        type_string: String::from("t"),
        access_qualifier: 0,
        address_qualifier: 0,
        type_qualifier: 0,
    }
}

fn kernel_with(args: Vec<ArgDescriptor>) -> Kernel {
    let p = Rc::new(Program {
        context_id: 7,
        kernels: vec![KernelInfo {
            name: String::from("foo"),
            attributes: String::new(),
            work_group_size: vec![0, 0, 0],
        }],
        builds: vec![DeviceBuild {
            device: device(1, 64),
            built: true,
            kernels: vec![KernelDevInfo { args, local_mem_size: 0, priv_mem_size: 0 }],
        }],
    });
    create_kernel(&p, &String::from("foo")).unwrap()
}

#[test]
fn constant_bind_reads_back_byte_identical() {
    let mut k = kernel_with(vec![desc(ArgKind::ConstantData, 4, false)]);
    set_kernel_arg(&mut k, 0, 4, ArgSource::Bytes(vec![0xde, 0xad, 0xbe, 0xef])).unwrap();
    match k.arg_binding(0).unwrap() {
        ArgValue::Constant(b) => assert_eq!(b, &vec![0xdeu8, 0xad, 0xbe, 0xef]),
        _ => panic!("constant bind did not store the bytes"),
    }
}

#[test]
fn size_mismatch_fails_for_every_kind() {
    // constant data: size must equal the declared size
    let mut k = kernel_with(vec![desc(ArgKind::ConstantData, 4, false)]);
    let r = set_kernel_arg(&mut k, 0, 3, ArgSource::Bytes(vec![1, 2, 3]));
    assert!(matches!(r, Err(Error::InvalidArgSize)));
    // global memory object: size must equal the handle size (8)
    let mut k = kernel_with(vec![desc(ArgKind::GlobalMemoryObject, 0, false)]);
    let r = set_kernel_arg(&mut k, 0, 4, ArgSource::MemHandle(Some(MemRef { id: 3 })));
    assert!(matches!(r, Err(Error::InvalidArgSize)));
    // constant memory object: size must equal the declared size
    let mut k = kernel_with(vec![desc(ArgKind::ConstantMemoryObject, 8, false)]);
    let r = set_kernel_arg(&mut k, 0, 7, ArgSource::MemHandle(Some(MemRef { id: 3 })));
    assert!(matches!(r, Err(Error::InvalidArgSize)));
    // local memory: a zero size is illegal
    let mut k = kernel_with(vec![desc(ArgKind::LocalMemory, 0, false)]);
    let r = set_kernel_arg(&mut k, 0, 0, ArgSource::Null);
    assert!(matches!(r, Err(Error::InvalidArgSize)));
    // image: size must equal the declared size
    let mut k = kernel_with(vec![desc(ArgKind::ImageReadOnly, 8, false)]);
    let r = set_kernel_arg(&mut k, 0, 9, ArgSource::MemHandle(Some(MemRef { id: 3 })));
    assert!(matches!(r, Err(Error::InvalidArgSize)));
    // sampler: size must equal the declared size
    let mut k = kernel_with(vec![desc(ArgKind::Sampler, 8, false)]);
    let r = set_kernel_arg(&mut k, 0, 9, ArgSource::SamplerHandle(SamplerRef { id: 5 }));
    assert!(matches!(r, Err(Error::InvalidArgSize)));
}

#[test]
fn value_presence_rules() {
    // a local argument must come with no value
    let mut k = kernel_with(vec![desc(ArgKind::LocalMemory, 0, false)]);
    let r = set_kernel_arg(&mut k, 0, 16, ArgSource::MemHandle(None));
    assert!(matches!(r, Err(Error::InvalidArgValue)));
    // constant data must come with one
    let mut k = kernel_with(vec![desc(ArgKind::ConstantData, 4, false)]);
    let r = set_kernel_arg(&mut k, 0, 4, ArgSource::Null);
    assert!(matches!(r, Err(Error::InvalidArgValue)));
    // a sampler must come with one
    let mut k = kernel_with(vec![desc(ArgKind::Sampler, 8, false)]);
    let r = set_kernel_arg(&mut k, 0, 8, ArgSource::Null);
    assert!(matches!(r, Err(Error::InvalidArgValue)));
}

#[test]
fn bind_beyond_declared_count_fails() {
    let mut k = kernel_with(vec![desc(ArgKind::ConstantData, 4, false)]);
    let r = set_kernel_arg(&mut k, 1, 4, ArgSource::Bytes(vec![1, 2, 3, 4]));
    assert!(matches!(r, Err(Error::InvalidArgIndex)));
}

#[test]
fn dead_argument_bind_stores_nothing() {
    let mut k = kernel_with(vec![desc(ArgKind::ConstantData, 4, true)]);
    set_kernel_arg(&mut k, 0, 4, ArgSource::Bytes(vec![1, 2, 3, 4])).unwrap();
    assert!(matches!(k.arg_binding(0).unwrap(), ArgValue::Unbound));
}

#[test]
fn null_global_memory_object_stays_unbound() {
    // a null pointer, and a pointer to a null handle, both leave the
    // optional global unbound without an error
    let mut k = kernel_with(vec![desc(ArgKind::GlobalMemoryObject, 0, false)]);
    set_kernel_arg(&mut k, 0, 8, ArgSource::Null).unwrap();
    assert!(matches!(k.arg_binding(0).unwrap(), ArgValue::Unbound));
    set_kernel_arg(&mut k, 0, 8, ArgSource::MemHandle(None)).unwrap();
    assert!(matches!(k.arg_binding(0).unwrap(), ArgValue::Unbound));
    set_kernel_arg(&mut k, 0, 8, ArgSource::MemHandle(Some(MemRef { id: 11 }))).unwrap();
    match k.arg_binding(0).unwrap() {
        ArgValue::MemObject(m) => assert_eq!(m.id, 11),
        _ => panic!("global bind did not store the object"),
    }
}

#[test]
fn local_memory_bind_stores_the_size() {
    let mut k = kernel_with(vec![desc(ArgKind::LocalMemory, 0, false)]);
    set_kernel_arg(&mut k, 0, 48, ArgSource::Null).unwrap();
    match k.arg_binding(0).unwrap() {
        ArgValue::LocalMem(s) => assert_eq!(*s, 48),
        _ => panic!("local bind did not store the size"),
    }
}

#[test]
fn image_and_sampler_binds_store_the_objects() {
    let mut k = kernel_with(vec![
        desc(ArgKind::ImageReadWrite, 8, false),
        desc(ArgKind::Texture, 8, false),
        desc(ArgKind::Sampler, 8, false),
    ]);
    set_kernel_arg(&mut k, 0, 8, ArgSource::MemHandle(Some(MemRef { id: 21 }))).unwrap();
    set_kernel_arg(&mut k, 1, 8, ArgSource::MemHandle(Some(MemRef { id: 22 }))).unwrap();
    set_kernel_arg(&mut k, 2, 8, ArgSource::SamplerHandle(SamplerRef { id: 23 })).unwrap();
    match k.arg_binding(0).unwrap() {
        ArgValue::MemObject(m) => assert_eq!(m.id, 21),
        _ => panic!("image bind did not store the object"),
    }
    match k.arg_binding(1).unwrap() {
        ArgValue::MemObject(m) => assert_eq!(m.id, 22),
        _ => panic!("texture bind did not store the object"),
    }
    match k.arg_binding(2).unwrap() {
        ArgValue::Sampler(s) => assert_eq!(s.id, 23),
        _ => panic!("sampler bind did not store the object"),
    }
}

#[test]
fn rebinding_replaces_the_previous_value() {
    let mut k = kernel_with(vec![desc(ArgKind::ConstantData, 2, false)]);
    set_kernel_arg(&mut k, 0, 2, ArgSource::Bytes(vec![1, 2])).unwrap();
    set_kernel_arg(&mut k, 0, 2, ArgSource::Bytes(vec![3, 4])).unwrap();
    match k.arg_binding(0).unwrap() {
        ArgValue::Constant(b) => assert_eq!(b, &vec![3u8, 4]),
        _ => panic!("rebind did not replace the value"),
    }
}
