use std::rc::Rc;

use kernel_launch::binding::set_kernel_arg;
use kernel_launch::kernel::{create_kernel, Kernel};
use kernel_launch::launch::{enqueue_ndrange_kernel, enqueue_task, LaunchCommand};
use kernel_launch::program::{DeviceBuild, KernelDevInfo, KernelInfo, Program};
use kernel_launch::types::{ArgDescriptor, ArgKind, ArgSource, ArgValue, Device, Error, Queue};

fn device(id: usize, bits: u32, max_block: usize) -> Device {
    Device {
        id,
        address_bits: bits,
        max_grid_dimensions: 3,
        max_block_sizes: vec![max_block, max_block, max_block],
        subgroups: 32,
    }
}

fn desc(kind: ArgKind, size: usize, dead: bool) -> ArgDescriptor {
    ArgDescriptor {
        kind,
        size,
        dead,
        name: String::from("a"),
        type_string: String::from("t"),
        access_qualifier: 0,
        address_qualifier: 0,
        type_qualifier: 0,
    }
}

fn program_with(
    args: Vec<ArgDescriptor>,
    required_wgs: Vec<usize>,
    bits: u32,
    built: bool,
) -> Rc<Program> {
    Rc::new(Program {
        context_id: 7,
        kernels: vec![KernelInfo {
            name: String::from("foo"),
            attributes: String::new(),
            work_group_size: required_wgs,
        }],
        builds: vec![DeviceBuild {
            device: device(1, bits, 1024),
            built,
            kernels: vec![KernelDevInfo { args, local_mem_size: 0, priv_mem_size: 0 }],
        }],
    })
}

fn ready_kernel() -> (Queue, Kernel) {
    let p = program_with(vec![desc(ArgKind::ConstantData, 4, false)], vec![0, 0, 0], 64, true);
    let mut k = create_kernel(&p, &String::from("foo")).unwrap();
    set_kernel_arg(&mut k, 0, 4, ArgSource::Bytes(vec![1, 2, 3, 4])).unwrap();
    let q = Queue { context_id: 7, device: device(1, 64, 1024) };
    (q, k)
}

#[test]
fn work_dim_zero_and_too_large_are_rejected() {
    let (q, k) = ready_kernel();
    let r = enqueue_ndrange_kernel(&q, &k, 0, None, Some(&vec![16]), None);
    assert!(matches!(r, Err(Error::InvalidWorkDimension)));
    let r = enqueue_ndrange_kernel(
        &q,
        &k,
        4,
        None,
        Some(&vec![16, 16, 16, 16]),
        None,
    );
    assert!(matches!(r, Err(Error::InvalidWorkDimension)));
}

#[test]
fn zero_global_dimension_is_a_noop_success() {
    let (q, k) = ready_kernel();
    // the argument is bound, the grid is empty: trivially succeed, no dispatch
    let r = enqueue_ndrange_kernel(&q, &k, 1, None, Some(&vec![0]), None).unwrap();
    assert!(matches!(r, LaunchCommand::NoOp));
    // an absent global size counts as all zero
    let r = enqueue_ndrange_kernel(&q, &k, 1, None, None, None).unwrap();
    assert!(matches!(r, LaunchCommand::NoOp));
    // one empty dimension among three suffices
    let r = enqueue_ndrange_kernel(&q, &k, 3, None, Some(&vec![4, 0, 4]), None).unwrap();
    assert!(matches!(r, LaunchCommand::NoOp));
}

#[test]
fn unbound_argument_blocks_the_launch() {
    let p = program_with(vec![desc(ArgKind::ConstantData, 4, false)], vec![0, 0, 0], 64, true);
    let k = create_kernel(&p, &String::from("foo")).unwrap();
    let q = Queue { context_id: 7, device: device(1, 64, 1024) };
    let r = enqueue_ndrange_kernel(&q, &k, 1, None, Some(&vec![16]), None);
    assert!(matches!(r, Err(Error::InvalidKernelArgs)));
    // the argument check is ordered before the empty-grid shortcut
    let r = enqueue_ndrange_kernel(&q, &k, 1, None, Some(&vec![0]), None);
    assert!(matches!(r, Err(Error::InvalidKernelArgs)));
}

#[test]
fn dead_argument_needs_no_binding() {
    let p = program_with(
        vec![desc(ArgKind::ConstantData, 4, false), desc(ArgKind::ConstantData, 8, true)],
        vec![0, 0, 0],
        64,
        true,
    );
    let mut k = create_kernel(&p, &String::from("foo")).unwrap();
    set_kernel_arg(&mut k, 0, 4, ArgSource::Bytes(vec![1, 2, 3, 4])).unwrap();
    let q = Queue { context_id: 7, device: device(1, 64, 1024) };
    let r = enqueue_ndrange_kernel(&q, &k, 1, None, Some(&vec![16]), None);
    assert!(r.is_ok());
}

#[test]
fn context_mismatch_is_rejected_first() {
    let (_, k) = ready_kernel();
    let q = Queue { context_id: 8, device: device(1, 64, 1024) };
    let r = enqueue_ndrange_kernel(&q, &k, 0, None, None, None);
    assert!(matches!(r, Err(Error::InvalidContext)));
}

#[test]
fn queue_device_without_build_is_rejected() {
    let (_, k) = ready_kernel();
    let q = Queue { context_id: 7, device: device(2, 64, 1024) };
    let r = enqueue_ndrange_kernel(&q, &k, 1, None, Some(&vec![16]), None);
    assert!(matches!(r, Err(Error::InvalidProgramExecutable)));
}

#[test]
fn local_size_above_device_limit_is_rejected() {
    let p = program_with(vec![], vec![0, 0, 0], 64, true);
    let k = create_kernel(&p, &String::from("foo")).unwrap();
    let q = Queue { context_id: 7, device: device(1, 64, 4) };
    let r = enqueue_ndrange_kernel(&q, &k, 1, None, Some(&vec![16]), Some(&vec![8]));
    assert!(matches!(r, Err(Error::InvalidWorkItemSize)));
}

#[test]
fn indivisible_local_size_is_rejected() {
    let (q, k) = ready_kernel();
    let r = enqueue_ndrange_kernel(&q, &k, 1, None, Some(&vec![16]), Some(&vec![3]));
    assert!(matches!(r, Err(Error::InvalidWorkGroupSize)));
}

#[test]
fn required_work_group_size_must_be_met() {
    let p = program_with(vec![], vec![8, 1, 1], 64, true);
    let k = create_kernel(&p, &String::from("foo")).unwrap();
    let q = Queue { context_id: 7, device: device(1, 64, 1024) };
    let r = enqueue_ndrange_kernel(&q, &k, 1, None, Some(&vec![16]), Some(&vec![4]));
    assert!(matches!(r, Err(Error::InvalidWorkGroupSize)));
    let r = enqueue_ndrange_kernel(&q, &k, 1, None, Some(&vec![16]), Some(&vec![8])).unwrap();
    assert!(matches!(r, LaunchCommand::Dispatch { .. }));
}

#[test]
fn global_size_beyond_address_width_is_rejected() {
    let p = program_with(vec![], vec![0, 0, 0], 32, true);
    let k = create_kernel(&p, &String::from("foo")).unwrap();
    let q = Queue { context_id: 7, device: device(1, 32, 1024) };
    let r = enqueue_ndrange_kernel(&q, &k, 1, None, Some(&vec![0x1_0000_0000usize]), None);
    assert!(matches!(r, Err(Error::InvalidGlobalWorkSize)));
}

#[test]
fn offset_pushing_past_address_width_is_rejected() {
    let p = program_with(vec![], vec![0, 0, 0], 32, true);
    let k = create_kernel(&p, &String::from("foo")).unwrap();
    let q = Queue { context_id: 7, device: device(1, 32, 1024) };
    let r = enqueue_ndrange_kernel(
        &q,
        &k,
        1,
        Some(&vec![0x9000_0000usize]),
        Some(&vec![0x8000_0000usize]),
        None,
    );
    assert!(matches!(r, Err(Error::InvalidGlobalOffset)));
}

#[test]
fn offset_overflow_that_wraps_is_rejected() {
    // the raw machine sum wraps; the rule still fires
    let p = program_with(vec![], vec![0, 0, 0], 64, true);
    let k = create_kernel(&p, &String::from("foo")).unwrap();
    let q = Queue { context_id: 7, device: device(1, 64, 1024) };
    let r = enqueue_ndrange_kernel(
        &q,
        &k,
        1,
        Some(&vec![usize::MAX]),
        Some(&vec![usize::MAX]),
        None,
    );
    assert!(matches!(r, Err(Error::InvalidGlobalOffset)));
}

#[test]
fn accepted_dispatch_captures_grid_and_arguments() {
    let (q, k) = ready_kernel();
    let r = enqueue_ndrange_kernel(
        &q,
        &k,
        2,
        Some(&vec![32, 0]),
        Some(&vec![16, 8]),
        Some(&vec![4, 2]),
    )
    .unwrap();
    match r {
        LaunchCommand::Dispatch {
            work_dim,
            global_work_offset,
            global_work_size,
            local_work_size,
            arg_values,
        } => {
            assert_eq!(work_dim, 2);
            assert_eq!(global_work_offset, vec![32, 0]);
            assert_eq!(global_work_size, vec![16, 8]);
            assert_eq!(local_work_size, vec![4, 2]);
            assert_eq!(arg_values.len(), 1);
            match &arg_values[0] {
                ArgValue::Constant(b) => assert_eq!(b, &vec![1u8, 2, 3, 4]),
                _ => panic!("dispatch lost the bound constant"),
            }
        },
        LaunchCommand::NoOp => panic!("a non-empty grid must dispatch"),
    }
}

#[test]
fn absent_local_size_leaves_grouping_to_the_device() {
    let (q, k) = ready_kernel();
    // a zero local entry imposes no divisibility constraint
    let r = enqueue_ndrange_kernel(&q, &k, 1, None, Some(&vec![17]), None).unwrap();
    match r {
        LaunchCommand::Dispatch { local_work_size, global_work_offset, .. } => {
            assert_eq!(local_work_size, vec![0]);
            assert_eq!(global_work_offset, vec![0]);
        },
        LaunchCommand::NoOp => panic!("a non-empty grid must dispatch"),
    }
}

#[test]
fn enqueue_task_is_a_unit_launch() {
    let (q, k) = ready_kernel();
    let r = enqueue_task(&q, &k).unwrap();
    match r {
        LaunchCommand::Dispatch {
            work_dim,
            global_work_size,
            local_work_size,
            global_work_offset,
            ..
        } => {
            assert_eq!(work_dim, 1);
            assert_eq!(global_work_size, vec![1]);
            assert_eq!(local_work_size, vec![1]);
            assert_eq!(global_work_offset, vec![0]);
        },
        LaunchCommand::NoOp => panic!("a task launch dispatches one work item"),
    }
}

#[test]
fn bound_constant_with_empty_grid_and_unbound_with_work() {
    // one constant argument of declared size four: bind it, launch an empty
    // grid — a trivial success with no dispatch, though the slot is bound
    let p = program_with(vec![desc(ArgKind::ConstantData, 4, false)], vec![0, 0, 0], 64, true);
    let mut k = create_kernel(&p, &String::from("foo")).unwrap();
    set_kernel_arg(&mut k, 0, 4, ArgSource::Bytes(vec![5, 6, 7, 8])).unwrap();
    let q = Queue { context_id: 7, device: device(1, 64, 1024) };
    let r = enqueue_ndrange_kernel(&q, &k, 1, None, Some(&vec![0]), None).unwrap();
    assert!(matches!(r, LaunchCommand::NoOp));
    // conversely, omitting the bind and asking for real work is rejected
    let unbound = create_kernel(&p, &String::from("foo")).unwrap();
    let r = enqueue_ndrange_kernel(&q, &unbound, 1, None, Some(&vec![16]), None);
    assert!(matches!(r, Err(Error::InvalidKernelArgs)));
}

#[test]
fn enqueue_task_still_validates() {
    let p = program_with(vec![desc(ArgKind::ConstantData, 4, false)], vec![0, 0, 0], 64, true);
    let k = create_kernel(&p, &String::from("foo")).unwrap();
    let q = Queue { context_id: 7, device: device(1, 64, 1024) };
    let r = enqueue_task(&q, &k);
    assert!(matches!(r, Err(Error::InvalidKernelArgs)));
}
