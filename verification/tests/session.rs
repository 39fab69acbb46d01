use med_qrng::{
    to_utf16, ArrayHandle, ComEnvironment, DispatchObject, LockCounters, MedQrng, MemberBehavior,
    QrngError, Variant, WideStringHandle, DISPATCH_METHOD, DISPATCH_PROPERTYGET,
};

fn member(name: &str, kinds: u16, result: Variant) -> MemberBehavior {
    MemberBehavior {
        name: to_utf16(name),
        dispid: 1,
        kinds,
        invoke_status: 0,
        result,
    }
}

fn object_with(members: Vec<MemberBehavior>) -> DispatchObject {
    DispatchObject {
        members,
        counters: LockCounters { locks: 0, unlocks: 0 },
    }
}

fn env_ok() -> ComEnvironment {
    ComEnvironment {
        init_status: 0,
        create_status: 0,
        enter_count: 0,
        leave_count: 0,
    }
}

fn open_with(members: Vec<MemberBehavior>) -> MedQrng {
    let mut env = env_ok();
    MedQrng::new(&mut env, object_with(members)).unwrap()
}

#[test]
fn rand_bytes_ten_element_scenario() {
    let backing: Vec<u8> = vec![7, 1, 8, 2, 9, 3, 0, 4, 6, 5];
    let handle = ArrayHandle {
        lbound: 0,
        ubound: 9,
        bounds_ok: true,
        lock_ok: true,
        data: backing.clone(),
    };
    let mut q = open_with(vec![member(
        "RandBytes",
        DISPATCH_PROPERTYGET,
        Variant::ByteArray(handle),
    )]);
    let bytes = q.rand_bytes(10).unwrap();
    assert_eq!(bytes.len(), 10);
    assert_eq!(bytes, backing);
    assert_eq!(q.object.counters.locks, 1);
    assert_eq!(q.object.counters.unlocks, 1);
}

#[test]
fn device_id_null_handle_scenario() {
    let q = open_with(vec![member(
        "DeviceId",
        DISPATCH_PROPERTYGET,
        Variant::WideString(WideStringHandle::Null),
    )]);
    let id = q.device_id().unwrap();
    assert_eq!(id, "");
}

#[test]
fn rand_int32_double_tagged_scenario() {
    let q = open_with(vec![member(
        "RandInt32",
        DISPATCH_PROPERTYGET,
        Variant::F64Bits(0.5f64.to_bits()),
    )]);
    let r = q.rand_int32();
    assert!(matches!(
        r,
        Err(QrngError::UnexpectedType { expected: 3, got: 5 })
    ));
}

#[test]
fn rand_int32_reads_integer() {
    let q = open_with(vec![member(
        "RandInt32",
        DISPATCH_PROPERTYGET,
        Variant::I32(-123456),
    )]);
    assert_eq!(q.rand_int32().unwrap(), -123456);
}

#[test]
fn rand_uniform_reads_double_bits() {
    let q = open_with(vec![member(
        "RandUniform",
        DISPATCH_PROPERTYGET,
        Variant::F64Bits(0.625f64.to_bits()),
    )]);
    let bits = q.rand_uniform().unwrap();
    assert_eq!(f64::from_bits(bits), 0.625);
}

#[test]
fn rand_normal_reads_double_bits() {
    let q = open_with(vec![member(
        "RandNormal",
        DISPATCH_PROPERTYGET,
        Variant::F64Bits((-1.75f64).to_bits()),
    )]);
    let bits = q.rand_normal().unwrap();
    assert_eq!(f64::from_bits(bits), -1.75);
}

#[test]
fn runtime_info_reads_float_array() {
    let data: Vec<u32> = vec![0.5f32.to_bits(), 3.25f32.to_bits(), (-0.125f32).to_bits()];
    let handle = ArrayHandle {
        lbound: 1,
        ubound: 3,
        bounds_ok: true,
        lock_ok: true,
        data,
    };
    let mut q = open_with(vec![member(
        "RuntimeInfo",
        DISPATCH_PROPERTYGET,
        Variant::FloatArray(handle),
    )]);
    let bits = q.runtime_info().unwrap();
    let floats: Vec<f32> = bits.iter().map(|b| f32::from_bits(*b)).collect();
    assert_eq!(floats, vec![0.5, 3.25, -0.125]);
    assert_eq!(q.object.counters.locks, 1);
    assert_eq!(q.object.counters.unlocks, 1);
}

#[test]
fn diagnostics_is_invoked_as_method() {
    let handle = ArrayHandle {
        lbound: 0,
        ubound: 2,
        bounds_ok: true,
        lock_ok: true,
        data: vec![0x15, 0x16, 0x17],
    };
    let mut q = open_with(vec![member(
        "Diagnostics",
        DISPATCH_METHOD,
        Variant::ByteArray(handle),
    )]);
    let data = q.diagnostics(0x15).unwrap();
    assert_eq!(data, vec![0x15, 0x16, 0x17]);
}

#[test]
fn property_only_member_rejects_method_dispatch() {
    // Diagnostics is dispatched as a method; a member that only answers
    // property reads reports a member-not-found invocation status.
    let handle = ArrayHandle {
        lbound: 0,
        ubound: 0,
        bounds_ok: true,
        lock_ok: true,
        data: vec![1],
    };
    let mut q = open_with(vec![member(
        "Diagnostics",
        DISPATCH_PROPERTYGET,
        Variant::ByteArray(handle),
    )]);
    let r = q.diagnostics(0);
    match r {
        Err(QrngError::InvokeFailed { name, status }) => {
            assert_eq!(name, "Diagnostics");
            assert_eq!(status, -2147352573);
        }
        other => panic!("expected InvokeFailed, got {:?}", other),
    }
}

#[test]
fn unknown_member_reports_name_and_status() {
    let q = open_with(vec![]);
    match q.rand_int32() {
        Err(QrngError::MemberNotFound { name, status }) => {
            assert_eq!(name, "RandInt32");
            assert_eq!(status, -2147352570);
        }
        other => panic!("expected MemberNotFound, got {:?}", other),
    }
}

#[test]
fn failing_driver_status_propagates() {
    let mut m = member("RandInt32", DISPATCH_PROPERTYGET, Variant::I32(1));
    m.invoke_status = -2147467259;
    let q = open_with(vec![m]);
    match q.rand_int32() {
        Err(QrngError::InvokeFailed { name, status }) => {
            assert_eq!(name, "RandInt32");
            assert_eq!(status, -2147467259);
        }
        other => panic!("expected InvokeFailed, got {:?}", other),
    }
}

#[test]
fn clear_and_reset_succeed() {
    let q = open_with(vec![
        member("Clear", DISPATCH_METHOD, Variant::Empty),
        member("Reset", DISPATCH_METHOD, Variant::Empty),
    ]);
    q.clear().unwrap();
    q.reset().unwrap();
}

#[test]
fn failed_init_reports_status_and_touches_nothing() {
    let mut env = env_ok();
    env.init_status = -2147417850;
    let r = MedQrng::new(&mut env, object_with(vec![]));
    assert!(matches!(
        r,
        Err(QrngError::EnvironmentInitFailed {
            status: -2147417850
        })
    ));
    assert_eq!((env.enter_count, env.leave_count), (0, 0));
}

#[test]
fn failed_creation_leaves_no_dangling_entry() {
    let mut env = env_ok();
    env.create_status = -2147221164;
    let r = MedQrng::new(&mut env, object_with(vec![]));
    assert!(matches!(
        r,
        Err(QrngError::DeviceCreateFailed {
            status: -2147221164
        })
    ));
    // The failed attempt unwound its apartment entry.
    assert_eq!(env.enter_count, env.leave_count);

    // A later attempt starts from a clean environment and succeeds.
    env.create_status = 0;
    let q = MedQrng::new(&mut env, object_with(vec![])).unwrap();
    assert_eq!(env.enter_count, env.leave_count + 1);
    q.close(&mut env);
    assert_eq!(env.enter_count, env.leave_count);
}

#[test]
fn close_leaves_the_apartment_once() {
    let mut env = env_ok();
    let q = MedQrng::new(&mut env, object_with(vec![])).unwrap();
    assert_eq!((env.enter_count, env.leave_count), (1, 0));
    q.close(&mut env);
    assert_eq!((env.enter_count, env.leave_count), (1, 1));
}

#[test]
fn resolution_picks_the_first_matching_member() {
    let first = member("RandInt32", DISPATCH_PROPERTYGET, Variant::I32(10));
    let second = member("RandInt32", DISPATCH_PROPERTYGET, Variant::I32(20));
    let q = open_with(vec![first, second]);
    assert_eq!(q.rand_int32().unwrap(), 10);
}

#[test]
fn bounds_failure_surfaces_through_rand_bytes() {
    let handle = ArrayHandle {
        lbound: 0,
        ubound: 4,
        bounds_ok: false,
        lock_ok: true,
        data: vec![1u8, 2, 3, 4, 5],
    };
    let mut q = open_with(vec![member(
        "RandBytes",
        DISPATCH_PROPERTYGET,
        Variant::ByteArray(handle),
    )]);
    let r = q.rand_bytes(5);
    assert!(matches!(r, Err(QrngError::BoundsQueryFailed)));
    assert_eq!((q.object.counters.locks, q.object.counters.unlocks), (0, 0));
}

#[test]
fn lock_failure_surfaces_through_runtime_info() {
    let handle = ArrayHandle {
        lbound: 0,
        ubound: 0,
        bounds_ok: true,
        lock_ok: false,
        data: vec![1.0f32.to_bits()],
    };
    let mut q = open_with(vec![member(
        "RuntimeInfo",
        DISPATCH_PROPERTYGET,
        Variant::FloatArray(handle),
    )]);
    let r = q.runtime_info();
    assert!(matches!(r, Err(QrngError::ArrayLockFailed)));
    assert_eq!((q.object.counters.locks, q.object.counters.unlocks), (0, 0));
}
