use med_qrng::{
    get_dispid, i32_arg, to_utf16, ArrayHandle, DispatchObject, LockCounters, MemberBehavior,
    QrngError, Variant, DISPATCH_PROPERTYGET,
};

fn object_with(members: Vec<MemberBehavior>) -> DispatchObject {
    DispatchObject {
        members,
        counters: LockCounters { locks: 0, unlocks: 0 },
    }
}

#[test]
fn known_name_resolves_to_its_dispatch_identifier() {
    let obj = object_with(vec![
        MemberBehavior {
            name: to_utf16("DeviceId"),
            dispid: 11,
            kinds: DISPATCH_PROPERTYGET,
            invoke_status: 0,
            result: Variant::Empty,
        },
        MemberBehavior {
            name: to_utf16("RandInt32"),
            dispid: 7,
            kinds: DISPATCH_PROPERTYGET,
            invoke_status: 0,
            result: Variant::Empty,
        },
    ]);
    assert_eq!(get_dispid(&obj, "RandInt32").unwrap(), 7);
    assert_eq!(get_dispid(&obj, "DeviceId").unwrap(), 11);
}

#[test]
fn unknown_name_fails_resolution() {
    let obj = object_with(vec![]);
    match get_dispid(&obj, "NoSuchMember") {
        Err(QrngError::MemberNotFound { name, status }) => {
            assert_eq!(name, "NoSuchMember");
            assert_eq!(status, -2147352570);
        }
        other => panic!("expected MemberNotFound, got {:?}", other),
    }
}

#[test]
fn integer_argument_marshals_with_the_integer_tag() {
    let v = i32_arg(10);
    assert!(matches!(v, Variant::I32(10)));
    let v = i32_arg(-3);
    assert!(matches!(v, Variant::I32(-3)));
}

#[test]
fn truthful_handle_passes_the_wellformedness_check() {
    let h = ArrayHandle {
        lbound: -2,
        ubound: 1,
        bounds_ok: true,
        lock_ok: true,
        data: vec![1u8, 2, 3, 4],
    };
    assert!(h.check_wf());
}

#[test]
fn lying_bounds_fail_the_wellformedness_check() {
    let h = ArrayHandle {
        lbound: 0,
        ubound: 9,
        bounds_ok: true,
        lock_ok: true,
        data: vec![1u8, 2, 3],
    };
    assert!(!h.check_wf());
    let v = Variant::ByteArray(h);
    assert!(!v.check_wf());
}

fn good_member() -> MemberBehavior {
    MemberBehavior {
        name: to_utf16("RandBytes"),
        dispid: 1,
        kinds: DISPATCH_PROPERTYGET,
        invoke_status: 0,
        result: Variant::ByteArray(ArrayHandle {
            lbound: 0,
            ubound: 0,
            bounds_ok: true,
            lock_ok: true,
            data: vec![5u8],
        }),
    }
}

#[test]
fn object_check_walks_every_member() {
    let bad = MemberBehavior {
        name: to_utf16("Diagnostics"),
        dispid: 2,
        kinds: DISPATCH_PROPERTYGET,
        invoke_status: 0,
        result: Variant::ByteArray(ArrayHandle {
            lbound: 0,
            ubound: 5,
            bounds_ok: true,
            lock_ok: true,
            data: vec![],
        }),
    };
    assert!(object_with(vec![good_member()]).check_wf());
    assert!(!object_with(vec![good_member(), bad]).check_wf());
}
