use vstd::prelude::*;
use crate::codec::{decode_bstr_spec, decode_byte_array_spec, decode_f32_array_spec, decode_f64_bits_spec, decode_i32_spec, byte_array_lock_effect, float_array_lock_effect, variant_to_bstr, variant_to_byte_array, variant_to_f32_array, variant_to_f64_bits, variant_to_i32, LockCounters};
use crate::dispatch::{has_member, invoke_contract, invoke_member, resolves_to, DispatchObject, MemberBehavior, DISPATCH_METHOD, DISPATCH_PROPERTYGET, i32_arg};
use crate::error::{errs_invoke_failed, errs_member_not_found, QrngError, CO_E_CLASSSTRING, DISP_E_MEMBERNOTFOUND, S_OK};
use crate::guid::{clsid_text, get_qwqng_clsid, guid_matches_bytes, uuid_parse_of, Guid};
use crate::values::Variant;
use crate::wide::wide_name;

verus! {

/// The host environment outside the session: whether entering the
/// automation apartment and creating the device object will succeed, and how
/// often the apartment has been entered and left.
pub struct ComEnvironment {
    /// The status the next apartment entry reports.
    pub init_status: i32,
    /// The status the next device-object creation reports.
    pub create_status: i32,
    /// How often the apartment has been entered.
    pub enter_count: u64,
    /// How often the apartment has been left.
    pub leave_count: u64,
}

impl ComEnvironment {
    /// The apartment depth: entries minus exits.  A failed session leaves
    /// this as it found it.
    pub open spec fn depth(self) -> int {
        self.enter_count - self.leave_count
    }
}

/// What one property or method call for `name` must yield when it decodes a
/// 32-bit integer, given that `i` is the index the name resolves to.
pub open spec fn step_i32(
    members: Seq<MemberBehavior>,
    name: Seq<char>,
    flags: u16,
    i: int,
    r: Result<i32, QrngError>,
) -> bool {
    let m = members[i];
    &&& (m.kinds & flags) == 0 ==> errs_invoke_failed(r, name, DISP_E_MEMBERNOTFOUND)
    &&& (m.kinds & flags) != 0 && m.invoke_status != S_OK ==> errs_invoke_failed(
        r,
        name,
        m.invoke_status,
    )
    &&& (m.kinds & flags) != 0 && m.invoke_status == S_OK ==> r == decode_i32_spec(m.result)
}

/// As `step_i32`, for a call that decodes the bit pattern of a double.
pub open spec fn step_f64_bits(
    members: Seq<MemberBehavior>,
    name: Seq<char>,
    flags: u16,
    i: int,
    r: Result<u64, QrngError>,
) -> bool {
    let m = members[i];
    &&& (m.kinds & flags) == 0 ==> errs_invoke_failed(r, name, DISP_E_MEMBERNOTFOUND)
    &&& (m.kinds & flags) != 0 && m.invoke_status != S_OK ==> errs_invoke_failed(
        r,
        name,
        m.invoke_status,
    )
    &&& (m.kinds & flags) != 0 && m.invoke_status == S_OK ==> r == decode_f64_bits_spec(m.result)
}

/// As `step_i32`, for a call that decodes a wide string.
pub open spec fn step_bstr(
    members: Seq<MemberBehavior>,
    name: Seq<char>,
    flags: u16,
    i: int,
    r: Result<String, QrngError>,
) -> bool {
    let m = members[i];
    &&& (m.kinds & flags) == 0 ==> errs_invoke_failed(r, name, DISP_E_MEMBERNOTFOUND)
    &&& (m.kinds & flags) != 0 && m.invoke_status != S_OK ==> errs_invoke_failed(
        r,
        name,
        m.invoke_status,
    )
    &&& (m.kinds & flags) != 0 && m.invoke_status == S_OK ==> (match r {
        Ok(s) => decode_bstr_spec(m.result) matches Ok(d) && s@ == d,
        Err(e) => decode_bstr_spec(m.result) matches Err(e2) && e == e2,
    })
}

/// As `step_i32`, for a call that returns no value.
pub open spec fn step_unit(
    members: Seq<MemberBehavior>,
    name: Seq<char>,
    flags: u16,
    i: int,
    r: Result<(), QrngError>,
) -> bool {
    let m = members[i];
    &&& (m.kinds & flags) == 0 ==> errs_invoke_failed(r, name, DISP_E_MEMBERNOTFOUND)
    &&& (m.kinds & flags) != 0 && m.invoke_status != S_OK ==> errs_invoke_failed(
        r,
        name,
        m.invoke_status,
    )
    &&& (m.kinds & flags) != 0 && m.invoke_status == S_OK ==> r == Ok::<(), QrngError>(())
}

/// As `step_i32`, for a call that decodes a byte array; `c0` and `c1` are
/// the driver's lock counters before and after, so the clause also pins the
/// lock discipline: exactly one release per acquisition, none elsewhere.
pub open spec fn step_bytes(
    members: Seq<MemberBehavior>,
    name: Seq<char>,
    flags: u16,
    i: int,
    r: Result<Vec<u8>, QrngError>,
    c0: LockCounters,
    c1: LockCounters,
) -> bool {
    let m = members[i];
    &&& (m.kinds & flags) == 0 ==> errs_invoke_failed(r, name, DISP_E_MEMBERNOTFOUND) && c1 == c0
    &&& (m.kinds & flags) != 0 && m.invoke_status != S_OK ==> errs_invoke_failed(
        r,
        name,
        m.invoke_status,
    ) && c1 == c0
    &&& (m.kinds & flags) != 0 && m.invoke_status == S_OK ==> ({
        &&& (match r {
            Ok(b) => decode_byte_array_spec(m.result) matches Ok(d) && b@ == d,
            Err(e) => decode_byte_array_spec(m.result) matches Err(e2) && e == e2,
        })
        &&& c1.locks == c0.locks + byte_array_lock_effect(m.result)
        &&& c1.unlocks == c0.unlocks + byte_array_lock_effect(m.result)
    })
}

/// As `step_bytes`, for a call that decodes a float array into element bit
/// patterns.
pub open spec fn step_f32s(
    members: Seq<MemberBehavior>,
    name: Seq<char>,
    flags: u16,
    i: int,
    r: Result<Vec<u32>, QrngError>,
    c0: LockCounters,
    c1: LockCounters,
) -> bool {
    let m = members[i];
    &&& (m.kinds & flags) == 0 ==> errs_invoke_failed(r, name, DISP_E_MEMBERNOTFOUND) && c1 == c0
    &&& (m.kinds & flags) != 0 && m.invoke_status != S_OK ==> errs_invoke_failed(
        r,
        name,
        m.invoke_status,
    ) && c1 == c0
    &&& (m.kinds & flags) != 0 && m.invoke_status == S_OK ==> ({
        &&& (match r {
            Ok(b) => decode_f32_array_spec(m.result) matches Ok(d) && b@ == d,
            Err(e) => decode_f32_array_spec(m.result) matches Err(e2) && e == e2,
        })
        &&& c1.locks == c0.locks + float_array_lock_effect(m.result)
        &&& c1.unlocks == c0.unlocks + float_array_lock_effect(m.result)
    })
}

/// One live connection to the device's automation object.  The session must
/// stay on the thread that opened it: the apartment model it enters is
/// single-threaded.
pub struct MedQrng {
    /// The automation object the session owns.
    pub object: DispatchObject,
    /// The class identifier the session resolved while opening.
    pub clsid: Guid,
}

impl MedQrng {
    /// Opens a session: enters the automation apartment, resolves the vendor
    /// class identifier and creates the device object.  On every failure
    /// after a successful entry, the apartment entry is unwound before the
    /// error returns, so a failed attempt leaves the environment's depth as
    /// it found it.
    pub fn new(env: &mut ComEnvironment, object: DispatchObject) -> (r: Result<MedQrng, QrngError>)
        requires
            old(env).enter_count < u64::MAX,
            old(env).leave_count < u64::MAX,
        ensures
            final(env).init_status == old(env).init_status,
            final(env).create_status == old(env).create_status,
            r is Err ==> final(env).depth() == old(env).depth(),
            old(env).init_status != S_OK ==> ({
                &&& r matches Err(e)
                &&& e matches QrngError::EnvironmentInitFailed { status }
                &&& status == old(env).init_status
                &&& *final(env) == *old(env)
            }),
            old(env).init_status == S_OK && uuid_parse_of(clsid_text()) is None ==> ({
                &&& r matches Err(e)
                &&& e matches QrngError::DeviceCreateFailed { status }
                &&& status == CO_E_CLASSSTRING
            }),
            old(env).init_status == S_OK && uuid_parse_of(clsid_text()) is Some && old(
                env,
            ).create_status != S_OK ==> ({
                &&& r matches Err(e)
                &&& e matches QrngError::DeviceCreateFailed { status }
                &&& status == old(env).create_status
            }),
            old(env).init_status == S_OK && uuid_parse_of(clsid_text()) is Some && old(
                env,
            ).create_status == S_OK ==> r is Ok,
            r is Err && old(env).init_status == S_OK ==> final(env).enter_count == old(
                env,
            ).enter_count + 1 && final(env).leave_count == old(env).leave_count + 1,
            r matches Ok(q) ==> ({
                &&& q.object == object
                &&& (uuid_parse_of(clsid_text()) matches Some(b) && guid_matches_bytes(q.clsid, b))
                &&& final(env).enter_count == old(env).enter_count + 1
                &&& final(env).leave_count == old(env).leave_count
            }),
    {
        if env.init_status != S_OK {
            return Err(QrngError::EnvironmentInitFailed { status: env.init_status });
        }
        env.enter_count = env.enter_count + 1;
        let clsid = match get_qwqng_clsid() {
            Ok(g) => g,
            Err(e) => {
                env.leave_count = env.leave_count + 1;
                return Err(e);
            },
        };
        if env.create_status != S_OK {
            let status = env.create_status;
            env.leave_count = env.leave_count + 1;
            return Err(QrngError::DeviceCreateFailed { status });
        }
        Ok(MedQrng { object, clsid })
    }

    /// Ends the session and leaves the automation apartment.  Taking the
    /// session by value, the exit runs exactly once per opened session.
    pub fn close(self, env: &mut ComEnvironment)
        requires
            old(env).leave_count < u64::MAX,
        ensures
            final(env).leave_count == old(env).leave_count + 1,
            final(env).enter_count == old(env).enter_count,
            final(env).init_status == old(env).init_status,
            final(env).create_status == old(env).create_status,
    {
        env.leave_count = env.leave_count + 1;
    }

    /// Performs a property-get dispatch call with the given pre-built
    /// arguments; yields the member-table index whose tagged value the call
    /// returned.
    fn invoke_property(&self, name: &str, args: &Vec<Variant>) -> (r: Result<usize, QrngError>)
        ensures
            invoke_contract(self.object.members@, name@, DISPATCH_PROPERTYGET, r),
            r matches Ok(i) ==> resolves_to(self.object.members@, wide_name(name@), i as int),
    {
        invoke_member(&self.object, name, DISPATCH_PROPERTYGET, args)
    }

    /// Performs a property-get dispatch call with a single 32-bit integer
    /// argument.
    fn invoke_property_with_i32_arg(&self, name: &str, arg: i32) -> (r: Result<usize, QrngError>)
        ensures
            invoke_contract(self.object.members@, name@, DISPATCH_PROPERTYGET, r),
            r matches Ok(i) ==> resolves_to(self.object.members@, wide_name(name@), i as int),
    {
        let args = vec![i32_arg(arg)];
        self.invoke_property(name, &args)
    }

    /// Performs a method dispatch call and yields the member-table index
    /// whose tagged value the call returned.
    fn invoke_method_return(&self, name: &str, args: &Vec<Variant>) -> (r: Result<usize, QrngError>)
        ensures
            invoke_contract(self.object.members@, name@, DISPATCH_METHOD, r),
            r matches Ok(i) ==> resolves_to(self.object.members@, wide_name(name@), i as int),
    {
        invoke_member(&self.object, name, DISPATCH_METHOD, args)
    }

    /// Performs a method dispatch call whose return value the caller
    /// discards.
    fn invoke_method(&self, name: &str, args: &Vec<Variant>) -> (r: Result<(), QrngError>)
        ensures
            !has_member(self.object.members@, wide_name(name@)) ==> errs_member_not_found(r, name@),
            forall|i: int|
                #[trigger] resolves_to(self.object.members@, wide_name(name@), i) ==> step_unit(
                    self.object.members@,
                    name@,
                    DISPATCH_METHOD,
                    i,
                    r,
                ),
    {
        match self.invoke_method_return(name, args) {
            Ok(_) => Ok(()),
            Err(e) => Err(e),
        }
    }

    /// Performs a method dispatch call with a single 32-bit integer
    /// argument.
    fn invoke_method_with_i32_arg(&self, name: &str, arg: i32) -> (r: Result<usize, QrngError>)
        ensures
            invoke_contract(self.object.members@, name@, DISPATCH_METHOD, r),
            r matches Ok(i) ==> resolves_to(self.object.members@, wide_name(name@), i as int),
    {
        let args = vec![i32_arg(arg)];
        self.invoke_method_return(name, &args)
    }

    /// Reads one 32-bit signed integer from the device's `RandInt32`
    /// property.
    pub fn rand_int32(&self) -> (r: Result<i32, QrngError>)
        ensures
            !has_member(self.object.members@, wide_name("RandInt32"@)) ==> errs_member_not_found(
                r,
                "RandInt32"@,
            ),
            forall|i: int|
                #[trigger] resolves_to(self.object.members@, wide_name("RandInt32"@), i)
                    ==> step_i32(self.object.members@, "RandInt32"@, DISPATCH_PROPERTYGET, i, r),
    {
        let args: Vec<Variant> = Vec::new();
        let idx = match self.invoke_property("RandInt32", &args) {
            Ok(i) => i,
            Err(e) => {
                return Err(e);
            },
        };
        variant_to_i32(&self.object.members[idx].result)
    }

    /// Reads one uniform double from the device's `RandUniform` property, as
    /// the raw bit pattern of the double.
    pub fn rand_uniform(&self) -> (r: Result<u64, QrngError>)
        ensures
            !has_member(self.object.members@, wide_name("RandUniform"@)) ==> errs_member_not_found(
                r,
                "RandUniform"@,
            ),
            forall|i: int|
                #[trigger] resolves_to(self.object.members@, wide_name("RandUniform"@), i)
                    ==> step_f64_bits(
                    self.object.members@,
                    "RandUniform"@,
                    DISPATCH_PROPERTYGET,
                    i,
                    r,
                ),
    {
        let args: Vec<Variant> = Vec::new();
        let idx = match self.invoke_property("RandUniform", &args) {
            Ok(i) => i,
            Err(e) => {
                return Err(e);
            },
        };
        variant_to_f64_bits(&self.object.members[idx].result)
    }

    /// Reads one normally distributed double from the device's `RandNormal`
    /// property, as the raw bit pattern of the double.
    pub fn rand_normal(&self) -> (r: Result<u64, QrngError>)
        ensures
            !has_member(self.object.members@, wide_name("RandNormal"@)) ==> errs_member_not_found(
                r,
                "RandNormal"@,
            ),
            forall|i: int|
                #[trigger] resolves_to(self.object.members@, wide_name("RandNormal"@), i)
                    ==> step_f64_bits(
                    self.object.members@,
                    "RandNormal"@,
                    DISPATCH_PROPERTYGET,
                    i,
                    r,
                ),
    {
        let args: Vec<Variant> = Vec::new();
        let idx = match self.invoke_property("RandNormal", &args) {
            Ok(i) => i,
            Err(e) => {
                return Err(e);
            },
        };
        variant_to_f64_bits(&self.object.members[idx].result)
    }

    /// Reads random bytes from the device's `RandBytes` property, passing
    /// the desired length as the single integer argument.
    pub fn rand_bytes(&mut self, length: i32) -> (r: Result<Vec<u8>, QrngError>)
        requires
            old(self).object.wf(),
            old(self).object.counters.locks < u64::MAX,
            old(self).object.counters.unlocks < u64::MAX,
        ensures
            final(self).clsid == old(self).clsid,
            final(self).object.members == old(self).object.members,
            !has_member(old(self).object.members@, wide_name("RandBytes"@)) ==> (
            errs_member_not_found(r, "RandBytes"@) && final(self).object.counters == old(
                self,
            ).object.counters),
            forall|i: int|
                #[trigger] resolves_to(old(self).object.members@, wide_name("RandBytes"@), i)
                    ==> step_bytes(
                    old(self).object.members@,
                    "RandBytes"@,
                    DISPATCH_PROPERTYGET,
                    i,
                    r,
                    old(self).object.counters,
                    final(self).object.counters,
                ),
    {
        let idx = match self.invoke_property_with_i32_arg("RandBytes", length) {
            Ok(i) => i,
            Err(e) => {
                return Err(e);
            },
        };
        let mut c = LockCounters {
            locks: self.object.counters.locks,
            unlocks: self.object.counters.unlocks,
        };
        let r = variant_to_byte_array(&self.object.members[idx].result, &mut c);
        self.object.counters = c;
        r
    }

    /// Reads the device serial number from the `DeviceId` property.
    pub fn device_id(&self) -> (r: Result<String, QrngError>)
        ensures
            !has_member(self.object.members@, wide_name("DeviceId"@)) ==> errs_member_not_found(
                r,
                "DeviceId"@,
            ),
            forall|i: int|
                #[trigger] resolves_to(self.object.members@, wide_name("DeviceId"@), i)
                    ==> step_bstr(self.object.members@, "DeviceId"@, DISPATCH_PROPERTYGET, i, r),
    {
        let args: Vec<Variant> = Vec::new();
        let idx = match self.invoke_property("DeviceId", &args) {
            Ok(i) => i,
            Err(e) => {
                return Err(e);
            },
        };
        variant_to_bstr(&self.object.members[idx].result)
    }

    /// Reads runtime information from the device's `RuntimeInfo` property:
    /// an array of single-precision floats, element by element a bit
    /// pattern.
    pub fn runtime_info(&mut self) -> (r: Result<Vec<u32>, QrngError>)
        requires
            old(self).object.wf(),
            old(self).object.counters.locks < u64::MAX,
            old(self).object.counters.unlocks < u64::MAX,
        ensures
            final(self).clsid == old(self).clsid,
            final(self).object.members == old(self).object.members,
            !has_member(old(self).object.members@, wide_name("RuntimeInfo"@)) ==> (
            errs_member_not_found(r, "RuntimeInfo"@) && final(self).object.counters == old(
                self,
            ).object.counters),
            forall|i: int|
                #[trigger] resolves_to(old(self).object.members@, wide_name("RuntimeInfo"@), i)
                    ==> step_f32s(
                    old(self).object.members@,
                    "RuntimeInfo"@,
                    DISPATCH_PROPERTYGET,
                    i,
                    r,
                    old(self).object.counters,
                    final(self).object.counters,
                ),
    {
        let args: Vec<Variant> = Vec::new();
        let idx = match self.invoke_property("RuntimeInfo", &args) {
            Ok(i) => i,
            Err(e) => {
                return Err(e);
            },
        };
        let mut c = LockCounters {
            locks: self.object.counters.locks,
            unlocks: self.object.counters.unlocks,
        };
        let r = variant_to_f32_array(&self.object.members[idx].result, &mut c);
        self.object.counters = c;
        r
    }

    /// Reads diagnostics data through the device's `Diagnostics` member,
    /// invoked as a method with the diagnostic code as the single integer
    /// argument.
    pub fn diagnostics(&mut self, dx_code: i32) -> (r: Result<Vec<u8>, QrngError>)
        requires
            old(self).object.wf(),
            old(self).object.counters.locks < u64::MAX,
            old(self).object.counters.unlocks < u64::MAX,
        ensures
            final(self).clsid == old(self).clsid,
            final(self).object.members == old(self).object.members,
            !has_member(old(self).object.members@, wide_name("Diagnostics"@)) ==> (
            errs_member_not_found(r, "Diagnostics"@) && final(self).object.counters == old(
                self,
            ).object.counters),
            forall|i: int|
                #[trigger] resolves_to(old(self).object.members@, wide_name("Diagnostics"@), i)
                    ==> step_bytes(
                    old(self).object.members@,
                    "Diagnostics"@,
                    DISPATCH_METHOD,
                    i,
                    r,
                    old(self).object.counters,
                    final(self).object.counters,
                ),
    {
        let idx = match self.invoke_method_with_i32_arg("Diagnostics", dx_code) {
            Ok(i) => i,
            Err(e) => {
                return Err(e);
            },
        };
        let mut c = LockCounters {
            locks: self.object.counters.locks,
            unlocks: self.object.counters.unlocks,
        };
        let r = variant_to_byte_array(&self.object.members[idx].result, &mut c);
        self.object.counters = c;
        r
    }

    /// Calls the device's `Clear` method.
    pub fn clear(&self) -> (r: Result<(), QrngError>)
        ensures
            !has_member(self.object.members@, wide_name("Clear"@)) ==> errs_member_not_found(
                r,
                "Clear"@,
            ),
            forall|i: int|
                #[trigger] resolves_to(self.object.members@, wide_name("Clear"@), i) ==> step_unit(
                    self.object.members@,
                    "Clear"@,
                    DISPATCH_METHOD,
                    i,
                    r,
                ),
    {
        let args: Vec<Variant> = Vec::new();
        self.invoke_method("Clear", &args)
    }

    /// Calls the device's `Reset` method.
    pub fn reset(&self) -> (r: Result<(), QrngError>)
        ensures
            !has_member(self.object.members@, wide_name("Reset"@)) ==> errs_member_not_found(
                r,
                "Reset"@,
            ),
            forall|i: int|
                #[trigger] resolves_to(self.object.members@, wide_name("Reset"@), i) ==> step_unit(
                    self.object.members@,
                    "Reset"@,
                    DISPATCH_METHOD,
                    i,
                    r,
                ),
    {
        let args: Vec<Variant> = Vec::new();
        self.invoke_method("Reset", &args)
    }
}

} // verus!
