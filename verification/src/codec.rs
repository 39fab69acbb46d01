use vstd::prelude::*;
use crate::error::QrngError;
use crate::values::{ArrayHandle, Variant, WideStringHandle, VT_ARRAY_R4, VT_ARRAY_UI1, VT_BSTR, VT_I4, VT_R8};

verus! {

/// Driver-side bookkeeping of the array-buffer lock: how often a buffer was
/// locked for direct access and how often the lock was released.
pub struct LockCounters {
    /// Locks acquired.
    pub locks: u64,
    /// Locks released.
    pub unlocks: u64,
}

/// Whether reading `h` out takes (and must release) the buffer lock: it does
/// exactly when the bound queries and the lock request both succeed.
pub open spec fn takes_lock<T>(h: ArrayHandle<T>) -> bool {
    h.bounds_ok && h.lock_ok
}

/// How often a byte-array conversion of `v` locks the buffer: once when the
/// value is an array whose protocol runs to the copy, never otherwise.
pub open spec fn byte_array_lock_effect(v: Variant) -> int {
    if v matches Variant::ByteArray(h) && takes_lock(h) {
        1
    } else {
        0
    }
}

/// How often a float-array conversion of `v` locks the buffer.
pub open spec fn float_array_lock_effect(v: Variant) -> int {
    if v matches Variant::FloatArray(h) && takes_lock(h) {
        1
    } else {
        0
    }
}

/// What converting `v` into a 32-bit integer yields.
pub open spec fn decode_i32_spec(v: Variant) -> Result<i32, QrngError> {
    match v {
        Variant::I32(x) => Ok(x),
        _ => Err(QrngError::UnexpectedType { expected: VT_I4, got: v.tag() }),
    }
}

/// What converting `v` into the bit pattern of a double yields.
pub open spec fn decode_f64_bits_spec(v: Variant) -> Result<u64, QrngError> {
    match v {
        Variant::F64Bits(x) => Ok(x),
        _ => Err(QrngError::UnexpectedType { expected: VT_R8, got: v.tag() }),
    }
}

/// What converting `v` into a native string yields: the null handle stands
/// for the empty string, a buffer decodes lossily.
pub open spec fn decode_bstr_spec(v: Variant) -> Result<Seq<char>, QrngError> {
    match v {
        Variant::WideString(WideStringHandle::Null) => Ok(Seq::empty()),
        Variant::WideString(WideStringHandle::Buffer(u)) => Ok(utf16_lossy_of(u@)),
        _ => Err(QrngError::UnexpectedType { expected: VT_BSTR, got: v.tag() }),
    }
}

/// What reading an array handle out through the bounds/lock protocol yields.
pub open spec fn decode_array_spec<T>(h: ArrayHandle<T>) -> Result<Seq<T>, QrngError> {
    if !h.bounds_ok {
        Err(QrngError::BoundsQueryFailed)
    } else if !h.lock_ok {
        Err(QrngError::ArrayLockFailed)
    } else {
        Ok(h.data@)
    }
}

/// What converting `v` into an owned byte buffer yields.
pub open spec fn decode_byte_array_spec(v: Variant) -> Result<Seq<u8>, QrngError> {
    match v {
        Variant::ByteArray(h) => decode_array_spec(h),
        _ => Err(QrngError::UnexpectedType { expected: VT_ARRAY_UI1, got: v.tag() }),
    }
}

/// What converting `v` into an owned float-bits buffer yields.
pub open spec fn decode_f32_array_spec(v: Variant) -> Result<Seq<u32>, QrngError> {
    match v {
        Variant::FloatArray(h) => decode_array_spec(h),
        _ => Err(QrngError::UnexpectedType { expected: VT_ARRAY_R4, got: v.tag() }),
    }
}

/// Each conversion shape accepts exactly the tagged values bearing its own
/// tag: a value one shape decodes is rejected with a type mismatch by every
/// other shape.
pub proof fn lemma_one_shape_per_tag(v: Variant)
    ensures
        decode_i32_spec(v) is Ok <==> v is I32,
        decode_f64_bits_spec(v) is Ok <==> v is F64Bits,
        decode_bstr_spec(v) is Ok <==> v is WideString,
        decode_byte_array_spec(v) is Ok ==> v is ByteArray,
        decode_f32_array_spec(v) is Ok ==> v is FloatArray,
        v !is I32 ==> (decode_i32_spec(v) matches Err(e) && e is UnexpectedType),
        v !is F64Bits ==> (decode_f64_bits_spec(v) matches Err(e) && e is UnexpectedType),
        v !is WideString ==> (decode_bstr_spec(v) matches Err(e) && e is UnexpectedType),
        v !is ByteArray ==> (decode_byte_array_spec(v) matches Err(e) && e is UnexpectedType),
        v !is FloatArray ==> (decode_f32_array_spec(v) matches Err(e) && e is UnexpectedType),
{
}

/// Reads a driver array out through its lock protocol: query both bounds,
/// lock the buffer, copy `ubound - lbound + 1` elements in buffer order,
/// release the lock.  The lock is released exactly once whenever it was
/// taken, on the success path and on every failure path alike.
pub fn read_array_elements<T: Copy>(h: &ArrayHandle<T>, c: &mut LockCounters) -> (r: Result<
    Vec<T>,
    QrngError,
>)
    requires
        h.wf(),
        old(c).locks < u64::MAX,
        old(c).unlocks < u64::MAX,
    ensures
        match r {
            Ok(out) => decode_array_spec(*h) matches Ok(d) && out@ == d,
            Err(e) => decode_array_spec(*h) matches Err(e2) && e == e2,
        },
        r matches Ok(out) ==> out@ == h.data@ && out@.len() == h.ubound - h.lbound + 1,
        takes_lock(*h) ==> final(c).locks == old(c).locks + 1 && final(c).unlocks == old(
            c,
        ).unlocks + 1,
        !takes_lock(*h) ==> *final(c) == *old(c),
{
    if !h.bounds_ok {
        return Err(QrngError::BoundsQueryFailed);
    }
    let lbound = h.lbound;
    let ubound = h.ubound;
    let count_wide: i64 = ubound as i64 - lbound as i64 + 1;
    if !h.lock_ok {
        return Err(QrngError::ArrayLockFailed);
    }
    c.locks = c.locks + 1;
    let n = h.data.len();
    proof {
        assert(count_wide == n as i64);
    }
    let count = count_wide as usize;
    let mut out: Vec<T> = Vec::new();
    let mut i: usize = 0;
    while i < count
        invariant
            i <= count,
            count == h.data@.len(),
            out@ == h.data@.take(i as int),
            c.locks == old(c).locks + 1,
            c.unlocks == old(c).unlocks,
            old(c).unlocks < u64::MAX,
        decreases count - i,
    {
        let x = h.data[i];
        out.push(x);
        proof {
            assert(out@ =~= h.data@.take(i as int + 1));
        }
        i = i + 1;
    }
    proof {
        assert(out@ =~= h.data@);
    }
    c.unlocks = c.unlocks + 1;
    Ok(out)
}

/// Converts a tagged value into an owned byte buffer, validating the tag
/// before walking the array protocol.
pub fn variant_to_byte_array(var: &Variant, c: &mut LockCounters) -> (r: Result<Vec<u8>, QrngError>)
    requires
        var.wf(),
        old(c).locks < u64::MAX,
        old(c).unlocks < u64::MAX,
    ensures
        match r {
            Ok(out) => decode_byte_array_spec(*var) matches Ok(d) && out@ == d,
            Err(e) => decode_byte_array_spec(*var) matches Err(e2) && e == e2,
        },
        final(c).locks == old(c).locks + byte_array_lock_effect(*var),
        final(c).unlocks == old(c).unlocks + byte_array_lock_effect(*var),
{
    match var {
        Variant::ByteArray(h) => read_array_elements(h, c),
        _ => Err(QrngError::UnexpectedType { expected: VT_ARRAY_UI1, got: var.vt() }),
    }
}

/// Converts a tagged value into the element bit patterns of a
/// single-precision float array, validating the tag before walking the array
/// protocol.
pub fn variant_to_f32_array(var: &Variant, c: &mut LockCounters) -> (r: Result<Vec<u32>, QrngError>)
    requires
        var.wf(),
        old(c).locks < u64::MAX,
        old(c).unlocks < u64::MAX,
    ensures
        match r {
            Ok(out) => decode_f32_array_spec(*var) matches Ok(d) && out@ == d,
            Err(e) => decode_f32_array_spec(*var) matches Err(e2) && e == e2,
        },
        final(c).locks == old(c).locks + float_array_lock_effect(*var),
        final(c).unlocks == old(c).unlocks + float_array_lock_effect(*var),
{
    match var {
        Variant::FloatArray(h) => read_array_elements(h, c),
        _ => Err(QrngError::UnexpectedType { expected: VT_ARRAY_R4, got: var.vt() }),
    }
}

/// What `String::from_utf16_lossy` yields on given code units: a function of
/// the units alone.
pub uninterp spec fn utf16_lossy_of(units: Seq<u16>) -> Seq<char>;

/// Relies on `String::from_utf16_lossy`: decodes UTF-16, replacing invalid
/// sequences with the replacement character, and depends on the code units
/// alone.
#[verifier::external_body]
fn utf16_lossy(units: &[u16]) -> (r: String)
    ensures
        r@ == utf16_lossy_of(units@),
{
    String::from_utf16_lossy(units)
}

/// Converts a wide-string tagged value into an owned native string: the null
/// handle decodes to the empty string, a buffer decodes lossily.
pub fn variant_to_bstr(var: &Variant) -> (r: Result<String, QrngError>)
    ensures
        match r {
            Ok(s) => decode_bstr_spec(*var) matches Ok(d) && s@ == d,
            Err(e) => decode_bstr_spec(*var) matches Err(e2) && e == e2,
        },
{
    match var {
        Variant::WideString(WideStringHandle::Null) => Ok(String::new()),
        Variant::WideString(WideStringHandle::Buffer(units)) => Ok(utf16_lossy(units.as_slice())),
        _ => Err(QrngError::UnexpectedType { expected: VT_BSTR, got: var.vt() }),
    }
}

/// Reads a 32-bit integer payload after validating the tag.
pub fn variant_to_i32(var: &Variant) -> (r: Result<i32, QrngError>)
    ensures
        r == decode_i32_spec(*var),
{
    match var {
        Variant::I32(x) => Ok(*x),
        _ => Err(QrngError::UnexpectedType { expected: VT_I4, got: var.vt() }),
    }
}

/// Reads the bit pattern of a double payload after validating the tag.
pub fn variant_to_f64_bits(var: &Variant) -> (r: Result<u64, QrngError>)
    ensures
        r == decode_f64_bits_spec(*var),
{
    match var {
        Variant::F64Bits(x) => Ok(*x),
        _ => Err(QrngError::UnexpectedType { expected: VT_R8, got: var.vt() }),
    }
}

} // verus!
