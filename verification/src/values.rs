use vstd::prelude::*;

verus! {

/// Tag of a value that carries nothing.
pub const VT_EMPTY: u16 = 0;

/// Tag of a 32-bit signed integer payload.
pub const VT_I4: u16 = 3;

/// Tag of a single-precision float payload.
pub const VT_R4: u16 = 4;

/// Tag of a double-precision float payload.
pub const VT_R8: u16 = 5;

/// Tag of a wide-string handle payload.
pub const VT_BSTR: u16 = 8;

/// Tag of an unsigned 8-bit integer element.
pub const VT_UI1: u16 = 17;

/// Flag marking an array handle payload.
pub const VT_ARRAY: u16 = 0x2000;

/// Tag of an array of unsigned bytes: the array flag combined with the
/// unsigned 8-bit element tag.
pub const VT_ARRAY_UI1: u16 = 0x2011;

/// Tag of an array of single-precision floats: the array flag combined with
/// the single-float element tag.
pub const VT_ARRAY_R4: u16 = 0x2004;

/// A driver-owned array: the index bounds the driver reports, whether the
/// bound queries and the lock request succeed, and the backing buffer.  The
/// buffer may only be read while the lock is held; the conversion protocol
/// acquires and releases that lock around the copy.
pub struct ArrayHandle<T> {
    /// Lower index bound the driver reports.
    pub lbound: i32,
    /// Upper index bound the driver reports.
    pub ubound: i32,
    /// Whether both bound queries succeed.
    pub bounds_ok: bool,
    /// Whether the direct-access lock can be acquired.
    pub lock_ok: bool,
    /// The backing buffer; its first element sits at index `lbound`.
    pub data: Vec<T>,
}

impl<T> ArrayHandle<T> {
    /// The element count the bounds describe.
    pub open spec fn count(self) -> int {
        self.ubound - self.lbound + 1
    }

    /// The bounds the driver reports describe the backing buffer exactly:
    /// whenever the bound queries answer, `ubound - lbound + 1` is the length
    /// of the buffer (possibly zero).
    pub open spec fn wf(self) -> bool {
        self.bounds_ok ==> self.lbound - 1 <= self.ubound && self.count() == self.data@.len()
    }

    /// Decides `wf` at run time.
    pub fn check_wf(&self) -> (b: bool)
        ensures
            b == self.wf(),
    {
        if !self.bounds_ok {
            return true;
        }
        let lo = self.lbound as i64;
        let hi = self.ubound as i64;
        if hi < lo - 1 {
            return false;
        }
        let count = hi - lo + 1;
        count as u64 == self.data.len() as u64
    }
}

/// A driver-owned wide string: either the null handle or a buffer of UTF-16
/// code units.  The null handle is a legal way for the driver to hand back
/// the empty string.
pub enum WideStringHandle {
    /// The null handle.
    Null,
    /// A buffer of UTF-16 code units.
    Buffer(Vec<u16>),
}

/// A tagged value as the driver returns it: a type tag with a payload that
/// must only be read under the interpretation matching that tag.  The two
/// floating-point shapes are carried as raw IEEE-754 bit patterns, since this
/// layer passes them through without computing on them.
pub enum Variant {
    /// No payload.
    Empty,
    /// A 32-bit signed integer.
    I32(i32),
    /// The bit pattern of a single-precision float.
    F32Bits(u32),
    /// The bit pattern of a double-precision float.
    F64Bits(u64),
    /// A wide-string handle.
    WideString(WideStringHandle),
    /// A handle to an array of unsigned bytes.
    ByteArray(ArrayHandle<u8>),
    /// A handle to an array of single-precision floats, element by element a
    /// bit pattern.
    FloatArray(ArrayHandle<u32>),
}

impl Variant {
    /// The numeric tag of the value, in the driver's tag convention.
    pub open spec fn tag(self) -> u16 {
        match self {
            Variant::Empty => VT_EMPTY,
            Variant::I32(_) => VT_I4,
            Variant::F32Bits(_) => VT_R4,
            Variant::F64Bits(_) => VT_R8,
            Variant::WideString(_) => VT_BSTR,
            Variant::ByteArray(_) => VT_ARRAY_UI1,
            Variant::FloatArray(_) => VT_ARRAY_R4,
        }
    }

    /// Reads the numeric tag at run time.
    pub fn vt(&self) -> (t: u16)
        ensures
            t == self.tag(),
    {
        match self {
            Variant::Empty => VT_EMPTY,
            Variant::I32(_) => VT_I4,
            Variant::F32Bits(_) => VT_R4,
            Variant::F64Bits(_) => VT_R8,
            Variant::WideString(_) => VT_BSTR,
            Variant::ByteArray(_) => VT_ARRAY_UI1,
            Variant::FloatArray(_) => VT_ARRAY_R4,
        }
    }

    /// An array payload describes its buffer truthfully.
    pub open spec fn wf(self) -> bool {
        match self {
            Variant::ByteArray(h) => h.wf(),
            Variant::FloatArray(h) => h.wf(),
            _ => true,
        }
    }

    /// Decides `wf` at run time.
    pub fn check_wf(&self) -> (b: bool)
        ensures
            b == self.wf(),
    {
        match self {
            Variant::ByteArray(h) => h.check_wf(),
            Variant::FloatArray(h) => h.check_wf(),
            _ => true,
        }
    }
}

} // verus!
