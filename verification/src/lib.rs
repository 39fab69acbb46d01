//! A typed accessor layer for a vendor quantum random-number device that is
//! reached over a late-bound automation interface.
//!
//! The driver side of that interface is modelled as plain data: a dispatch
//! object with a member table, tagged return values, and explicitly locked
//! array buffers.  The session, invoker and codec logic of the binding works
//! against that model and is verified; the host process supplies the model's
//! contents from whatever transport it has to the real device.

pub mod codec;
pub mod dispatch;
pub mod error;
pub mod guid;
pub mod session;
pub mod values;
pub mod wide;

pub use crate::codec::{LockCounters, read_array_elements, variant_to_byte_array, variant_to_bstr, variant_to_f32_array, variant_to_f64_bits, variant_to_i32};
pub use crate::dispatch::{DispatchObject, MemberBehavior, i32_arg, get_dispid, DISPATCH_METHOD, DISPATCH_PROPERTYGET};
pub use crate::error::QrngError;
pub use crate::guid::{Guid, get_qwqng_clsid};
pub use crate::session::{ComEnvironment, MedQrng};
pub use crate::values::{ArrayHandle, Variant, WideStringHandle};
pub use crate::wide::to_utf16;
