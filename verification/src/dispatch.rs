use vstd::prelude::*;
use crate::codec::LockCounters;
use crate::error::{errs_invoke_failed, errs_member_not_found, DISP_E_MEMBERNOTFOUND, DISP_E_UNKNOWNNAME, QrngError, S_OK};
use crate::values::Variant;
use crate::wide::{to_utf16, wide_name};

verus! {

/// Dispatch kind of a method call.
pub const DISPATCH_METHOD: u16 = 1;

/// Dispatch kind of a property read.
pub const DISPATCH_PROPERTYGET: u16 = 2;

/// One member of the automation object, with the behaviour the driver shows
/// for it: the wide name it answers to, the dispatch identifier that name
/// resolves to, the dispatch kinds it accepts, the status it reports for an
/// invocation, and the tagged value it returns on success.
pub struct MemberBehavior {
    /// The member's name in the driver's calling convention: UTF-16 code
    /// units with a terminating nul, as `to_utf16` produces them.
    pub name: Vec<u16>,
    /// The numeric dispatch identifier the name resolves to.
    pub dispid: i32,
    /// Bitmask of the dispatch kinds the member answers.
    pub kinds: u16,
    /// The status an invocation reports.
    pub invoke_status: i32,
    /// The tagged value an invocation returns when its status is success.
    pub result: Variant,
}

/// The automation object as the driver presents it: a member table, plus the
/// driver-side bookkeeping of the array-buffer lock.
pub struct DispatchObject {
    /// The member table; name resolution walks it front to back.
    pub members: Vec<MemberBehavior>,
    /// Lock bookkeeping for the arrays the members return.
    pub counters: LockCounters,
}

impl DispatchObject {
    /// Every array a member returns describes its buffer truthfully.
    pub open spec fn wf(self) -> bool {
        forall|i: int|
            0 <= i < self.members@.len() ==> (#[trigger] self.members@[i]).result.wf()
    }

    /// Decides `wf` at run time.
    pub fn check_wf(&self) -> (b: bool)
        ensures
            b == self.wf(),
    {
        let mut i: usize = 0;
        while i < self.members.len()
            invariant
                i <= self.members@.len(),
                forall|j: int| 0 <= j < i ==> (#[trigger] self.members@[j]).result.wf(),
            decreases self.members@.len() - i,
        {
            if !self.members[i].result.check_wf() {
                return false;
            }
            i = i + 1;
        }
        true
    }
}

/// `i` is the index of the first member whose wide name is `w`.
pub open spec fn resolves_to(members: Seq<MemberBehavior>, w: Seq<u16>, i: int) -> bool {
    &&& 0 <= i < members.len()
    &&& members[i].name@ == w
    &&& forall|j: int| 0 <= j < i ==> (#[trigger] members[j]).name@ != w
}

/// Some member answers to the wide name `w`.
pub open spec fn has_member(members: Seq<MemberBehavior>, w: Seq<u16>) -> bool {
    exists|i: int| 0 <= i < members.len() && (#[trigger] members[i]).name@ == w
}

/// Two indices that both resolve first are the same index.
proof fn lemma_resolves_unique(members: Seq<MemberBehavior>, w: Seq<u16>, i: int, j: int)
    requires
        resolves_to(members, w, i),
        resolves_to(members, w, j),
    ensures
        i == j,
{
    if i < j {
        assert(members[i].name@ == w);
    } else if j < i {
        assert(members[j].name@ == w);
    }
}

/// Compares two wide strings unit by unit.
fn wide_eq(a: &Vec<u16>, b: &Vec<u16>) -> (r: bool)
    ensures
        r == (a@ == b@),
{
    if a.len() != b.len() {
        proof {
            assert(a@.len() != b@.len());
        }
        return false;
    }
    let mut i: usize = 0;
    while i < a.len()
        invariant
            i <= a@.len(),
            a@.len() == b@.len(),
            forall|j: int| 0 <= j < i ==> a@[j] == b@[j],
        decreases a@.len() - i,
    {
        if a[i] != b[i] {
            return false;
        }
        i = i + 1;
    }
    proof {
        assert(a@ =~= b@);
    }
    true
}

/// Walks the member table and yields the index of the first member bearing
/// the wide name `w`.
pub fn find_member(members: &Vec<MemberBehavior>, w: &Vec<u16>) -> (r: Option<usize>)
    ensures
        match r {
            Some(i) => resolves_to(members@, w@, i as int),
            None => !has_member(members@, w@),
        },
{
    let mut i: usize = 0;
    while i < members.len()
        invariant
            i <= members@.len(),
            forall|j: int| 0 <= j < i ==> (#[trigger] members@[j]).name@ != w@,
        decreases members@.len() - i,
    {
        if wide_eq(&members[i].name, w) {
            return Some(i);
        }
        i = i + 1;
    }
    None
}

/// Builds the tagged value for a single 32-bit integer argument, the one
/// argument shape the accessors marshal.
pub fn i32_arg(value: i32) -> (v: Variant)
    ensures
        v == Variant::I32(value),
{
    Variant::I32(value)
}

/// What one resolve-then-invoke call for member name `name` under dispatch
/// kind `flags` must yield, given that `i` is the index the name resolves
/// to: a kind the member does not answer or a failing driver status turns
/// into the typed invocation failure, and a successful status hands back the
/// member's index.
pub open spec fn invoke_step(
    members: Seq<MemberBehavior>,
    name: Seq<char>,
    flags: u16,
    i: int,
    r: Result<usize, QrngError>,
) -> bool {
    let m = members[i];
    &&& (m.kinds & flags) == 0 ==> errs_invoke_failed(r, name, DISP_E_MEMBERNOTFOUND)
    &&& (m.kinds & flags) != 0 && m.invoke_status != S_OK ==> errs_invoke_failed(
        r,
        name,
        m.invoke_status,
    )
    &&& (m.kinds & flags) != 0 && m.invoke_status == S_OK ==> r == Ok::<usize, QrngError>(
        i as usize,
    )
}

/// The whole contract of one resolve-then-invoke call: an unknown name turns
/// into the typed resolution failure, and a resolved name obeys
/// `invoke_step` at its index.
pub open spec fn invoke_contract(
    members: Seq<MemberBehavior>,
    name: Seq<char>,
    flags: u16,
    r: Result<usize, QrngError>,
) -> bool {
    &&& !has_member(members, wide_name(name)) ==> errs_member_not_found(r, name)
    &&& forall|i: int|
        #[trigger] resolves_to(members, wide_name(name), i) ==> invoke_step(
            members,
            name,
            flags,
            i,
            r,
        )
}

/// Resolves a member name to its numeric dispatch identifier, as the
/// driver's name-resolution operation answers it.
pub fn get_dispid(obj: &DispatchObject, name: &str) -> (r: Result<i32, QrngError>)
    ensures
        !has_member(obj.members@, wide_name(name@)) ==> errs_member_not_found(r, name@),
        forall|i: int|
            #[trigger] resolves_to(obj.members@, wide_name(name@), i) ==> r == Ok::<
                i32,
                QrngError,
            >(obj.members@[i].dispid),
{
    let wide = to_utf16(name);
    match find_member(&obj.members, &wide) {
        Some(i) => {
            let dispid = obj.members[i].dispid;
            proof {
                assert forall|j: int|
                    resolves_to(obj.members@, wide_name(name@), j) implies j == i as int by {
                    lemma_resolves_unique(obj.members@, wide_name(name@), j, i as int);
                }
            }
            Ok(dispid)
        },
        None => Err(
            QrngError::MemberNotFound { name: name.to_owned(), status: DISP_E_UNKNOWNNAME },
        ),
    }
}

/// Performs one late-bound call against the automation object: resolve the
/// member name, check the dispatch kind, then invoke.  The model driver's
/// answer is scripted per member, so the argument list does not change the
/// outcome; it is still marshalled as the calling convention asks, as a
/// contiguous sequence of tagged values.
#[allow(unused_variables)]
pub fn invoke_member(obj: &DispatchObject, name: &str, flags: u16, args: &Vec<Variant>) -> (r:
    Result<usize, QrngError>)
    ensures
        invoke_contract(obj.members@, name@, flags, r),
        r matches Ok(i) ==> resolves_to(obj.members@, wide_name(name@), i as int),
{
    let wide = to_utf16(name);
    let idx = match find_member(&obj.members, &wide) {
        Some(i) => i,
        None => {
            return Err(
                QrngError::MemberNotFound { name: name.to_owned(), status: DISP_E_UNKNOWNNAME },
            );
        },
    };
    proof {
        assert forall|j: int|
            resolves_to(obj.members@, wide_name(name@), j) implies j == idx as int by {
            lemma_resolves_unique(obj.members@, wide_name(name@), j, idx as int);
        }
    }
    let m = &obj.members[idx];
    if m.kinds & flags == 0 {
        return Err(
            QrngError::InvokeFailed { name: name.to_owned(), status: DISP_E_MEMBERNOTFOUND },
        );
    }
    if m.invoke_status != S_OK {
        return Err(QrngError::InvokeFailed { name: name.to_owned(), status: m.invoke_status });
    }
    Ok(idx)
}

} // verus!
