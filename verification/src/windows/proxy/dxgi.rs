//! The proxy for `dxgi.dll`: where the system library is, and what an
//! export does when the system library lacks it.
use vstd::prelude::*;

use widestring::U16CString;

verus! {

/// `HRESULT` of success.
pub const S_OK: i32 = 0i32;

/// `HRESULT` of a function that is not implemented (0x80004001).
pub const E_NOTIMPL: i32 = -2147467263i32;

/// The UTF-16 units of `\dxgi.dll`.
pub open spec fn dxgi_suffix() -> Seq<u16> {
    seq![92u16, 100u16, 120u16, 103u16, 105u16, 46u16, 100u16, 108u16, 108u16]
}

/// `v` holds no nul unit, but perhaps as its last unit.
pub open spec fn no_interior_nul(v: Seq<u16>) -> bool {
    forall|i: int| 0 <= i < v.len() - 1 ==> v[i] != 0
}

/// `v` with a nul unit appended unless it already ends with one.
pub open spec fn nul_terminated(v: Seq<u16>) -> Seq<u16> {
    if v.len() > 0 && v.last() == 0 {
        v
    } else {
        v.push(0)
    }
}

/// A nul-terminated wide C string holding `v`.
///
/// Calls `widestring::U16CString::from_vec` and takes the units back with
/// `into_vec_with_nul`. Its source refuses a vector with a nul unit before
/// the last one and otherwise appends a terminating nul unless the last unit
/// is already nul; this contract states that.
#[verifier::external_body]
fn wide_c_string(v: Vec<u16>) -> (r: Option<Vec<u16>>)
    ensures
        match r {
            Some(w) => no_interior_nul(v@) && w@ == nul_terminated(v@),
            None => !no_interior_nul(v@),
        },
{
    match U16CString::from_vec(v) {
        Ok(s) => Some(s.into_vec_with_nul()),
        Err(_) => None,
    }
}

/// The nul-terminated path of `dxgi.dll` in the system directory
/// `system_dir`, or `None` when `system_dir` holds a nul unit.
pub fn dxgi_dll_path(system_dir: &[u16]) -> (r: Option<Vec<u16>>)
    ensures
        match r {
            Some(w) => (forall|i: int| 0 <= i < system_dir@.len() ==> system_dir@[i] != 0)
                && w@ == system_dir@ + dxgi_suffix() + seq![0u16],
            None => exists|i: int| 0 <= i < system_dir@.len() && system_dir@[i] == 0,
        },
{
    let mut v: Vec<u16> = Vec::new();
    let n = system_dir.len();
    let mut i: usize = 0;
    while i < n
        invariant
            n == system_dir@.len(),
            i <= n,
            v@ == system_dir@.take(i as int),
        decreases n - i,
    {
        v.push(system_dir[i]);
        i = i + 1;
        assert(v@ =~= system_dir@.take(i as int));
    }
    assert(system_dir@.take(n as int) =~= system_dir@);
    v.push(92u16);
    v.push(100u16);
    v.push(120u16);
    v.push(103u16);
    v.push(105u16);
    v.push(46u16);
    v.push(100u16);
    v.push(108u16);
    v.push(108u16);
    let ghost full = v@;
    assert(full =~= system_dir@ + dxgi_suffix());
    let r = wide_c_string(v);
    proof {
        assert(full.last() == 108u16);
        if no_interior_nul(full) {
            assert forall|i: int| 0 <= i < system_dir@.len() implies system_dir@[i] != 0 by {
                assert(full[i] == system_dir@[i]);
            }
        } else {
            let k = choose|k: int| 0 <= k < full.len() - 1 && full[k] == 0;
            assert(k < system_dir@.len());
            assert(system_dir@[k] == 0);
        }
    }
    r
}

/// What an export of the proxy does.
#[derive(Clone, Copy, Debug, PartialEq, Eq, Structural)]
pub enum ProxyCall {
    /// Call the system library's function at this address.
    Forward(usize),
    /// Return this `HRESULT` without calling anything.
    Return(i32),
}

/// The system library's function at `orig` is called when it was found
/// (a non-zero address); otherwise the export returns `fallback`.
pub fn forward_or(orig: usize, fallback: i32) -> (r: ProxyCall)
    ensures
        r == (if orig == 0 {
            ProxyCall::Return(fallback)
        } else {
            ProxyCall::Forward(orig)
        }),
{
    if orig == 0 {
        ProxyCall::Return(fallback)
    } else {
        ProxyCall::Forward(orig)
    }
}

/// `DXGIDeclareAdapterRemovalSupport` (Windows 10 1803 and up): success when
/// the system library lacks it.
pub fn DXGIDeclareAdapterRemovalSupport(orig: usize) -> (r: ProxyCall)
    ensures
        r == (if orig == 0 {
            ProxyCall::Return(S_OK)
        } else {
            ProxyCall::Forward(orig)
        }),
{
    forward_or(orig, S_OK)
}

/// `DXGID3D10CreateDevice`: not implemented when the system library lacks it.
pub fn DXGID3D10CreateDevice(orig: usize) -> (r: ProxyCall)
    ensures
        r == (if orig == 0 {
            ProxyCall::Return(E_NOTIMPL)
        } else {
            ProxyCall::Forward(orig)
        }),
{
    forward_or(orig, E_NOTIMPL)
}

/// `DXGID3D10RegisterLayers`: not implemented when the system library lacks it.
pub fn DXGID3D10RegisterLayers(orig: usize) -> (r: ProxyCall)
    ensures
        r == (if orig == 0 {
            ProxyCall::Return(E_NOTIMPL)
        } else {
            ProxyCall::Forward(orig)
        }),
{
    forward_or(orig, E_NOTIMPL)
}

} // verus!
