//! Finding the image that dyld has just loaded.
use vstd::prelude::*;

verus! {

/// `i` is the first position at which `headers` holds `mh`.
pub open spec fn is_first_image(headers: Seq<usize>, mh: usize, i: int) -> bool {
    &&& 0 <= i < headers.len()
    &&& headers[i] == mh
    &&& forall|j: int| 0 <= j < i ==> headers[j] != mh
}

/// The index of the loaded image whose Mach-O header is at `mh`, among the
/// images whose headers are `headers` in dyld's order: the first match.
pub fn find_image(headers: &[usize], mh: usize) -> (r: Option<usize>)
    ensures
        match r {
            Some(i) => is_first_image(headers@, mh, i as int),
            None => forall|j: int| 0 <= j < headers@.len() ==> headers@[j] != mh,
        },
{
    let n = headers.len();
    let mut i: usize = 0;
    while i < n
        invariant
            n == headers@.len(),
            i <= n,
            forall|j: int| 0 <= j < i ==> headers@[j] != mh,
        decreases n - i,
    {
        if headers[i] == mh {
            return Some(i);
        }
        i = i + 1;
    }
    None
}

} // verus!
