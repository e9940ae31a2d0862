//! File system paths as text, joined as `PathBuf::push` joins them on Unix.
use vstd::prelude::*;

verus! {

/// A path that starts at the root.
pub open spec fn is_absolute(p: Seq<char>) -> bool {
    p.len() > 0 && p[0] == '/'
}

/// `comp` appended to `base`: an absolute `comp` replaces `base`; otherwise
/// a `/` separates the two unless `base` is empty or already ends with one.
pub open spec fn path_join(base: Seq<char>, comp: Seq<char>) -> Seq<char> {
    if is_absolute(comp) {
        comp
    } else if base.len() == 0 || base.last() == '/' {
        base + comp
    } else {
        base + seq!['/'] + comp
    }
}

/// The path `comp` relative to `base`.
pub fn join_path(base: &str, comp: &str) -> (r: String)
    ensures
        r@ == path_join(base@, comp@),
{
    let cn = comp.unicode_len();
    if cn > 0 && comp.get_char(0) == '/' {
        return String::from_str(comp);
    }
    let bn = base.unicode_len();
    let mut r = String::from_str(base);
    if bn > 0 && base.get_char(bn - 1) != '/' {
        r.append("/");
        proof {
            reveal_strlit("/");
        }
    }
    r.append(comp);
    r
}

} // verus!
