//! The presentation surface configuration and format negotiation.
//!
//! The surface reports a list of pixel formats; the session keeps
//! the index of the chosen one — the first format the surface
//! declares sRGB-capable, or the first reported format when none is.

use vstd::prelude::*;
use crate::camera::DIM_LIMIT;

verus! {

/// The negotiated surface configuration: the pixel size and the
/// index of the chosen format in the reported list.
#[derive(Clone, Copy, Debug, PartialEq, Eq, Structural)]
pub struct SurfaceConfig {
    pub width: u32,
    pub height: u32,
    pub format_index: usize,
}

/// A usable configuration: both dimensions nonzero and within the
/// accepted range.
pub open spec fn config_wf(c: SurfaceConfig) -> bool {
    &&& 1 <= c.width <= DIM_LIMIT
    &&& 1 <= c.height <= DIM_LIMIT
}

/// The index of the first sRGB-capable format, or the list's length
/// when none is.
pub open spec fn first_srgb(s: Seq<bool>) -> int
    decreases s.len(),
{
    if s.len() == 0 {
        0
    } else if s[0] {
        0
    } else {
        1 + first_srgb(s.subrange(1, s.len() as int))
    }
}

/// `first_srgb` is the least sRGB index: everything before it is not
/// sRGB, and it lands on an sRGB entry whenever one exists.
pub proof fn lemma_first_srgb(s: Seq<bool>)
    ensures
        0 <= first_srgb(s) <= s.len(),
        first_srgb(s) < s.len() ==> s[first_srgb(s)],
        forall|k: int| 0 <= k < first_srgb(s) ==> !s[k],
    decreases s.len(),
{
    if s.len() > 0 && !s[0] {
        let t = s.subrange(1, s.len() as int);
        lemma_first_srgb(t);
        assert forall|k: int| 0 <= k < first_srgb(s) implies !s[k] by {
            if k > 0 {
                assert(t[k - 1] == s[k]);
            }
        }
    }
}

/// The index the negotiation settles on for a nonempty list.
pub open spec fn chosen_index(s: Seq<bool>) -> int {
    if first_srgb(s) < s.len() {
        first_srgb(s)
    } else {
        0
    }
}

/// Picks the surface format: the first sRGB-capable entry of the
/// reported list, the first entry when none is sRGB-capable, and
/// nothing when the list is empty.
pub fn choose_format(srgb: &Vec<bool>) -> (r: Option<usize>)
    ensures
        (r is Some) <==> srgb@.len() > 0,
        srgb@.len() > 0 ==> r == Some(chosen_index(srgb@) as usize) && 0 <= chosen_index(srgb@)
            < srgb@.len(),
{
    proof {
        lemma_first_srgb(srgb@);
    }
    let n: usize = srgb.len();
    let mut i: usize = 0;
    while i < n
        invariant
            0 <= i <= n,
            n == srgb@.len(),
            forall|k: int| 0 <= k < i ==> !srgb@[k],
        decreases n - i,
    {
        if srgb[i] {
            proof {
                lemma_first_srgb(srgb@);
                if first_srgb(srgb@) < i {
                    assert(!srgb@[first_srgb(srgb@)]);
                    assert(false);
                }
                if first_srgb(srgb@) > i {
                    assert(!srgb@[i as int]);
                    assert(false);
                }
            }
            return Some(i);
        }
        i = i + 1;
    }
    if n > 0 {
        proof {
            lemma_first_srgb(srgb@);
            if first_srgb(srgb@) < n {
                assert(!srgb@[first_srgb(srgb@)]);
                assert(false);
            }
        }
        Some(0)
    } else {
        None
    }
}

} // verus!
