//! The Video4Linux 2 capture backend: device identity, node topology and
//! the connection lifecycle's decision logic.

use vstd::prelude::*;

pub mod configure;
pub mod device_info;
pub mod framerate;
pub mod lifecycle;
pub mod source;

pub use source::V4LSource;

use crate::text::{
    chars_le, lemma_chars_le_antisym, lemma_chars_le_refl, lemma_chars_le_total,
    lemma_chars_le_trans, str_eq, str_le,
};
use crate::VideoCaptureDescriptor;

verus! {

/// Strictly increasing in lexicographic order: sorted, and free of
/// duplicates anywhere.
pub open spec fn strictly_ordered(s: Seq<Seq<char>>) -> bool {
    forall|i: int, j: int|
        #![trigger s[i], s[j]]
        0 <= i < j < s.len() ==> chars_le(s[i], s[j]) && s[i] != s[j]
}

proof fn lemma_concat_contains<A>(pre: Seq<A>, mid: A, suf: Seq<A>, x: A)
    ensures
        (pre + seq![mid] + suf).contains(x) <==> (pre.contains(x) || x == mid || suf.contains(
            x,
        )),
{
    let t = pre + seq![mid] + suf;
    if t.contains(x) {
        let i = choose|i: int| 0 <= i < t.len() && t[i] == x;
        if i < pre.len() {
            assert(pre[i] == x);
        } else if i == pre.len() {
            assert(x == mid);
        } else {
            assert(suf[i - pre.len() - 1] == x);
        }
    }
    if pre.contains(x) {
        let i = choose|i: int| 0 <= i < pre.len() && pre[i] == x;
        assert(t[i] == x);
    }
    if x == mid {
        assert(t[pre.len() as int] == x);
    }
    if suf.contains(x) {
        let i = choose|i: int| 0 <= i < suf.len() && suf[i] == x;
        assert(t[pre.len() + 1 + i] == x);
    }
}

proof fn lemma_split_contains<A>(pre: Seq<A>, suf: Seq<A>, x: A)
    ensures
        (pre + suf).contains(x) <==> (pre.contains(x) || suf.contains(x)),
{
    let t = pre + suf;
    if t.contains(x) {
        let i = choose|i: int| 0 <= i < t.len() && t[i] == x;
        if i < pre.len() {
            assert(pre[i] == x);
        } else {
            assert(suf[i - pre.len()] == x);
        }
    }
    if pre.contains(x) {
        let i = choose|i: int| 0 <= i < pre.len() && pre[i] == x;
        assert(t[i] == x);
    }
    if suf.contains(x) {
        let i = choose|i: int| 0 <= i < suf.len() && suf[i] == x;
        assert(t[pre.len() + i] == x);
    }
}

/// The normalized enumeration is canonical: two strictly ordered lists
/// that hold the same paths are the same list, so whatever order or
/// multiplicity the aliases of a device arrive in, the enumeration's
/// result is determined by the set of paths alone.
pub proof fn lemma_strictly_ordered_canonical(a: Seq<Seq<char>>, b: Seq<Seq<char>>)
    requires
        strictly_ordered(a),
        strictly_ordered(b),
        forall|x: Seq<char>| #[trigger] a.contains(x) <==> b.contains(x),
    ensures
        a == b,
    decreases a.len(),
{
    if a.len() == 0 {
        if b.len() > 0 {
            assert(b.contains(b[0]));
            assert(a.contains(b[0]));
        }
        assert(a =~= b);
    } else if b.len() == 0 {
        assert(a.contains(a[0]));
        assert(b.contains(a[0]));
    } else {
        assert(a.contains(a[0]));
        assert(b.contains(b[0]));
        let j = choose|j: int| 0 <= j < b.len() && b[j] == a[0];
        assert(b[j] == a[0]);
        if j > 0 {
            assert(chars_le(b[0], b[j]));
        } else {
            lemma_chars_le_refl(b[0]);
        }
        assert(a.contains(b[0]));
        let i = choose|i: int| 0 <= i < a.len() && a[i] == b[0];
        assert(a[i] == b[0]);
        if i > 0 {
            assert(chars_le(a[0], a[i]));
        } else {
            lemma_chars_le_refl(a[0]);
        }
        lemma_chars_le_antisym(a[0], b[0]);
        let at = a.drop_first();
        let bt = b.drop_first();
        assert(strictly_ordered(at)) by {
            assert(forall|p: int, q: int|
                0 <= p < q < at.len() ==> #[trigger] at[p] == a[p + 1] && #[trigger] at[q]
                    == a[q + 1]);
        }
        assert(strictly_ordered(bt)) by {
            assert(forall|p: int, q: int|
                0 <= p < q < bt.len() ==> #[trigger] bt[p] == b[p + 1] && #[trigger] bt[q]
                    == b[q + 1]);
        }
        assert forall|x: Seq<char>| #[trigger] at.contains(x) <==> bt.contains(x) by {
            if at.contains(x) {
                let p = choose|p: int| 0 <= p < at.len() && at[p] == x;
                assert(a[p + 1] == x);
                assert(a.contains(x));
                assert(b.contains(x));
                let k = choose|k: int| 0 <= k < b.len() && b[k] == x;
                if k == 0 {
                    assert(x == b[0] && b[0] == a[0]);
                    assert(chars_le(a[0], a[p + 1]) && a[0] != a[p + 1]);
                } else {
                    assert(bt[k - 1] == x);
                    assert(bt.contains(x));
                }
            }
            if bt.contains(x) {
                let p = choose|p: int| 0 <= p < bt.len() && bt[p] == x;
                assert(b[p + 1] == x);
                assert(b.contains(x));
                assert(a.contains(x));
                let k = choose|k: int| 0 <= k < a.len() && a[k] == x;
                if k == 0 {
                    assert(x == a[0] && a[0] == b[0]);
                    assert(chars_le(b[0], b[p + 1]) && b[0] != b[p + 1]);
                } else {
                    assert(at[k - 1] == x);
                    assert(at.contains(x));
                }
            }
        }
        lemma_strictly_ordered_canonical(at, bt);
        assert(a =~= b) by {
            assert(forall|p: int| 1 <= p < a.len() ==> a[p] == at[p - 1] && b[p] == bt[p - 1]);
        }
    }
}

/// Deduplicates and deterministically orders an enumerated device list.
///
/// The enumeration source may report the same physical device through
/// several aliases; the result holds exactly the paths of the input,
/// each once, in strictly increasing lexicographic order — so it does
/// not depend on the order the aliases arrived in.
pub fn normalize_device_list(devices: &Vec<String>) -> (r: Vec<String>)
    ensures
        strictly_ordered(r.deep_view()),
        forall|x: Seq<char>| #[trigger]
            r.deep_view().contains(x) <==> devices.deep_view().contains(x),
{
    let ghost dv_in = devices.deep_view();
    let mut out: Vec<String> = Vec::new();
    proof {
        assert(out.deep_view() =~= Seq::<Seq<char>>::empty());
        assert(dv_in.subrange(0, 0) =~= Seq::<Seq<char>>::empty());
    }
    let mut idx: usize = 0;
    while idx < devices.len()
        invariant
            0 <= idx <= dv_in.len(),
            devices.deep_view() == dv_in,
            dv_in.len() == devices@.len(),
            strictly_ordered(out.deep_view()),
            forall|x: Seq<char>| #[trigger]
                out.deep_view().contains(x) <==> dv_in.subrange(0, idx as int).contains(x),
        decreases dv_in.len() - idx,
    {
        let d = &devices[idx];
        proof {
            assert(d@ == dv_in[idx as int]);
        }
        let ghost odv = out.deep_view();
        let mut k: usize = 0;
        while k < out.len() && !str_le(d.as_str(), out[k].as_str())
            invariant
                0 <= k <= odv.len(),
                out.deep_view() == odv,
                odv.len() == out@.len(),
                forall|j: int|
                    0 <= j < k ==> chars_le(#[trigger] odv[j], d@) && odv[j] != d@,
            decreases odv.len() - k,
        {
            proof {
                assert(out@[k as int]@ == odv[k as int]);
                lemma_chars_le_total(d@, odv[k as int]);
                if d@ == odv[k as int] {
                    lemma_chars_le_refl(d@);
                }
            }
            k = k + 1;
        }
        proof {
            assert(k < out@.len() ==> out@[k as int]@ == odv[k as int]);
        }
        let is_dup = if k < out.len() {
            str_eq(d.as_str(), out[k].as_str())
        } else {
            false
        };
        proof {
            assert(dv_in.subrange(0, idx + 1) =~= dv_in.subrange(0, idx as int) + seq![d@]
                + Seq::<Seq<char>>::empty());
        }
        if is_dup {
            proof {
                assert(odv.contains(d@)) by {
                    assert(odv[k as int] == d@);
                }
                assert forall|x: Seq<char>| #[trigger]
                    out.deep_view().contains(x) <==> dv_in.subrange(0, idx + 1).contains(
                        x,
                    ) by {
                    lemma_concat_contains(
                        dv_in.subrange(0, idx as int),
                        d@,
                        Seq::<Seq<char>>::empty(),
                        x,
                    );
                }
            }
        } else {
            out.insert(k, d.clone());
            proof {
                let pre = odv.subrange(0, k as int);
                let suf = odv.subrange(k as int, odv.len() as int);
                let ndv = out.deep_view();
                assert(ndv =~= pre + seq![d@] + suf);
                assert(odv =~= pre + suf);
                // every pair of the new list is still strictly increasing
                assert forall|i: int, j: int|
                    #![trigger ndv[i], ndv[j]]
                    0 <= i < j < ndv.len() implies chars_le(ndv[i], ndv[j]) && ndv[i]
                    != ndv[j] by {
                    if j < k {
                        assert(ndv[i] == odv[i] && ndv[j] == odv[j]);
                    } else if i < k && j == k {
                        assert(ndv[i] == odv[i]);
                    } else if i < k && j > k {
                        assert(ndv[i] == odv[i] && ndv[j] == odv[j - 1]);
                    } else if i == k && j > k {
                        assert(ndv[j] == odv[j - 1]);
                        assert(chars_le(d@, odv[k as int]) && d@ != odv[k as int]);
                        if j - 1 > k {
                            lemma_chars_le_trans(d@, odv[k as int], odv[j - 1]);
                            if d@ == odv[j - 1] {
                                lemma_chars_le_antisym(odv[k as int], odv[j - 1]);
                            }
                        }
                    } else {
                        assert(ndv[i] == odv[i - 1] && ndv[j] == odv[j - 1]);
                    }
                }
                // and it now holds the new path besides what it held
                assert forall|x: Seq<char>| #[trigger]
                    ndv.contains(x) <==> dv_in.subrange(0, idx + 1).contains(x) by {
                    lemma_concat_contains(pre, d@, suf, x);
                    lemma_split_contains(pre, suf, x);
                    lemma_concat_contains(
                        dv_in.subrange(0, idx as int),
                        d@,
                        Seq::<Seq<char>>::empty(),
                        x,
                    );
                }
            }
        }
        idx = idx + 1;
    }
    proof {
        assert(dv_in.subrange(0, dv_in.len() as int) =~= dv_in);
    }
    out
}

/// The Video4Linux 2 backend.
#[derive(Clone, Copy, Debug, PartialEq, Eq, Structural)]
pub struct V4LBackend;

/// A descriptor for a Video4Linux video capture device.
///
/// The pair of strings is the stable identity used to detect a different
/// physical device across sessions: it is captured at the first successful
/// identity lookup and compared, never mutated, on reconnect.
#[derive(Clone, Debug, PartialEq)]
pub struct V4LVideoCaptureDescriptor {
    /// This device's unique identifier.
    pub device_identifier: String,
    /// Model number/etc.
    pub device_model: String,
}

impl VideoCaptureDescriptor for V4LVideoCaptureDescriptor {
    type IdentiferTy = String;

    type ModelTy = String;

    open spec fn spec_identifier(&self) -> String {
        self.device_identifier
    }

    open spec fn spec_model(&self) -> String {
        self.device_model
    }

    #[inline]
    fn device_identifier(&self) -> (r: Self::IdentiferTy)
        ensures
            r == self.device_identifier,
    {
        self.device_identifier.clone()
    }

    #[inline]
    fn device_model(&self) -> (r: Self::ModelTy)
        ensures
            r == self.device_model,
    {
        self.device_model.clone()
    }
}

} // verus!
