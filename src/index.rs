//! The content index of an attachment: its described locations, listed in the
//! order of where they start.
use vstd::prelude::*;

use vstd::multiset::Multiset;

use crate::records::ContentLocation;

verus! {

broadcast use vstd::seq_lib::to_multiset_build, vstd::seq_lib::to_multiset_insert;

/// Text order from position `i` on: code point by code point, and a text
/// before any longer text it begins.
pub open spec fn text_le_from(a: Seq<char>, b: Seq<char>, i: int) -> bool
    decreases a.len() - i,
{
    if i >= a.len() {
        true
    } else if i >= b.len() {
        false
    } else if a[i] != b[i] {
        a[i] < b[i]
    } else {
        text_le_from(a, b, i + 1)
    }
}

/// `a` sorts before `b`, or with it, as text.
pub open spec fn text_le(a: Seq<char>, b: Seq<char>) -> bool {
    text_le_from(a, b, 0)
}

proof fn lemma_text_le_total(a: Seq<char>, b: Seq<char>, i: int)
    requires
        0 <= i,
    ensures
        text_le_from(a, b, i) || text_le_from(b, a, i),
    decreases a.len() - i,
{
    if i < a.len() && i < b.len() {
        if a[i] == b[i] {
            lemma_text_le_total(a, b, i + 1);
        }
    }
}

/// Whether `a` sorts before `b`, or with it, as text.
pub fn text_le_exec(a: &str, b: &str) -> (r: bool)
    ensures
        r == text_le(a@, b@),
{
    let n = a.unicode_len();
    let m = b.unicode_len();
    let mut i: usize = 0;
    while i < n
        invariant
            n == a@.len(),
            m == b@.len(),
            i <= n,
            text_le(a@, b@) == text_le_from(a@, b@, i as int),
        decreases n - i,
    {
        if i >= m {
            return false;
        }
        let ca = a.get_char(i);
        let cb = b.get_char(i);
        if ca != cb {
            return ca < cb;
        }
        i = i + 1;
    }
    true
}

/// The locations of attachment `id` among `s`, in their order there.
pub open spec fn locations_of(s: Seq<ContentLocation>, id: i64) -> Seq<ContentLocation>
    decreases s.len(),
{
    if s.len() == 0 {
        Seq::empty()
    } else if s.last().attachment_id == id {
        locations_of(s.drop_last(), id).push(s.last())
    } else {
        locations_of(s.drop_last(), id)
    }
}

/// Each location starts no later, as text, than the next.
pub open spec fn sorted_by_start(s: Seq<ContentLocation>) -> bool {
    forall|i: int| 0 <= i < s.len() - 1 ==> text_le(#[trigger] s[i].start_location@, s[i + 1].start_location@)
}

/// The locations of attachment `attachment_id`, ordered by where they start
/// (as text, so callers encode sortable locations such as zero-padded offsets).
pub fn locations_for(all: Vec<ContentLocation>, attachment_id: i64) -> (r: Vec<ContentLocation>)
    ensures
        r@.to_multiset() == locations_of(all@, attachment_id).to_multiset(),
        sorted_by_start(r@),
{
    let mut out: Vec<ContentLocation> = Vec::new();
    let mut rest = all;
    let ghost whole = rest@;
    proof {
        out@.to_multiset_ensures();
        assert(out@.to_multiset() =~= Multiset::<ContentLocation>::empty());
    }
    while rest.len() > 0
        invariant
            out@.to_multiset().add(locations_of(rest@, attachment_id).to_multiset()) == locations_of(
                whole,
                attachment_id,
            ).to_multiset(),
            sorted_by_start(out@),
        decreases rest@.len(),
    {
        let ghost r0 = rest@;
        let x = rest.pop().unwrap();
        proof {
            assert(rest@ == r0.drop_last());
            assert(x == r0.last());
        }
        if x.attachment_id == attachment_id {
            let mut k: usize = 0;
            let mut go = true;
            while go && k < out.len()
                invariant
                    k <= out@.len(),
                    forall|j: int| 0 <= j < k ==> text_le(#[trigger] out@[j].start_location@, x.start_location@),
                    !go ==> k < out@.len() && !text_le(out@[k as int].start_location@, x.start_location@),
                decreases out@.len() - k + (if go { 1int } else { 0 }),
            {
                if text_le_exec(out[k].start_location.as_str(), x.start_location.as_str()) {
                    k = k + 1;
                } else {
                    go = false;
                }
            }
            proof {
                if k < out@.len() {
                    lemma_text_le_total(out@[k as int].start_location@, x.start_location@, 0);
                }
            }
            let ghost before = out@;
            out.insert(k, x);
            proof {
                assert(locations_of(r0, attachment_id) == locations_of(rest@, attachment_id).push(x));
                assert(out@.to_multiset() == before.to_multiset().insert(x));
                assert forall|j: int| 0 <= j < out@.len() - 1 implies text_le(
                    #[trigger] out@[j].start_location@,
                    out@[j + 1].start_location@,
                ) by {
                    if j + 1 < k {
                        assert(out@[j] == before[j] && out@[j + 1] == before[j + 1]);
                    } else if j + 1 == k {
                        assert(out@[j] == before[j]);
                    } else if j == k {
                        assert(out@[j + 1] == before[j]);
                    } else {
                        assert(out@[j] == before[j - 1] && out@[j + 1] == before[j]);
                    }
                }
                assert(out@.to_multiset().add(locations_of(rest@, attachment_id).to_multiset()) =~= before.to_multiset().add(
                    locations_of(r0, attachment_id).to_multiset(),
                ));
            }
        } else {
            proof {
                assert(locations_of(r0, attachment_id) == locations_of(rest@, attachment_id));
            }
        }
    }
    assert(locations_of(rest@, attachment_id).to_multiset() =~= Multiset::<ContentLocation>::empty());
    assert(out@.to_multiset() =~= out@.to_multiset().add(Multiset::<ContentLocation>::empty()));
    out
}

} // verus!
