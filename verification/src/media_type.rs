//! One capture format a device offers, modeled by what the selection logic
//! reads from the native media type: the frame size and the frame rate, a
//! rational given as numerator over denominator. The native attribute store
//! packs each pair into one 64-bit word, high half first.

use vstd::prelude::*;

verus! {

/// One format a device can capture in.
#[derive(Clone, Copy, Debug, PartialEq, Eq, Structural)]
pub struct MediaType {
    pub width: u32,
    pub height: u32,
    pub rate_num: u32,
    pub rate_den: u32,
}

/// The high half of a packed pair.
pub open spec fn unpack_hi(v: u64) -> u32 {
    (v >> 32) as u32
}

/// The low half of a packed pair.
pub open spec fn unpack_lo(v: u64) -> u32 {
    (v & 0xFFFF_FFFF) as u32
}

/// The frame rate used in comparisons: a malformed rate whose denominator
/// is zero counts as zero frames per second.
pub open spec fn spec_rate_num(m: MediaType) -> int {
    if m.rate_den == 0 {
        0
    } else {
        m.rate_num as int
    }
}

/// The denominator belonging to [`spec_rate_num`]; always positive.
pub open spec fn spec_rate_den(m: MediaType) -> int {
    if m.rate_den == 0 {
        1
    } else {
        m.rate_den as int
    }
}

/// Whether `a`'s frame rate is at least `b`'s, compared exactly as
/// rationals by cross-multiplication.
#[verifier::opaque]
pub open spec fn rate_ge(a: MediaType, b: MediaType) -> bool {
    spec_rate_num(a) * spec_rate_den(b) >= spec_rate_num(b) * spec_rate_den(a)
}

/// Whether two formats share their frame size.
pub open spec fn same_resolution(a: MediaType, b: MediaType) -> bool {
    a.width == b.width && a.height == b.height
}

/// The order formats are listed in: by frame size, width before height.
pub open spec fn resolution_lt(a: MediaType, b: MediaType) -> bool {
    a.width < b.width || (a.width == b.width && a.height < b.height)
}

/// Law: every format's rate is at least its own.
pub proof fn lemma_rate_ge_refl(a: MediaType)
    ensures
        rate_ge(a, a),
{
    reveal(rate_ge);
}

/// Law: the rate comparison is transitive, so "kept the best rate so far"
/// survives a replacement.
pub proof fn lemma_rate_ge_trans(a: MediaType, b: MediaType, c: MediaType)
    requires
        rate_ge(a, b),
        rate_ge(b, c),
    ensures
        rate_ge(a, c),
{
    reveal(rate_ge);
    let an = spec_rate_num(a);
    let ad = spec_rate_den(a);
    let bn = spec_rate_num(b);
    let bd = spec_rate_den(b);
    let cn = spec_rate_num(c);
    let cd = spec_rate_den(c);
    assert(an * cd >= cn * ad) by (nonlinear_arith)
        requires
            an * bd >= bn * ad,
            bn * cd >= cn * bd,
            ad >= 1,
            bd >= 1,
            cd >= 1,
            an >= 0,
            bn >= 0,
            cn >= 0,
    ;
}

impl MediaType {
    /// Splits a packed pair of 32-bit values.
    pub fn unpack_u64(v: u64) -> (r: (u32, u32))
        ensures
            r.0 == unpack_hi(v),
            r.1 == unpack_lo(v),
    {
        proof {
            assert((v >> 32) <= 0xFFFF_FFFF && (v & 0xFFFF_FFFF) <= 0xFFFF_FFFF) by (bit_vector);
        }
        (((v >> 32) as u32), ((v & 0xFFFF_FFFF) as u32))
    }

    /// Builds a format from the two packed attributes the native store
    /// hands over: frame size and frame rate.
    pub fn from_packed(frame_size: u64, frame_rate: u64) -> (r: MediaType)
        ensures
            r.width == unpack_hi(frame_size),
            r.height == unpack_lo(frame_size),
            r.rate_num == unpack_hi(frame_rate),
            r.rate_den == unpack_lo(frame_rate),
    {
        let size = MediaType::unpack_u64(frame_size);
        let rate = MediaType::unpack_u64(frame_rate);
        MediaType { width: size.0, height: size.1, rate_num: rate.0, rate_den: rate.1 }
    }

    /// The frame size, width first.
    pub fn frame_size(&self) -> (r: (u32, u32))
        ensures
            r.0 == self.width,
            r.1 == self.height,
    {
        (self.width, self.height)
    }

    /// The frame rate as numerator and denominator.
    pub fn frame_rate(&self) -> (r: (u32, u32))
        ensures
            r.0 == self.rate_num,
            r.1 == self.rate_den,
    {
        (self.rate_num, self.rate_den)
    }

    /// The frame width in pixels.
    pub fn frame_width(&self) -> (r: u32)
        ensures
            r == self.width,
    {
        self.width
    }

    /// The frame height in pixels.
    pub fn frame_height(&self) -> (r: u32)
        ensures
            r == self.height,
    {
        self.height
    }

    /// Whether this format's frame rate is at least the other's, compared
    /// exactly as rationals.
    pub fn rate_at_least(&self, other: &MediaType) -> (r: bool)
        ensures
            r == rate_ge(*self, *other),
    {
        let an: u64 = if self.rate_den == 0 {
            0
        } else {
            self.rate_num as u64
        };
        let ad: u64 = if self.rate_den == 0 {
            1
        } else {
            self.rate_den as u64
        };
        let bn: u64 = if other.rate_den == 0 {
            0
        } else {
            other.rate_num as u64
        };
        let bd: u64 = if other.rate_den == 0 {
            1
        } else {
            other.rate_den as u64
        };
        proof {
            reveal(rate_ge);
            assert(an * bd <= 0xFFFF_FFFFu64 * 0xFFFF_FFFFu64 && bn * ad <= 0xFFFF_FFFFu64
                * 0xFFFF_FFFFu64) by (nonlinear_arith)
                requires
                    an <= 0xFFFF_FFFFu64,
                    ad <= 0xFFFF_FFFFu64,
                    bn <= 0xFFFF_FFFFu64,
                    bd <= 0xFFFF_FFFFu64,
            ;
        }
        an * bd >= bn * ad
    }

    /// Keeps, of every frame size that occurs in the list, exactly one
    /// entry — one with the highest frame rate among that size's entries —
    /// and returns them ordered by frame size.
    pub fn filter_resolutions_with_max_fps(media_types: &[MediaType]) -> (r: Vec<MediaType>)
        ensures
            summary_ok(r@, media_types@),
    {
        let ghost sq = media_types@;
        let mut out: Vec<MediaType> = Vec::new();
        let n = media_types.len();
        proof {
            assert(sq.take(0) =~= Seq::<MediaType>::empty());
        }
        for k in 0..n
            invariant
                n == sq.len(),
                sq == media_types@,
                summary_ok(out@, sq.take(k as int)),
        {
            let mt = *vstd::slice::slice_index_get(media_types, k);
            proof {
                assert(sq.take(k + 1) =~= sq.take(k as int).push(sq[k as int]));
            }
            merge_one(&mut out, mt, Ghost(sq.take(k as int)));
        }
        proof {
            assert(sq.take(n as int) =~= sq);
        }
        out
    }
}

/// Whether some entry of the summary has the given format's frame size.
/// (Opaque: the lemmas below introduce and eliminate it through explicit
/// witnesses.)
#[verifier::opaque]
pub open spec fn resolution_covered(out: Seq<MediaType>, x: MediaType) -> bool {
    exists|i: int| 0 <= i < out.len() && #[trigger] same_resolution(out[i], x)
}

/// Law: an entry of the right size shows its format covered.
proof fn lemma_covered_intro(out: Seq<MediaType>, x: MediaType, i: int)
    requires
        0 <= i < out.len(),
        same_resolution(out[i], x),
    ensures
        resolution_covered(out, x),
{
    reveal(resolution_covered);
}

/// Law: a covered format has an entry of its size; this picks one.
proof fn covered_witness(out: Seq<MediaType>, x: MediaType) -> (i: int)
    requires
        resolution_covered(out, x),
    ensures
        0 <= i < out.len(),
        same_resolution(out[i], x),
{
    reveal(resolution_covered);
    choose|i: int| 0 <= i < out.len() && #[trigger] same_resolution(out[i], x)
}

/// Law: the rate comparison is total, so the slower of two formats is known
/// once the faster is.
proof fn lemma_rate_ge_total(a: MediaType, b: MediaType)
    requires
        !rate_ge(a, b),
    ensures
        rate_ge(b, a),
{
    reveal(rate_ge);
}

/// Whether a format is one of the given ones. (Opaque: the lemmas below
/// introduce it through explicit witnesses.)
#[verifier::opaque]
pub open spec fn member_of(given: Seq<MediaType>, x: MediaType) -> bool {
    exists|k: int| 0 <= k < given.len() && #[trigger] given[k] == x
}

/// Law: membership means exactly what `Seq::contains` means.
pub proof fn lemma_member_of_is_contains(given: Seq<MediaType>, x: MediaType)
    ensures
        member_of(given, x) == given.contains(x),
{
    reveal(member_of);
}

/// Law: whoever was among the given formats still is after one more is
/// seen.
proof fn lemma_member_still(given: Seq<MediaType>, mt: MediaType, x: MediaType)
    requires
        member_of(given, x),
    ensures
        member_of(given.push(mt), x),
{
    reveal(member_of);
    let k = choose|k: int| 0 <= k < given.len() && #[trigger] given[k] == x;
    assert(given.push(mt)[k] == x);
}

/// Law: the newly seen format is among the given ones afterwards.
proof fn lemma_member_new(given: Seq<MediaType>, mt: MediaType)
    ensures
        member_of(given.push(mt), mt),
{
    reveal(member_of);
    assert(given.push(mt)[given.len() as int] == mt);
}

/// The relation between a summary and the formats it was built from: the
/// summary is strictly ordered by frame size (so each size appears once),
/// every entry is one of the given formats, every given format's size is
/// represented, and each entry's frame rate is at least that of every given
/// format of its size.
pub open spec fn summary_ok(out: Seq<MediaType>, given: Seq<MediaType>) -> bool {
    &&& forall|i: int, j: int| 0 <= i < j < out.len() ==> resolution_lt(out[i], out[j])
    &&& forall|i: int| #![trigger out[i]] 0 <= i < out.len() ==> member_of(given, out[i])
    &&& forall|k: int| #![trigger given[k]]
        0 <= k < given.len() ==> resolution_covered(out, given[k])
    &&& forall|i: int, k: int| #![trigger out[i], given[k]]
        0 <= i < out.len() && 0 <= k < given.len() && same_resolution(out[i], given[k])
            ==> rate_ge(out[i], given[k])
}

/// Law: a summary entry already at least as fast as a newly seen format of
/// its size summarizes the new format too.
proof fn lemma_skip_summary(out: Seq<MediaType>, given: Seq<MediaType>, pos: int, mt: MediaType)
    requires
        summary_ok(out, given),
        0 <= pos < out.len(),
        same_resolution(out[pos], mt),
        rate_ge(out[pos], mt),
    ensures
        summary_ok(out, given.push(mt)),
{
    let given2 = given.push(mt);
    assert forall|i: int| #![trigger out[i]] 0 <= i < out.len() implies member_of(
        given2,
        out[i],
    ) by {
        lemma_member_still(given, mt, out[i]);
    }
    assert forall|k: int| #![trigger given2[k]]
        0 <= k < given2.len() implies resolution_covered(out, given2[k]) by {
        if k == given.len() {
            lemma_covered_intro(out, given2[k], pos);
        } else {
            assert(given2[k] == given[k]);
        }
    }
    assert forall|i: int, k: int| #![trigger out[i], given2[k]]
        0 <= i < out.len() && 0 <= k < given2.len() && same_resolution(out[i], given2[k])
        implies rate_ge(out[i], given2[k]) by {
        if k == given.len() {
            if i != pos {
                assert(same_resolution(out[i], out[pos]));
                if i < pos {
                    assert(resolution_lt(out[i], out[pos]));
                } else {
                    assert(resolution_lt(out[pos], out[i]));
                }
                assert(false);
            }
        } else {
            assert(given2[k] == given[k]);
        }
    }
}

/// Law: replacing the summary entry of a size with a newly seen, faster
/// format of that size summarizes the new format and still everything seen
/// before.
proof fn lemma_replace_summary(out: Seq<MediaType>, given: Seq<MediaType>, pos: int, mt: MediaType)
    requires
        summary_ok(out, given),
        0 <= pos < out.len(),
        same_resolution(out[pos], mt),
        rate_ge(mt, out[pos]),
    ensures
        summary_ok(out.update(pos, mt), given.push(mt)),
{
    let out2 = out.update(pos, mt);
    let given2 = given.push(mt);
    assert forall|i: int, j: int| 0 <= i < j < out2.len() implies resolution_lt(out2[i], out2[j]) by {
        assert(resolution_lt(out[i], out[j]));
    }
    assert forall|i: int| #![trigger out2[i]] 0 <= i < out2.len() implies member_of(
        given2,
        out2[i],
    ) by {
        if i == pos {
            lemma_member_new(given, mt);
        } else {
            assert(out2[i] == out[i]);
            lemma_member_still(given, mt, out[i]);
        }
    }
    assert forall|k: int| #![trigger given2[k]]
        0 <= k < given2.len() implies resolution_covered(out2, given2[k]) by {
        if k == given.len() {
            lemma_covered_intro(out2, given2[k], pos);
        } else {
            assert(given2[k] == given[k]);
            let i = covered_witness(out, given[k]);
            assert(same_resolution(out2[i], given2[k]));
            lemma_covered_intro(out2, given2[k], i);
        }
    }
    assert forall|i: int, k: int| #![trigger out2[i], given2[k]]
        0 <= i < out2.len() && 0 <= k < given2.len() && same_resolution(out2[i], given2[k])
        implies rate_ge(out2[i], given2[k]) by {
        if i == pos {
            if k == given.len() {
                assert(given2[k] == mt);
                lemma_rate_ge_refl(mt);
            } else {
                assert(given2[k] == given[k]);
                assert(same_resolution(out[pos], given[k]));
                assert(rate_ge(out[pos], given[k]));
                lemma_rate_ge_trans(mt, out[pos], given[k]);
            }
        } else {
            if k == given.len() {
                assert(out2[i] == out[i]);
                assert(same_resolution(out[i], out[pos]));
                if i < pos {
                    assert(resolution_lt(out[i], out[pos]));
                } else {
                    assert(resolution_lt(out[pos], out[i]));
                }
                assert(false);
            } else {
                assert(given2[k] == given[k]);
            }
        }
    }
}

/// Law: a newly seen format of a size not yet represented, inserted at its
/// place in the order, extends the summary.
proof fn lemma_insert_summary(out: Seq<MediaType>, given: Seq<MediaType>, pos: int, mt: MediaType)
    requires
        summary_ok(out, given),
        0 <= pos <= out.len(),
        forall|j: int| 0 <= j < pos ==> resolution_lt(out[j], mt),
        forall|j: int| pos <= j < out.len() ==> resolution_lt(mt, out[j]),
    ensures
        summary_ok(out.insert(pos, mt), given.push(mt)),
{
    out.insert_ensures(pos, mt);
    let out2 = out.insert(pos, mt);
    let given2 = given.push(mt);
    assert forall|i: int, j: int| 0 <= i < j < out2.len() implies resolution_lt(out2[i], out2[j]) by {
        if j < pos {
            assert(resolution_lt(out[i], out[j]));
        } else if i > pos {
            assert(resolution_lt(out[i - 1], out[j - 1]));
        } else if i < pos && j == pos {
            assert(resolution_lt(out[i], mt));
        } else if i < pos && j > pos {
            assert(resolution_lt(out[i], out[j - 1]));
        } else if i == pos {
            assert(resolution_lt(mt, out[j - 1]));
        }
    }
    assert forall|i: int| #![trigger out2[i]] 0 <= i < out2.len() implies member_of(
        given2,
        out2[i],
    ) by {
        if i == pos {
            lemma_member_new(given, mt);
        } else if i < pos {
            lemma_member_still(given, mt, out[i]);
        } else {
            assert(out2[i] == out[i - 1]);
            lemma_member_still(given, mt, out[i - 1]);
        }
    }
    assert forall|k: int| #![trigger given2[k]]
        0 <= k < given2.len() implies resolution_covered(out2, given2[k]) by {
        if k == given.len() {
            lemma_covered_intro(out2, given2[k], pos);
        } else {
            assert(given2[k] == given[k]);
            let i = covered_witness(out, given[k]);
            if i < pos {
                assert(same_resolution(out2[i], given2[k]));
                lemma_covered_intro(out2, given2[k], i);
            } else {
                assert(out2[i + 1] == out[i]);
                assert(same_resolution(out2[i + 1], given2[k]));
                lemma_covered_intro(out2, given2[k], i + 1);
            }
        }
    }
    assert forall|i: int, k: int| #![trigger out2[i], given2[k]]
        0 <= i < out2.len() && 0 <= k < given2.len() && same_resolution(out2[i], given2[k])
        implies rate_ge(out2[i], given2[k]) by {
        if i == pos {
            if k < given.len() {
                assert(given2[k] == given[k]);
                let w = covered_witness(out, given[k]);
                assert(same_resolution(out[w], mt));
                if w < pos {
                    assert(resolution_lt(out[w], mt));
                } else {
                    assert(resolution_lt(mt, out[w]));
                }
                assert(false);
            } else {
                lemma_rate_ge_refl(mt);
            }
        } else if i < pos {
            if k == given.len() {
                assert(resolution_lt(out2[i], mt));
                assert(false);
            } else {
                assert(given2[k] == given[k]);
            }
        } else {
            assert(out2[i] == out[i - 1]);
            if k == given.len() {
                assert(resolution_lt(mt, out[i - 1]));
                assert(false);
            } else {
                assert(given2[k] == given[k]);
            }
        }
    }
}

/// Folds one newly seen format into a summary of the formats before it.
fn merge_one(out: &mut Vec<MediaType>, mt: MediaType, Ghost(given): Ghost<Seq<MediaType>>)
    requires
        summary_ok(old(out)@, given),
    ensures
        summary_ok(final(out)@, given.push(mt)),
{
    let mut pos: usize = 0;
    while pos < out.len() && (out[pos].width < mt.width || (out[pos].width == mt.width
        && out[pos].height < mt.height))
        invariant
            0 <= pos <= out@.len(),
            forall|j: int| 0 <= j < pos ==> resolution_lt(out@[j], mt),
            out@ == old(out)@,
        decreases out@.len() - pos,
    {
        pos += 1;
    }
    let ghost pre = out@;
    if pos < out.len() && out[pos].width == mt.width && out[pos].height == mt.height {
        if out[pos].rate_at_least(&mt) {
            proof {
                lemma_skip_summary(pre, given, pos as int, mt);
            }
        } else {
            proof {
                lemma_rate_ge_total(pre[pos as int], mt);
            }
            out[pos] = mt;
            proof {
                lemma_replace_summary(pre, given, pos as int, mt);
            }
        }
    } else {
        proof {
            assert forall|j: int| pos <= j < pre.len() implies resolution_lt(mt, pre[j]) by {
                assert(!resolution_lt(pre[pos as int], mt));
                assert(!same_resolution(pre[pos as int], mt));
                if j > pos {
                    assert(resolution_lt(pre[pos as int], pre[j]));
                }
            }
        }
        out.insert(pos, mt);
        proof {
            lemma_insert_summary(pre, given, pos as int, mt);
        }
    }
}

} // verus!
