use vstd::prelude::*;

use crate::text::{
    cells_width, lemma_width_concat, lemma_width_singleton, lemma_width_split, space_cell, Cluster,
    ClusterView, Style, StyledLine,
};

verus! {

/// Splitting off the first cluster splits the width.
proof fn lemma_width_first(cs: Seq<ClusterView>)
    requires
        cs.len() >= 1,
    ensures
        cells_width(cs) == cs.first().width + cells_width(cs.drop_first()),
{
    lemma_width_split(cs, 1);
    assert(cs.take(1) =~= seq![cs.first()]);
    lemma_width_singleton(cs.first());
    assert(cs.skip(1) =~= cs.drop_first());
}

/// `n` space clusters of width one, all in the given style.
pub open spec fn pad_cells(style: Style, n: nat) -> Seq<ClusterView> {
    Seq::new(n, |i: int| space_cell(style))
}

/// Crops `k` display columns off the front of a cluster sequence. A cluster
/// that the cut falls inside is dropped whole; the first component is then
/// the residual: the dropped cluster's columns past the cut, which a caller
/// pads with blanks to keep the column alignment. Past the end of the line
/// the residual is whatever is left to crop.
pub open spec fn crop_model(cs: Seq<ClusterView>, k: nat) -> (nat, Seq<ClusterView>)
    decreases cs.len(),
{
    if k == 0 {
        (0nat, cs)
    } else if cs.len() == 0 {
        (k, cs)
    } else if cs.first().width <= k {
        crop_model(cs.drop_first(), (k - cs.first().width) as nat)
    } else {
        ((cs.first().width - k) as nat, cs.drop_first())
    }
}

/// Crops `k` display columns off the front, replacing a cluster that the cut
/// falls inside by blanks for its columns past the cut, in that cluster's
/// style: the line keeps its column alignment and loses exactly `k` columns
/// (or everything, when `k` exceeds its width).
pub open spec fn crop_pad_model(cs: Seq<ClusterView>, k: nat) -> Seq<ClusterView>
    decreases cs.len(),
{
    if k == 0 {
        cs
    } else if cs.len() == 0 {
        cs
    } else if cs.first().width <= k {
        crop_pad_model(cs.drop_first(), (k - cs.first().width) as nat)
    } else {
        pad_cells(cs.first().style, (cs.first().width - k) as nat) + cs.drop_first()
    }
}

/// Cropping zero columns changes nothing and leaves no residual.
pub proof fn lemma_crop_zero(cs: Seq<ClusterView>)
    ensures
        crop_model(cs, 0) == (0nat, cs),
        crop_pad_model(cs, 0) == cs,
{
}

/// Column accounting for the residual cropper: within the line, the columns
/// that remain, the columns asked off and the residual columns of the cluster
/// the cut fell inside add up exactly to the original width.
pub proof fn lemma_crop_width(cs: Seq<ClusterView>, k: nat)
    requires
        k <= cells_width(cs),
    ensures
        cells_width(crop_model(cs, k).1) + k + crop_model(cs, k).0 == cells_width(cs),
    decreases cs.len(),
{
    if k == 0 {
    } else if cs.len() == 0 {
    } else {
        lemma_width_first(cs);
        if cs.first().width <= k {
            lemma_crop_width(cs.drop_first(), (k - cs.first().width) as nat);
        }
    }
}

/// Column accounting for the padding cropper: the line loses exactly the
/// columns asked off, so everything behind the cut keeps its alignment.
pub proof fn lemma_crop_pad_width(cs: Seq<ClusterView>, k: nat)
    requires
        k <= cells_width(cs),
    ensures
        cells_width(crop_pad_model(cs, k)) + k == cells_width(cs),
    decreases cs.len(),
{
    if k == 0 {
    } else if cs.len() == 0 {
    } else {
        lemma_width_first(cs);
        if cs.first().width <= k {
            lemma_crop_pad_width(cs.drop_first(), (k - cs.first().width) as nat);
        } else {
            let pads = pad_cells(cs.first().style, (cs.first().width - k) as nat);
            crate::wrap::lemma_pad_width(cs.first().style, (cs.first().width - k) as nat);
            lemma_width_concat(pads, cs.drop_first());
        }
    }
}

/// Crops compose: cropping `a` columns and then `b` more is cropping `a + b`
/// at once, residual included, whenever the first cut lands on a cluster
/// boundary (residual zero).
pub proof fn lemma_crop_compose(cs: Seq<ClusterView>, a: nat, b: nat)
    requires
        crop_model(cs, a).0 == 0,
    ensures
        crop_model(crop_model(cs, a).1, b) == crop_model(cs, (a + b) as nat),
    decreases cs.len(),
{
    if a == 0 {
    } else if cs.len() == 0 {
    } else if cs.first().width <= a {
        lemma_crop_compose(cs.drop_first(), (a - cs.first().width) as nat, b);
    }
}

/// The copy of a line from cluster index `i` on.
fn suffix(line: &StyledLine, i: usize) -> (r: StyledLine)
    requires
        i <= line@.len(),
    ensures
        r@ == line@.skip(i as int),
{
    let mut clusters: Vec<Cluster> = Vec::new();
    let mut j: usize = i;
    while j < line.clusters.len()
        invariant
            i <= j <= line@.len(),
            line@.len() == line.clusters@.len(),
            clusters@.len() == j - i,
            forall|k: int|
                0 <= k < clusters@.len() ==> #[trigger] clusters@[k]@ == line@[i + k],
        decreases line@.len() - j,
    {
        proof {
            assert(line@[j as int] == line.clusters@[j as int]@);
        }
        clusters.push(line.clusters[j].clone());
        j += 1;
    }
    let r = StyledLine { clusters };
    proof {
        assert(r@ =~= line@.skip(i as int));
    }
    r
}

/// Removes the leading `crop` display columns from a line. Whole clusters up
/// to the cut are dropped; a cluster that the cut falls inside is dropped too
/// and its columns past the cut come back as the residual, for the caller to
/// pad. Past the end of the line, the residual is what is left to crop.
pub fn crop_left(line: StyledLine, crop: usize) -> (r: (usize, StyledLine))
    ensures
        r.0 as nat == crop_model(line@, crop as nat).0,
        r.1@ == crop_model(line@, crop as nat).1,
{
    let mut i: usize = 0;
    let mut k: usize = crop;
    proof {
        assert(line@.skip(0) =~= line@);
    }
    while k > 0 && i < line.clusters.len()
        invariant
            i <= line@.len(),
            line@.len() == line.clusters@.len(),
            crop_model(line@, crop as nat) == crop_model(line@.skip(i as int), k as nat),
        decreases line@.len() - i,
    {
        proof {
            assert(line@.skip(i as int).first() == line@[i as int]);
            assert(line@[i as int] == line.clusters@[i as int]@);
            assert(line@.skip(i as int).drop_first() =~= line@.skip(i + 1));
        }
        let w = line.clusters[i].width;
        if w <= k {
            k = k - w;
            i = i + 1;
        } else {
            let res = w - k;
            return (res, suffix(&line, i + 1));
        }
    }
    proof {
        assert(crop_model(line@.skip(i as int), k as nat) == (k as nat, line@.skip(i as int)));
    }
    (k, suffix(&line, i))
}

/// Removes the leading `offset` display columns from a line, replacing a
/// cluster that the cut falls inside by blanks in its own style, so that the
/// remaining content keeps its column alignment.
pub fn crop_line(line: &StyledLine, offset: usize) -> (r: StyledLine)
    ensures
        r@ == crop_pad_model(line@, offset as nat),
{
    let mut i: usize = 0;
    let mut k: usize = offset;
    proof {
        assert(line@.skip(0) =~= line@);
    }
    while k > 0 && i < line.clusters.len()
        invariant
            i <= line@.len(),
            line@.len() == line.clusters@.len(),
            crop_pad_model(line@, offset as nat) == crop_pad_model(line@.skip(i as int), k as nat),
        decreases line@.len() - i,
    {
        proof {
            assert(line@.skip(i as int).first() == line@[i as int]);
            assert(line@[i as int] == line.clusters@[i as int]@);
            assert(line@.skip(i as int).drop_first() =~= line@.skip(i + 1));
        }
        let w = line.clusters[i].width;
        if w <= k {
            k = k - w;
            i = i + 1;
        } else {
            let style = line.clusters[i].style;
            let pad_count = w - k;
            let mut clusters: Vec<Cluster> = Vec::new();
            let mut p: usize = 0;
            while p < pad_count
                invariant
                    p <= pad_count,
                    clusters@.len() == p,
                    forall|m: int|
                        0 <= m < clusters@.len() ==> #[trigger] clusters@[m]@ == space_cell(style),
                decreases pad_count - p,
            {
                clusters.push(Cluster::space(style));
                p += 1;
            }
            let tail = suffix(line, i + 1);
            let mut t: usize = 0;
            let ghost pads = clusters@.map_values(|c: Cluster| c@);
            proof {
                assert(pads =~= pad_cells(style, pad_count as nat));
            }
            while t < tail.clusters.len()
                invariant
                    t <= tail.clusters@.len(),
                    clusters@.len() == pad_count + t,
                    forall|m: int|
                        0 <= m < pad_count ==> #[trigger] clusters@[m]@ == space_cell(style),
                    forall|m: int|
                        pad_count <= m < clusters@.len() ==> #[trigger] clusters@[m]@
                            == tail.clusters@[m - pad_count]@,
                decreases tail.clusters@.len() - t,
            {
                clusters.push(tail.clusters[t].clone());
                t += 1;
            }
            let r = StyledLine { clusters };
            proof {
                assert(r@ =~= pad_cells(style, pad_count as nat) + tail@);
            }
            return r;
        }
    }
    suffix(line, i)
}

} // verus!
