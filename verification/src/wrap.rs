use vstd::prelude::*;

use crate::crop::{crop_line, crop_pad_model, pad_cells};
use crate::text::{
    cells_width, lemma_width_concat, space_cell, Cluster, ClusterView, Style, StyledBlock,
    StyledLine,
};

verus! {

/// The views of a sequence of clusters.
pub open spec fn cluster_views(cs: Seq<Cluster>) -> Seq<ClusterView> {
    cs.map_values(|c: Cluster| c@)
}

/// An ellipsis cluster of width one, marking truncated content.
pub open spec fn ellipsis_cell(style: Style) -> ClusterView {
    ClusterView { text: "…"@, width: 1, style }
}

/// Greedy wrap of a cluster sequence at a column budget `w`, begun at column
/// `pos` with the clusters `cur` already on the current line: the content of
/// each output line, without padding. A cluster that would overflow the
/// budget closes the current line and opens the next; one wider than the
/// whole budget is replaced by a single space in its style. The remainder is
/// always flushed, so at least one (possibly empty) line comes out.
pub open spec fn wrap_rec(cs: Seq<ClusterView>, w: nat, pos: nat, cur: Seq<ClusterView>) -> Seq<
    Seq<ClusterView>,
>
    decreases cs.len(),
{
    if cs.len() == 0 {
        seq![cur]
    } else {
        let c = cs.first();
        if pos + c.width <= w {
            wrap_rec(cs.drop_first(), w, pos + c.width, cur.push(c))
        } else {
            let c2 = if c.width > w {
                space_cell(c.style)
            } else {
                c
            };
            seq![cur] + wrap_rec(cs.drop_first(), w, c2.width, seq![c2])
        }
    }
}

/// The content chunks of wrapping a line at budget `w`.
pub open spec fn wrap_model(cs: Seq<ClusterView>, w: nat) -> Seq<Seq<ClusterView>> {
    wrap_rec(cs, w, 0, Seq::empty())
}

/// A content chunk padded with plain spaces to exactly `w` columns.
pub open spec fn pad_chunk(chunk: Seq<ClusterView>, w: nat) -> Seq<ClusterView> {
    if cells_width(chunk) <= w {
        chunk + pad_cells(Style::plain(), (w - cells_width(chunk)) as nat)
    } else {
        chunk
    }
}

/// The wrapped lines as emitted: every chunk but the last padded to `w`.
pub open spec fn wrap_padded(cs: Seq<ClusterView>, w: nat) -> Seq<Seq<ClusterView>> {
    let m = wrap_model(cs, w);
    Seq::new(m.len(), |i: int| if i < m.len() - 1 { pad_chunk(m[i], w) } else { m[i] })
}

/// Padding has exactly as many columns as it has spaces.
pub proof fn lemma_pad_width(style: Style, n: nat)
    ensures
        cells_width(pad_cells(style, n)) == n,
    decreases n,
{
    if n == 0 {
        assert(pad_cells(style, 0) =~= Seq::<ClusterView>::empty());
    } else {
        lemma_pad_width(style, (n - 1) as nat);
        assert(pad_cells(style, n).drop_last() =~= pad_cells(style, (n - 1) as nat));
    }
}

/// Wrapping always yields at least one line.
pub proof fn lemma_wrap_nonempty(cs: Seq<ClusterView>, w: nat, pos: nat, cur: Seq<ClusterView>)
    ensures
        wrap_rec(cs, w, pos, cur).len() >= 1,
    decreases cs.len(),
{
    if cs.len() > 0 {
        let c = cs.first();
        if pos + c.width <= w {
            lemma_wrap_nonempty(cs.drop_first(), w, pos + c.width, cur.push(c));
        } else {
            let c2 = if c.width > w {
                space_cell(c.style)
            } else {
                c
            };
            lemma_wrap_nonempty(cs.drop_first(), w, c2.width, seq![c2]);
        }
    }
}

/// Every content chunk fits the budget: its width is at most `w`.
proof fn lemma_wrap_rec_chunk_widths(cs: Seq<ClusterView>, w: nat, pos: nat, cur: Seq<ClusterView>)
    requires
        w >= 1,
        pos == cells_width(cur),
        pos <= w,
    ensures
        forall|i: int|
            0 <= i < wrap_rec(cs, w, pos, cur).len() ==> cells_width(
                #[trigger] wrap_rec(cs, w, pos, cur)[i],
            ) <= w,
    decreases cs.len(),
{
    let r = wrap_rec(cs, w, pos, cur);
    if cs.len() == 0 {
        assert forall|i: int| 0 <= i < r.len() implies cells_width(#[trigger] r[i]) <= w by {
            assert(r[i] == cur);
        }
    } else {
        let c = cs.first();
        if pos + c.width <= w {
            assert(cur.push(c).drop_last() =~= cur);
            lemma_wrap_rec_chunk_widths(cs.drop_first(), w, pos + c.width, cur.push(c));
            let r2 = wrap_rec(cs.drop_first(), w, pos + c.width, cur.push(c));
            assert forall|i: int| 0 <= i < r.len() implies cells_width(#[trigger] r[i]) <= w by {
                assert(r[i] == r2[i]);
                assert(cells_width(r2[i]) <= w);
            }
        } else {
            let c2 = if c.width > w {
                space_cell(c.style)
            } else {
                c
            };
            crate::text::lemma_width_singleton(c2);
            lemma_wrap_rec_chunk_widths(cs.drop_first(), w, c2.width, seq![c2]);
            let r2 = wrap_rec(cs.drop_first(), w, c2.width, seq![c2]);
            assert forall|i: int| 0 <= i < r.len() implies cells_width(#[trigger] r[i]) <= w by {
                if i == 0 {
                    assert(r[i] == cur);
                } else {
                    assert(r[i] == r2[i - 1]);
                    assert(cells_width(r2[i - 1]) <= w);
                }
            }
        }
    }
}

/// Wrap length invariant: at a positive budget, every wrapped output line
/// except the last has display width exactly `w`, and the last fits in `w`.
pub proof fn lemma_wrap_length_invariant(cs: Seq<ClusterView>, w: nat)
    requires
        w >= 1,
    ensures
        forall|i: int|
            0 <= i < wrap_padded(cs, w).len() - 1 ==> cells_width(#[trigger] wrap_padded(cs, w)[i])
                == w,
        cells_width(wrap_padded(cs, w)[wrap_padded(cs, w).len() - 1]) <= w,
{
    assert(cells_width(Seq::<ClusterView>::empty()) == 0);
    lemma_wrap_rec_chunk_widths(cs, w, 0, Seq::empty());
    lemma_wrap_nonempty(cs, w, 0, Seq::empty());
    let m = wrap_model(cs, w);
    assert forall|i: int| 0 <= i < wrap_padded(cs, w).len() - 1 implies cells_width(
        #[trigger] wrap_padded(cs, w)[i],
    ) == w by {
        assert(cells_width(m[i]) <= w);
        lemma_pad_width(Style::plain(), (w - cells_width(m[i])) as nat);
        lemma_width_concat(m[i], pad_cells(Style::plain(), (w - cells_width(m[i])) as nat));
    }
    assert(cells_width(m[m.len() - 1]) <= w);
}

/// Content preservation: when no cluster is wider than the budget, the
/// concatenation of the wrapped lines' content (padding left aside)
/// reproduces the original cluster sequence exactly, styles included.
pub proof fn lemma_wrap_content_preserved(cs: Seq<ClusterView>, w: nat)
    requires
        w >= 1,
        forall|i: int| 0 <= i < cs.len() ==> #[trigger] cs[i].width <= w,
    ensures
        wrap_model(cs, w).flatten() == cs,
{
    lemma_wrap_rec_content(cs, w, 0, Seq::empty());
    assert(Seq::<ClusterView>::empty() + cs =~= cs);
}

proof fn lemma_wrap_rec_content(cs: Seq<ClusterView>, w: nat, pos: nat, cur: Seq<ClusterView>)
    requires
        w >= 1,
        forall|i: int| 0 <= i < cs.len() ==> #[trigger] cs[i].width <= w,
    ensures
        wrap_rec(cs, w, pos, cur).flatten() == cur + cs,
    decreases cs.len(),
{
    if cs.len() == 0 {
        Seq::lemma_flatten_one_element(seq![cur]);
        assert(cur + cs =~= cur);
    } else {
        let c = cs.first();
        assert(c == cs[0]);
        assert(forall|i: int|
            0 <= i < cs.drop_first().len() ==> #[trigger] cs.drop_first()[i].width <= w);
        if pos + c.width <= w {
            lemma_wrap_rec_content(cs.drop_first(), w, pos + c.width, cur.push(c));
            assert(cur.push(c) + cs.drop_first() =~= cur + cs);
        } else {
            lemma_wrap_rec_content(cs.drop_first(), w, c.width, seq![c]);
            let rest = wrap_rec(cs.drop_first(), w, c.width, seq![c]);
            assert((seq![cur] + rest).first() == cur);
            assert((seq![cur] + rest).drop_first() =~= rest);
            assert((seq![cur] + rest).flatten() == cur + rest.flatten());
            assert(cur + (seq![c] + cs.drop_first()) =~= cur + cs);
        }
    }
}

/// Splits an over-wide styled line into display lines of at most `max_width`
/// columns, grapheme cluster by grapheme cluster, padding every line but the
/// last with plain spaces to exactly `max_width`. A cluster wider than the
/// whole budget is replaced by a single space in its style.
pub fn wrap_line(line: &StyledLine, max_width: usize) -> (r: Vec<StyledLine>)
    requires
        max_width >= 1,
    ensures
        r@.map_values(|l: StyledLine| l@) == wrap_padded(line@, max_width as nat),
{
    let ghost w = max_width as nat;
    let mut out: Vec<StyledLine> = Vec::new();
    let mut cur: Vec<Cluster> = Vec::new();
    let mut pos: usize = 0;
    let ghost mut chunks: Seq<Seq<ClusterView>> = Seq::empty();
    let mut i: usize = 0;
    proof {
        assert(line@.skip(0) =~= line@);
        assert(cluster_views(cur@) =~= Seq::<ClusterView>::empty());
    }
    while i < line.clusters.len()
        invariant
            max_width >= 1,
            w == max_width as nat,
            i <= line@.len(),
            line@.len() == line.clusters@.len(),
            pos <= max_width,
            pos as nat == cells_width(cluster_views(cur@)),
            wrap_model(line@, w) == chunks + wrap_rec(
                line@.skip(i as int),
                w,
                pos as nat,
                cluster_views(cur@),
            ),
            out@.len() == chunks.len(),
            forall|j: int| 0 <= j < out@.len() ==> #[trigger] out@[j]@ == pad_chunk(chunks[j], w),
        decreases line@.len() - i,
    {
        proof {
            assert(line@.skip(i as int).first() == line@[i as int]);
            assert(line@[i as int] == line.clusters@[i as int]@);
            assert(line@.skip(i as int).drop_first() =~= line@.skip(i + 1));
        }
        let cw = line.clusters[i].width;
        if cw <= max_width - pos {
            let ghost prev = cluster_views(cur@);
            cur.push(line.clusters[i].clone());
            pos = pos + cw;
            proof {
                assert(cluster_views(cur@) =~= prev.push(line@[i as int]));
                assert(cluster_views(cur@).drop_last() =~= prev);
            }
        } else {
            let ghost opos = pos as nat;
            let pad_n = max_width - pos;
            let ghost curv = cluster_views(cur@);
            let mut emitted = cur;
            cur = Vec::new();
            let ghost ne = emitted@.len();
            let mut p: usize = 0;
            while p < pad_n
                invariant
                    p <= pad_n,
                    ne == curv.len(),
                    emitted@.len() == ne + p,
                    forall|m: int| 0 <= m < ne ==> #[trigger] emitted@[m]@ == curv[m],
                    forall|m: int|
                        ne <= m < emitted@.len() ==> #[trigger] emitted@[m]@ == space_cell(
                            Style::plain(),
                        ),
                decreases pad_n - p,
            {
                emitted.push(Cluster::space(Style::default()));
                p += 1;
            }
            let el = StyledLine { clusters: emitted };
            proof {
                assert(el@ =~= curv + pad_cells(Style::plain(), pad_n as nat));
                assert(el@ == pad_chunk(curv, w));
            }
            out.push(el);
            let c2 = if cw > max_width {
                Cluster::space(line.clusters[i].style)
            } else {
                line.clusters[i].clone()
            };
            pos = c2.width;
            cur.push(c2);
            proof {
                let cv = line@[i as int];
                let c2v = if cv.width > w {
                    space_cell(cv.style)
                } else {
                    cv
                };
                assert(c2@ == c2v);
                assert(cluster_views(cur@) =~= seq![c2v]);
                crate::text::lemma_width_singleton(c2v);
                assert(opos + cv.width > w);
                let rest = wrap_rec(line@.skip(i + 1), w, c2v.width, seq![c2v]);
                assert(wrap_rec(line@.skip(i as int), w, opos, curv) == seq![curv] + rest);
                assert(chunks + (seq![curv] + rest) =~= chunks.push(curv) + rest);
                chunks = chunks.push(curv);
            }
        }
        i += 1;
    }
    let ghost curv = cluster_views(cur@);
    let fl = StyledLine { clusters: cur };
    out.push(fl);
    proof {
        assert(line@.skip(line@.len() as int) =~= Seq::<ClusterView>::empty());
        assert(fl@ =~= curv);
        assert(wrap_model(line@, w) == chunks.push(curv)) by {
            assert(chunks + seq![curv] =~= chunks.push(curv));
        }
        assert(out@.map_values(|l: StyledLine| l@) =~= wrap_padded(line@, w));
    }
    out
}

/// The first wrapped line with its last cluster's columns given over to an
/// ellipsis: the cluster is replaced by blanks for all its columns but the
/// last and an ellipsis mark, in its own style.
pub open spec fn ellipsify(cs: Seq<ClusterView>) -> Seq<ClusterView> {
    if cs.len() == 0 {
        cs
    } else {
        let c = cs.last();
        let pads = if c.width >= 1 {
            (c.width - 1) as nat
        } else {
            0nat
        };
        cs.drop_last() + pad_cells(c.style, pads) + seq![ellipsis_cell(c.style)]
    }
}

/// What laying out one source line yields: wrap at `max_width`, crop each
/// wrapped line by `offset`; in no-wrap mode only the first wrapped line is
/// kept, with an ellipsis in its last cluster's place when the source line
/// overflowed the budget.
pub open spec fn layout_line_model(
    cells: Seq<ClusterView>,
    w: nat,
    no_wrap: bool,
    offset: nat,
) -> Seq<Seq<ClusterView>> {
    let wrapped = wrap_padded(cells, w);
    let cropped = Seq::new(wrapped.len(), |i: int| crop_pad_model(wrapped[i], offset));
    if no_wrap {
        if cells_width(cells) > w {
            seq![ellipsify(cropped[0])]
        } else {
            seq![cropped[0]]
        }
    } else {
        cropped
    }
}

/// What laying out a whole block yields: each source line's output lines, in
/// source order.
pub open spec fn layout_model(b: Seq<Seq<ClusterView>>, w: nat, no_wrap: bool, offset: nat) -> Seq<
    Seq<ClusterView>,
> {
    b.map_values(|l: Seq<ClusterView>| layout_line_model(l, w, no_wrap, offset)).flatten()
}

/// Replaces the last cluster of a line by blanks and an ellipsis mark of the
/// same style, keeping the line's width.
fn ellipsify_line(line: StyledLine) -> (r: StyledLine)
    ensures
        r@ == ellipsify(line@),
{
    let mut clusters = line.clusters;
    let popped = clusters.pop();
    match popped {
        None => {
            let r = StyledLine { clusters };
            proof {
                assert(r@ =~= Seq::<ClusterView>::empty());
            }
            r
        },
        Some(c) => {
            let ghost kept = cluster_views(clusters@);
            let pad_n = if c.width >= 1 {
                c.width - 1
            } else {
                0
            };
            let ghost nk = clusters@.len();
            let mut p: usize = 0;
            while p < pad_n
                invariant
                    p <= pad_n,
                    nk == kept.len(),
                    clusters@.len() == nk + p,
                    forall|m: int| 0 <= m < nk ==> #[trigger] clusters@[m]@ == kept[m],
                    forall|m: int|
                        nk <= m < clusters@.len() ==> #[trigger] clusters@[m]@ == space_cell(
                            c@.style,
                        ),
                decreases pad_n - p,
            {
                clusters.push(Cluster::space(c.style));
                p += 1;
            }
            let ell = Cluster { text: "…".to_owned(), width: 1, style: c.style };
            proof {
                assert(ell@ == ellipsis_cell(c@.style));
            }
            clusters.push(ell);
            let r = StyledLine { clusters };
            proof {
                let cv = c@;
                let pads = if cv.width >= 1 {
                    (cv.width - 1) as nat
                } else {
                    0nat
                };
                assert(line@.drop_last() =~= kept);
                assert(line@.last() == cv);
                assert(r@ =~= kept + pad_cells(cv.style, pads) + seq![ellipsis_cell(cv.style)]);
            }
            r
        },
    }
}

/// Lays a block of styled lines out for rendering at `max_width` columns:
/// wraps each line at `max_width` and crops each wrapped line by `offset`;
/// in no-wrap mode keeps only the first wrapped row of each source line and
/// marks a truncated row with a trailing ellipsis in the style of the cluster
/// it replaces.
pub fn wrap_text(text: StyledBlock, max_width: usize, no_wrap: bool, offset: usize) -> (r:
    StyledBlock)
    requires
        max_width >= 1,
    ensures
        r@ == layout_model(text@, max_width as nat, no_wrap, offset as nat),
{
    broadcast use vstd::seq_lib::group_seq_properties;

    let ghost w = max_width as nat;
    let ghost f = |l: Seq<ClusterView>| layout_line_model(l, w, no_wrap, offset as nat);
    let mut lines_wrapped: Vec<StyledLine> = Vec::new();
    let mut i: usize = 0;
    proof {
        assert(cluster_lines(lines_wrapped@) =~= Seq::<Seq<ClusterView>>::empty());
        assert(text@.take(0).map_values(f) =~= Seq::<Seq<Seq<ClusterView>>>::empty());
        assert(Seq::<Seq<Seq<ClusterView>>>::empty().flatten() =~= Seq::<
            Seq<ClusterView>,
        >::empty());
    }
    while i < text.lines.len()
        invariant
            max_width >= 1,
            w == max_width as nat,
            f == (|l: Seq<ClusterView>| layout_line_model(l, w, no_wrap, offset as nat)),
            i <= text.lines@.len(),
            cluster_lines(lines_wrapped@) == text@.take(i as int).map_values(f).flatten(),
        decreases text.lines@.len() - i,
    {
        let line = &text.lines[i];
        proof {
            assert(text@[i as int] == text.lines@[i as int]@);
        }
        let ghost before = cluster_lines(lines_wrapped@);
        let overflow = line.width_exceeds(max_width);
        let extends = wrap_line(line, max_width);
        let ghost wrapped = wrap_padded(line@, w);
        let ghost cropped = Seq::new(wrapped.len(), |m: int| crop_pad_model(wrapped[m], offset as nat));
        if no_wrap {
            proof {
                lemma_wrap_nonempty(line@, w, 0, Seq::empty());
                assert(extends@.map_values(|l: StyledLine| l@)[0] == extends@[0]@);
            }
            let fol = crop_line(&extends[0], offset);
            let fol = if overflow {
                ellipsify_line(fol)
            } else {
                fol
            };
            let ghost prevlines = lines_wrapped@;
            let ghost folv = fol@;
            lines_wrapped.push(fol);
            proof {
                assert(folv == layout_line_model(line@, w, no_wrap, offset as nat)[0]) by {
                    assert(layout_line_model(line@, w, no_wrap, offset as nat) == seq![folv]);
                }
                assert(cluster_lines(lines_wrapped@) =~= cluster_lines(prevlines).push(folv));
            }
        } else {
            let mut j: usize = 0;
            proof {
                assert(cropped.take(0) =~= Seq::<Seq<ClusterView>>::empty());
                assert(before + cropped.take(0) =~= before);
            }
            while j < extends.len()
                invariant
                    max_width >= 1,
                    w == max_width as nat,
                    j <= extends@.len(),
                    extends@.map_values(|l: StyledLine| l@) == wrapped,
                    cropped == Seq::new(
                        wrapped.len(),
                        |m: int| crop_pad_model(wrapped[m], offset as nat),
                    ),
                    cluster_lines(lines_wrapped@) == before + cropped.take(j as int),
                decreases extends@.len() - j,
            {
                proof {
                    assert(extends@.map_values(|l: StyledLine| l@)[j as int] == extends@[j as int]@);
                }
                let cl = crop_line(&extends[j], offset);
                let ghost prevlines = lines_wrapped@;
                let ghost clv = cl@;
                lines_wrapped.push(cl);
                proof {
                    assert(clv == cropped[j as int]);
                    assert(cluster_lines(lines_wrapped@) =~= cluster_lines(prevlines).push(clv));
                    assert(cropped.take(j + 1) =~= cropped.take(j as int).push(cropped[j as int]));
                    assert((before + cropped.take(j as int)).push(clv) =~= before + cropped.take(
                        j + 1,
                    ));
                }
                j += 1;
            }
            proof {
                assert(cropped.take(cropped.len() as int) =~= cropped);
                assert(layout_line_model(line@, w, no_wrap, offset as nat) == cropped);
                assert(cluster_lines(lines_wrapped@) =~= before + cropped);
            }
        }
        proof {
            assert(text@.take(i + 1).map_values(f) =~= text@.take(i as int).map_values(f).push(
                f(text@[i as int]),
            ));
            Seq::lemma_flatten_push(text@.take(i as int).map_values(f), f(text@[i as int]));
            if no_wrap {
                assert(before.push(f(text@[i as int])[0]) =~= before + f(text@[i as int]));
            }
            assert(cluster_lines(lines_wrapped@) =~= text@.take(i + 1).map_values(f).flatten());
        }
        i += 1;
    }
    let r = StyledBlock { lines: lines_wrapped };
    proof {
        assert(text@.take(text@.len() as int) =~= text@);
        assert(r@ == cluster_lines(lines_wrapped@));
        assert(r@ == layout_model(text@, w, no_wrap, offset as nat));
    }
    r
}

/// The views of a sequence of styled lines.
pub open spec fn cluster_lines(ls: Seq<StyledLine>) -> Seq<Seq<ClusterView>> {
    ls.map_values(|l: StyledLine| l@)
}

/// A sequence of positive total width holds at least one cluster.
proof fn lemma_width_positive_nonempty(cs: Seq<ClusterView>)
    requires
        cells_width(cs) > 0,
    ensures
        cs.len() >= 1,
{
}

/// Truncation marking: in no-wrap mode at zero offset, a line of clusters no
/// wider than the budget each but wider than the budget together comes out as
/// exactly one row of exactly `w` columns, whose last cluster is a width-one
/// ellipsis mark in the style of the cluster it replaced.
pub proof fn lemma_nowrap_ellipsis(cells: Seq<ClusterView>, w: nat)
    requires
        w >= 1,
        cells_width(cells) > w,
        forall|i: int| 0 <= i < cells.len() ==> 1 <= #[trigger] cells[i].width <= w,
    ensures
        layout_line_model(cells, w, true, 0).len() == 1,
        cells_width(layout_line_model(cells, w, true, 0)[0]) == w,
        layout_line_model(cells, w, true, 0)[0].len() >= 1,
        layout_line_model(cells, w, true, 0)[0].last() == ellipsis_cell(
            wrap_padded(cells, w)[0].last().style,
        ),
{
    let m = wrap_model(cells, w);
    let wrapped = wrap_padded(cells, w);
    lemma_wrap_nonempty(cells, w, 0, Seq::empty());
    lemma_wrap_content_preserved(cells, w);
    lemma_wrap_length_invariant(cells, w);
    if m.len() == 1 {
        Seq::lemma_flatten_one_element(m);
        assert(m[0] == cells);
        assert(cells_width(Seq::<ClusterView>::empty()) == 0);
        lemma_wrap_rec_chunk_widths(cells, w, 0, Seq::empty());
        assert(false);
    }
    let fol = wrapped[0];
    assert(fol == pad_chunk(m[0], w));
    assert(cells_width(fol) == w);
    lemma_width_positive_nonempty(fol);
    // Every cluster of the first row has positive width: the content part is a
    // prefix of the original clusters, the pad part is spaces of width one.
    assert(m.flatten() == m.first() + m.drop_first().flatten());
    assert(forall|k: int| 0 <= k < m[0].len() ==> m[0][k] == (m.first()
        + m.drop_first().flatten())[k]);
    let chunk = m[0];
    let pads = pad_cells(Style::plain(), (w - cells_width(chunk)) as nat);
    assert(forall|k: int| 0 <= k < chunk.len() ==> 1 <= #[trigger] chunk[k].width);
    assert(forall|k: int| 0 <= k < fol.len() ==> 1 <= #[trigger] fol[k].width) by {
        assert(forall|k: int|
            0 <= k < fol.len() ==> fol[k] == (if k < chunk.len() {
                chunk[k]
            } else {
                pads[k - chunk.len()]
            }));
    }
    let c = fol.last();
    assert(1 <= c.width);
    let out = ellipsify(fol);
    let padc = pad_cells(c.style, (c.width - 1) as nat);
    assert(out == fol.drop_last() + padc + seq![ellipsis_cell(c.style)]);
    assert(cells_width(fol) == cells_width(fol.drop_last()) + c.width);
    lemma_pad_width(c.style, (c.width - 1) as nat);
    crate::text::lemma_width_singleton(ellipsis_cell(c.style));
    lemma_width_concat(fol.drop_last() + padc, seq![ellipsis_cell(c.style)]);
    lemma_width_concat(fol.drop_last(), padc);
    assert(cells_width(out) == w);
    let cropped = Seq::new(wrapped.len(), |i: int| crop_pad_model(wrapped[i], 0));
    assert(cropped[0] == crop_pad_model(fol, 0));
    assert(crop_pad_model(fol, 0) == fol);
    assert(layout_line_model(cells, w, true, 0) == seq![ellipsify(fol)]);
    assert(out.last() == ellipsis_cell(c.style)) by {
        assert(out.len() == fol.drop_last().len() + padc.len() + 1);
        assert(out[out.len() - 1] == seq![ellipsis_cell(c.style)][0]);
    }
    assert(layout_line_model(cells, w, true, 0)[0] == out);
}

} // verus!
