use vstd::prelude::*;

use unicode_segmentation::UnicodeSegmentation;
use unicode_width::UnicodeWidthStr;

verus! {

/// Visual attributes of a piece of text: a foreground and a background colour
/// index and a set of modifier flags. The layout engine never interprets
/// these; it only carries them along, and the renderer resolves them.
#[derive(Clone, Copy, PartialEq, Eq, Structural, Debug)]
pub struct Style {
    pub fg: u32,
    pub bg: u32,
    pub modifiers: u16,
}

impl Style {
    /// The style with no colours and no modifiers, used for injected padding.
    pub open spec fn plain() -> Style {
        Style { fg: 0, bg: 0, modifiers: 0 }
    }
}

impl Default for Style {
    fn default() -> (r: Style)
        ensures
            r == Style::plain(),
    {
        Style { fg: 0, bg: 0, modifiers: 0 }
    }
}

/// A run of text sharing one style, as handed in by a caller; a line is built
/// by segmenting its runs into grapheme clusters.
#[derive(Clone, Debug)]
pub struct StyledRun {
    pub content: String,
    pub style: Style,
}

/// One extended grapheme cluster together with its display width in terminal
/// columns and the style it is drawn with. The cluster is the unit of every
/// layout operation: widths are data fixed at segmentation time.
#[derive(Debug)]
pub struct Cluster {
    pub text: String,
    pub width: usize,
    pub style: Style,
}

/// The mathematical value of a `Cluster`.
pub ghost struct ClusterView {
    pub text: Seq<char>,
    pub width: nat,
    pub style: Style,
}

/// A line of styled text, segmented into grapheme clusters in visual
/// left-to-right order.
#[derive(Clone, Debug)]
pub struct StyledLine {
    pub clusters: Vec<Cluster>,
}

/// A block of styled lines: one paragraph, top to bottom.
#[derive(Clone, Debug)]
pub struct StyledBlock {
    pub lines: Vec<StyledLine>,
}

impl View for Cluster {
    type V = ClusterView;

    open spec fn view(&self) -> ClusterView {
        ClusterView { text: self.text@, width: self.width as nat, style: self.style }
    }
}

impl View for StyledLine {
    type V = Seq<ClusterView>;

    open spec fn view(&self) -> Seq<ClusterView> {
        self.clusters@.map_values(|c: Cluster| c@)
    }
}

impl View for StyledBlock {
    type V = Seq<Seq<ClusterView>>;

    open spec fn view(&self) -> Seq<Seq<ClusterView>> {
        self.lines@.map_values(|l: StyledLine| l@)
    }
}

/// The extended grapheme clusters of a character sequence, in order, as
/// unicode_segmentation's `graphemes(s, true)` yields them.
pub uninterp spec fn graphemes_of(s: Seq<char>) -> Seq<Seq<char>>;

/// The display width in terminal columns of a character sequence, as
/// unicode_width's `UnicodeWidthStr::width` measures it.
pub uninterp spec fn measured_width(s: Seq<char>) -> usize;

/// Relies on unicode_segmentation's `UnicodeSegmentation::graphemes` with
/// `is_extended == true`: it yields the extended grapheme clusters of the
/// string in order, a pure function of the characters (UAX #29).
#[verifier::external_body]
fn segment_graphemes(s: &str) -> (r: Vec<String>)
    ensures
        r@.map_values(|g: String| g@) == graphemes_of(s@),
{
    UnicodeSegmentation::graphemes(s, true).map(|g| g.to_string()).collect()
}

/// Relies on unicode_width's `UnicodeWidthStr::width`: the number of terminal
/// columns the string occupies, a pure function of the characters (UAX #11,
/// ambiguous characters counted as one column).
#[verifier::external_body]
fn measure_width(s: &str) -> (r: usize)
    ensures
        r == measured_width(s@),
{
    UnicodeWidthStr::width(s)
}

/// A space cluster of width one: what padding is made of.
pub open spec fn space_cell(style: Style) -> ClusterView {
    ClusterView { text: " "@, width: 1, style }
}

/// The clusters a run contributes to a line: its grapheme clusters, each with
/// its measured width and the run's style.
pub open spec fn run_cells(r: StyledRun) -> Seq<ClusterView> {
    graphemes_of(r.content@).map_values(
        |g: Seq<char>| ClusterView { text: g, width: measured_width(g) as nat, style: r.style },
    )
}

/// Total display width of a cluster sequence: the sum of the cluster widths.
pub open spec fn cells_width(cs: Seq<ClusterView>) -> nat
    decreases cs.len(),
{
    if cs.len() == 0 {
        0
    } else {
        cells_width(cs.drop_last()) + cs.last().width
    }
}

/// Display width of a line: the sum of its clusters' widths.
pub open spec fn line_width(l: StyledLine) -> nat {
    cells_width(l@)
}

/// Display height of a block: its number of lines.
pub open spec fn block_height(b: StyledBlock) -> nat {
    b.lines@.len()
}

/// Width is additive: the width of a concatenation is the sum of the widths.
/// This is the law behind per-cluster width accounting: any way of cutting a
/// line into pieces makes its display width the sum over the pieces.
pub proof fn lemma_width_concat(a: Seq<ClusterView>, b: Seq<ClusterView>)
    ensures
        cells_width(a + b) == cells_width(a) + cells_width(b),
    decreases b.len(),
{
    if b.len() == 0 {
        assert(a + b =~= a);
    } else {
        lemma_width_concat(a, b.drop_last());
        assert((a + b).drop_last() =~= a + b.drop_last());
    }
}

/// Width additivity over a line's runs: a line built from style-tagged runs
/// is exactly as wide as its runs' cluster widths added up — so the display
/// width of any styled line is the sum of its grapheme clusters' widths, in
/// any grouping.
pub proof fn lemma_width_additive_over_runs(runs: Seq<StyledRun>, line: StyledLine)
    requires
        line@ == runs.map_values(|run: StyledRun| run_cells(run)).flatten(),
    ensures
        line_width(line) == runs.map_values(|run: StyledRun| run_cells(run)).fold_left(
            0,
            |acc: int, c: Seq<ClusterView>| acc + cells_width(c),
        ),
{
    lemma_width_flatten(runs.map_values(|run: StyledRun| run_cells(run)));
}

/// Width is additive over any flattening: the width of the concatenation of
/// several pieces is the sum of the pieces' widths.
pub proof fn lemma_width_flatten(chunks: Seq<Seq<ClusterView>>)
    ensures
        cells_width(chunks.flatten()) == chunks.fold_left(0, |acc: int, c: Seq<ClusterView>| acc + cells_width(c)),
    decreases chunks.len(),
{
    broadcast use vstd::seq_lib::group_seq_properties;

    if chunks.len() == 0 {
        assert(chunks.flatten() =~= Seq::<ClusterView>::empty());
    } else {
        lemma_width_flatten(chunks.drop_last());
        Seq::lemma_flatten_and_flatten_alt_are_equivalent(chunks);
        Seq::lemma_flatten_and_flatten_alt_are_equivalent(chunks.drop_last());
        assert(chunks.flatten_alt() == chunks.drop_last().flatten_alt() + chunks.last());
        lemma_width_concat(chunks.drop_last().flatten(), chunks.last());
    }
}

/// A single cluster's width is the width of the singleton sequence.
pub proof fn lemma_width_singleton(c: ClusterView)
    ensures
        cells_width(seq![c]) == c.width,
{
    assert(seq![c].drop_last() =~= Seq::<ClusterView>::empty());
    assert(cells_width(Seq::<ClusterView>::empty()) == 0);
}

/// One step of a prefix width: taking one more cluster adds its width.
pub proof fn lemma_width_take_step(cs: Seq<ClusterView>, j: int)
    requires
        0 <= j < cs.len(),
    ensures
        cells_width(cs.take(j + 1)) == cells_width(cs.take(j)) + cs[j].width,
{
    assert(cs.take(j + 1).drop_last() =~= cs.take(j));
}

/// A sequence splits at any point into a prefix and a suffix whose widths add
/// up to the whole.
pub proof fn lemma_width_split(cs: Seq<ClusterView>, j: int)
    requires
        0 <= j <= cs.len(),
    ensures
        cells_width(cs) == cells_width(cs.take(j)) + cells_width(cs.skip(j)),
{
    assert(cs.take(j) + cs.skip(j) =~= cs);
    lemma_width_concat(cs.take(j), cs.skip(j));
}

impl StyledRun {
    pub fn new(content: String, style: Style) -> (r: StyledRun)
        ensures
            r.content == content,
            r.style == style,
    {
        StyledRun { content, style }
    }
}

impl Cluster {
    /// A width-one space cluster, used for padding.
    pub fn space(style: Style) -> (c: Cluster)
        ensures
            c@ == space_cell(style),
    {
        Cluster { text: " ".to_owned(), width: 1, style }
    }
}

impl Clone for Cluster {
    /// A faithful copy: same text, width and style.
    fn clone(&self) -> (r: Self)
        ensures
            r@ == self@,
    {
        Cluster { text: self.text.clone(), width: self.width, style: self.style }
    }
}

impl StyledLine {
    /// The empty line.
    pub fn empty() -> (r: StyledLine)
        ensures
            r@ =~= Seq::<ClusterView>::empty(),
    {
        StyledLine { clusters: Vec::new() }
    }

    /// Builds a line from style-tagged runs: each run's content is segmented
    /// into grapheme clusters, each cluster is measured, and the clusters are
    /// laid side by side in run order.
    pub fn new(runs: &Vec<StyledRun>) -> (r: StyledLine)
        ensures
            r@ == runs@.map_values(|run: StyledRun| run_cells(run)).flatten(),
    {
        broadcast use vstd::seq_lib::group_seq_properties;

        let mut clusters: Vec<Cluster> = Vec::new();
        let mut i: usize = 0;
        while i < runs.len()
            invariant
                i <= runs@.len(),
                clusters@.map_values(|c: Cluster| c@) == runs@.take(i as int).map_values(
                    |run: StyledRun| run_cells(run),
                ).flatten(),
            decreases runs@.len() - i,
        {
            let run = &runs[i];
            let graphemes = segment_graphemes(run.content.as_str());
            let ghost cells_before = clusters@.map_values(|c: Cluster| c@);
            let ghost n = clusters@.len();
            let mut j: usize = 0;
            while j < graphemes.len()
                invariant
                    j <= graphemes@.len(),
                    graphemes@.map_values(|g: String| g@) == graphemes_of(run.content@),
                    run == runs@[i as int],
                    i < runs@.len(),
                    n == cells_before.len(),
                    cells_before == runs@.take(i as int).map_values(
                        |r2: StyledRun| run_cells(r2),
                    ).flatten(),
                    clusters@.len() == n + j,
                    forall|k: int| 0 <= k < n ==> #[trigger] clusters@[k]@ == cells_before[k],
                    forall|k: int|
                        n <= k < n + j ==> #[trigger] clusters@[k]@ == run_cells(*run)[k - n],
                decreases graphemes@.len() - j,
            {
                let text = graphemes[j].clone();
                let width = measure_width(text.as_str());
                proof {
                    assert(graphemes@.map_values(|g: String| g@)[j as int] == graphemes@[j as int]@);
                    assert(run_cells(*run)[j as int] == ClusterView {
                        text: graphemes_of(run.content@)[j as int],
                        width: measured_width(graphemes_of(run.content@)[j as int]) as nat,
                        style: run.style,
                    });
                }
                let cluster = Cluster { text, width, style: run.style };
                proof {
                    assert(cluster@ == run_cells(*run)[j as int]);
                }
                clusters.push(cluster);
                j += 1;
            }
            proof {
                assert(graphemes@.len() == run_cells(*run).len()) by {
                    assert(graphemes@.map_values(|g: String| g@).len() == graphemes@.len());
                }
                assert(clusters@.map_values(|c: Cluster| c@) =~= cells_before + run_cells(*run));
            }
            proof {
                let f = |r2: StyledRun| run_cells(r2);
                assert(runs@.take(i + 1).map_values(f) =~= runs@.take(i as int).map_values(f).push(
                    run_cells(runs@[i as int]),
                ));
                Seq::lemma_flatten_push(runs@.take(i as int).map_values(f), run_cells(runs@[i as int]));
                assert(clusters@.map_values(|c: Cluster| c@) =~= runs@.take(i + 1).map_values(
                    f,
                ).flatten());
            }
            i += 1;
        }
        proof {
            assert(runs@.take(runs@.len() as int) =~= runs@);
        }
        StyledLine { clusters }
    }

    /// Display width of the line in terminal columns.
    pub fn display_width(&self) -> (r: usize)
        requires
            line_width(*self) <= usize::MAX,
        ensures
            r == line_width(*self),
    {
        let mut total: usize = 0;
        let mut i: usize = 0;
        while i < self.clusters.len()
            invariant
                i <= self@.len(),
                total == cells_width(self@.take(i as int)),
                cells_width(self@) <= usize::MAX,
            decreases self@.len() - i,
        {
            proof {
                lemma_width_take_step(self@, i as int);
                lemma_width_split(self@, i + 1);
            }
            total = total + self.clusters[i].width;
            i += 1;
        }
        proof {
            assert(self@.take(self@.len() as int) =~= self@);
        }
        total
    }

    /// Whether the line's display width exceeds `w`; never overflows, whatever
    /// the widths sum to.
    pub fn width_exceeds(&self, w: usize) -> (r: bool)
        ensures
            r == (line_width(*self) > w),
    {
        let mut budget: usize = w;
        let mut i: usize = 0;
        while i < self.clusters.len()
            invariant
                i <= self@.len(),
                cells_width(self@.take(i as int)) + budget == w,
            decreases self@.len() - i,
        {
            proof {
                lemma_width_take_step(self@, i as int);
                lemma_width_split(self@, i + 1);
            }
            let cw = self.clusters[i].width;
            if cw > budget {
                return true;
            }
            budget = budget - cw;
            i += 1;
        }
        proof {
            assert(self@.take(self@.len() as int) =~= self@);
        }
        false
    }
}

impl StyledBlock {
    /// The empty block.
    pub fn empty() -> (r: StyledBlock)
        ensures
            r@ =~= Seq::<Seq<ClusterView>>::empty(),
    {
        StyledBlock { lines: Vec::new() }
    }

    /// Display height of the block: its number of lines.
    pub fn display_height(&self) -> (r: usize)
        ensures
            r == block_height(*self),
    {
        self.lines.len()
    }
}

} // verus!
