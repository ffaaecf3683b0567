//! The script editor: row layout, hit testing and selection.
//!
//! Rows have variable height: the measured height of their text with the
//! padding above and below it. The host measures the text of each row that
//! asks for it and hands the height back; offsets follow at once.
use vstd::prelude::*;

use crate::script::{Script, ScriptEntry, ScriptInstruction};
use crate::layout::{lemma_prefix_sum_bound, lemma_prefix_sum_monotone, prefix_sum};
use crate::util::{is_dark, spec_is_dark, Rgb};

verus! {

/// Raised where a light-theme highlight color is asked for: that palette has
/// no defined mapping.
#[derive(Clone, Copy, Debug, PartialEq, Eq, Structural)]
pub struct NotImplemented;

/// The colors that the editor takes from its host.
#[derive(Clone, Copy, Debug, PartialEq, Eq, Structural)]
pub struct Theme {
    /// Background of even rows.
    pub background_primary: Rgb,
    /// Background of odd rows.
    pub background_alternate: Rgb,
    /// Outline of the selected row.
    pub selection_outline: Rgb,
}

/// The dark-theme highlight color of an instruction.
pub open spec fn dark_highlight(entry: ScriptInstruction) -> Rgb {
    match entry {
        ScriptInstruction::NoOp => Rgb { r: 255, g: 255, b: 255 },
        ScriptInstruction::Wait(_) => Rgb { r: 247, g: 32, b: 32 },
        ScriptInstruction::ControlSelfSwitch(_, _) => Rgb { r: 247, g: 32, b: 32 },
        ScriptInstruction::PluginCommand(_) => Rgb { r: 167, g: 92, b: 237 },
        ScriptInstruction::Script(_) => Rgb { r: 119, g: 52, b: 235 },
    }
}

/// The highlight color of an instruction drawn on `bg`.
pub open spec fn highlight(entry: ScriptInstruction, bg: Rgb) -> Result<Rgb, NotImplemented> {
    if spec_is_dark(bg) {
        Ok(dark_highlight(entry))
    } else {
        Err(NotImplemented)
    }
}

/// The background of row `i`: rows alternate between the two backgrounds.
pub open spec fn row_background(i: int, theme: Theme) -> Rgb {
    if i % 2 == 0 {
        theme.background_primary
    } else {
        theme.background_alternate
    }
}

/// Gets the best highlight color of an instruction based on its background.
pub fn script_highlight_color(entry: &ScriptEntry, bg: &Rgb) -> (r: Result<Rgb, NotImplemented>)
    ensures
        r == highlight(*entry, *bg),
{
    if is_dark(bg) {
        Ok(script_highlight_color_dark(entry))
    } else {
        script_highlight_color_light(entry)
    }
}

/// Gets the highlight color of an instruction. For dark themes.
pub fn script_highlight_color_dark(entry: &ScriptEntry) -> (r: Rgb)
    ensures
        r == dark_highlight(*entry),
{
    match entry {
        ScriptInstruction::NoOp => Rgb::rgb8(255, 255, 255),
        ScriptInstruction::Wait(_) => Rgb::rgb8(247, 32, 32),
        ScriptInstruction::ControlSelfSwitch(_, _) => Rgb::rgb8(247, 32, 32),
        ScriptInstruction::PluginCommand(_) => Rgb::rgb8(167, 92, 237),
        ScriptInstruction::Script(_) => Rgb::rgb8(119, 52, 235),
    }
}

/// Gets the highlight color of an instruction. For light themes, which have
/// no palette yet: always fails.
pub fn script_highlight_color_light(entry: &ScriptEntry) -> (r: Result<Rgb, NotImplemented>)
    ensures
        r == Err::<Rgb, NotImplemented>(NotImplemented),
{
    Err(NotImplemented)
}

/// The background of row `i`.
pub fn bg_color(i: usize, theme: &Theme) -> (r: Rgb)
    ensures
        r == row_background(i as int, *theme),
{
    if i % 2 == 0 {
        theme.background_primary
    } else {
        theme.background_alternate
    }
}

} // verus!

verus! {

/// What the editor holds for one row.
pub struct RowView {
    /// Display text of the instruction.
    pub text: Seq<char>,
    /// Highlight color of the text.
    pub color: Rgb,
    /// Measured height of the text; zero until measured.
    pub text_height: nat,
    /// Whether the text has been measured since the row was built.
    pub measured: bool,
}

/// The abstract state of a `ScriptEditor`.
pub struct EditorView {
    pub rows: Seq<RowView>,
    pub text_size: nat,
    pub text_padding: nat,
    pub border_width: nat,
    /// Selected row; `rows.len()` or beyond means no row.
    pub selected: nat,
}

impl EditorView {
    /// Height of row `i`: its text with padding above and below.
    pub open spec fn height(self, i: int) -> int {
        (self.rows[i].text_height + 2 * self.text_padding) as int
    }

    pub open spec fn heights(self) -> Seq<int> {
        Seq::new(self.rows.len(), |i: int| self.height(i))
    }

    /// Vertical offset of the top of row `i`: the heights of the rows above it.
    pub open spec fn top(self, i: int) -> int {
        prefix_sum(self.heights(), i)
    }

    pub open spec fn bottom(self, i: int) -> int {
        self.top(i) + self.height(i)
    }

    /// Height of all rows together.
    pub open spec fn total_height(self) -> int {
        prefix_sum(self.heights(), self.rows.len() as int)
    }

    /// Row `i` is what a point at height `y` hits: the first row whose bottom
    /// lies below `y`, or `rows.len()` where there is none.
    pub open spec fn hits(self, y: int, i: int) -> bool {
        &&& 0 <= i <= self.rows.len()
        &&& forall|j: int| 0 <= j < i ==> #[trigger] self.bottom(j) <= y
        &&& i < self.rows.len() ==> self.bottom(i) > y
    }

    /// Row `i` is drawn with the selection outline.
    pub open spec fn row_selected(self, i: int) -> bool {
        0 <= i < self.rows.len() && self.selected == i
    }
}

/// The rows built for a sequence of instructions, before measurement.
pub open spec fn fresh_rows(entries: Seq<ScriptInstruction>) -> Seq<RowView> {
    Seq::new(
        entries.len(),
        |i: int|
            RowView {
                text: entries[i].text(),
                color: dark_highlight(entries[i]),
                text_height: 0,
                measured: false,
            },
    )
}

/// Every one of `n` rows has a background that the highlight palette covers.
pub open spec fn renderable(n: int, theme: Theme) -> bool {
    forall|i: int| 0 <= i < n ==> spec_is_dark(#[trigger] row_background(i, theme))
}

/// Two instruction sequences are equal element by element.
pub open spec fn same_entries(a: Seq<ScriptInstruction>, b: Seq<ScriptInstruction>) -> bool {
    &&& a.len() == b.len()
    &&& forall|i: int| 0 <= i < a.len() ==> #[trigger] a[i].same_as(b[i])
}

/// One row as the host paints it.
pub struct RowPaint {
    pub index: usize,
    pub top: u128,
    pub height: u128,
    pub text: String,
    pub color: Rgb,
    pub background: Rgb,
    pub selected: bool,
}

/// Script editor: lays instructions out as rows, maps points to rows and
/// tracks the selected row.
pub struct ScriptEditor {
    text_size: u32,
    text_padding: u32,
    border_width: u32,
    selected: usize,
    texts: Vec<String>,
    colors: Vec<Rgb>,
    text_heights: Vec<u32>,
    measured: Vec<bool>,
    tops: Vec<u128>,
    total: u128,
}

impl View for ScriptEditor {
    type V = EditorView;

    closed spec fn view(&self) -> EditorView {
        EditorView {
            rows: Seq::new(
                self.texts@.len(),
                |i: int|
                    RowView {
                        text: self.texts@[i]@,
                        color: self.colors@[i],
                        text_height: self.text_heights@[i] as nat,
                        measured: self.measured@[i],
                    },
            ),
            text_size: self.text_size as nat,
            text_padding: self.text_padding as nat,
            border_width: self.border_width as nat,
            selected: self.selected as nat,
        }
    }
}

/// Largest height of a single row.
spec fn max_row_height() -> int {
    3 * (u32::MAX as int)
}

impl ScriptEditor {
    spec fn rows_consistent(&self) -> bool {
        &&& self.colors@.len() == self.texts@.len()
        &&& self.text_heights@.len() == self.texts@.len()
        &&& self.measured@.len() == self.texts@.len()
    }

    /// The cached offsets agree with the rows.
    pub closed spec fn wf(&self) -> bool {
        &&& self.rows_consistent()
        &&& self.tops@.len() == self.texts@.len()
        &&& forall|i: int| 0 <= i < self.tops@.len() ==> self.tops@[i] == self@.top(i)
        &&& self.total == self@.total_height()
    }

    proof fn lemma_heights_bounded(&self)
        requires
            self.rows_consistent(),
        ensures
            forall|k: int|
                0 <= k < self@.heights().len() ==> 0 <= #[trigger] self@.heights()[k]
                    <= max_row_height(),
            self@.heights().len() == self.texts@.len(),
    {
    }

    /// Sums of row heights always fit in a `u128`.
    proof fn lemma_sums_fit(&self, n: int)
        requires
            self.rows_consistent(),
            0 <= n <= self.texts@.len(),
        ensures
            0 <= prefix_sum(self@.heights(), n) <= u128::MAX,
    {
        self.lemma_heights_bounded();
        assert(self.texts.len() == self.texts@.len());
        lemma_prefix_sum_bound(self@.heights(), n, max_row_height());
        assert(n * max_row_height() <= u128::MAX) by (nonlinear_arith)
            requires
                0 <= n <= usize::MAX,
                max_row_height() == 3 * (u32::MAX as int),
        ;
    }

    /// Rebuilds the cached offsets and total from the rows.
    fn recompute_offsets(&mut self)
        requires
            old(self).rows_consistent(),
        ensures
            final(self).wf(),
            final(self)@ == old(self)@,
    {
        let n = self.texts.len();
        let mut tops: Vec<u128> = Vec::new();
        let mut acc: u128 = 0;
        let mut i: usize = 0;
        while i < n
            invariant
                self.rows_consistent(),
                n == self.texts@.len(),
                0 <= i <= n,
                tops@.len() == i,
                acc == self@.top(i as int),
                forall|j: int| 0 <= j < i ==> tops@[j] == self@.top(j),
            decreases n - i,
        {
            tops.push(acc);
            proof {
                self.lemma_sums_fit(i + 1);
            }
            acc = acc + (self.text_heights[i] as u128 + 2 * (self.text_padding as u128));
            i = i + 1;
        }
        self.tops = tops;
        self.total = acc;
    }

    /// A new editor with no rows, padding 5, text size 17 and border width 1.
    pub fn new() -> (r: ScriptEditor)
        ensures
            r.wf(),
            r@.rows.len() == 0,
            r@.text_padding == 5,
            r@.text_size == 17,
            r@.border_width == 1,
            r@.selected == 0,
    {
        ScriptEditor {
            text_padding: 5,
            text_size: 17,
            border_width: 1,
            selected: 0,
            texts: Vec::new(),
            colors: Vec::new(),
            text_heights: Vec::new(),
            measured: Vec::new(),
            tops: Vec::new(),
            total: 0,
        }
    }

    /// Number of rows.
    pub fn len(&self) -> (r: usize)
        requires
            self.wf(),
        ensures
            r == self@.rows.len(),
    {
        self.texts.len()
    }

    /// Height of all rows together; zero without rows.
    pub fn total_height(&self) -> (r: u128)
        requires
            self.wf(),
        ensures
            r == self@.total_height(),
    {
        self.total
    }

    /// Vertical offset of the top of row `i`.
    pub fn vertical_bounds(&self, i: usize) -> (r: u128)
        requires
            self.wf(),
            i <= self@.rows.len(),
        ensures
            r == self@.top(i as int),
    {
        if i < self.tops.len() {
            self.tops[i]
        } else {
            self.total
        }
    }

    /// Height of row `i`.
    pub fn entry_size(&self, i: usize) -> (r: u128)
        requires
            self.wf(),
            i < self@.rows.len(),
        ensures
            r == self@.height(i as int),
    {
        self.text_heights[i] as u128 + 2 * (self.text_padding as u128)
    }

    /// The row that a point at height `y` falls on, or the number of rows
    /// where it lies below them all.
    pub fn hit_test(&self, y: u128) -> (r: usize)
        requires
            self.wf(),
        ensures
            self@.hits(y as int, r as int),
    {
        let n = self.tops.len();
        let mut i: usize = 0;
        while i < n
            invariant
                self.wf(),
                n == self@.rows.len(),
                0 <= i <= n,
                forall|j: int| 0 <= j < i ==> #[trigger] self@.bottom(j) <= y,
            decreases n - i,
        {
            proof {
                self.lemma_sums_fit(i + 1);
                assert(self@.bottom(i as int) == prefix_sum(self@.heights(), i + 1));
            }
            let bottom = self.tops[i] + self.entry_size(i);
            if bottom > y {
                return i;
            }
            i = i + 1;
        }
        n
    }

    /// Builds one row per instruction of `script`: its text and highlight
    /// color, unmeasured. Fails, leaving the editor as it was, where a row's
    /// background has no highlight palette.
    pub fn attach(&mut self, script: &Script, theme: &Theme) -> (r: Result<(), NotImplemented>)
        requires
            old(self).wf(),
        ensures
            final(self).wf(),
            r is Ok <==> renderable(script.contents@.len() as int, *theme),
            r is Ok ==> final(self)@ == (EditorView { rows: fresh_rows(script.contents@), ..old(self)@ }),
            r is Err ==> final(self)@ == old(self)@,
    {
        let entries = script.contents();
        let n = entries.len();
        let mut texts: Vec<String> = Vec::new();
        let mut colors: Vec<Rgb> = Vec::new();
        let mut i: usize = 0;
        while i < n
            invariant
                self.wf(),
                self@ == old(self)@,
                entries@ == script.contents@,
                n == entries@.len(),
                0 <= i <= n,
                texts@.len() == i,
                colors@.len() == i,
                forall|j: int| 0 <= j < i ==> #[trigger] texts@[j]@ == entries@[j].text(),
                forall|j: int| 0 <= j < i ==> #[trigger] colors@[j] == dark_highlight(entries@[j]),
                forall|j: int| 0 <= j < i ==> spec_is_dark(#[trigger] row_background(j, *theme)),
            decreases n - i,
        {
            let entry = &entries[i];
            let bg = bg_color(i, theme);
            match script_highlight_color(entry, &bg) {
                Ok(c) => colors.push(c),
                Err(e) => {
                    assert(!spec_is_dark(row_background(i as int, *theme)));
                    assert(!renderable(script.contents@.len() as int, *theme));
                    return Err(e);
                },
            }
            texts.push(entry.to_string());
            i = i + 1;
        }
        let mut text_heights: Vec<u32> = Vec::new();
        let mut measured: Vec<bool> = Vec::new();
        let mut k: usize = 0;
        while k < n
            invariant
                0 <= k <= n,
                text_heights@.len() == k,
                measured@.len() == k,
                forall|j: int| 0 <= j < k ==> #[trigger] text_heights@[j] == 0,
                forall|j: int| 0 <= j < k ==> !#[trigger] measured@[j],
            decreases n - k,
        {
            text_heights.push(0);
            measured.push(false);
            k = k + 1;
        }
        self.texts = texts;
        self.colors = colors;
        self.text_heights = text_heights;
        self.measured = measured;
        self.recompute_offsets();
        assert(self@.rows =~= fresh_rows(script.contents@));
        Ok(())
    }

    /// Rebuilds the rows from `script` only where it differs from
    /// `old_script`; returns whether it did, so that the host lays out again.
    pub fn refresh(&mut self, old_script: &Script, script: &Script, theme: &Theme) -> (r: Result<bool, NotImplemented>)
        requires
            old(self).wf(),
        ensures
            final(self).wf(),
            same_entries(old_script.contents@, script.contents@) ==> r == Ok::<bool, NotImplemented>(false)
                && final(self)@ == old(self)@,
            old_script.contents@ == script.contents@ ==> r == Ok::<bool, NotImplemented>(false)
                && final(self)@ == old(self)@,
            !same_entries(old_script.contents@, script.contents@) ==> {
                &&& r is Ok <==> renderable(script.contents@.len() as int, *theme)
                &&& r is Ok ==> r == Ok::<bool, NotImplemented>(true) && final(self)@ == (EditorView {
                    rows: fresh_rows(script.contents@),
                    ..old(self)@
                })
                &&& r is Err ==> final(self)@ == old(self)@
            },
    {
        proof {
            lemma_same_entries_reflexive(script.contents@);
        }
        if old_script.contents() != script.contents() {
            match self.attach(script, theme) {
                Ok(()) => Ok(true),
                Err(e) => Err(e),
            }
        } else {
            Ok(false)
        }
    }

    /// Whether row `i` waits for its text to be measured.
    pub fn needs_measure(&self, i: usize) -> (r: bool)
        requires
            self.wf(),
            i < self@.rows.len(),
        ensures
            r == !self@.rows[i as int].measured,
    {
        !self.measured[i]
    }

    /// The display text of row `i`.
    pub fn entry_text(&self, i: usize) -> (r: &String)
        requires
            self.wf(),
            i < self@.rows.len(),
        ensures
            r@ == self@.rows[i as int].text,
    {
        &self.texts[i]
    }

    /// Records the measured height of the text of row `i`; the offsets of
    /// the rows below follow.
    pub fn set_text_height(&mut self, i: usize, height: u32)
        requires
            old(self).wf(),
            i < old(self)@.rows.len(),
        ensures
            final(self).wf(),
            final(self)@ == (EditorView {
                rows: old(self)@.rows.update(
                    i as int,
                    RowView { text_height: height as nat, measured: true, ..old(self)@.rows[i as int] },
                ),
                ..old(self)@
            }),
    {
        self.text_heights.set(i, height);
        self.measured.set(i, true);
        self.recompute_offsets();
        assert(self@.rows =~= old(self)@.rows.update(
            i as int,
            RowView { text_height: height as nat, measured: true, ..old(self)@.rows[i as int] },
        ));
    }

    /// Selects the row at height `y`; a point below all rows leaves no row
    /// selected.
    pub fn select_at(&mut self, y: u128)
        requires
            old(self).wf(),
        ensures
            final(self).wf(),
            old(self)@.hits(y as int, final(self)@.selected as int),
            final(self)@ == (EditorView { selected: final(self)@.selected, ..old(self)@ }),
    {
        let i = self.hit_test(y);
        self.selected = i;
        assert(self@.heights() =~= old(self)@.heights());
        assert(self@.total_height() == old(self)@.total_height());
        assert(forall|j: int| 0 <= j < self.tops@.len() ==> self@.top(j) == old(self)@.top(j));
    }

    /// Whether row `i` is drawn as selected.
    pub fn is_selected(&self, i: usize) -> (r: bool)
        requires
            self.wf(),
        ensures
            r == self@.row_selected(i as int),
    {
        i < self.texts.len() && self.selected == i
    }

    /// The selected row, if the selection names one of the current rows.
    pub fn selected_index(&self) -> (r: Option<usize>)
        requires
            self.wf(),
        ensures
            r == (if self@.selected < self@.rows.len() {
                Some(self@.selected as usize)
            } else {
                None::<usize>
            }),
    {
        if self.selected < self.texts.len() {
            Some(self.selected)
        } else {
            None
        }
    }

    /// The rows as the host paints them, top to bottom.
    pub fn rows(&self, theme: &Theme) -> (r: Vec<RowPaint>)
        requires
            self.wf(),
        ensures
            r@.len() == self@.rows.len(),
            forall|i: int|
                0 <= i < r@.len() ==> {
                    &&& #[trigger] r@[i].index == i
                    &&& r@[i].top == self@.top(i)
                    &&& r@[i].height == self@.height(i)
                    &&& r@[i].text@ == self@.rows[i].text
                    &&& r@[i].color == self@.rows[i].color
                    &&& r@[i].background == row_background(i, *theme)
                    &&& r@[i].selected == self@.row_selected(i)
                },
    {
        let n = self.texts.len();
        let mut out: Vec<RowPaint> = Vec::new();
        let mut i: usize = 0;
        while i < n
            invariant
                self.wf(),
                n == self@.rows.len(),
                0 <= i <= n,
                out@.len() == i,
                forall|j: int|
                    0 <= j < i ==> {
                        &&& #[trigger] out@[j].index == j
                        &&& out@[j].top == self@.top(j)
                        &&& out@[j].height == self@.height(j)
                        &&& out@[j].text@ == self@.rows[j].text
                        &&& out@[j].color == self@.rows[j].color
                        &&& out@[j].background == row_background(j, *theme)
                        &&& out@[j].selected == self@.row_selected(j)
                    },
            decreases n - i,
        {
            let row = RowPaint {
                index: i,
                top: self.tops[i],
                height: self.entry_size(i),
                text: self.texts[i].clone(),
                color: self.colors[i],
                background: bg_color(i, theme),
                selected: self.is_selected(i),
            };
            out.push(row);
            i = i + 1;
        }
        out
    }

    /// The same editor with another text padding; offsets follow.
    pub fn with_text_padding(self, text_padding: u32) -> (r: ScriptEditor)
        requires
            self.wf(),
        ensures
            r.wf(),
            r@ == (EditorView { text_padding: text_padding as nat, ..self@ }),
    {
        let mut editor = self;
        editor.text_padding = text_padding;
        editor.recompute_offsets();
        editor
    }

    /// The same editor with another text size.
    pub fn with_text_size(self, text_size: u32) -> (r: ScriptEditor)
        requires
            self.wf(),
        ensures
            r.wf(),
            r@ == (EditorView { text_size: text_size as nat, ..self@ }),
    {
        let mut editor = self;
        editor.text_size = text_size;
        assert(editor@.heights() =~= self@.heights());
        assert(forall|j: int| 0 <= j < editor.tops@.len() ==> editor@.top(j) == self@.top(j));
        editor
    }

    /// The same editor with another selection outline width.
    pub fn with_border_width(self, border_width: u32) -> (r: ScriptEditor)
        requires
            self.wf(),
        ensures
            r.wf(),
            r@ == (EditorView { border_width: border_width as nat, ..self@ }),
    {
        let mut editor = self;
        editor.border_width = border_width;
        assert(editor@.heights() =~= self@.heights());
        assert(forall|j: int| 0 <= j < editor.tops@.len() ==> editor@.top(j) == self@.top(j));
        editor
    }

    pub fn text_size(&self) -> (r: u32)
        ensures
            r == self@.text_size,
    {
        self.text_size
    }

    pub fn text_padding(&self) -> (r: u32)
        ensures
            r == self@.text_padding,
    {
        self.text_padding
    }

    pub fn border_width(&self) -> (r: u32)
        ensures
            r == self@.border_width,
    {
        self.border_width
    }
}

} // verus!

verus! {

/// A row's bottom lies within the total height.
proof fn lemma_bottom_within_total(v: EditorView, j: int)
    requires
        0 <= j < v.rows.len(),
    ensures
        v.bottom(j) == v.top(j + 1),
        v.bottom(j) <= v.total_height(),
{
    lemma_prefix_sum_monotone(v.heights(), j + 1, v.rows.len() as int);
}

/// Row offsets start at zero and never decrease from one row to the next.
pub proof fn lemma_offsets_monotone(v: EditorView, i: int, j: int)
    requires
        0 <= i <= j <= v.rows.len(),
    ensures
        v.top(0) == 0,
        v.top(i) <= v.top(j),
{
    lemma_prefix_sum_monotone(v.heights(), i, j);
}

/// The total height is the bottom of the last row, and zero without rows.
pub proof fn lemma_total_height(v: EditorView)
    ensures
        v.rows.len() == 0 ==> v.total_height() == 0,
        v.rows.len() > 0 ==> v.total_height() == v.bottom(v.rows.len() - 1),
{
    if v.rows.len() > 0 {
        lemma_bottom_within_total(v, v.rows.len() - 1);
    }
}

/// At most one row is hit by a given point.
pub proof fn lemma_hits_unique(v: EditorView, y: int, i: int, j: int)
    requires
        v.hits(y, i),
        v.hits(y, j),
    ensures
        i == j,
{
    if i < j {
        assert(v.bottom(i) <= y);
    } else if j < i {
        assert(v.bottom(j) <= y);
    }
}

/// A sequence is equal to itself, so refreshing with it changes nothing.
pub proof fn lemma_same_entries_reflexive(s: Seq<ScriptInstruction>)
    ensures
        same_entries(s, s),
{
}

/// Where all rows have height `h`, a point less than `h` down hits row 0 and a
/// point more than `h` down (but less than `2 * h`) hits row 1, the end of the
/// rows where there is only one.
pub proof fn lemma_uniform_hit_boundary(v: EditorView, h: int, e: int)
    requires
        v.rows.len() >= 1,
        forall|i: int| 0 <= i < v.rows.len() ==> #[trigger] v.height(i) == h,
        0 < e < h,
    ensures
        v.hits(h - e, 0),
        v.hits(h + e, 1),
{
    let s = v.heights();
    assert(s[0] == h);
    assert(v.top(0) == 0);
    assert(v.top(1) == prefix_sum(s, 0) + s[0]);
    assert(v.bottom(0) == h);
    if v.rows.len() > 1 {
        assert(s[1] == h);
        assert(v.top(2) == prefix_sum(s, 1) + s[1]);
        lemma_bottom_within_total(v, 1);
        assert(v.bottom(1) == 2 * h);
    }
    assert forall|j: int| 0 <= j < 1 implies #[trigger] v.bottom(j) <= h + e by {
        assert(j == 0);
    }
}

/// A point at or below the total height hits no row: the result is the row
/// count, which names no row to draw as selected.
pub proof fn lemma_hit_past_end(v: EditorView, y: int)
    requires
        y >= v.total_height(),
    ensures
        v.hits(y, v.rows.len() as int),
        forall|i: int| !(EditorView { selected: v.rows.len(), ..v }).row_selected(i),
{
    assert forall|j: int| 0 <= j < v.rows.len() implies #[trigger] v.bottom(j) <= y by {
        lemma_bottom_within_total(v, j);
    }
}

} // verus!
