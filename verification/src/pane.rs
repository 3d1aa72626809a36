//! Panes that show lines of h2 text.

use crate::text::{clip, clipped};
use core::ops::Range;
use vstd::arithmetic::div_mod::{
    lemma_add_mod_noop_right, lemma_mod_self_0, lemma_mod_sub_multiples_vanish, lemma_small_mod,
};
use vstd::prelude::*;

verus! {

pub type PaneId = usize;

pub type DomainId = usize;

/// The number of a row; rows above the first have negative numbers.
pub type StableRowIndex = isize;

/// Counts the changes of a pane.
pub type SequenceNo = usize;

/// What an h2 pane shows.
#[derive(Clone, Copy, Debug, PartialEq, Eq, Structural)]
pub enum H2PaneKind {
    Graph,
    Kanban,
}

/// The size of a terminal, in cells and in pixels.
#[derive(Clone, Copy, Debug, PartialEq, Eq, Structural)]
pub struct TerminalSize {
    pub rows: usize,
    pub cols: usize,
    pub pixel_width: usize,
    pub pixel_height: usize,
    pub dpi: u32,
}

/// What there is to render of a pane, and where.
#[derive(Clone, Copy, Debug, PartialEq, Eq, Structural)]
pub struct RenderableDimensions {
    pub cols: usize,
    pub viewport_rows: usize,
    pub scrollback_rows: usize,
    pub physical_top: StableRowIndex,
    pub scrollback_top: StableRowIndex,
    pub dpi: u32,
    pub pixel_width: usize,
    pub pixel_height: usize,
    pub reverse_video: bool,
}

#[derive(Clone, Copy, Debug, PartialEq, Eq, Structural)]
pub enum CursorVisibility {
    Hidden,
    Visible,
}

#[derive(Clone, Copy, Debug, PartialEq, Eq, Structural)]
pub struct StableCursorPosition {
    pub x: usize,
    pub y: StableRowIndex,
    pub visibility: CursorVisibility,
}

/// A value in the metadata of a pane.
#[derive(Debug, PartialEq, Eq)]
pub enum MetadataValue {
    String(String),
    U64(u64),
}

/// A line of a pane: its text, and the sequence number of its last change.
#[derive(Debug, PartialEq, Eq)]
pub struct Line {
    pub text: String,
    pub seqno: SequenceNo,
}

/// What a [`Line`] is.
pub struct LineState {
    pub text: Seq<char>,
    pub seqno: SequenceNo,
}

impl View for Line {
    type V = LineState;

    open spec fn view(&self) -> LineState {
        LineState { text: self.text@, seqno: self.seqno }
    }
}

impl Line {
    /// A line without text.
    pub fn new(seqno: SequenceNo) -> (line: Line)
        ensures
            line@ == (LineState { text: Seq::empty(), seqno }),
    {
        Line { text: String::new(), seqno }
    }

    /// A line with this text.
    pub fn from_text(text: &str, seqno: SequenceNo) -> (line: Line)
        ensures
            line@ == (LineState { text: text@, seqno }),
    {
        Line { text: text.to_owned(), seqno }
    }

    pub fn as_str(&self) -> (text: &str)
        ensures
            text@ == self@.text,
    {
        self.text.as_str()
    }
}

impl Clone for Line {
    fn clone(&self) -> (line: Line)
        ensures
            line@ == self@,
    {
        Line { text: self.text.clone(), seqno: self.seqno }
    }
}

/// What the lines of a sequence are.
pub open spec fn line_states(lines: Seq<Line>) -> Seq<LineState> {
    lines.map_values(|line: Line| line@)
}

/// What the strings of a sequence are.
pub open spec fn texts(strings: Seq<String>) -> Seq<Seq<char>> {
    strings.map_values(|string: String| string@)
}

/// `n`, but at least 1.
pub open spec fn at_least_one(n: usize) -> nat {
    if n == 0 {
        1
    } else {
        n as nat
    }
}

/// The number after `n`; the count wraps around.
pub open spec fn successor(n: usize) -> usize {
    if n == usize::MAX {
        0
    } else {
        (n + 1) as usize
    }
}

/// The number `steps` after `n`; the count wraps around.
pub open spec fn steps_after(n: usize, steps: nat) -> usize
    decreases steps,
{
    if steps == 0 {
        n
    } else {
        successor(steps_after(n, (steps - 1) as nat))
    }
}

/// The line that shows row `row` of `source`, cut to the width of the terminal;
/// below the last line of `source` the rows are empty.
pub open spec fn drawn_row(source: Seq<Seq<char>>, size: TerminalSize, row: int) -> LineState {
    LineState {
        text: if row < source.len() {
            clipped(source[row], at_least_one(size.cols))
        } else {
            Seq::empty()
        },
        seqno: 1,
    }
}

/// The lines that show `source` on a terminal of this size: one for each row.
pub open spec fn drawing(source: Seq<Seq<char>>, size: TerminalSize) -> Seq<LineState> {
    Seq::new(at_least_one(size.rows), |row: int| drawn_row(source, size, row))
}

/// The line in row `row`, or an empty one where there is no such row.
pub open spec fn row_or_blank(rendered: Seq<LineState>, row: int) -> LineState {
    if 0 <= row < rendered.len() {
        rendered[row]
    } else {
        LineState { text: Seq::empty(), seqno: 0 }
    }
}

/// `n`, but at least 0.
pub open spec fn at_least_zero(n: int) -> nat {
    if n < 0 {
        0
    } else {
        n as nat
    }
}

/// A line for each row from `start` up to `end`: rows above the first repeat the
/// first row, rows below the last are blank.
pub open spec fn requested_rows(rendered: Seq<LineState>, start: int, end: int) -> Seq<LineState> {
    Seq::new(
        at_least_zero(end - start),
        |i: int| row_or_blank(rendered, at_least_zero(start + i) as int),
    )
}

/// A line for each row from `start` up to `end` that is not above the first row;
/// rows below the last are blank.
pub open spec fn editable_rows(rendered: Seq<LineState>, start: int, end: int) -> Seq<LineState> {
    Seq::new(
        at_least_zero(end - at_least_zero(start)),
        |i: int| row_or_blank(rendered, at_least_zero(start) + i),
    )
}

/// What an [`H2Pane`] is.
pub struct PaneState {
    pub pane_id: PaneId,
    pub kind: H2PaneKind,
    pub size: TerminalSize,
    /// The lines that the pane is to show.
    pub source: Seq<Seq<char>>,
    /// The lines as they are shown.
    pub rendered: Seq<LineState>,
    pub seqno: SequenceNo,
    pub dead: bool,
    /// What was written to the pane, which nothing reads.
    pub written: Seq<u8>,
    pub graph_node_count: usize,
}

impl PaneState {
    /// The lines that are shown are those that draw the source on the terminal.
    pub open spec fn well_formed(self) -> bool {
        self.rendered == drawing(self.source, self.size)
    }

    /// The pane drawn anew with these lines and this size.
    pub open spec fn redrawn(self, source: Seq<Seq<char>>, size: TerminalSize) -> PaneState {
        PaneState {
            size,
            source,
            rendered: drawing(source, size),
            seqno: successor(self.seqno),
            ..self
        }
    }

    /// A new pane, which shows the title of its kind.
    pub open spec fn created(pane_id: PaneId, kind: H2PaneKind, size: TerminalSize) -> PaneState {
        PaneState {
            pane_id,
            kind,
            size,
            source: seq![kind.title_text()],
            rendered: drawing(seq![kind.title_text()], size),
            seqno: 2,
            dead: false,
            written: Seq::empty(),
            graph_node_count: 0,
        }
    }

    pub open spec fn with_lines(self, lines: Seq<Seq<char>>) -> PaneState {
        self.redrawn(lines, self.size)
    }

    pub open spec fn resized(self, size: TerminalSize) -> PaneState {
        self.redrawn(self.source, size)
    }

    pub open spec fn with_graph_node_count(self, count: usize) -> PaneState {
        PaneState { graph_node_count: count, seqno: successor(self.seqno), ..self }
    }

    pub open spec fn killed(self) -> PaneState {
        PaneState { dead: true, ..self }
    }

    /// What there is to render of the pane: all of the terminal.
    pub open spec fn dimensions(self) -> RenderableDimensions {
        RenderableDimensions {
            cols: self.size.cols,
            viewport_rows: self.size.rows,
            scrollback_rows: self.size.rows,
            physical_top: 0,
            scrollback_top: 0,
            dpi: self.size.dpi,
            pixel_width: self.size.pixel_width,
            pixel_height: self.size.pixel_height,
            reverse_video: false,
        }
    }

    /// The number that the metadata gives under this name.
    pub open spec fn metadata_number(self, name: Seq<char>) -> Option<u64> {
        if name == "h2_graph_node_count"@ {
            Some(self.graph_node_count as u64)
        } else {
            None
        }
    }

    /// The text that the metadata gives under this name.
    pub open spec fn metadata_text(self, name: Seq<char>) -> Option<Seq<char>> {
        if name == "h2_pane_kind"@ {
            Some(self.kind.metadata_name())
        } else {
            None
        }
    }

    /// Whether row `row` changed after `seqno`.
    pub open spec fn row_changed_since(self, row: int, seqno: SequenceNo) -> bool {
        self.seqno != seqno
    }
}

/// A change of a pane.
pub enum PaneChange {
    Lines(Seq<Seq<char>>),
    Size(TerminalSize),
    GraphNodeCount(usize),
    Kill,
    /// To this as all that was written to the pane.
    Written(Seq<u8>),
}

impl PaneChange {
    /// Whether the change is one of what the pane shows or reports, which gives
    /// the pane its next sequence number.
    pub open spec fn is_counted(self) -> bool {
        self is Lines || self is Size || self is GraphNodeCount
    }
}

/// How many of these changes are counted.
pub open spec fn counted(changes: Seq<PaneChange>) -> nat
    decreases changes.len(),
{
    if changes.len() == 0 {
        0
    } else {
        counted(changes.drop_last()) + if changes.last().is_counted() {
            1nat
        } else {
            0
        }
    }
}

impl PaneState {
    pub open spec fn changed(self, change: PaneChange) -> PaneState {
        match change {
            PaneChange::Lines(lines) => self.with_lines(lines),
            PaneChange::Size(size) => self.resized(size),
            PaneChange::GraphNodeCount(count) => self.with_graph_node_count(count),
            PaneChange::Kill => self.killed(),
            PaneChange::Written(written) => PaneState { written, ..self },
        }
    }

    /// The pane after these changes, one after the other.
    pub open spec fn after(self, changes: Seq<PaneChange>) -> PaneState
        decreases changes.len(),
    {
        if changes.len() == 0 {
            self
        } else {
            self.after(changes.drop_last()).changed(changes.last())
        }
    }
}

impl H2PaneKind {
    /// The title of a pane of this kind.
    pub open spec fn title_text(self) -> Seq<char> {
        match self {
            H2PaneKind::Graph => "H2 Graph"@,
            H2PaneKind::Kanban => "H2 Kanban"@,
        }
    }

    /// The name of this kind in the metadata of a pane.
    pub open spec fn metadata_name(self) -> Seq<char> {
        match self {
            H2PaneKind::Graph => "graph"@,
            H2PaneKind::Kanban => "kanban"@,
        }
    }

    pub fn title(self) -> (title: &'static str)
        ensures
            title@ == self.title_text(),
    {
        match self {
            H2PaneKind::Graph => "H2 Graph",
            H2PaneKind::Kanban => "H2 Kanban",
        }
    }
}

/// Gives out the ids of panes.
pub struct PaneIds {
    next: PaneId,
}

impl View for PaneIds {
    type V = PaneId;

    /// The id that is given out next.
    closed spec fn view(&self) -> PaneId {
        self.next
    }
}

impl PaneIds {
    pub fn new() -> (ids: PaneIds)
        ensures
            ids@ == 0,
    {
        PaneIds { next: 0 }
    }

    /// The next id.
    pub fn alloc_pane_id(&mut self) -> (id: PaneId)
        ensures
            id == old(self)@,
            final(self)@ == successor(old(self)@),
    {
        let id: PaneId = self.next;
        self.next = id.wrapping_add(1);
        id
    }
}

/// A pane that shows lines of h2 text.
pub struct H2Pane {
    pane_id: PaneId,
    kind: H2PaneKind,
    size: TerminalSize,
    source_lines: Vec<String>,
    rendered_lines: Vec<Line>,
    seqno: SequenceNo,
    dead: bool,
    writer_sink: Vec<u8>,
    graph_node_count: usize,
}

impl View for H2Pane {
    type V = PaneState;

    closed spec fn view(&self) -> PaneState {
        PaneState {
            pane_id: self.pane_id,
            kind: self.kind,
            size: self.size,
            source: texts(self.source_lines@),
            rendered: line_states(self.rendered_lines@),
            seqno: self.seqno,
            dead: self.dead,
            written: self.writer_sink@,
            graph_node_count: self.graph_node_count,
        }
    }
}

impl H2Pane {
    /// A pane that shows the title of its kind.
    pub fn new(pane_id: PaneId, kind: H2PaneKind, size: TerminalSize) -> (pane: H2Pane)
        ensures
            pane@ == PaneState::created(pane_id, kind, size),
            pane@.well_formed(),
    {
        let mut source_lines: Vec<String> = Vec::new();
        source_lines.push(kind.title().to_owned());
        let mut pane = H2Pane {
            pane_id,
            kind,
            size,
            source_lines,
            rendered_lines: Vec::new(),
            seqno: 1,
            dead: false,
            writer_sink: Vec::new(),
            graph_node_count: 0,
        };
        assert(pane@.source =~= seq![kind.title_text()]);
        pane.rebuild_lines();
        pane
    }

    pub fn kind(&self) -> (kind: H2PaneKind)
        ensures
            kind == self@.kind,
    {
        self.kind
    }

    /// Shows these lines in place of those before.
    pub fn set_lines(&mut self, lines: Vec<String>)
        ensures
            final(self)@ == old(self)@.with_lines(texts(lines@)),
            final(self)@.well_formed(),
    {
        self.source_lines = lines;
        self.rebuild_lines();
    }

    /// Sets the number of nodes that the metadata reports.
    pub fn set_graph_node_count(&mut self, count: usize)
        ensures
            final(self)@ == old(self)@.with_graph_node_count(count),
    {
        self.graph_node_count = count;
        self.seqno = self.seqno.wrapping_add(1);
    }

    /// Draws the source lines anew.
    fn rebuild_lines(&mut self)
        ensures
            final(self)@ == old(self)@.redrawn(old(self)@.source, old(self)@.size),
    {
        let rows: usize = if self.size.rows < 1 { 1 } else { self.size.rows };
        let cols: usize = if self.size.cols < 1 { 1 } else { self.size.cols };
        let mut rendered: Vec<Line> = Vec::new();
        let ghost source = texts(self.source_lines@);
        let ghost size = self.size;

        for row in 0..rows
            invariant
                rows == at_least_one(size.rows),
                cols == at_least_one(size.cols),
                source == texts(self.source_lines@),
                rendered@.len() == row,
                forall|i: int| 0 <= i < row ==> (#[trigger] rendered@[i])@ == drawn_row(source, size, i),
        {
            let text: &str = if row < self.source_lines.len() {
                self.source_lines[row].as_str()
            } else {
                ""
            };
            proof {
                reveal_strlit("");
                assert(""@ =~= Seq::<char>::empty());
            }
            let clipped_text: String = clip(text, cols);
            rendered.push(Line::from_text(clipped_text.as_str(), 1));
        }
        assert(line_states(rendered@) =~= drawing(source, size));

        self.rendered_lines = rendered;
        self.seqno = self.seqno.wrapping_add(1);
    }

    pub fn pane_id(&self) -> (id: PaneId)
        ensures
            id == self@.pane_id,
    {
        self.pane_id
    }

    /// An h2 pane has no cursor to show.
    pub fn get_cursor_position(&self) -> (position: StableCursorPosition)
        ensures
            position == (StableCursorPosition {
                x: 0,
                y: 0,
                visibility: CursorVisibility::Hidden,
            }),
    {
        StableCursorPosition { x: 0, y: 0, visibility: CursorVisibility::Hidden }
    }

    pub fn get_current_seqno(&self) -> (seqno: SequenceNo)
        ensures
            seqno == self@.seqno,
    {
        self.seqno
    }

    /// The kind of the pane and the number of its graph nodes, in the order of
    /// their names.
    pub fn get_metadata(&self) -> (entries: Vec<(String, MetadataValue)>)
        ensures
            entries@.len() == 2,
            entries@[0].0@ == "h2_graph_node_count"@,
            entries@[0].1 == MetadataValue::U64(self@.graph_node_count as u64),
            entries@[1].0@ == "h2_pane_kind"@,
            entries@[1].1 matches MetadataValue::String(name) && name@ == self@.kind.metadata_name(),
            forall|i: int|
                0 <= i < entries@.len() ==> match (#[trigger] entries@[i]).1 {
                    MetadataValue::U64(number) => self@.metadata_number(entries@[i].0@) == Some(
                        number,
                    ),
                    MetadataValue::String(text) => self@.metadata_text(entries@[i].0@) == Some(
                        text@,
                    ),
                },
    {
        let name: &str = match self.kind {
            H2PaneKind::Graph => "graph",
            H2PaneKind::Kanban => "kanban",
        };
        let mut entries: Vec<(String, MetadataValue)> = Vec::new();
        entries.push(
            ("h2_graph_node_count".to_owned(), MetadataValue::U64(self.graph_node_count as u64)),
        );
        entries.push(("h2_pane_kind".to_owned(), MetadataValue::String(name.to_owned())));
        entries
    }

    /// The rows among `lines` that changed after `seqno`: all of them, where the
    /// pane changed at all, and none where there are none.
    pub fn get_changed_since(
        &self,
        lines: Range<StableRowIndex>,
        seqno: SequenceNo,
    ) -> (changed: Option<Range<StableRowIndex>>)
        ensures
            changed == (if self@.seqno != seqno && lines.start < lines.end {
                Some(lines)
            } else {
                None
            }),
            forall|row: int|
                lines.start <= row < lines.end ==> (#[trigger] self@.row_changed_since(row, seqno)
                    <==> (changed matches Some(range) && range.start <= row < range.end)),
    {
        if self.get_current_seqno() != seqno && lines.start < lines.end {
            Some(lines)
        } else {
            None
        }
    }

    /// The line in row `row`, or an empty one where there is no such row.
    fn line_or_blank(&self, row: usize) -> (line: Line)
        ensures
            line@ == row_or_blank(self@.rendered, row as int),
    {
        if row < self.rendered_lines.len() {
            self.rendered_lines[row].clone()
        } else {
            Line::new(0)
        }
    }

    /// The lines in these rows, and the number of the first row.
    pub fn get_lines(&self, lines: Range<StableRowIndex>) -> (found: (StableRowIndex, Vec<Line>))
        ensures
            found.0 == at_least_zero(lines.start as int),
            line_states(found.1@) == requested_rows(
                self@.rendered,
                lines.start as int,
                lines.end as int,
            ),
    {
        let first: StableRowIndex = if lines.start < 0 { 0 } else { lines.start };
        let mut out: Vec<Line> = Vec::new();
        let mut idx: StableRowIndex = lines.start;
        while idx < lines.end
            invariant
                lines.start <= idx,
                idx <= lines.end || idx == lines.start,
                out@.len() == idx - lines.start,
                forall|i: int|
                    0 <= i < out@.len() ==> (#[trigger] out@[i])@ == row_or_blank(
                        self@.rendered,
                        at_least_zero(lines.start + i) as int,
                    ),
            decreases lines.end - idx,
        {
            let row: usize = if idx < 0 { 0 } else { idx as usize };
            out.push(self.line_or_blank(row));
            idx = idx + 1;
        }
        assert(line_states(out@) =~= requested_rows(
            self@.rendered,
            lines.start as int,
            lines.end as int,
        ));
        (first, out)
    }

    /// Copies of the lines in those of these rows that are not above the first,
    /// for a caller to change, and the number of the first row.
    pub fn lines_to_edit(&self, lines: Range<StableRowIndex>) -> (found: (
        StableRowIndex,
        Vec<Line>,
    ))
        ensures
            found.0 == at_least_zero(lines.start as int),
            line_states(found.1@) == editable_rows(
                self@.rendered,
                lines.start as int,
                lines.end as int,
            ),
    {
        let first: StableRowIndex = if lines.start < 0 { 0 } else { lines.start };
        let mut out: Vec<Line> = Vec::new();
        let mut idx: StableRowIndex = first;
        while idx < lines.end
            invariant
                first == at_least_zero(lines.start as int),
                first <= idx,
                idx <= lines.end || idx == first,
                out@.len() == idx - first,
                forall|i: int|
                    0 <= i < out@.len() ==> (#[trigger] out@[i])@ == row_or_blank(
                        self@.rendered,
                        first + i,
                    ),
            decreases lines.end - idx,
        {
            out.push(self.line_or_blank(idx as usize));
            idx = idx + 1;
        }
        assert(line_states(out@) =~= editable_rows(
            self@.rendered,
            lines.start as int,
            lines.end as int,
        ));
        (first, out)
    }

    pub fn get_dimensions(&self) -> (dimensions: RenderableDimensions)
        ensures
            dimensions == (RenderableDimensions {
                cols: self@.size.cols,
                viewport_rows: self@.size.rows,
                scrollback_rows: self@.size.rows,
                physical_top: 0,
                scrollback_top: 0,
                dpi: self@.size.dpi,
                pixel_width: self@.size.pixel_width,
                pixel_height: self@.size.pixel_height,
                reverse_video: false,
            }),
            dimensions == self@.dimensions(),
    {
        let size: TerminalSize = self.size;
        RenderableDimensions {
            cols: size.cols,
            viewport_rows: size.rows,
            scrollback_rows: size.rows,
            physical_top: 0,
            scrollback_top: 0,
            dpi: size.dpi,
            pixel_width: size.pixel_width,
            pixel_height: size.pixel_height,
            reverse_video: false,
        }
    }

    pub fn get_title(&self) -> (title: String)
        ensures
            title@ == self@.kind.title_text(),
    {
        self.kind.title().to_owned()
    }

    /// The buffer that takes what is written to the pane.
    pub fn writer(&mut self) -> (sink: &mut Vec<u8>)
        ensures
            sink@ == old(self)@.written,
            final(self)@ == (PaneState { written: final(sink)@, ..old(self)@ }),
    {
        &mut self.writer_sink
    }

    /// Draws the lines anew for a terminal of this size.
    pub fn resize(&mut self, size: TerminalSize)
        ensures
            final(self)@ == old(self)@.resized(size),
            final(self)@.well_formed(),
    {
        self.size = size;
        self.rebuild_lines();
    }

    pub fn is_dead(&self) -> (dead: bool)
        ensures
            dead == self@.dead,
    {
        self.dead
    }

    pub fn kill(&mut self)
        ensures
            final(self)@ == old(self)@.killed(),
    {
        self.dead = true;
    }

    /// The domain of every h2 pane.
    pub fn domain_id(&self) -> (id: DomainId)
        ensures
            id == 0,
    {
        0
    }

    pub fn has_unseen_output(&self) -> (unseen: bool)
        ensures
            !unseen,
    {
        false
    }

    pub fn can_close_without_prompting(&self) -> (can_close: bool)
        ensures
            can_close,
    {
        true
    }

    pub fn is_mouse_grabbed(&self) -> (grabbed: bool)
        ensures
            !grabbed,
    {
        false
    }

    pub fn is_alt_screen_active(&self) -> (active: bool)
        ensures
            !active,
    {
        false
    }
}

/// Every pane is well formed from the start, and stays so whatever is done to it.
pub proof fn panes_stay_well_formed(
    pane_id: PaneId,
    kind: H2PaneKind,
    size: TerminalSize,
    changes: Seq<PaneChange>,
)
    ensures
        PaneState::created(pane_id, kind, size).after(changes).well_formed(),
    decreases changes.len(),
{
    if changes.len() > 0 {
        panes_stay_well_formed(pane_id, kind, size, changes.drop_last());
    }
}

/// A drawing has a line for each row of the terminal, and at least one; no line
/// is wider than the terminal, or than one column; each line is the start of the
/// source line in its row, all of it where it fits; rows below the source are empty.
pub proof fn drawing_fits_the_terminal(source: Seq<Seq<char>>, size: TerminalSize)
    ensures
        drawing(source, size).len() == at_least_one(size.rows),
        forall|row: int|
            #![trigger drawing(source, size)[row]]
            0 <= row < drawing(source, size).len() ==> {
                let text = drawing(source, size)[row].text;
                &&& text.len() <= at_least_one(size.cols)
                &&& row < source.len() ==> text.is_prefix_of(source[row])
                &&& row < source.len() && source[row].len() <= at_least_one(size.cols) ==> text
                    == source[row]
                &&& row >= source.len() ==> text.len() == 0
            },
{
}

/// A pane shows the lines that it was given: the line in each row of the
/// terminal, cut to its width, and nothing in the rows below the last line.
pub proof fn a_pane_shows_its_lines(state: PaneState, lines: Seq<Seq<char>>, start: int, end: int)
    requires
        0 <= start <= end <= at_least_one(state.size.rows),
    ensures
        requested_rows(state.with_lines(lines).rendered, start, end).len() == end - start,
        forall|i: int|
            0 <= i < end - start ==> (#[trigger] requested_rows(
                state.with_lines(lines).rendered,
                start,
                end,
            )[i]).text == (if start + i < lines.len() {
                clipped(lines[start + i], at_least_one(state.size.cols))
            } else {
                Seq::empty()
            }),
{
}

/// Asking for all rows of a pane gives all its lines.
pub proof fn all_rows_are_all_lines(rendered: Seq<LineState>)
    ensures
        requested_rows(rendered, 0, rendered.len() as int) == rendered,
{
    assert(requested_rows(rendered, 0, rendered.len() as int) =~= rendered);
}

/// The lines to read and the lines to edit are the same, unless rows above the
/// first are asked for.
pub proof fn lines_to_edit_are_the_lines_to_read(rendered: Seq<LineState>, start: int, end: int)
    requires
        0 <= start,
    ensures
        editable_rows(rendered, start, end) == requested_rows(rendered, start, end),
{
    assert(editable_rows(rendered, start, end) =~= requested_rows(rendered, start, end));
}

/// Resizing loses nothing: after any sizes in between, a pane is drawn as if the
/// last size had been set at once.
pub proof fn resizing_loses_nothing(state: PaneState, first: TerminalSize, last: TerminalSize)
    ensures
        state.resized(first).resized(last) == (PaneState {
            seqno: successor(successor(state.seqno)),
            ..state.resized(last)
        }),
{
}

proof fn lemma_steps_after(n: usize, steps: nat)
    ensures
        steps_after(n, steps) == (n + steps) % (usize::MAX + 1),
    decreases steps,
{
    let modulus: int = usize::MAX + 1;
    if steps == 0 {
        lemma_small_mod(n as nat, modulus as nat);
    } else {
        let before = steps_after(n, (steps - 1) as nat);
        lemma_steps_after(n, (steps - 1) as nat);
        lemma_add_mod_noop_right(1, n + steps - 1, modulus);
        assert((1 + before) % modulus == (n + steps) % modulus);
        if before == usize::MAX {
            lemma_mod_self_0(modulus);
        } else {
            lemma_small_mod((1 + before) as nat, modulus as nat);
        }
    }
}

/// A count that wraps around comes back to a number only after as many steps as
/// there are numbers.
proof fn lemma_steps_lead_away(n: usize, steps: nat)
    requires
        0 < steps <= usize::MAX,
    ensures
        steps_after(n, steps) != n,
{
    let modulus: int = usize::MAX + 1;
    lemma_steps_after(n, steps);
    if n + steps < modulus {
        lemma_small_mod((n + steps) as nat, modulus as nat);
    } else {
        lemma_mod_sub_multiples_vanish(n + steps, modulus);
        lemma_small_mod((n + steps - modulus) as nat, modulus as nat);
    }
}

proof fn lemma_steps_add_up(n: usize, first: nat, then_more: nat)
    ensures
        steps_after(steps_after(n, first), then_more) == steps_after(n, first + then_more),
    decreases then_more,
{
    if then_more > 0 {
        lemma_steps_add_up(n, first, (then_more - 1) as nat);
    }
}

/// Each change of what a pane shows or reports gives it the next sequence number,
/// and nothing else does: n changes raise it by n, with wrap-around. So asking for
/// changes since before finds them, unless there were none or more than there are
/// sequence numbers.
pub proof fn changes_are_counted_and_noticed(state: PaneState, changes: Seq<PaneChange>)
    ensures
        state.after(changes).seqno == (state.seqno + counted(changes)) % (usize::MAX + 1),
        counted(changes) == 0 ==> state.after(changes).seqno == state.seqno,
        0 < counted(changes) <= usize::MAX ==> state.after(changes).seqno != state.seqno,
{
    lemma_seqno_counts(state, changes);
    lemma_steps_after(state.seqno, counted(changes));
    if 0 < counted(changes) <= usize::MAX {
        lemma_steps_lead_away(state.seqno, counted(changes));
    }
}

proof fn lemma_seqno_counts(state: PaneState, changes: Seq<PaneChange>)
    ensures
        state.after(changes).seqno == steps_after(state.seqno, counted(changes)),
    decreases changes.len(),
{
    if changes.len() > 0 {
        lemma_seqno_counts(state, changes.drop_last());
    }
}

/// Nothing changes the identity or the kind of a pane, and nothing revives a pane
/// that was killed.
pub proof fn identity_and_death_are_final(state: PaneState, changes: Seq<PaneChange>)
    ensures
        state.after(changes).pane_id == state.pane_id,
        state.after(changes).kind == state.kind,
        state.after(changes).dead <==> state.dead || exists|i: int|
            0 <= i < changes.len() && #[trigger] changes[i] is Kill,
    decreases changes.len(),
{
    if changes.len() > 0 {
        let earlier = changes.drop_last();
        identity_and_death_are_final(state, earlier);
        assert forall|i: int| 0 <= i < earlier.len() implies earlier[i] == #[trigger] changes[i] by {}
        if state.after(earlier).dead && !state.dead {
            let i = choose|i: int| 0 <= i < earlier.len() && #[trigger] earlier[i] is Kill;
            assert(changes[i] is Kill);
        }
        if changes.last() is Kill {
            assert(changes[changes.len() - 1] is Kill);
        }
        if !state.dead && (exists|i: int|
            0 <= i < changes.len() && #[trigger] changes[i] is Kill) && !(changes.last() is Kill) {
            let i = choose|i: int| 0 <= i < changes.len() && #[trigger] changes[i] is Kill;
            assert(earlier[i] is Kill);
        }
    }
}

/// No two panes share an id, whatever is done to them, unless as many panes were
/// made in between as there are ids: of the panes whose ids are given out from
/// `first` on, pane number `earlier` and pane number `later` have two ids.
pub proof fn panes_do_not_share_ids(
    first: PaneId,
    earlier: nat,
    later: nat,
    kinds: (H2PaneKind, H2PaneKind),
    sizes: (TerminalSize, TerminalSize),
    changes: (Seq<PaneChange>, Seq<PaneChange>),
)
    requires
        earlier < later <= earlier + usize::MAX,
    ensures
        PaneState::created(steps_after(first, earlier), kinds.0, sizes.0).after(changes.0).pane_id
            != PaneState::created(steps_after(first, later), kinds.1, sizes.1).after(
            changes.1,
        ).pane_id,
{
    let a = PaneState::created(steps_after(first, earlier), kinds.0, sizes.0);
    let b = PaneState::created(steps_after(first, later), kinds.1, sizes.1);
    identity_and_death_are_final(a, changes.0);
    identity_and_death_are_final(b, changes.1);
    lemma_steps_add_up(first, earlier, (later - earlier) as nat);
    lemma_steps_lead_away(steps_after(first, earlier), (later - earlier) as nat);
}

/// A row that has more text than the terminal is wide is filled to the width; a
/// row that has less shows all its text; rows below the source show nothing. Every
/// character that is shown stands where it stands in the source.
pub proof fn drawing_fills_the_rows(source: Seq<Seq<char>>, size: TerminalSize, row: int)
    requires
        0 <= row,
        row < size.rows || row == 0,
    ensures
        drawing(source, size).len() == size.rows || (size.rows == 0 && drawing(source, size).len()
            == 1),
        row >= source.len() ==> drawing(source, size)[row].text.len() == 0,
        row < source.len() && source[row].len() <= size.cols ==> drawing(source, size)[row].text
            == source[row],
        row < source.len() && source[row].len() > size.cols && size.cols > 0 ==> drawing(
            source,
            size,
        )[row].text.len() == size.cols,
        row < source.len() && source[row].len() > 0 && size.cols == 0 ==> drawing(
            source,
            size,
        )[row].text.len() == 1,
        row < source.len() ==> forall|i: int|
            0 <= i < source[row].len() && (i < size.cols || i == 0) ==> #[trigger] drawing(
                source,
                size,
            )[row].text[i] == source[row][i],
        drawing(source, size)[row].seqno == 1,
{
}

/// A read gives a line for each row that is asked for: the line in that row, the
/// first line for rows above it, and an empty line of sequence number 0 for rows
/// below the last.
pub proof fn reads_give_each_row(rendered: Seq<LineState>, start: int, end: int, row: int)
    requires
        start <= row < end,
    ensures
        requested_rows(rendered, start, end).len() == end - start,
        0 <= row < rendered.len() ==> requested_rows(rendered, start, end)[row - start]
            == rendered[row],
        row < 0 && rendered.len() > 0 ==> requested_rows(rendered, start, end)[row - start]
            == rendered[0],
        row >= rendered.len() ==> {
            let line = requested_rows(rendered, start, end)[row - start];
            line.text.len() == 0 && line.seqno == 0
        },
{
}

/// The lines to edit are those in the rows that are asked for and are not above the
/// first: each the line in its row, or an empty one of sequence number 0 below the
/// last.
pub proof fn edits_get_each_row_below_the_top(
    rendered: Seq<LineState>,
    start: int,
    end: int,
    row: int,
)
    requires
        0 <= row,
        start <= row < end,
    ensures
        start >= 0 ==> editable_rows(rendered, start, end).len() == end - start,
        start < 0 ==> editable_rows(rendered, start, end).len() == end,
        ({
            let line = editable_rows(rendered, start, end)[if start < 0 { row } else { row - start }];
            &&& row < rendered.len() ==> line == rendered[row]
            &&& row >= rendered.len() ==> line.text.len() == 0 && line.seqno == 0
        }),
{
}

/// Where no row is asked for, no line is given; and the first row that is given is
/// the first that is asked for, or row 0 where that is above it.
pub proof fn empty_reads_give_nothing(rendered: Seq<LineState>, start: int, end: int)
    ensures
        end <= start ==> requested_rows(rendered, start, end).len() == 0,
        end <= start || end <= 0 ==> editable_rows(rendered, start, end).len() == 0,
        start >= 0 ==> at_least_zero(start) == start,
        start < 0 ==> at_least_zero(start) == 0,
{
}

/// Resizing gives the pane exactly the new size, which it then reports, draws its
/// source for that size, counts one change, and leaves all else.
pub proof fn resizing_sets_the_size(state: PaneState, size: TerminalSize)
    ensures
        state.resized(size).size == size,
        state.resized(size).source == state.source,
        state.resized(size).rendered == drawing(state.source, size),
        state.resized(size).seqno == if state.seqno == usize::MAX {
            0
        } else {
            state.seqno + 1
        },
        state.resized(size).pane_id == state.pane_id,
        state.resized(size).kind == state.kind,
        state.resized(size).dead == state.dead,
        state.resized(size).written == state.written,
        state.resized(size).graph_node_count == state.graph_node_count,
        state.resized(size).dimensions().cols == size.cols,
        state.resized(size).dimensions().viewport_rows == size.rows,
        state.resized(size).dimensions().scrollback_rows == size.rows,
        state.resized(size).dimensions().pixel_width == size.pixel_width,
        state.resized(size).dimensions().pixel_height == size.pixel_height,
        state.resized(size).dimensions().dpi == size.dpi,
        state.resized(size).dimensions().physical_top == 0,
        state.resized(size).dimensions().scrollback_top == 0,
        !state.resized(size).dimensions().reverse_video,
{
}

/// Setting lines gives the pane exactly those lines, draws them for its size,
/// counts one change, and leaves all else.
pub proof fn setting_lines_sets_the_source(state: PaneState, lines: Seq<Seq<char>>)
    ensures
        state.with_lines(lines).source == lines,
        state.with_lines(lines).size == state.size,
        state.with_lines(lines).rendered == drawing(lines, state.size),
        state.with_lines(lines).seqno == if state.seqno == usize::MAX {
            0
        } else {
            state.seqno + 1
        },
        state.with_lines(lines).pane_id == state.pane_id,
        state.with_lines(lines).kind == state.kind,
        state.with_lines(lines).dead == state.dead,
        state.with_lines(lines).written == state.written,
        state.with_lines(lines).graph_node_count == state.graph_node_count,
{
}

/// The metadata gives the number of graph nodes that was set, and only that under
/// the number's name; setting it counts one change and leaves all else.
pub proof fn setting_the_node_count_is_reported(state: PaneState, count: usize, name: Seq<char>)
    ensures
        state.with_graph_node_count(count).graph_node_count == count,
        state.with_graph_node_count(count).metadata_number("h2_graph_node_count"@) matches Some(n)
            && n == count,
        name != "h2_graph_node_count"@ ==> state.metadata_number(name) is None,
        state.with_graph_node_count(count).seqno == if state.seqno == usize::MAX {
            0
        } else {
            state.seqno + 1
        },
        state.with_graph_node_count(count).pane_id == state.pane_id,
        state.with_graph_node_count(count).kind == state.kind,
        state.with_graph_node_count(count).size == state.size,
        state.with_graph_node_count(count).source == state.source,
        state.with_graph_node_count(count).rendered == state.rendered,
        state.with_graph_node_count(count).dead == state.dead,
        state.with_graph_node_count(count).written == state.written,
{
}

/// The metadata names the kind of the pane, differently for each kind, and nothing
/// but the kind; the title does so too.
pub proof fn kinds_are_told_apart(state: PaneState, name: Seq<char>)
    ensures
        state.kind is Graph ==> state.metadata_text("h2_pane_kind"@) == Some("graph"@),
        state.kind is Kanban ==> state.metadata_text("h2_pane_kind"@) == Some("kanban"@),
        name != "h2_pane_kind"@ ==> state.metadata_text(name) is None,
        state.kind is Graph ==> state.kind.title_text() == "H2 Graph"@,
        state.kind is Kanban ==> state.kind.title_text() == "H2 Kanban"@,
{
}

/// Killing a pane kills it and leaves all else, its sequence number too.
pub proof fn killing_only_kills(state: PaneState)
    ensures
        state.killed().dead,
        state.killed().pane_id == state.pane_id,
        state.killed().kind == state.kind,
        state.killed().size == state.size,
        state.killed().source == state.source,
        state.killed().rendered == state.rendered,
        state.killed().seqno == state.seqno,
        state.killed().written == state.written,
        state.killed().graph_node_count == state.graph_node_count,
{
}

/// A new pane has the id, kind and size that it was made with, shows the title of
/// its kind and nothing else, is alive, and has nothing written or counted.
pub proof fn new_panes_are_as_asked_for(pane_id: PaneId, kind: H2PaneKind, size: TerminalSize)
    ensures
        PaneState::created(pane_id, kind, size).pane_id == pane_id,
        PaneState::created(pane_id, kind, size).kind == kind,
        PaneState::created(pane_id, kind, size).size == size,
        PaneState::created(pane_id, kind, size).source.len() == 1,
        PaneState::created(pane_id, kind, size).source[0] == kind.title_text(),
        PaneState::created(pane_id, kind, size).rendered == drawing(
            PaneState::created(pane_id, kind, size).source,
            size,
        ),
        PaneState::created(pane_id, kind, size).seqno == 2,
        !PaneState::created(pane_id, kind, size).dead,
        PaneState::created(pane_id, kind, size).written.len() == 0,
        PaneState::created(pane_id, kind, size).graph_node_count == 0,
{
}

/// All rows of a pane count as changed exactly where its sequence number is
/// another.
pub proof fn rows_change_with_the_sequence_number(state: PaneState, row: int, seqno: SequenceNo)
    ensures
        state.row_changed_since(row, seqno) <==> state.seqno != seqno,
{
}

/// Of the changes of one kind the last counts: a pane shows the lines, has the
/// size and reports the number of graph nodes that were set last, and those from
/// before where none were set.
pub proof fn the_last_setting_counts(state: PaneState, changes: Seq<PaneChange>, last: int)
    requires
        -1 <= last < changes.len(),
    ensures
        (last >= 0 && changes[last] is GraphNodeCount && forall|i: int|
            last < i < changes.len() ==> !(#[trigger] changes[i] is GraphNodeCount))
            ==> state.after(changes).graph_node_count == changes[last]->GraphNodeCount_0,
        (last >= 0 && changes[last] is Lines && forall|i: int|
            last < i < changes.len() ==> !(#[trigger] changes[i] is Lines)) ==> state.after(
            changes,
        ).source == changes[last]->Lines_0,
        (last >= 0 && changes[last] is Size && forall|i: int|
            last < i < changes.len() ==> !(#[trigger] changes[i] is Size)) ==> state.after(
            changes,
        ).size == changes[last]->Size_0,
        (last < 0 && forall|i: int|
            0 <= i < changes.len() ==> !(#[trigger] changes[i] is GraphNodeCount)) ==> state.after(
            changes,
        ).graph_node_count == state.graph_node_count,
        (last < 0 && forall|i: int| 0 <= i < changes.len() ==> !(#[trigger] changes[i] is Lines))
            ==> state.after(changes).source == state.source,
        (last < 0 && forall|i: int| 0 <= i < changes.len() ==> !(#[trigger] changes[i] is Size))
            ==> state.after(changes).size == state.size,
    decreases changes.len(),
{
    if changes.len() > 0 {
        let earlier = changes.drop_last();
        assert(forall|i: int| 0 <= i < earlier.len() ==> earlier[i] == #[trigger] changes[i]);
        assert(changes.last() == changes[changes.len() - 1]);
        if last < earlier.len() {
            the_last_setting_counts(state, earlier, last);
            assert(forall|i: int| 0 <= i < earlier.len() ==> changes[i] == #[trigger] earlier[i]);
        }
    }
}

/// Lines and lists of lines and strings are told by what they hold, item by item.
pub proof fn lists_are_told_item_by_item(lines: Seq<Line>, strings: Seq<String>, i: int)
    ensures
        line_states(lines).len() == lines.len(),
        0 <= i < lines.len() ==> line_states(lines)[i].text == lines[i].text@
            && line_states(lines)[i].seqno == lines[i].seqno,
        texts(strings).len() == strings.len(),
        0 <= i < strings.len() ==> texts(strings)[i] == strings[i]@,
{
}

} // verus!
