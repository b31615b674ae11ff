//! What a cycle draws, and the display surface it is drawn on.
//!
//! A cycle redraws the whole surface: it clears the frame buffer, draws its
//! labels and flushes once. What is visible is therefore always the complete
//! frame of one cycle.

use vstd::prelude::*;
use crate::decimal::{format_one_decimal, one_decimal};
use crate::reading::{ReadOutcome, SensorReading};

verus! {

/// Vertical offset of the upper line from the centre of the surface.
pub const UPPER_LINE_OFFSET: i32 = -10;

/// Vertical offset of the lower line from the centre of the surface.
pub const LOWER_LINE_OFFSET: i32 = 20;

/// How a line of text lies to its anchor, the point `offset_y` pixels below
/// the centre of the surface.
#[derive(Clone, Copy, Debug, PartialEq, Eq, Structural)]
pub enum Alignment {
    /// The text starts at the anchor.
    Left,
    /// The text is centred on the anchor.
    Center,
}

/// One line of text on the surface. Glyphs are drawn without a background.
#[derive(Clone, Debug, PartialEq, Eq)]
pub struct Label {
    pub text: String,
    /// Vertical offset from the centre of the surface, in pixels.
    pub offset_y: i32,
    pub alignment: Alignment,
}

/// A label as contracts speak of it.
pub struct LabelView {
    pub text: Seq<char>,
    pub offset_y: int,
    pub alignment: Alignment,
}

impl View for Label {
    type V = LabelView;

    open spec fn view(&self) -> LabelView {
        LabelView { text: self.text@, offset_y: self.offset_y as int, alignment: self.alignment }
    }
}

/// One operation on the display.
#[derive(Clone, Debug, PartialEq, Eq)]
pub enum DrawOp {
    /// Blank the frame buffer.
    Clear,
    /// Draw a line of text into the frame buffer.
    Text(Label),
    /// Make the frame buffer visible.
    Flush,
}

/// An operation as contracts speak of it.
pub enum DrawOpView {
    Clear,
    Text(LabelView),
    Flush,
}

impl View for DrawOp {
    type V = DrawOpView;

    open spec fn view(&self) -> DrawOpView {
        match *self {
            DrawOp::Clear => DrawOpView::Clear,
            DrawOp::Text(label) => DrawOpView::Text(label@),
            DrawOp::Flush => DrawOpView::Flush,
        }
    }
}

/// The operations of a list, each by its view.
pub open spec fn ops_view(ops: Seq<DrawOp>) -> Seq<DrawOpView> {
    Seq::new(ops.len(), |i: int| ops[i]@)
}

/// The labels of a list, each by its view.
pub open spec fn labels_view(labels: Seq<Label>) -> Seq<LabelView> {
    Seq::new(labels.len(), |i: int| labels[i]@)
}

/// The two lines that show a reading.
pub open spec fn success_labels(reading: SensorReading) -> Seq<LabelView> {
    seq![
        LabelView {
            text: one_decimal(reading.temperature_bits) + " °C"@,
            offset_y: UPPER_LINE_OFFSET as int,
            alignment: Alignment::Left,
        },
        LabelView {
            text: one_decimal(reading.humidity_bits) + " %"@,
            offset_y: LOWER_LINE_OFFSET as int,
            alignment: Alignment::Left,
        },
    ]
}

/// The two lines that tell of a failed sampling.
pub open spec fn failure_labels() -> Seq<LabelView> {
    seq![
        LabelView {
            text: "Sensor"@,
            offset_y: UPPER_LINE_OFFSET as int,
            alignment: Alignment::Center,
        },
        LabelView {
            text: "read failed"@,
            offset_y: LOWER_LINE_OFFSET as int,
            alignment: Alignment::Center,
        },
    ]
}

/// The lines that show the outcome of a sampling.
pub open spec fn outcome_labels(outcome: ReadOutcome) -> Seq<LabelView> {
    match outcome {
        ReadOutcome::Success(reading) => success_labels(reading),
        ReadOutcome::Failure(_) => failure_labels(),
    }
}

/// The operations of one full redraw: clear, the labels in turn, one flush.
pub open spec fn frame_plan(labels: Seq<LabelView>) -> Seq<DrawOpView> {
    Seq::new(
        labels.len() + 2,
        |i: int|
            if i == 0 {
                DrawOpView::Clear
            } else if i <= labels.len() {
                DrawOpView::Text(labels[i - 1])
            } else {
                DrawOpView::Flush
            },
    )
}

/// How many of the operations are flushes.
pub open spec fn flush_count(ops: Seq<DrawOpView>) -> nat
    decreases ops.len(),
{
    if ops.len() == 0 {
        0
    } else {
        flush_count(ops.drop_last()) + if ops.last() is Flush {
            1nat
        } else {
            0nat
        }
    }
}

proof fn lemma_no_flush_before_last(labels: Seq<LabelView>, count: int)
    requires
        0 <= count <= labels.len() + 1,
    ensures
        flush_count(frame_plan(labels).take(count)) == 0,
    decreases count,
{
    let prefix = frame_plan(labels).take(count);
    if count > 0 {
        lemma_no_flush_before_last(labels, count - 1);
        assert(prefix.drop_last() =~= frame_plan(labels).take(count - 1));
    }
}

/// A full redraw starts by clearing, draws every label, and flushes exactly
/// once, at its end.
pub proof fn lemma_frame_plan_flushes_once(labels: Seq<LabelView>)
    ensures
        frame_plan(labels).len() == labels.len() + 2,
        frame_plan(labels).first() is Clear,
        frame_plan(labels).last() is Flush,
        flush_count(frame_plan(labels)) == 1,
        forall|i: int|
            0 <= i < labels.len() ==> #[trigger] frame_plan(labels)[i + 1] == DrawOpView::Text(
                labels[i],
            ),
{
    let plan = frame_plan(labels);
    let body: int = labels.len() as int + 1;
    lemma_no_flush_before_last(labels, body);
    assert(plan.drop_last() =~= plan.take(body));
}

fn line(text: String, offset_y: i32, alignment: Alignment) -> (op: DrawOp)
    ensures
        op@ == DrawOpView::Text(LabelView { text: text@, offset_y: offset_y as int, alignment }),
{
    DrawOp::Text(Label { text, offset_y, alignment })
}

/// The operations that show a reading: the temperature in degrees Celsius
/// above the humidity in percent, each with one decimal place.
pub fn render_success(reading: &SensorReading) -> (ops: Vec<DrawOp>)
    ensures
        ops_view(ops@) == frame_plan(success_labels(*reading)),
{
    let mut upper = format_one_decimal(reading.temperature_bits);
    upper.append(" °C");
    let mut lower = format_one_decimal(reading.humidity_bits);
    lower.append(" %");
    let mut ops: Vec<DrawOp> = Vec::new();
    ops.push(DrawOp::Clear);
    ops.push(line(upper, UPPER_LINE_OFFSET, Alignment::Left));
    ops.push(line(lower, LOWER_LINE_OFFSET, Alignment::Left));
    ops.push(DrawOp::Flush);
    assert(ops_view(ops@) =~= frame_plan(success_labels(*reading)));
    ops
}

/// The operations that tell of a failed sampling.
pub fn render_failure() -> (ops: Vec<DrawOp>)
    ensures
        ops_view(ops@) == frame_plan(failure_labels()),
{
    let mut ops: Vec<DrawOp> = Vec::new();
    ops.push(DrawOp::Clear);
    ops.push(line(String::from_str("Sensor"), UPPER_LINE_OFFSET, Alignment::Center));
    ops.push(line(String::from_str("read failed"), LOWER_LINE_OFFSET, Alignment::Center));
    ops.push(DrawOp::Flush);
    assert(ops_view(ops@) =~= frame_plan(failure_labels()));
    ops
}

/// The operations that show the outcome of a sampling.
pub fn render(outcome: &ReadOutcome) -> (ops: Vec<DrawOp>)
    ensures
        ops_view(ops@) == frame_plan(outcome_labels(*outcome)),
{
    match outcome {
        ReadOutcome::Success(reading) => render_success(reading),
        ReadOutcome::Failure(_) => render_failure(),
    }
}

/// The display as the cycles see it: the frame buffer that is drawn into,
/// the frame that was flushed last, and whether some context holds the
/// surface.
#[derive(Clone, Debug, PartialEq, Eq)]
pub struct OutputSurface {
    pub buffer: Vec<Label>,
    pub visible: Vec<Label>,
    pub held: bool,
}

/// A surface as contracts speak of it.
pub struct SurfaceView {
    pub buffer: Seq<LabelView>,
    pub visible: Seq<LabelView>,
    pub held: bool,
}

impl View for OutputSurface {
    type V = SurfaceView;

    open spec fn view(&self) -> SurfaceView {
        SurfaceView {
            buffer: labels_view(self.buffer@),
            visible: labels_view(self.visible@),
            held: self.held,
        }
    }
}

impl SurfaceView {
    /// The surface after one operation.
    pub open spec fn drawn(self, op: DrawOpView) -> SurfaceView {
        match op {
            DrawOpView::Clear => SurfaceView { buffer: Seq::empty(), ..self },
            DrawOpView::Text(label) => SurfaceView { buffer: self.buffer.push(label), ..self },
            DrawOpView::Flush => SurfaceView { visible: self.buffer, ..self },
        }
    }

    /// The surface after the operations, in turn.
    pub open spec fn drawn_all(self, ops: Seq<DrawOpView>) -> SurfaceView
        decreases ops.len(),
    {
        if ops.len() == 0 {
            self
        } else {
            self.drawn_all(ops.drop_last()).drawn(ops.last())
        }
    }
}

proof fn lemma_redraw_prefix(before: SurfaceView, labels: Seq<LabelView>, count: int)
    requires
        1 <= count <= labels.len() + 1,
    ensures
        before.drawn_all(frame_plan(labels).take(count)) == (SurfaceView {
            buffer: labels.take(count - 1),
            ..before
        }),
    decreases count,
{
    let prefix = frame_plan(labels).take(count);
    assert(prefix.drop_last() =~= frame_plan(labels).take(count - 1));
    if count == 1 {
        assert(before.drawn_all(prefix.drop_last()) == before);
        assert(labels.take(0) =~= Seq::empty());
    } else {
        lemma_redraw_prefix(before, labels, count - 1);
        assert(labels.take(count - 2).push(labels[count - 2]) =~= labels.take(count - 1));
    }
}

/// Whatever the surface held before, after a full redraw it shows exactly the
/// labels of that redraw: nothing of an earlier frame remains visible.
pub proof fn lemma_redraw_replaces_frame(before: SurfaceView, labels: Seq<LabelView>)
    ensures
        before.drawn_all(frame_plan(labels)) == (SurfaceView {
            buffer: labels,
            visible: labels,
            held: before.held,
        }),
{
    let plan = frame_plan(labels);
    let body: int = labels.len() as int + 1;
    lemma_redraw_prefix(before, labels, body);
    assert(plan.drop_last() =~= plan.take(body));
    assert(labels.take(body - 1) =~= labels);
}

/// Drawing neither takes nor gives up the hold on the surface.
proof fn lemma_hold_is_kept(before: SurfaceView, ops: Seq<DrawOpView>, held: bool)
    ensures
        (SurfaceView { held, ..before }).drawn_all(ops) == (SurfaceView {
            held,
            ..before.drawn_all(ops)
        }),
    decreases ops.len(),
{
    if ops.len() > 0 {
        lemma_hold_is_kept(before, ops.drop_last(), held);
    }
}

fn copy_label(label: &Label) -> (copy: Label)
    ensures
        copy@ == label@,
{
    Label { text: label.text.clone(), offset_y: label.offset_y, alignment: label.alignment }
}

fn copy_labels(labels: &Vec<Label>) -> (copy: Vec<Label>)
    ensures
        labels_view(copy@) == labels_view(labels@),
{
    let mut copy: Vec<Label> = Vec::new();
    let mut i: usize = 0;
    while i < labels.len()
        invariant
            i <= labels.len(),
            copy.len() == i,
            forall|j: int| 0 <= j < i ==> (#[trigger] copy[j])@ == labels[j]@,
        decreases labels.len() - i,
    {
        copy.push(copy_label(&labels[i]));
        i = i + 1;
    }
    assert(labels_view(copy@) =~= labels_view(labels@));
    copy
}

impl OutputSurface {
    /// A blank surface that nobody holds.
    pub fn new() -> (surface: OutputSurface)
        ensures
            surface@ == (SurfaceView {
                buffer: Seq::empty(),
                visible: Seq::empty(),
                held: false,
            }),
    {
        let surface = OutputSurface { buffer: Vec::new(), visible: Vec::new(), held: false };
        assert(surface@.buffer =~= Seq::empty());
        assert(surface@.visible =~= Seq::empty());
        surface
    }

    fn draw(&mut self, op: &DrawOp)
        ensures
            final(self)@ == old(self)@.drawn(op@),
    {
        match op {
            DrawOp::Clear => {
                self.buffer = Vec::new();
                assert(self@.buffer =~= Seq::empty());
            },
            DrawOp::Text(label) => {
                self.buffer.push(copy_label(label));
                assert(self@.buffer =~= old(self)@.buffer.push(label@));
            },
            DrawOp::Flush => {
                self.visible = copy_labels(&self.buffer);
            },
        }
    }

    fn draw_all(&mut self, ops: &Vec<DrawOp>)
        ensures
            final(self)@ == old(self)@.drawn_all(ops_view(ops@)),
    {
        let mut i: usize = 0;
        assert(ops_view(ops@).take(0).len() == 0);
        while i < ops.len()
            invariant
                i <= ops.len(),
                self@ == old(self)@.drawn_all(ops_view(ops@).take(i as int)),
            decreases ops.len() - i,
        {
            self.draw(&ops[i]);
            proof {
                let next = ops_view(ops@).take(i + 1);
                assert(next.drop_last() =~= ops_view(ops@).take(i as int));
                assert(next.last() == ops[i as int]@);
            }
            i = i + 1;
        }
        assert(ops_view(ops@).take(ops.len() as int) =~= ops_view(ops@));
    }

    /// Runs `body` while holding the surface and carries out the operations it
    /// returns. A surface that is held already is left alone and `body` does
    /// not run. The surface is released again whatever `body` returns, also
    /// when it fails and returns nothing.
    pub fn with_exclusive_access<F: FnOnce() -> Option<Vec<DrawOp>>>(&mut self, body: F) -> (ran:
        bool)
        requires
            body.requires(()),
        ensures
            ran == !old(self).held,
            final(self)@.held == old(self)@.held,
            !ran ==> final(self)@ == old(self)@,
            ran ==> exists|ops: Option<Vec<DrawOp>>|
                {
                    &&& body.ensures((), ops)
                    &&& final(self)@ == match ops {
                        Some(list) => old(self)@.drawn_all(ops_view(list@)),
                        None => old(self)@,
                    }
                },
    {
        if self.held {
            return false;
        }
        self.held = true;
        let ops = body();
        match &ops {
            Some(list) => {
                self.draw_all(list);
            },
            None => {},
        }
        self.held = false;
        proof {
            let before = old(self)@;
            assert(before == SurfaceView { held: false, ..before });
            match ops {
                Some(list) => {
                    lemma_hold_is_kept(before, ops_view(list@), true);
                    lemma_hold_is_kept(before, ops_view(list@), false);
                    assert(self@ == before.drawn_all(ops_view(list@)));
                },
                None => {
                    assert(self@ == before);
                },
            }
            assert(body.ensures((), ops));
        }
        true
    }

    /// Redraws the surface for the outcome of a sampling, unless it is held.
    pub fn present(&mut self, outcome: &ReadOutcome) -> (ran: bool)
        ensures
            ran == !old(self).held,
            !ran ==> final(self)@ == old(self)@,
            ran ==> final(self)@ == (SurfaceView {
                buffer: outcome_labels(*outcome),
                visible: outcome_labels(*outcome),
                held: false,
            }),
    {
        if self.held {
            return false;
        }
        self.held = true;
        let ops = render(outcome);
        self.draw_all(&ops);
        self.held = false;
        proof {
            lemma_redraw_replaces_frame(
                SurfaceView { held: true, ..old(self)@ },
                outcome_labels(*outcome),
            );
        }
        true
    }
}

} // verus!
