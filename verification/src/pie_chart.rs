//! The angular layout of pie charts.
//!
//! A ratio counts millionths of the whole and an angle counts millionths of a
//! full turn, so a segment of ratio `q` spans the angle `q`. The angle 0 points
//! along the positive `x` axis, and angles grow towards the positive `y` axis:
//! on a screen, where `y` points down, that is clockwise.

use vstd::prelude::*;

verus! {

/// The ratio of the whole, and the angle of a full turn.
pub const FULL_TURN: u32 = 1_000_000;

/// One segment of a pie chart.
#[derive(Clone, Debug)]
pub struct PieSegment {
    /// The share of the whole that the segment depicts, in millionths.
    pub ratio: u32,
    /// The colour of the segment; where it is empty, a colour of the palette
    /// is used.
    pub color: String,
}

/// What a segment is in contracts.
pub struct SegmentView {
    /// The share of the whole, in millionths.
    pub ratio: nat,
    /// The colour; empty where the segment has none of its own.
    pub color: Seq<char>,
}

impl View for PieSegment {
    type V = SegmentView;

    open spec fn view(&self) -> SegmentView {
        SegmentView { ratio: self.ratio as nat, color: self.color@ }
    }
}

/// The views of the segments of `segments`, in order.
pub open spec fn segment_views(segments: Seq<PieSegment>) -> Seq<SegmentView> {
    segments.map_values(|segment: PieSegment| segment@)
}

/// The segments of the given ratios, in order, each without a colour of its
/// own.
pub open spec fn plain_segments(ratios: Seq<u32>) -> Seq<SegmentView> {
    ratios.map_values(|ratio: u32| SegmentView { ratio: ratio as nat, color: Seq::empty() })
}

/// Where the first segment is put.
#[derive(Clone, Copy, Debug, PartialEq, Eq, Structural)]
pub enum StartStyle {
    /// The first segment starts at the start offset.
    Edge,
    /// The middle of the first segment lies at the start offset.
    Center,
    /// The middle of the largest segment lies where it would lie if all
    /// segments were equal and the first of them started at the angle 0. The
    /// start offset is not used.
    CenterLargest,
}

/// A pie chart: its segments in drawing order, its radius, and where and how
/// the first segment starts.
#[derive(Clone, Debug)]
pub struct PieChart {
    segments: Vec<PieSegment>,
    radius: i32,
    start_offset: i64,
    start_style: StartStyle,
}

/// What a pie chart is in contracts.
pub struct ChartView {
    /// The segments, in drawing order.
    pub segments: Seq<SegmentView>,
    /// The radius of the circle.
    pub radius: int,
    /// The angle by which the first segment is put.
    pub start_offset: int,
    /// The style by which the first segment is put.
    pub start_style: StartStyle,
}

/// One slice of a laid out chart: where it starts, where it ends, and its
/// colour.
#[derive(Clone, Debug)]
pub struct Slice {
    /// The angle at which the slice starts.
    pub start: i128,
    /// The angle at which the slice ends.
    pub end: i128,
    /// The colour that fills the slice.
    pub color: String,
}

/// What a slice is in contracts.
pub struct SliceView {
    /// The angle at which the slice starts.
    pub start: int,
    /// The angle at which the slice ends.
    pub end: int,
    /// The colour that fills the slice.
    pub color: Seq<char>,
}

impl View for Slice {
    type V = SliceView;

    open spec fn view(&self) -> SliceView {
        SliceView { start: self.start as int, end: self.end as int, color: self.color@ }
    }
}

/// The views of the slices of `slices`, in order.
pub open spec fn slice_views(slices: Seq<Slice>) -> Seq<SliceView> {
    slices.map_values(|slice: Slice| slice@)
}

/// A point of a chart, by its distance from the centre and its angle.
#[derive(Clone, Copy, Debug, PartialEq, Eq, Structural)]
pub struct Polar {
    /// The distance from the centre.
    pub radius: i32,
    /// The angle of the direction from the centre to the point.
    pub angle: i128,
}

/// One drawing primitive of a slice. It is a path command whose point is
/// given by distance and angle: the point lies at the distance times the
/// cosine of the angle in `x`, and at the distance times its sine in `y`.
#[derive(Clone, Copy, Debug, PartialEq, Eq, Structural)]
pub enum SliceCommand {
    /// Start a sub-path at `to`.
    MoveTo { to: Polar },
    /// Draw a straight line to `to`.
    LineTo { to: Polar },
    /// Draw an elliptical arc with radii `rx` and `ry` to `to`.
    ArcTo { rx: i32, ry: i32, rotation: i32, large_arc: bool, sweep: bool, to: Polar },
    /// Close the sub-path with a straight line back to its start.
    Close,
}

/// The path of one slice, and the colour that fills it.
#[derive(Clone, Debug)]
pub struct SlicePath {
    /// The closed path round the slice.
    pub commands: Vec<SliceCommand>,
    /// The colour that fills the slice.
    pub color: String,
}

/// What the path of a slice is in contracts.
pub struct SlicePathView {
    /// The closed path round the slice.
    pub commands: Seq<SliceCommand>,
    /// The colour that fills the slice.
    pub color: Seq<char>,
}

impl View for SlicePath {
    type V = SlicePathView;

    open spec fn view(&self) -> SlicePathView {
        SlicePathView { commands: self.commands@, color: self.color@ }
    }
}

/// The views of the paths of `paths`, in order.
pub open spec fn path_views(paths: Seq<SlicePath>) -> Seq<SlicePathView> {
    paths.map_values(|path: SlicePath| path@)
}

/// The centre of a chart.
pub open spec fn centre() -> Polar {
    Polar { radius: 0, angle: 0 }
}

/// The point at the distance `radius` from the centre in the direction
/// `angle`.
pub open spec fn on_rim(radius: int, angle: int) -> Polar {
    Polar { radius: radius as i32, angle: angle as i128 }
}

/// The closed path round the slice of a circle of the given radius between
/// the angles `start` and `end`: from the centre along the first edge to the
/// rim, along the rim with the small arc in the direction of growing angles,
/// and along the second edge back to the centre.
pub open spec fn slice_commands(radius: int, start: int, end: int) -> Seq<SliceCommand> {
    seq![
        SliceCommand::MoveTo { to: centre() },
        SliceCommand::LineTo { to: on_rim(radius, start) },
        SliceCommand::ArcTo {
            rx: radius as i32,
            ry: radius as i32,
            rotation: 0,
            large_arc: false,
            sweep: true,
            to: on_rim(radius, end),
        },
        SliceCommand::LineTo { to: centre() },
        SliceCommand::Close,
    ]
}

/// The colours that take turns where a segment has none of its own.
pub open spec fn palette(k: int) -> Seq<char> {
    if k == 0 {
        "#D81B60"@
    } else if k == 1 {
        "#1E88E5"@
    } else if k == 2 {
        "#FFC107"@
    } else {
        "#004D40"@
    }
}

/// The angle at which the middle of segment `index` of `count` lies when all
/// segments are equal and the first starts at the angle 0, rounded down.
pub open spec fn ideal_center(index: int, count: int) -> int {
    ((2 * index + 1) * FULL_TURN) / (2 * count)
}

impl ChartView {
    /// The sum of the ratios of the first `n` segments.
    pub open spec fn ratio_sum(self, n: int) -> int
        decreases n,
    {
        if n <= 0 {
            0
        } else {
            self.ratio_sum(n - 1) + self.segments[n - 1].ratio
        }
    }

    /// Whether segment `i` is the largest: no segment has a larger ratio, and
    /// each segment behind it has a smaller one.
    pub open spec fn is_largest(self, i: int) -> bool {
        &&& 0 <= i < self.segments.len()
        &&& forall|j: int|
            0 <= j < self.segments.len() ==> (#[trigger] self.segments[j]).ratio
                <= self.segments[i].ratio
        &&& forall|j: int|
            i < j < self.segments.len() ==> (#[trigger] self.segments[j]).ratio
                < self.segments[i].ratio
    }

    /// The index of the largest segment: of the segments with the largest
    /// ratio, the last.
    pub open spec fn largest(self) -> int {
        choose|i: int| self.is_largest(i)
    }

    /// The angle of the middle of segment `i` where the first segment starts
    /// at the angle 0, rounded down.
    pub open spec fn real_center(self, i: int) -> int {
        self.ratio_sum(i) + self.segments[i].ratio / 2
    }

    /// The angle at which the first segment starts.
    pub open spec fn first_position(self) -> int {
        if self.segments.len() == 0 {
            self.start_offset
        } else {
            match self.start_style {
                StartStyle::Edge => self.start_offset,
                StartStyle::Center => self.start_offset - self.segments[0].ratio / 2,
                StartStyle::CenterLargest => ideal_center(
                    self.largest(),
                    self.segments.len() as int,
                ) - self.real_center(self.largest()),
            }
        }
    }

    /// The angle at which the last segment ends.
    pub open spec fn last_position(self) -> int {
        self.first_position() + self.ratio_sum(self.segments.len() as int)
    }

    /// The colour of segment `i`: its own, or where it has none, the colour
    /// that the palette gives to its index.
    pub open spec fn slice_color(self, i: int) -> Seq<char> {
        if self.segments[i].color.len() == 0 {
            palette(i % 4)
        } else {
            self.segments[i].color
        }
    }

    /// Slice `i`: it starts where the slice before it ends, and spans the
    /// ratio of its segment.
    pub open spec fn slice(self, i: int) -> SliceView {
        SliceView {
            start: self.first_position() + self.ratio_sum(i),
            end: self.first_position() + self.ratio_sum(i + 1),
            color: self.slice_color(i),
        }
    }

    /// The slices of the chart, one for each segment, in order.
    pub open spec fn layout(self) -> Seq<SliceView> {
        Seq::new(self.segments.len(), |i: int| self.slice(i))
    }

    /// The path of slice `i`, round the centre of the chart and along its
    /// rim, and the colour of the slice.
    pub open spec fn path(self, i: int) -> SlicePathView {
        SlicePathView {
            commands: slice_commands(self.radius, self.slice(i).start, self.slice(i).end),
            color: self.slice(i).color,
        }
    }

    /// The paths of the slices of the chart, in order.
    pub open spec fn render(self) -> Seq<SlicePathView> {
        Seq::new(self.segments.len(), |i: int| self.path(i))
    }
}

impl View for PieChart {
    type V = ChartView;

    closed spec fn view(&self) -> ChartView {
        ChartView {
            segments: segment_views(self.segments@),
            radius: self.radius as int,
            start_offset: self.start_offset as int,
            start_style: self.start_style,
        }
    }
}

impl Default for PieSegment {
    fn default() -> (segment: Self)
        ensures
            segment@ == (SegmentView { ratio: 0, color: Seq::empty() }),
    {
        PieSegment { ratio: 0, color: String::new() }
    }
}

impl From<u32> for PieSegment {
    /// The segment of the given ratio, without a colour of its own.
    fn from(ratio: u32) -> (segment: Self)
        ensures
            segment@ == (SegmentView { ratio: ratio as nat, color: Seq::empty() }),
    {
        PieSegment { ratio, color: String::new() }
    }
}

// A segment is known by its view, and two strings with one view need not be
// one value: `from` promises the view, as its own contract says, and no
// particular segment.
impl vstd::std_specs::convert::FromSpecImpl<u32> for PieSegment {
    open spec fn obeys_from_spec() -> bool {
        false
    }

    open spec fn from_spec(ratio: u32) -> Self {
        choose|segment: PieSegment|
            segment@ == (SegmentView { ratio: ratio as nat, color: Seq::empty() })
    }
}

/// The colour that the palette gives to the segment at `index`.
pub fn fallback_color(index: usize) -> (color: String)
    ensures
        color@ == palette(index as int % 4),
{
    let k = index % 4;
    if k == 0 {
        "#D81B60".to_owned()
    } else if k == 1 {
        "#1E88E5".to_owned()
    } else if k == 2 {
        "#FFC107".to_owned()
    } else {
        "#004D40".to_owned()
    }
}

impl Default for PieChart {
    fn default() -> (chart: Self)
        ensures
            chart@ == ChartView::initial(),
    {
        let chart = PieChart {
            segments: Vec::new(),
            radius: 1,
            start_offset: 0,
            start_style: StartStyle::Edge,
        };
        assert(chart@.segments =~= Seq::empty());
        chart
    }
}

impl ChartView {
    /// The chart without segments, of radius 1, that starts at the angle 0
    /// with an edge.
    pub open spec fn initial() -> ChartView {
        ChartView {
            segments: Seq::empty(),
            radius: 1,
            start_offset: 0,
            start_style: StartStyle::Edge,
        }
    }
}

impl PieChart {
    /// A new chart: the initial one.
    pub fn new() -> (chart: Self)
        ensures
            chart@ == ChartView::initial(),
    {
        Default::default()
    }

    /// Sets the radius.
    pub fn set_radius(&mut self, radius: i32)
        ensures
            final(self)@ == (ChartView { radius: radius as int, ..old(self)@ }),
    {
        self.radius = radius;
    }

    /// Sets the angle and the style by which the first segment is put.
    pub fn set_start(&mut self, offset: i64, style: StartStyle)
        ensures
            final(self)@ == (ChartView {
                start_offset: offset as int,
                start_style: style,
                ..old(self)@
            }),
    {
        self.start_offset = offset;
        self.start_style = style;
    }

    /// Replaces the segments.
    pub fn set_segments(&mut self, segments: Vec<PieSegment>)
        ensures
            final(self)@ == (ChartView { segments: segment_views(segments@), ..old(self)@ }),
    {
        self.segments = segments;
    }

    /// The radius.
    pub fn radius(&self) -> (radius: i32)
        ensures
            radius == self@.radius,
    {
        self.radius
    }

    /// The angle by which the first segment is put.
    pub fn start_offset(&self) -> (offset: i64)
        ensures
            offset == self@.start_offset,
    {
        self.start_offset
    }

    /// The style by which the first segment is put.
    pub fn start_style(&self) -> (style: StartStyle)
        ensures
            style == self@.start_style,
    {
        self.start_style
    }

    /// The number of segments.
    pub fn len(&self) -> (count: usize)
        ensures
            count == self@.segments.len(),
    {
        self.segments.len()
    }

    /// The segments, in drawing order.
    pub fn segments(&self) -> (segments: &Vec<PieSegment>)
        ensures
            segment_views(segments@) == self@.segments,
    {
        &self.segments
    }

    /// Replaces the segments by one segment for each of `ratios`, in order,
    /// each without a colour of its own.
    pub fn set_ratios(&mut self, ratios: &[u32])
        ensures
            final(self)@ == (ChartView { segments: plain_segments(ratios@), ..old(self)@ }),
    {
        let mut segments: Vec<PieSegment> = Vec::new();
        let mut k: usize = 0;
        while k < ratios.len()
            invariant
                k <= ratios.len(),
                segment_views(segments@) == plain_segments(ratios@.take(k as int)),
            decreases ratios.len() - k,
        {
            let ghost before = segments@;
            let segment = PieSegment::from(ratios[k]);
            segments.push(segment);
            assert(segment_views(segments@) =~= segment_views(before).push(segment@));
            assert(plain_segments(ratios@.take(k as int + 1)) =~= plain_segments(
                ratios@.take(k as int),
            ).push(segment@));
            k += 1;
        }
        assert(ratios@.take(k as int) == ratios@);
        self.segments = segments;
    }

    /// The segment at `index`, to read and to change; `None` where the chart
    /// has no such segment.
    pub fn segment_mut(&mut self, index: usize) -> (segment: Option<&mut PieSegment>)
        ensures
            index >= old(self)@.segments.len() ==> segment is None && final(self)@ == old(self)@,
            index < old(self)@.segments.len() ==> segment is Some,
            segment matches Some(s) ==> s@ == old(self)@.segments[index as int] && final(self)@
                == (ChartView {
                segments: old(self)@.segments.update(index as int, final(s)@),
                ..old(self)@
            }),
    {
        if index < self.segments.len() {
            proof {
                let held = self.segments@;
                assert forall|s: PieSegment| #[trigger]
                    segment_views(held.update(index as int, s)) == segment_views(held).update(
                        index as int,
                        s@,
                    ) by {
                    assert(segment_views(held.update(index as int, s)) =~= segment_views(
                        held,
                    ).update(index as int, s@));
                }
            }
            Some(&mut self.segments[index])
        } else {
            None
        }
    }

    /// The index of the largest segment; `None` where the chart has no
    /// segment.
    pub fn largest_segment(&self) -> (found: Option<usize>)
        ensures
            found is None <==> self@.segments.len() == 0,
            found matches Some(i) ==> i == self@.largest() && self@.is_largest(i as int),
    {
        if self.segments.len() == 0 {
            return None;
        }
        let mut best: usize = 0;
        let mut k: usize = 1;
        while k < self.segments.len()
            invariant
                0 <= best < k <= self.segments.len(),
                forall|j: int| 0 <= j < k ==> self.segments[j].ratio <= self.segments[best as int].ratio,
                forall|j: int| best < j < k ==> self.segments[j].ratio < self.segments[best as int].ratio,
            decreases self.segments.len() - k,
        {
            if self.segments[k].ratio >= self.segments[best].ratio {
                best = k;
            }
            k += 1;
        }
        proof {
            assert(self@.is_largest(best as int));
            lemma_largest_is_unique(self@, best as int, self@.largest());
        }
        Some(best)
    }
}

/// A bound within which the first position of every chart lies.
spec fn position_bound() -> int {
    0x1_0000_0000_0000_0000_0000_0000
}

impl PieChart {
    /// The sum of the ratios of the first `n` segments.
    fn ratio_sum(&self, n: usize) -> (sum: u128)
        requires
            n <= self@.segments.len(),
        ensures
            sum == self@.ratio_sum(n as int),
            sum <= n * 0xFFFF_FFFF,
    {
        let mut sum: u128 = 0;
        let mut k: usize = 0;
        while k < n
            invariant
                k <= n <= self.segments.len(),
                sum == self@.ratio_sum(k as int),
                sum <= k * 0xFFFF_FFFF,
            decreases n - k,
        {
            sum = sum + self.segments[k].ratio as u128;
            k += 1;
        }
        sum
    }

    fn first_position(&self) -> (position: i128)
        ensures
            position == self@.first_position(),
            -position_bound() <= position <= position_bound(),
    {
        let count = self.segments.len();
        if count == 0 {
            return self.start_offset as i128;
        }
        match self.start_style {
            StartStyle::Edge => self.start_offset as i128,
            StartStyle::Center => self.start_offset as i128 - (self.segments[0].ratio / 2) as i128,
            StartStyle::CenterLargest => {
                let index = match self.largest_segment() {
                    Some(index) => index,
                    None => 0,
                };
                let doubled: u128 = 2 * (index as u128) + 1;
                let ideal: u128 = (doubled * (FULL_TURN as u128)) / (2 * (count as u128));
                assert(ideal <= doubled * FULL_TURN) by (nonlinear_arith)
                    requires
                        ideal == (doubled * FULL_TURN) / (2 * count as int),
                        count >= 1,
                        doubled >= 0,
                ;
                let actual: u128 = self.ratio_sum(index) + (self.segments[index].ratio / 2) as u128;
                ideal as i128 - actual as i128
            },
        }
    }

    /// The angle at which the first segment starts.
    pub fn start_position(&self) -> (position: i128)
        ensures
            position == self@.first_position(),
    {
        self.first_position()
    }

    /// The slices of the chart: for each segment, in order, where it starts
    /// and ends and the colour that fills it.
    pub fn layout(&self) -> (slices: Vec<Slice>)
        ensures
            slice_views(slices@) == self@.layout(),
    {
        let first = self.first_position();
        let mut current: i128 = first;
        let mut slices: Vec<Slice> = Vec::new();
        let mut k: usize = 0;
        while k < self.segments.len()
            invariant
                k <= self.segments.len(),
                slices@.len() == k,
                first == self@.first_position(),
                -position_bound() <= first <= position_bound(),
                0 <= self@.ratio_sum(k as int) <= k * 0xFFFF_FFFF,
                current == first + self@.ratio_sum(k as int),
                forall|j: int| 0 <= j < k ==> (#[trigger] slices@[j])@ == self@.slice(j),
            decreases self.segments.len() - k,
        {
            let segment = &self.segments[k];
            let end = current + segment.ratio as i128;
            let color = if segment.color.as_str().is_empty() {
                fallback_color(k)
            } else {
                segment.color.clone()
            };
            slices.push(Slice { start: current, end, color });
            current = end;
            k += 1;
        }
        assert(slice_views(slices@) =~= self@.layout());
        slices
    }

    /// The chart as one closed path for each segment, in order, with the
    /// colour that fills it.
    pub fn render(&self) -> (paths: Vec<SlicePath>)
        ensures
            path_views(paths@) == self@.render(),
    {
        let slices = self.layout();
        let mut paths: Vec<SlicePath> = Vec::new();
        let mut k: usize = 0;
        while k < slices.len()
            invariant
                k <= slices.len(),
                slice_views(slices@) == self@.layout(),
                paths@.len() == k,
                forall|j: int| 0 <= j < k ==> (#[trigger] paths@[j])@ == self@.path(j),
            decreases slices.len() - k,
        {
            let slice = &slices[k];
            assert(slice@ == self@.slice(k as int)) by {
                assert(slice_views(slices@).len() == slices@.len());
                assert(slice@ == slice_views(slices@)[k as int]);
                assert(self@.layout()[k as int] == self@.slice(k as int));
            }
            let commands = slice_path(self.radius, slice.start, slice.end);
            let path = SlicePath { commands, color: slice.color.clone() };
            assert(path@ == self@.path(k as int));
            paths.push(path);
            k += 1;
        }
        assert(slice_views(slices@).len() == slices@.len());
        assert(path_views(paths@) =~= self@.render());
        paths
    }
}

/// The closed path round the slice of a circle of the given radius between
/// the angles `start` and `end`.
pub fn slice_path(radius: i32, start: i128, end: i128) -> (commands: Vec<SliceCommand>)
    ensures
        commands@ == slice_commands(radius as int, start as int, end as int),
{
    let centre = Polar { radius: 0, angle: 0 };
    let mut commands: Vec<SliceCommand> = Vec::new();
    commands.push(SliceCommand::MoveTo { to: centre });
    commands.push(SliceCommand::LineTo { to: Polar { radius, angle: start } });
    commands.push(
        SliceCommand::ArcTo {
            rx: radius,
            ry: radius,
            rotation: 0,
            large_arc: false,
            sweep: true,
            to: Polar { radius, angle: end },
        },
    );
    commands.push(SliceCommand::LineTo { to: centre });
    commands.push(SliceCommand::Close);
    commands
}

/// At most one segment is the largest.
pub proof fn lemma_largest_is_unique(chart: ChartView, i: int, j: int)
    requires
        chart.is_largest(i),
        chart.is_largest(j),
    ensures
        i == j,
{
    if i < j {
        assert(chart.segments[j].ratio < chart.segments[i].ratio);
    } else if j < i {
        assert(chart.segments[i].ratio < chart.segments[j].ratio);
    }
}

/// A chart with a segment has a largest segment.
pub proof fn lemma_largest_exists(chart: ChartView)
    requires
        chart.segments.len() > 0,
    ensures
        chart.is_largest(chart.largest()),
{
    let i = lemma_largest_among(chart, chart.segments.len() as int);
    assert(chart.is_largest(i));
}

/// Among the first `n` segments one is the largest: none of them has a larger
/// ratio, and each of them behind it has a smaller one.
proof fn lemma_largest_among(chart: ChartView, n: int) -> (i: int)
    requires
        0 < n <= chart.segments.len(),
    ensures
        0 <= i < n,
        forall|j: int| 0 <= j < n ==> (#[trigger] chart.segments[j]).ratio <= chart.segments[i].ratio,
        forall|j: int| i < j < n ==> (#[trigger] chart.segments[j]).ratio < chart.segments[i].ratio,
    decreases n,
{
    if n == 1 {
        0
    } else {
        let before = lemma_largest_among(chart, n - 1);
        if chart.segments[n - 1].ratio >= chart.segments[before].ratio {
            n - 1
        } else {
            before
        }
    }
}

/// Laying out is repeatable: whatever two calls of `layout` return for one
/// chart, they return the same slices.
pub proof fn lemma_layout_is_repeatable(chart: PieChart, first: Vec<Slice>, second: Vec<Slice>)
    requires
        call_ensures(PieChart::layout, (&chart,), first),
        call_ensures(PieChart::layout, (&chart,), second),
    ensures
        slice_views(first@) == slice_views(second@),
{
}

/// Rendering is repeatable: whatever two calls of `render` return for one
/// chart, they return the same paths and colours.
pub proof fn lemma_render_is_repeatable(
    chart: PieChart,
    first: Vec<SlicePath>,
    second: Vec<SlicePath>,
)
    requires
        call_ensures(PieChart::render, (&chart,), first),
        call_ensures(PieChart::render, (&chart,), second),
    ensures
        path_views(first@) == path_views(second@),
{
}

/// Each slice spans the ratio of its segment, and starts where the slice
/// before it ends.
pub proof fn lemma_slices_adjoin(chart: ChartView, i: int)
    requires
        0 <= i < chart.segments.len(),
    ensures
        chart.layout()[i].end - chart.layout()[i].start == chart.segments[i].ratio,
        i == 0 ==> chart.layout()[i].start == chart.first_position(),
        i > 0 ==> chart.layout()[i].start == chart.layout()[i - 1].end,
        i == chart.segments.len() - 1 ==> chart.layout()[i].end == chart.last_position(),
{
}

/// Where the ratios add up to the whole, the segments take up one full turn,
/// so that the last ends in the direction in which the first starts; with the
/// style `Edge` they end one full turn behind the start offset.
pub proof fn lemma_full_ratios_close_the_circle(chart: ChartView)
    requires
        chart.ratio_sum(chart.segments.len() as int) == FULL_TURN,
    ensures
        chart.last_position() == chart.first_position() + FULL_TURN,
        chart.start_style == StartStyle::Edge ==> chart.last_position() == chart.start_offset
            + FULL_TURN,
        (chart.last_position() - chart.first_position()) % (FULL_TURN as int) == 0,
        chart.layout().len() > 0,
        chart.layout().last().end == chart.last_position(),
{
    assert(chart.segments.len() > 0) by {
        assert(chart.ratio_sum(0) == 0);
    }
    lemma_slices_adjoin(chart, chart.segments.len() - 1);
}

/// With the style `Center` the middle of the first segment, rounded down,
/// lies at the start offset.
pub proof fn lemma_center_puts_middle_at_offset(chart: ChartView)
    requires
        chart.start_style == StartStyle::Center,
        chart.segments.len() > 0,
    ensures
        chart.layout()[0].start + chart.segments[0].ratio / 2 == chart.start_offset,
{
}

/// With the style `CenterLargest` the middle of the largest segment, rounded
/// down, lies at the middle of the equal share with the same index.
pub proof fn lemma_center_largest_puts_middle_at_ideal(chart: ChartView)
    requires
        chart.start_style == StartStyle::CenterLargest,
        chart.segments.len() > 0,
    ensures
        chart.is_largest(chart.largest()),
        chart.layout()[chart.largest()].start + chart.segments[chart.largest()].ratio / 2
            == ideal_center(chart.largest(), chart.segments.len() as int),
{
    lemma_largest_exists(chart);
}

/// With the style `CenterLargest` the start offset has no effect: two charts
/// that differ in it alone have the same slices.
pub proof fn lemma_center_largest_ignores_offset(chart: ChartView, offset: int)
    requires
        chart.start_style == StartStyle::CenterLargest,
    ensures
        (ChartView { start_offset: offset, ..chart }).layout() == chart.layout(),
{
    let other = ChartView { start_offset: offset, ..chart };
    if chart.segments.len() > 0 {
        lemma_largest_exists(chart);
        lemma_largest_exists(other);
        assert(chart.is_largest(other.largest()));
        lemma_largest_is_unique(chart, chart.largest(), other.largest());
    }
    assert forall|n: int| other.ratio_sum(n) == chart.ratio_sum(n) by {
        lemma_ratio_sum_of_segments(other, chart, n);
    }
    assert(other.layout() =~= chart.layout());
}

/// The sum of the first `n` ratios depends on the segments alone.
proof fn lemma_ratio_sum_of_segments(a: ChartView, b: ChartView, n: int)
    requires
        a.segments == b.segments,
    ensures
        a.ratio_sum(n) == b.ratio_sum(n),
    decreases n,
{
    if n > 0 {
        lemma_ratio_sum_of_segments(a, b, n - 1);
    }
}

/// A segment without a colour of its own gets the colour that the palette
/// gives to its index, and the palette repeats after four segments.
pub proof fn lemma_colors_cycle(chart: ChartView, i: int)
    requires
        0 <= i < chart.segments.len(),
        chart.segments[i].color.len() == 0,
    ensures
        chart.layout()[i].color == palette(i % 4),
        i + 4 < chart.segments.len() && chart.segments[i + 4].color.len() == 0
            ==> chart.layout()[i + 4].color == chart.layout()[i].color,
{
}

} // verus!
