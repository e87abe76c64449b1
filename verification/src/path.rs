//! Path commands, and the hand-over of a command list to the `svg` crate.

use svg::node::element::path::Data;
use svg::node::element::Path;
use vstd::prelude::*;

verus! {

/// One drawing primitive of an outline, in absolute coordinates.
#[derive(Clone, Copy, Debug, PartialEq, Eq, Structural)]
pub enum PathCommand {
    /// Start a sub-path at `(x, y)`.
    MoveTo { x: i64, y: i64 },
    /// Draw a straight line to `(x, y)`.
    LineTo { x: i64, y: i64 },
    /// Draw an elliptical arc with radii `rx` and `ry` to `(x, y)`.
    ArcTo { rx: i64, ry: i64, rotation: i64, large_arc: bool, sweep: bool, x: i64, y: i64 },
    /// Close the sub-path with a straight line back to its start.
    Close,
}

/// A point of the drawing plane.
pub type Point = (int, int);

/// The move to `p`.
pub open spec fn move_to(p: Point) -> PathCommand {
    PathCommand::MoveTo { x: p.0 as i64, y: p.1 as i64 }
}

/// The straight line to `p`.
pub open spec fn line_to(p: Point) -> PathCommand {
    PathCommand::LineTo { x: p.0 as i64, y: p.1 as i64 }
}

/// The circular arc of radius `r` to `p`: never the large arc, never rotated,
/// and turning in the direction that `sweep` selects.
pub open spec fn arc_to(r: int, sweep: bool, p: Point) -> PathCommand {
    PathCommand::ArcTo {
        rx: r as i64,
        ry: r as i64,
        rotation: 0,
        large_arc: false,
        sweep,
        x: p.0 as i64,
        y: p.1 as i64,
    }
}

/// The number of arcs among the first `n` of `commands`.
pub open spec fn arcs_among(commands: Seq<PathCommand>, n: int) -> int
    decreases n,
{
    if n <= 0 {
        0
    } else {
        arcs_among(commands, n - 1) + if commands[n - 1] is ArcTo {
            1int
        } else {
            0
        }
    }
}

/// The number of lines among the first `n` of `commands`.
pub open spec fn lines_among(commands: Seq<PathCommand>, n: int) -> int
    decreases n,
{
    if n <= 0 {
        0
    } else {
        lines_among(commands, n - 1) + if commands[n - 1] is LineTo {
            1int
        } else {
            0
        }
    }
}

/// The number of arcs of `commands`.
pub open spec fn arc_count(commands: Seq<PathCommand>) -> int {
    arcs_among(commands, commands.len() as int)
}

/// The number of lines of `commands`.
pub open spec fn line_count(commands: Seq<PathCommand>) -> int {
    lines_among(commands, commands.len() as int)
}

/// The largest magnitude up to which a single-precision number, the number
/// type of `svg`, holds every whole value exactly.
pub const EXACT_LIMIT: i64 = 16_777_216;

/// Whether the whole number `v` is held exactly by a single-precision number.
pub open spec fn exact(v: int) -> bool {
    -EXACT_LIMIT <= v <= EXACT_LIMIT
}

/// Whether every command of `commands` is exact.
pub open spec fn all_exact(commands: Seq<PathCommand>) -> bool {
    forall|k: int| 0 <= k < commands.len() ==> (#[trigger] commands[k]).is_exact()
}

fn within_exact_limit(v: i64) -> (fits: bool)
    ensures
        fits == exact(v as int),
{
    -EXACT_LIMIT <= v && v <= EXACT_LIMIT
}

impl PathCommand {
    /// Where the pen stands after the command; `Close` names no point.
    pub open spec fn target(self) -> Option<Point> {
        match self {
            PathCommand::MoveTo { x, y } => Some((x as int, y as int)),
            PathCommand::LineTo { x, y } => Some((x as int, y as int)),
            PathCommand::ArcTo { x, y, .. } => Some((x as int, y as int)),
            PathCommand::Close => None,
        }
    }

    /// Whether the command draws: it is a line or an arc.
    pub open spec fn draws(self) -> bool {
        self is LineTo || self is ArcTo
    }

    /// Whether the command is a corner of radius `r`: an arc of a circle of
    /// that radius, not rotated, and the small one of the two arcs.
    pub open spec fn is_corner(self, r: int) -> bool {
        &&& self matches PathCommand::ArcTo { rx, ry, rotation, large_arc, .. }
        &&& rx == r
        &&& ry == r
        &&& rotation == 0
        &&& !large_arc
    }

    /// Whether each number of the command is held exactly by a
    /// single-precision number.
    pub open spec fn spec_is_exact(&self) -> bool {
        match *self {
            PathCommand::MoveTo { x, y } => exact(x as int) && exact(y as int),
            PathCommand::LineTo { x, y } => exact(x as int) && exact(y as int),
            PathCommand::ArcTo { rx, ry, rotation, x, y, .. } => {
                &&& exact(rx as int)
                &&& exact(ry as int)
                &&& exact(rotation as int)
                &&& exact(x as int)
                &&& exact(y as int)
            },
            PathCommand::Close => true,
        }
    }

    /// Whether each number of the command is held exactly by a
    /// single-precision number.
    #[verifier::when_used_as_spec(spec_is_exact)]
    pub fn is_exact(&self) -> (fits: bool)
        ensures
            fits == self.spec_is_exact(),
    {
        match *self {
            PathCommand::MoveTo { x, y } => within_exact_limit(x) && within_exact_limit(y),
            PathCommand::LineTo { x, y } => within_exact_limit(x) && within_exact_limit(y),
            PathCommand::ArcTo { rx, ry, rotation, large_arc: _, sweep: _, x, y } => {
                within_exact_limit(rx) && within_exact_limit(ry) && within_exact_limit(rotation)
                    && within_exact_limit(x) && within_exact_limit(y)
            },
            PathCommand::Close => true,
        }
    }
}

/// Whether every command of the list is exact.
pub fn are_exact(commands: &Vec<PathCommand>) -> (fit: bool)
    ensures
        fit == all_exact(commands@),
{
    let mut k: usize = 0;
    while k < commands.len()
        invariant
            k <= commands.len(),
            forall|j: int| 0 <= j < k ==> (#[trigger] commands@[j]).is_exact(),
        decreases commands.len() - k,
    {
        if !commands[k].is_exact() {
            return false;
        }
        k += 1;
    }
    true
}

/// The path data of `svg`: the value of a `d` attribute, a list of commands.
#[verifier::external_type_specification]
#[verifier::external_body]
pub struct ExData(Data);

/// The path element of `svg`.
#[verifier::external_type_specification]
#[verifier::external_body]
pub struct ExPath(Path);

/// The command of `svg`, of which a path data value is a list.
#[verifier::external_type_specification]
#[verifier::external_body]
pub struct ExCommand(svg::node::element::path::Command);

/// The commands that a path data value holds, in order. A number of a command
/// stands for the single-precision number of the same value.
pub uninterp spec fn data_commands(data: Data) -> Seq<PathCommand>;

/// The commands that the `d` attribute of a path element spells out; none
/// where the element has no such attribute.
pub uninterp spec fn path_commands(path: Path) -> Seq<PathCommand>;

/// `Data::new` of `svg`: a data value that holds no command.
#[verifier::external_body]
fn data_new() -> (out: Data)
    ensures
        data_commands(out) == Seq::<PathCommand>::empty(),
{
    Data::new()
}

/// `Data::move_to` of `svg`: the same commands, followed by one absolute move
/// with the two coordinates as its parameters.
#[verifier::external_body]
fn data_move_to(data: Data, x: i64, y: i64) -> (out: Data)
    requires
        exact(x as int),
        exact(y as int),
    ensures
        data_commands(out) == data_commands(data).push(PathCommand::MoveTo { x, y }),
{
    data.move_to((x, y))
}

/// `Data::line_to` of `svg`: the same commands, followed by one absolute line
/// with the two coordinates as its parameters.
#[verifier::external_body]
fn data_line_to(data: Data, x: i64, y: i64) -> (out: Data)
    requires
        exact(x as int),
        exact(y as int),
    ensures
        data_commands(out) == data_commands(data).push(PathCommand::LineTo { x, y }),
{
    data.line_to((x, y))
}

/// `Data::elliptical_arc_to` of `svg`: the same commands, followed by one
/// absolute elliptical arc with the seven parameters in the order of the
/// fields, each flag as 0 or 1.
#[verifier::external_body]
fn data_arc_to(
    data: Data,
    rx: i64,
    ry: i64,
    rotation: i64,
    large_arc: bool,
    sweep: bool,
    x: i64,
    y: i64,
) -> (out: Data)
    requires
        exact(rx as int),
        exact(ry as int),
        exact(rotation as int),
        exact(x as int),
        exact(y as int),
    ensures
        data_commands(out) == data_commands(data).push(
            PathCommand::ArcTo { rx, ry, rotation, large_arc, sweep, x, y },
        ),
{
    data.elliptical_arc_to((rx, ry, rotation, u8::from(large_arc), u8::from(sweep), x, y))
}

/// `Data::close` of `svg`: the same commands, followed by one close command.
#[verifier::external_body]
fn data_close(data: Data) -> (out: Data)
    ensures
        data_commands(out) == data_commands(data).push(PathCommand::Close),
{
    data.close()
}

/// `Path::new` of `svg`: a path element without attributes.
#[verifier::external_body]
fn path_new() -> (out: Path)
    ensures
        path_commands(out) == Seq::<PathCommand>::empty(),
{
    Path::new()
}

/// `Path::set` of `svg`, for the attribute `d`: the element's `d` attribute
/// then spells out the commands of `data`.
#[verifier::external_body]
fn path_set_data(path: Path, data: Data) -> (out: Path)
    ensures
        path_commands(out) == data_commands(data),
{
    path.set("d", data)
}

/// The path data value that holds `commands`, all of them exact.
fn exact_path_data(commands: &Vec<PathCommand>) -> (out: Data)
    requires
        all_exact(commands@),
    ensures
        data_commands(out) == commands@,
{
    let mut data = data_new();
    let mut k: usize = 0;
    while k < commands.len()
        invariant
            k <= commands.len(),
            all_exact(commands@),
            data_commands(data) == commands@.take(k as int),
        decreases commands.len() - k,
    {
        let command = commands[k];
        assert(command.is_exact());
        assert(commands@.take(k as int + 1) == commands@.take(k as int).push(command));
        data = match command {
            PathCommand::MoveTo { x, y } => data_move_to(data, x, y),
            PathCommand::LineTo { x, y } => data_line_to(data, x, y),
            PathCommand::ArcTo { rx, ry, rotation, large_arc, sweep, x, y } => {
                data_arc_to(data, rx, ry, rotation, large_arc, sweep, x, y)
            },
            PathCommand::Close => data_close(data),
        };
        k += 1;
    }
    assert(commands@.take(k as int) == commands@);
    data
}

/// The path data value that holds `commands`; `None` where one of their
/// numbers is not exact in single precision.
pub fn path_data(commands: &Vec<PathCommand>) -> (out: Option<Data>)
    ensures
        out is Some <==> all_exact(commands@),
        out matches Some(data) ==> data_commands(data) == commands@,
{
    if are_exact(commands) {
        Some(exact_path_data(commands))
    } else {
        None
    }
}

/// The path element whose `d` attribute spells out `commands`; `None` where
/// one of their numbers is not exact in single precision.
pub fn path_element(commands: &Vec<PathCommand>) -> (out: Option<Path>)
    ensures
        out is Some <==> all_exact(commands@),
        out matches Some(path) ==> path_commands(path) == commands@,
{
    match path_data(commands) {
        Some(data) => Some(path_set_data(path_new(), data)),
        None => None,
    }
}

} // verus!
