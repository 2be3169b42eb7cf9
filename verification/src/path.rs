//! Vector paths: from the events of a fitted path to the commands that
//! build it on the canvas.

use vstd::prelude::*;
use crate::geometry::{Point, Position};
use crate::renderer::Color;

verus! {

/// One event of a path, as the path's iterator gives it. `P` is a point.
#[derive(Clone, Copy, Debug)]
pub enum PathEvent<P> {
    Begin { at: P },
    Line { from: P, to: P },
    Quadratic { from: P, ctrl: P, to: P },
    Cubic { from: P, ctrl1: P, ctrl2: P, to: P },
    End { last: P, first: P, close: bool },
}

/// One command to the canvas's path builder.
#[derive(Clone, Copy, Debug)]
pub enum PathCommand<P> {
    MoveTo(P),
    LineTo(P),
    QuadTo(P, P),
    BezierTo(P, P, P),
    Close,
}

/// The command that an event becomes. Each segment goes to its end point;
/// the end of a sub-path becomes a command only where it closes the sub-path.
pub open spec fn command_for<P>(event: PathEvent<P>) -> Option<PathCommand<P>> {
    match event {
        PathEvent::Begin { at } => Some(PathCommand::MoveTo(at)),
        PathEvent::Line { to, .. } => Some(PathCommand::LineTo(to)),
        PathEvent::Quadratic { ctrl, to, .. } => Some(PathCommand::QuadTo(ctrl, to)),
        PathEvent::Cubic { ctrl1, ctrl2, to, .. } => Some(PathCommand::BezierTo(ctrl1, ctrl2, to)),
        PathEvent::End { close, .. } => if close {
            Some(PathCommand::Close)
        } else {
            None
        },
    }
}

/// The commands that the first `n` events become, in their order.
pub open spec fn commands_of<P>(events: Seq<PathEvent<P>>, n: int) -> Seq<PathCommand<P>>
    decreases n,
{
    if n <= 0 {
        Seq::empty()
    } else {
        match command_for(events[n - 1]) {
            Some(command) => commands_of(events, n - 1).push(command),
            None => commands_of(events, n - 1),
        }
    }
}

/// Turns one event into its command.
pub fn path_command<P: Copy>(event: &PathEvent<P>) -> (command: Option<PathCommand<P>>)
    ensures
        command == command_for(*event),
{
    match event {
        PathEvent::Begin { at } => Some(PathCommand::MoveTo(*at)),
        PathEvent::Line { from: _, to } => Some(PathCommand::LineTo(*to)),
        PathEvent::Quadratic { from: _, ctrl, to } => Some(PathCommand::QuadTo(*ctrl, *to)),
        PathEvent::Cubic { from: _, ctrl1, ctrl2, to } => Some(
            PathCommand::BezierTo(*ctrl1, *ctrl2, *to),
        ),
        PathEvent::End { last: _, first: _, close } => if *close {
            Some(PathCommand::Close)
        } else {
            None
        },
    }
}

/// Turns the events of a path into the commands that build it.
pub fn path_commands<P: Copy>(events: &[PathEvent<P>]) -> (commands: Vec<PathCommand<P>>)
    ensures
        commands@ == commands_of(events@, events@.len() as int),
        commands@.len() <= events@.len(),
{
    let mut commands: Vec<PathCommand<P>> = Vec::new();
    let mut i: usize = 0;
    while i < events.len()
        invariant
            i <= events@.len(),
            commands@ == commands_of(events@, i as int),
            commands@.len() <= i,
        decreases events@.len() - i,
    {
        match path_command(&events[i]) {
            Some(command) => {
                commands.push(command);
            },
            None => {},
        }
        i += 1;
    }
    commands
}

/// How a path item is painted.
#[derive(Clone, Copy, Debug, PartialEq, Eq, Structural)]
pub struct PathStyle {
    /// The item's own position and size.
    pub x: i32,
    pub y: i32,
    pub width: i32,
    pub height: i32,
    pub fill_color: Color,
    pub stroke_color: Color,
    pub stroke_width: i32,
}

/// What is drawn for a path item: the canvas is moved to `origin`, the path
/// is built from the commands, filled, and then stroked.
#[derive(Debug)]
pub struct PathDraw<P> {
    pub origin: Position,
    pub commands: Vec<PathCommand<P>>,
    pub fill_color: Color,
    pub stroke_color: Color,
    pub stroke_width: i32,
}

/// Draws a path item at `pos`. An item without path elements draws
/// nothing, nor does one without width or height.
pub fn draw_path<P: Copy>(pos: Point, style: &PathStyle, elements: Option<&[PathEvent<P>]>) -> (drawn:
    Option<PathDraw<P>>)
    ensures
        drawn is None <==> elements is None || style.width <= 0 || style.height <= 0,
        drawn matches Some(d) ==> {
            &&& d.origin == pos.moved(style.x as int, style.y as int)
            &&& d.commands@ == commands_of(elements->0@, elements->0@.len() as int)
            &&& d.fill_color == style.fill_color
            &&& d.stroke_color == style.stroke_color
            &&& d.stroke_width == style.stroke_width
        },
{
    if style.width <= 0 || style.height <= 0 {
        return None;
    }
    match elements {
        None => None,
        Some(events) => Some(
            PathDraw {
                origin: pos.offset(style.x, style.y),
                commands: path_commands(events),
                fill_color: style.fill_color,
                stroke_color: style.stroke_color,
                stroke_width: style.stroke_width,
            },
        ),
    }
}

} // verus!
