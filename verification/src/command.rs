//! Commands accepted over the wire and the direction each one needs.

use vstd::prelude::*;

verus! {

/// The direction a GPIO line is claimed for. A handle is bound to the
/// direction it was claimed with for its whole lifetime.
#[derive(Clone, Copy, PartialEq, Eq, Structural, Debug)]
pub enum Direction {
    Input,
    Output,
}

/// A parsed request body: read the pin, or drive it to a boolean value.
#[derive(Clone, Copy, PartialEq, Eq, Structural, Debug)]
pub enum GpioCmd {
    In,
    Out { value: bool },
}

/// The direction a command must operate a line in: writes need an
/// output-claimed handle, reads an input-claimed one.
pub open spec fn direction_of(cmd: GpioCmd) -> Direction {
    match cmd {
        GpioCmd::In => Direction::Input,
        GpioCmd::Out { .. } => Direction::Output,
    }
}

/// Executable counterpart of [`direction_of`].
pub fn command_direction(cmd: &GpioCmd) -> (d: Direction)
    ensures
        d == direction_of(*cmd),
{
    match cmd {
        GpioCmd::In => Direction::Input,
        GpioCmd::Out { .. } => Direction::Output,
    }
}

} // verus!
