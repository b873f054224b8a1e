//! The surface controller as the coordinator sees it: a handful of commands
//! that the driver carries out on the foreground surface. Each is best
//! effort: a command that fails is reported and the next one is still tried.

use vstd::prelude::*;

verus! {

/// One thing the surface can be told to do.
#[derive(Clone, Copy, Debug, PartialEq, Eq, Structural)]
pub enum SurfaceCommand {
    /// Make the surface visible.
    Reveal,
    /// Keep the surface above all others, or stop doing so.
    PinOnTop {
        /// Whether the surface is to stay on top.
        pinned: bool,
    },
    /// Move the surface to the middle of the display.
    Center,
    /// Give the surface the input focus.
    Focus,
    /// Take the surface out of view.
    Hide,
}

/// The commands that make up an ambush, in the order in which they are
/// issued: show the surface, pin it on top, center it, focus it.
pub open spec fn ambush_sequence() -> Seq<SurfaceCommand> {
    seq![
        SurfaceCommand::Reveal,
        SurfaceCommand::PinOnTop { pinned: true },
        SurfaceCommand::Center,
        SurfaceCommand::Focus,
    ]
}

/// The commands to carry out, first to last, when the coordinator asks for
/// an ambush.
pub fn ambush_commands() -> (commands: Vec<SurfaceCommand>)
    ensures
        commands@ == ambush_sequence(),
{
    let mut commands: Vec<SurfaceCommand> = Vec::new();
    commands.push(SurfaceCommand::Reveal);
    commands.push(SurfaceCommand::PinOnTop { pinned: true });
    commands.push(SurfaceCommand::Center);
    commands.push(SurfaceCommand::Focus);
    commands
}

} // verus!
