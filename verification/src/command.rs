//! The commands that a render pass records, kept as plain values until the
//! host submits them to the graphics backend.

use vstd::prelude::*;
use crate::size::PixelSize;
use crate::texture::TextureHandle;
use crate::view::{ViewId, Viewport};

verus! {

/// Label of the prepass in the command stream.
pub const PREPASS_LABEL: &'static str = "prepass";

/// Index of a draw function in the registry of the phase.
#[derive(Clone, Copy, Debug, PartialEq, Eq, Structural)]
pub struct DrawFunctionId(pub u32);

/// The value that a color attachment is cleared to when the pass begins.
#[derive(Clone, Copy, Debug, PartialEq, Eq, Structural)]
pub enum ClearColor {
    /// All channels zero, alpha one.
    Black,
}

/// The value that the depth attachment is cleared to when the pass begins.
#[derive(Clone, Copy, Debug, PartialEq, Eq, Structural)]
pub enum ClearDepth {
    /// The far plane: zero under the reversed-Z convention.
    FarPlane,
}

/// The color attachment of a pass: cleared on load.
#[derive(Clone, Copy, Debug, PartialEq, Eq, Structural)]
pub struct ColorAttachment {
    pub target: TextureHandle,
    pub size: PixelSize,
    pub clear: ClearColor,
    pub store: bool,
}

/// The depth attachment of a pass: cleared on load, without stencil.
#[derive(Clone, Copy, Debug, PartialEq, Eq, Structural)]
pub struct DepthAttachment {
    pub target: TextureHandle,
    pub size: PixelSize,
    pub clear: ClearDepth,
    pub store: bool,
}

/// One recorded command.
#[derive(Clone, Copy, Debug, PartialEq, Eq, Structural)]
pub enum Command {
    /// Begins a pass and binds and clears its attachments.
    BeginPass { color: ColorAttachment, depth: DepthAttachment },
    /// Constrains the open pass to a sub-rectangle of its target.
    SetViewport { viewport: Viewport },
    /// Runs a draw function for an entity of a view against the open pass.
    Draw { draw_function: DrawFunctionId, view: ViewId, entity: u64 },
    /// Ends the open pass.
    EndPass,
}

/// How many passes a command stream begins.
pub open spec fn pass_begins(commands: Seq<Command>) -> nat
    decreases commands.len(),
{
    if commands.len() == 0 {
        0
    } else {
        pass_begins(commands.drop_last()) + (if commands.last() is BeginPass {
            1nat
        } else {
            0nat
        })
    }
}

/// Records commands in the order in which they are issued.
pub struct CommandEncoder {
    commands: Vec<Command>,
}

impl View for CommandEncoder {
    type V = Seq<Command>;

    closed spec fn view(&self) -> Seq<Command> {
        self.commands@
    }
}

impl CommandEncoder {
    pub fn new() -> (encoder: CommandEncoder)
        ensures
            encoder@ == Seq::<Command>::empty(),
    {
        CommandEncoder { commands: Vec::new() }
    }

    /// Appends one command.
    pub fn record(&mut self, command: Command)
        ensures
            final(self)@ == old(self)@.push(command),
    {
        self.commands.push(command);
    }

    pub fn len(&self) -> (n: usize)
        ensures
            n == self@.len(),
    {
        self.commands.len()
    }

    /// The command at `index`, where there is one.
    pub fn get(&self, index: usize) -> (command: Option<Command>)
        ensures
            command == (if index < self@.len() {
                Some(self@[index as int])
            } else {
                None
            }),
    {
        if index < self.commands.len() {
            Some(self.commands[index])
        } else {
            None
        }
    }

    /// How many passes the recorded commands begin.
    pub fn pass_count(&self) -> (n: usize)
        ensures
            n == pass_begins(self@),
    {
        let mut n: usize = 0;
        let mut i: usize = 0;
        while i < self.commands.len()
            invariant
                i <= self.commands@.len(),
                n == pass_begins(self@.take(i as int)),
                n <= i,
            decreases self.commands@.len() - i,
        {
            proof {
                let next = self@.take(i + 1);
                assert(next.drop_last() =~= self@.take(i as int));
            }
            match self.commands[i] {
                Command::BeginPass { .. } => {
                    n += 1;
                },
                _ => {},
            }
            i += 1;
        }
        assert(self@.take(i as int) =~= self@);
        n
    }
}

} // verus!
