use vstd::prelude::*;

verus! {

/// Vertices drawn for the lattice of connecting lines.
pub const LINE_VERTICES: u32 = 9504;

/// Vertices drawn for the particle billboards.
pub const PARTICLE_VERTICES: u32 = 10368;

/// Vertices drawn for the glass box around the particles.
pub const GLASS_VERTICES: u32 = 36;

/// The render pipelines of a frame.
#[derive(PartialEq, Eq, Structural, Debug, Clone, Copy)]
pub enum Pipeline {
    Lines,
    Particles,
    Glass,
}

/// What the animation loop does after asking the surface for the next frame.
#[derive(PartialEq, Eq, Structural, Debug, Clone, Copy)]
pub enum FrameCommand {
    /// The surface gave no frame: report the error.
    ReportSurfaceError,
    /// Begin the render pass on the frame, clearing it to the background.
    BeginPass,
    SetPipeline(Pipeline),
    SetBindGroup(u32),
    /// Draw vertices `0..vertex_count` of one instance.
    Draw(u32),
    /// End the render pass and submit the recorded commands.
    Submit,
    /// Show the frame.
    Present,
    /// Ask the browser for the next animation frame.
    RequestNextFrame,
}

/// The commands of one frame: where the surface gave a frame, draw the lines,
/// the particles and the glass box, in that order, with the uniforms bound
/// once, then submit, present and ask for the next frame; where it gave none,
/// report the error and stop.
pub open spec fn frame_script(acquired: bool) -> Seq<FrameCommand> {
    if acquired {
        seq![
            FrameCommand::BeginPass,
            FrameCommand::SetPipeline(Pipeline::Lines),
            FrameCommand::SetBindGroup(0),
            FrameCommand::Draw(LINE_VERTICES),
            FrameCommand::SetPipeline(Pipeline::Particles),
            FrameCommand::Draw(PARTICLE_VERTICES),
            FrameCommand::SetPipeline(Pipeline::Glass),
            FrameCommand::Draw(GLASS_VERTICES),
            FrameCommand::Submit,
            FrameCommand::Present,
            FrameCommand::RequestNextFrame,
        ]
    } else {
        seq![FrameCommand::ReportSurfaceError]
    }
}

/// The commands of one frame, given whether the surface gave a frame.
pub fn frame_commands(acquired: bool) -> (cmds: Vec<FrameCommand>)
    ensures
        cmds@ == frame_script(acquired),
{
    let mut cmds: Vec<FrameCommand> = Vec::new();
    if acquired {
        cmds.push(FrameCommand::BeginPass);
        cmds.push(FrameCommand::SetPipeline(Pipeline::Lines));
        cmds.push(FrameCommand::SetBindGroup(0));
        cmds.push(FrameCommand::Draw(LINE_VERTICES));
        cmds.push(FrameCommand::SetPipeline(Pipeline::Particles));
        cmds.push(FrameCommand::Draw(PARTICLE_VERTICES));
        cmds.push(FrameCommand::SetPipeline(Pipeline::Glass));
        cmds.push(FrameCommand::Draw(GLASS_VERTICES));
        cmds.push(FrameCommand::Submit);
        cmds.push(FrameCommand::Present);
        cmds.push(FrameCommand::RequestNextFrame);
    } else {
        cmds.push(FrameCommand::ReportSurfaceError);
    }
    assert(cmds@ =~= frame_script(acquired));
    cmds
}

/// The animation loop goes on exactly when the surface gave a frame, and a
/// frame is shown exactly then: after a surface error no further frame is
/// asked for.
pub proof fn lemma_loop_continues_iff_acquired(acquired: bool)
    ensures
        frame_script(acquired).contains(FrameCommand::RequestNextFrame) <==> acquired,
        frame_script(acquired).contains(FrameCommand::Present) <==> acquired,
{
    let s = frame_script(acquired);
    if acquired {
        assert(s[10] == FrameCommand::RequestNextFrame);
        assert(s[9] == FrameCommand::Present);
    } else {
        assert(s[0] == FrameCommand::ReportSurfaceError);
    }
}

/// Every draw of a frame comes after the uniforms were bound and after a
/// pipeline was set.
pub proof fn lemma_draws_follow_bindings(acquired: bool, i: int)
    requires
        0 <= i < frame_script(acquired).len(),
        frame_script(acquired)[i] is Draw,
    ensures
        exists|j: int| 0 <= j < i && frame_script(acquired)[j] == FrameCommand::SetBindGroup(0),
        exists|j: int| 0 <= j < i && frame_script(acquired)[j] is SetPipeline,
{
    let s = frame_script(acquired);
    assert(s[2] == FrameCommand::SetBindGroup(0));
    assert(s[1] is SetPipeline);
}

} // verus!
