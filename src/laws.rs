//! Properties of the frame loop over whole runs of events.
use crate::driver::{commands, run, step, Command, Driver, Event};
use crate::frame::{frame_for, triangle_draw, DRAW_VERTEX_COUNT};
use crate::surface::with_size;
use crate::vertex::{lemma_mesh_bytes_len, mesh_bytes, triangle, VERTEX_STRIDE};
use vstd::prelude::*;

verus! {

/// A running loop that is resized to a positive `width` by `height` is then
/// configured at exactly that size, and the frame that follows is drawn at it.
pub proof fn lemma_resize_sets_size(d: Driver, width: u32, height: u32)
    requires
        d.state is Running,
        width > 0,
        height > 0,
    ensures
        step(d, Event::Resized { width, height }).0.settings == with_size(d.settings, width, height),
        step(d, Event::Resized { width, height }).0.settings.width == width,
        step(d, Event::Resized { width, height }).0.settings.height == height,
        step(step(d, Event::Resized { width, height }).0, Event::Tick).1 == Command::Render(
            frame_for(with_size(d.settings, width, height)),
        ),
{
    if width == d.settings.width && height == d.settings.height {
        assert(with_size(d.settings, width, height) == d.settings);
    }
}

/// Events other than resizes leave the surface configuration as it was.
pub proof fn lemma_settings_kept_without_resize(d: Driver, evs: Seq<Event>)
    requires
        forall|i: int| 0 <= i < evs.len() ==> !(#[trigger] evs[i] is Resized),
    ensures
        run(d, evs).settings == d.settings,
    decreases evs.len(),
{
    if evs.len() > 0 {
        assert(!(evs[evs.len() - 1] is Resized));
        lemma_settings_kept_without_resize(d, evs.drop_last());
    }
}

/// Every frame asked for between two resizes is drawn with the configuration
/// of the last resize.
pub proof fn lemma_frames_use_current_settings(d: Driver, evs: Seq<Event>, i: int)
    requires
        0 <= i < evs.len(),
        forall|j: int| 0 <= j < evs.len() ==> !(#[trigger] evs[j] is Resized),
        commands(d, evs)[i] is Render,
    ensures
        commands(d, evs)[i] == Command::Render(frame_for(d.settings)),
    decreases evs.len(),
{
    lemma_commands_len(d, evs);
    if i < evs.len() - 1 {
        lemma_commands_len(d, evs.drop_last());
        lemma_frames_use_current_settings(d, evs.drop_last(), i);
    } else {
        lemma_settings_kept_without_resize(d, evs.drop_last());
    }
}

/// One command per event.
pub proof fn lemma_commands_len(d: Driver, evs: Seq<Event>)
    ensures
        commands(d, evs).len() == evs.len(),
    decreases evs.len(),
{
    if evs.len() > 0 {
        lemma_commands_len(d, evs.drop_last());
    }
}

/// Two frames in a row, with no resize between them, leave the surface
/// configuration unchanged and are drawn alike.
pub proof fn lemma_ticks_keep_settings(d: Driver)
    ensures
        step(d, Event::Tick).0 == d,
        step(step(d, Event::Tick).0, Event::Tick).0 == d,
        step(step(d, Event::Tick).0, Event::Tick).1 == step(d, Event::Tick).1,
{
}

/// A closing loop stays closing and asks for nothing, whatever comes.
pub proof fn lemma_closing_is_final(d: Driver, evs: Seq<Event>)
    requires
        d.state is Closing,
    ensures
        run(d, evs) == d,
        forall|i: int| 0 <= i < evs.len() ==> #[trigger] commands(d, evs)[i] == Command::Idle,
    decreases evs.len(),
{
    lemma_commands_len(d, evs);
    if evs.len() > 0 {
        lemma_closing_is_final(d, evs.drop_last());
        lemma_commands_len(d, evs.drop_last());
    }
}

/// After the window's close is requested the loop is closing, and no frame is
/// rendered any more, whatever events are still pending.
pub proof fn lemma_no_render_after_close(d: Driver, evs: Seq<Event>)
    ensures
        step(d, Event::CloseRequested).0.state is Closing,
        run(step(d, Event::CloseRequested).0, evs).state is Closing,
        forall|i: int|
            0 <= i < evs.len() ==> !(#[trigger] commands(step(d, Event::CloseRequested).0, evs)[i] is Render),
{
    lemma_closing_is_final(step(d, Event::CloseRequested).0, evs);
}

/// The pipeline stays the one built for the configured surface format, and
/// every frame asked for targets the pipeline's format.
pub proof fn lemma_pipeline_matches_surface(d: Driver, evs: Seq<Event>)
    requires
        d.wf(),
    ensures
        run(d, evs).wf(),
        run(d, evs).pipeline.color_format == run(d, evs).settings.format,
        forall|i: int|
            0 <= i < evs.len() ==> (#[trigger] commands(d, evs)[i] matches Command::Render(p) ==> p.format
                == d.pipeline.color_format),
    decreases evs.len(),
{
    lemma_commands_len(d, evs);
    if evs.len() > 0 {
        lemma_pipeline_matches_surface(d, evs.drop_last());
        lemma_commands_len(d, evs.drop_last());
        lemma_format_kept(d, evs.drop_last());
    }
}

/// No event changes the surface format or the pipeline.
pub proof fn lemma_format_kept(d: Driver, evs: Seq<Event>)
    ensures
        run(d, evs).settings.format == d.settings.format,
        run(d, evs).pipeline == d.pipeline,
    decreases evs.len(),
{
    if evs.len() > 0 {
        lemma_format_kept(d, evs.drop_last());
    }
}

/// Every frame asked for is one draw of vertices 0..3 and instance 0..1, from
/// the vertex buffer that holds exactly the triangle's three vertices.
pub proof fn lemma_every_frame_draws_triangle(d: Driver, evs: Seq<Event>)
    ensures
        forall|i: int|
            0 <= i < evs.len() ==> (#[trigger] commands(d, evs)[i] matches Command::Render(p) ==> p.draw
                == triangle_draw() && p.vertex_slot == 0),
        triangle_draw().vertex_end - triangle_draw().vertex_start == triangle().len(),
        triangle_draw().instance_end - triangle_draw().instance_start == 1,
        mesh_bytes(triangle()).len() == VERTEX_STRIDE * DRAW_VERTEX_COUNT,
    decreases evs.len(),
{
    lemma_commands_len(d, evs);
    lemma_mesh_bytes_len(triangle());
    if evs.len() > 0 {
        lemma_every_frame_draws_triangle(d, evs.drop_last());
        lemma_commands_len(d, evs.drop_last());
    }
}

} // verus!
