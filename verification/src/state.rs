//! The running program: what each window event does.

use crate::pipeline::DrawPass;
use crate::renderer::{
    law_resize_takes_the_new_size, resize_work, FrameView, FrameWork, Renderer, RendererView,
    ResizeWork, SurfaceStatus,
};
use crate::resources::{bind_group_view, BufferId};
use crate::sim::{Sim, SimSetup, SimShaders, SimView, SimWork, SimWorkView};
use crate::single::{clamp_step, clamped_step, lemma_whole_number, Single};
use crate::wire::words_bytes;
use crate::world::{
    law_reset_effect, law_step_advances_live_state, model_step, Shaders, World,
};
use vstd::arithmetic::power2::{lemma2_to64, pow2};
use vstd::prelude::*;

verus! {

/// Cells along each side of the trail map. Also the world size: one cell is
/// one world unit, so sensor distances and speeds are all in cells, and no
/// scale factor has to be kept in sync between the two.
pub const GRID_SIDE: u32 = 2048;

/// Bits of 1024.0, half the side of the world, in world units.
pub const WORLD_HALF_BITS: u32 = 0x4480_0000;

/// 10M over a 4.2M-cell grid, about 2.4 agents per cell. Below about 0.5 per
/// cell the trails are too sparse to reinforce each other and you get
/// wandering rather than networks; above about 4 every cell saturates and
/// detail washes out.
pub const N_AGENTS: u32 = 10_000_000;

/// Bits of 600.0. Agents start in a disc of this radius, in cells, headings
/// random. A filled circle gives far more structure than scattering over the
/// whole world, which settles into a boring even mesh.
pub const INIT_RAD_BITS: u32 = 0x4416_0000;

/// Exactly one trail cell lands under one world unit.
pub proof fn law_one_cell_per_world_unit()
    ensures
        2 * (Single { bits: WORLD_HALF_BITS }).scaled() == GRID_SIDE * pow2(149),
{
    lemma2_to64();
    lemma_whole_number(WORLD_HALF_BITS as int, 136, 1024);
}

/// The disc that agents start in has a radius of 600 cells, and lies within
/// the world.
pub proof fn law_agents_start_within_the_world()
    ensures
        (Single { bits: INIT_RAD_BITS }).scaled() == 600 * pow2(149),
        (Single { bits: INIT_RAD_BITS }).scaled() <= (Single { bits: WORLD_HALF_BITS }).scaled(),
{
    lemma2_to64();
    lemma_whole_number(INIT_RAD_BITS as int, 135, 600);
    lemma_whole_number(WORLD_HALF_BITS as int, 136, 1024);
}

/// The running simulation and its picture.
#[derive(Debug)]
pub struct State {
    pub sim: Sim,
    pub renderer: Renderer,
}

pub ghost struct StateView {
    pub sim: SimView,
    pub renderer: RendererView,
}

impl View for State {
    type V = StateView;

    open spec fn view(&self) -> StateView {
        StateView { sim: self.sim@, renderer: self.renderer@ }
    }
}

impl StateView {
    pub open spec fn wf(self) -> bool {
        self.sim.wf() && self.renderer.wf()
    }
}

impl State {
    /// The simulation that the program runs, to be set up.
    pub fn simulation(shaders: SimShaders) -> (setup: SimSetup)
        ensures
            setup.sets_up(
                [GRID_SIDE, GRID_SIDE],
                N_AGENTS,
                [Single { bits: WORLD_HALF_BITS }, Single { bits: WORLD_HALF_BITS }],
                Single { bits: INIT_RAD_BITS },
                shaders.agents@,
                shaders.diffuse@,
                shaders.init@,
            ),
    {
        let half: Single = Single { bits: WORLD_HALF_BITS };
        let grid: [u32; 2] = [GRID_SIDE, GRID_SIDE];
        assert(grid@[0] * grid@[1] == 2048 * 2048);
        Sim::new(
            grid,
            N_AGENTS,
            [half, half],
            Single { bits: INIT_RAD_BITS },
            shaders,
        )
    }

    pub fn new(sim: Sim, renderer: Renderer) -> (state: State)
        ensures
            state@ == (StateView { sim: sim@, renderer: renderer@ }),
    {
        State { sim, renderer }
    }

    /// Take over the window's new size. Gives what to configure the surface
    /// with and the aspect ratio to upload the camera for, if anything.
    pub fn resize(&mut self, width: u32, height: u32) -> (work: Option<ResizeWork>)
        ensures
            final(self)@ == (StateView {
                renderer: old(self)@.renderer.resized(width, height),
                ..old(self)@
            }),
            work == resize_work(width, height),
    {
        self.renderer.resize(width, height)
    }

    /// The first half of a frame: step the simulation by the time since the
    /// last frame, clamped.
    pub fn advance(&mut self, elapsed: Single) -> (work: SimWork)
        requires
            old(self)@.sim.wf(),
        ensures
            final(self)@ == (StateView {
                sim: old(self)@.sim.after_step(clamped_step(elapsed)),
                ..old(self)@
            }),
            final(self)@.sim.wf(),
            work@ == old(self)@.sim.step_work(clamped_step(elapsed)),
    {
        self.sim.step(clamp_step(elapsed))
    }

    /// The second half of a frame: draw the live state, given what the surface
    /// answers.
    pub fn draw(&self, status: SurfaceStatus) -> (work: FrameWork)
        requires
            self@.sim.wf(),
        ensures
            work@ == self@.renderer.frame(status, self@.sim.slot, self@.sim.params.n_agents),
    {
        self.renderer.render(status, self.sim.current_slot(), self.sim.n_agents())
    }
}

/// A key, as far as the program tells keys apart.
#[derive(Clone, Copy, Debug, PartialEq, Eq, Structural)]
pub enum Key {
    A,
    R,
    Escape,
    Other,
}

/// Something that happened to the window.
#[derive(Clone, Copy, Debug, PartialEq, Eq, Structural)]
pub enum Event {
    CloseRequested,
    Resized { width: u32, height: u32 },
    Keyboard { key: Key, pressed: bool },
    RedrawRequested,
    Other,
}

/// What to do about an event.
#[derive(Debug, PartialEq, Eq)]
pub enum Action {
    /// Nothing.
    Nothing,
    /// Leave the event loop.
    Exit,
    /// Configure the surface, and then upload the camera for its aspect ratio.
    Configure { resize: ResizeWork },
    /// Carry out the work that seeds the simulation again.
    Seed { work: SimWork },
    /// Advance, draw, and ask for the next redraw.
    Frame,
}

pub ghost enum ActionView {
    Nothing,
    Exit,
    Configure { resize: ResizeWork },
    Seed { work: SimWorkView },
    Frame,
}

impl View for Action {
    type V = ActionView;

    open spec fn view(&self) -> ActionView {
        match *self {
            Action::Nothing => ActionView::Nothing,
            Action::Exit => ActionView::Exit,
            Action::Configure { resize } => ActionView::Configure { resize },
            Action::Seed { work } => ActionView::Seed { work: work@ },
            Action::Frame => ActionView::Frame,
        }
    }
}

/// What follows an attempt to start.
#[derive(Clone, Copy, Debug, PartialEq, Eq, Structural)]
pub enum Started {
    /// Ask for the first redraw.
    RequestRedraw,
    /// Leave the event loop.
    Exit,
}

/// The program: nothing at first, and the running state once it has started.
#[derive(Debug)]
pub struct App {
    pub state: Option<State>,
}

impl View for App {
    type V = Option<StateView>;

    open spec fn view(&self) -> Option<StateView> {
        match self.state {
            Some(state) => Some(state@),
            None => None,
        }
    }
}

/// The running state after an event. Key presses act on it: `A` overlays the
/// agents themselves on top of the trail map, `R` seeds the agents again and
/// wipes the trail.
pub open spec fn after_event(state: StateView, event: Event) -> StateView {
    match event {
        Event::Resized { width, height } => StateView {
            renderer: state.renderer.resized(width, height),
            ..state
        },
        Event::Keyboard { key: Key::A, pressed: true } => StateView {
            renderer: state.renderer.showing(!state.renderer.show_agents),
            ..state
        },
        Event::Keyboard { key: Key::R, pressed: true } => StateView {
            sim: state.sim.after_reset(),
            ..state
        },
        _ => state,
    }
}

/// What to do about an event.
pub open spec fn action_for(state: StateView, event: Event) -> ActionView {
    match event {
        Event::CloseRequested => ActionView::Exit,
        Event::Resized { width, height } => match resize_work(width, height) {
            Some(resize) => ActionView::Configure { resize },
            None => ActionView::Nothing,
        },
        Event::Keyboard { key: Key::R, pressed: true } => ActionView::Seed {
            work: state.sim.reset_work(),
        },
        Event::Keyboard { key: Key::Escape, pressed: true } => ActionView::Exit,
        Event::RedrawRequested => ActionView::Frame,
        _ => ActionView::Nothing,
    }
}

impl App {
    pub fn new() -> (app: App)
        ensures
            app@ is None,
    {
        App { state: None }
    }

    /// The event loop has resumed. Says whether the program is to be started
    /// now: it is not when it runs already.
    pub fn resumed(&self) -> (start: bool)
        ensures
            start == self@ is None,
    {
        match &self.state {
            Some(_) => false,
            None => true,
        }
    }

    /// The outcome of starting: the running state, if it could be set up.
    pub fn started(&mut self, outcome: Option<State>) -> (next: Started)
        ensures
            outcome matches Some(state) ==> final(self)@ == Some(state@) && next
                == Started::RequestRedraw,
            outcome is None ==> final(self)@ == old(self)@ && next == Started::Exit,
    {
        match outcome {
            Some(state) => {
                self.state = Some(state);
                Started::RequestRedraw
            },
            None => Started::Exit,
        }
    }

    /// Take an event to the running state. Before the program has started,
    /// events are ignored.
    pub fn window_event(&mut self, event: Event) -> (action: Action)
        ensures
            old(self)@ is None ==> final(self)@ is None && action@ == ActionView::Nothing,
            old(self)@ matches Some(state) ==> {
                &&& final(self)@ == Some(after_event(state, event))
                &&& action@ == action_for(state, event)
            },
    {
        let state: &mut State = match &mut self.state {
            Some(state) => state,
            None => {
                return Action::Nothing;
            },
        };
        match event {
            Event::CloseRequested => Action::Exit,
            Event::Resized { width, height } => match state.resize(width, height) {
                Some(resize) => Action::Configure { resize },
                None => Action::Nothing,
            },
            Event::Keyboard { key, pressed } => {
                if !pressed {
                    return Action::Nothing;
                }
                match key {
                    Key::A => {
                        state.renderer.toggle_agents();
                        Action::Nothing
                    },
                    Key::R => {
                        let work: SimWork = state.sim.reset();
                        Action::Seed { work }
                    },
                    Key::Escape => Action::Exit,
                    Key::Other => Action::Nothing,
                }
            },
            Event::RedrawRequested => Action::Frame,
            Event::Other => Action::Nothing,
        }
    }
}

/// No event and no frame breaks the state: the live half stays one of the two,
/// and the surface never becomes empty.
pub proof fn law_state_stays_well_formed(state: StateView, event: Event, elapsed: Single)
    requires
        state.wf(),
    ensures
        after_event(state, event).wf(),
        state.sim.after_step(clamped_step(elapsed)).wf(),
{
}

/// Pressing the overlay key twice changes nothing.
pub proof fn law_overlay_toggles_back(state: StateView)
    ensures
        after_event(
            after_event(state, Event::Keyboard { key: Key::A, pressed: true }),
            Event::Keyboard { key: Key::A, pressed: true },
        ) == state,
{
}

/// Releasing a key does nothing, and neither does any other key.
pub proof fn law_only_known_presses_act(state: StateView, key: Key, pressed: bool)
    requires
        !pressed || key == Key::Other,
    ensures
        after_event(state, Event::Keyboard { key, pressed }) == state,
        action_for(state, Event::Keyboard { key, pressed }) == ActionView::Nothing,
{
}

/// Pressing `R` starts the simulation afresh, on any world: the action is to
/// carry out the work of a reset, which empties both halves of the trail and
/// leaves the half that is live from then on with agents seeded by the
/// parameters in use, where the seeding pass is ready. Parameters and picture
/// stay as they are.
pub proof fn law_reset_key_starts_afresh<A, T>(
    shaders: Shaders<A, T>,
    world: World<A, T>,
    state: StateView,
)
    ensures
        ({
            let press = Event::Keyboard { key: Key::R, pressed: true };
            let after = after_event(state, press);
            &&& after.renderer == state.renderer
            &&& after.sim.params == state.sim.params
            &&& after.sim.agent_ready == state.sim.agent_ready
            &&& after.sim.diffuse_ready == state.sim.diffuse_ready
            &&& after.sim.init_ready == state.sim.init_ready
            &&& action_for(state, press) matches ActionView::Seed { work } && {
                let fresh = world.run(shaders, work);
                &&& work == state.sim.reset_work()
                &&& fresh.trail[0] == shaders.empty
                &&& fresh.trail[1] == shaders.empty
                &&& state.sim.init_ready ==> fresh.agents[after.sim.slot] == (shaders.seed)(
                    words_bytes(state.sim.params.word_seq()),
                )
                &&& fresh.trail[after.sim.slot] == shaders.empty
            }
        }),
{
    law_reset_effect(shaders, world, state.sim);
}

/// Closing the window and pressing Escape leave, and change nothing; nothing
/// else leaves.
pub proof fn law_only_close_and_escape_leave(state: StateView, event: Event)
    ensures
        action_for(state, event) is Exit <==> event == Event::CloseRequested || event == (
        Event::Keyboard { key: Key::Escape, pressed: true }),
        action_for(state, event) is Exit ==> after_event(state, event) == state,
{
}

/// A redraw is a frame, and only a redraw is; the state itself changes only when
/// the frame is carried out.
pub proof fn law_only_redraws_are_frames(state: StateView, event: Event)
    ensures
        action_for(state, event) is Frame <==> event == Event::RedrawRequested,
        event == Event::RedrawRequested || event == Event::Other ==> after_event(state, event)
            == state,
        event == Event::Other ==> action_for(state, event) is Nothing,
{
}

/// Seeding again comes of the reset key alone, and the simulation changes for
/// that key alone.
pub proof fn law_only_the_reset_key_seeds(state: StateView, event: Event)
    ensures
        action_for(state, event) is Seed <==> event == (Event::Keyboard {
            key: Key::R,
            pressed: true,
        }),
        !(action_for(state, event) is Seed) ==> after_event(state, event).sim == state.sim,
{
}

/// A new size that is not empty configures the surface with that size, and then
/// uploads the camera for its ratio; nothing else does, and an empty size does
/// nothing.
pub proof fn law_only_resizes_configure(state: StateView, event: Event, width: u32, height: u32)
    ensures
        action_for(state, event) is Configure ==> event is Resized,
        ({
            let resized = Event::Resized { width, height };
            let after = after_event(state, resized);
            &&& width > 0 && height > 0 ==> {
                &&& after.renderer.width == width && after.renderer.height == height
                &&& action_for(state, resized) matches ActionView::Configure { resize }
                    && resize.surface.width == width && resize.surface.height == height
                    && resize.camera_aspect.0 == width && resize.camera_aspect.1 == height
            }
            &&& width == 0 || height == 0 ==> after == state && action_for(
                state,
                resized,
            ) is Nothing
            &&& after.renderer.show_agents == state.renderer.show_agents
            &&& after.renderer.trail_ready == state.renderer.trail_ready
            &&& after.renderer.agents_ready == state.renderer.agents_ready
        }),
{
    law_resize_takes_the_new_size(state.renderer, width, height);
}

/// Pressing `A` shows the agents where they were hidden and hides them where
/// they were shown; that is all it does, and nothing else does it.
pub proof fn law_overlay_key_shows_and_hides(state: StateView, event: Event)
    ensures
        ({
            let press = Event::Keyboard { key: Key::A, pressed: true };
            let after = after_event(state, press);
            &&& action_for(state, press) is Nothing
            &&& after.sim == state.sim
            &&& after.renderer.show_agents == !state.renderer.show_agents
            &&& after.renderer.width == state.renderer.width
            &&& after.renderer.height == state.renderer.height
            &&& after.renderer.trail_ready == state.renderer.trail_ready
            &&& after.renderer.agents_ready == state.renderer.agents_ready
            &&& event != press ==> after_event(state, event).renderer.show_agents
                == state.renderer.show_agents
        }),
{
}

/// A frame advances the simulation by the time that has gone by, cut to a
/// thirtieth of a second, and then shows it: what is drawn of the trail and of
/// the agents is what the model's step makes of what was live before.
pub proof fn law_frame_steps_and_shows<A, T>(
    shaders: Shaders<A, T>,
    world: World<A, T>,
    state: StateView,
    elapsed: Single,
    i: int,
)
    requires
        state.wf(),
        state.sim.can_step(),
        0 <= i,
    ensures
        ({
            let dt = clamped_step(elapsed);
            let sim = state.sim.after_step(dt);
            let stepped = world.run(shaders, state.sim.step_work(dt));
            let next = model_step(shaders, world.live(state.sim.slot), sim.params);
            &&& sim.params.dt == dt
            &&& state.renderer.frame(
                SurfaceStatus::Success,
                sim.slot,
                sim.params.n_agents,
            ) matches FrameView::Draw { calls, .. } && (i < calls.len() ==> {
                let seen = bind_group_view(calls[i].bind_group).entries[1].buffer;
                match calls[i].pass {
                    DrawPass::Trail => seen matches BufferId::Trail { half }
                        && stepped.trail[half] == next.1,
                    DrawPass::Agents => (seen matches BufferId::Agents { half }
                        && stepped.agents[half] == next.0) && calls[i].instances
                        == state.sim.params.n_agents,
                }
            })
        }),
{
    law_step_advances_live_state(shaders, world, state.sim, clamped_step(elapsed));
}

/// There are between two and three agents for each cell of the trail: dense
/// enough to reinforce each other's trails, and not so dense as to fill it.
pub proof fn law_agents_are_dense_enough()
    ensures
        2 * (GRID_SIDE * GRID_SIDE) < N_AGENTS < 3 * (GRID_SIDE * GRID_SIDE),
{
}

} // verus!
