//! The application loop's decisions: which events close the application,
//! which resize or refresh the surface, and which are ignored.

use vstd::prelude::*;

use crate::event::{is_close_request, Event, WindowEvent};
use crate::surface::SurfaceConfig;
use crate::window::{Window, WindowOp, WindowView};

verus! {

/// What handling one event asks of the graphics context.
#[derive(Clone, Copy, Debug, PartialEq, Eq, Structural)]
pub enum Reaction {
    /// Nothing to do.
    Ignored,
    /// The surface configuration took the window's new size: reconfigure.
    Resized,
    /// The window moved: reconfigure the surface as it stands.
    Refreshed,
    /// The window was asked to close.
    Closed,
}

/// The reaction to an event, for the window with identity `id`. Window
/// events of other windows are ignored.
pub open spec fn reaction(id: u32, e: Event) -> Reaction {
    match e {
        Event::Window { window_id, win_event } => {
            if window_id != id {
                Reaction::Ignored
            } else {
                match win_event {
                    WindowEvent::Resized(_, _) => Reaction::Resized,
                    WindowEvent::SizeChanged(_, _) => Reaction::Resized,
                    WindowEvent::Moved(_, _) => Reaction::Refreshed,
                    WindowEvent::Other => Reaction::Ignored,
                }
            }
        },
        _ => if is_close_request(e) {
            Reaction::Closed
        } else {
            Reaction::Ignored
        },
    }
}

/// The size an event reports for the window with identity `id`, if any.
pub open spec fn reported_size(id: u32, e: Event) -> Option<(u32, u32)> {
    match e {
        Event::Window { window_id, win_event } => {
            if window_id != id {
                None
            } else {
                match win_event {
                    WindowEvent::Resized(w, h) => Some((w as u32, h as u32)),
                    WindowEvent::SizeChanged(w, h) => Some((w as u32, h as u32)),
                    _ => None,
                }
            }
        },
        _ => None,
    }
}

/// The size reported last by a sequence of events, if any reports one.
pub open spec fn last_reported_size(id: u32, es: Seq<Event>) -> Option<(u32, u32)>
    decreases es.len(),
{
    if es.len() == 0 {
        None
    } else {
        match reported_size(id, es.last()) {
            Some(s) => Some(s),
            None => last_reported_size(id, es.drop_last()),
        }
    }
}

/// Mathematical value of an `App`.
pub ghost struct AppView {
    pub window: WindowView,
    pub surface: SurfaceConfig,
}

impl AppView {
    /// The surface has the window's size.
    pub open spec fn synced(self) -> bool {
        self.surface.width == self.window.width && self.surface.height == self.window.height
    }

    /// The state after handling one event.
    pub open spec fn step(self, e: Event) -> AppView {
        match reported_size(self.window.id, e) {
            Some((w, h)) => AppView {
                window: self.window.apply(WindowOp::Resize(w, h)),
                surface: SurfaceConfig { width: w, height: h, ..self.surface },
            },
            None => if reaction(self.window.id, e) == Reaction::Closed {
                AppView { window: self.window.apply(WindowOp::Quit), ..self }
            } else {
                self
            },
        }
    }
}

/// The state after handling a sequence of events, the first one first.
pub open spec fn run(s: AppView, es: Seq<Event>) -> AppView
    decreases es.len(),
{
    if es.len() == 0 {
        s
    } else {
        run(s, es.drop_last()).step(es.last())
    }
}

/// The state after one iteration's poll: the pending events are taken.
pub open spec fn polled(s: AppView) -> AppView {
    AppView { window: s.window.apply(WindowOp::Poll), ..s }
}

/// The reactions to a sequence of events, one for each.
pub open spec fn reactions(id: u32, es: Seq<Event>) -> Seq<Reaction> {
    es.map_values(|e: Event| reaction(id, e))
}

/// Handling events never changes which window the state belongs to.
pub proof fn lemma_run_keeps_id(s: AppView, es: Seq<Event>)
    ensures
        run(s, es).window.id == s.window.id,
    decreases es.len(),
{
    if es.len() > 0 {
        lemma_run_keeps_id(s, es.drop_last());
    }
}

/// Whatever events are handled, the surface keeps the window's size, and
/// both have the size that the last resize event of this window reported;
/// without such an event both keep their size.
pub proof fn lemma_surface_follows_window(s: AppView, es: Seq<Event>)
    requires
        s.synced(),
    ensures
        run(s, es).synced(),
        run(s, es).surface.format == s.surface.format,
        run(s, es).surface.present_mode == s.surface.present_mode,
        last_reported_size(s.window.id, es) matches Some((w, h)) ==> run(s, es).window.width == w
            && run(s, es).window.height == h,
        last_reported_size(s.window.id, es) is None ==> run(s, es).window.width == s.window.width
            && run(s, es).window.height == s.window.height,
    decreases es.len(),
{
    if es.len() > 0 {
        lemma_surface_follows_window(s, es.drop_last());
        lemma_run_keeps_id(s, es.drop_last());
    }
}

/// Once the window is closed, handling further events never reopens it;
/// and a quit request or an escape key among the events closes it.
pub proof fn lemma_close_is_permanent(s: AppView, es: Seq<Event>)
    ensures
        !s.window.open ==> !run(s, es).window.open,
        (exists|i: int| 0 <= i < es.len() && is_close_request(#[trigger] es[i])) ==> !run(
            s,
            es,
        ).window.open,
    decreases es.len(),
{
    if es.len() > 0 {
        lemma_close_is_permanent(s, es.drop_last());
        let pre = es.drop_last();
        if exists|i: int| 0 <= i < es.len() && is_close_request(#[trigger] es[i]) {
            let i = choose|i: int| 0 <= i < es.len() && is_close_request(#[trigger] es[i]);
            if i < es.len() - 1 {
                assert(is_close_request(pre[i]));
            }
        }
    }
}

/// An event about another window neither changes the state nor asks
/// anything of the graphics context.
pub proof fn lemma_other_window_ignored(s: AppView, window_id: u32, win_event: WindowEvent)
    requires
        window_id != s.window.id,
    ensures
        reaction(s.window.id, Event::Window { window_id, win_event }) == Reaction::Ignored,
        s.step(Event::Window { window_id, win_event }) == s,
{
}

/// A window together with the configuration of the surface presented in it.
pub struct App {
    window: Window,
    surface: SurfaceConfig,
}

impl View for App {
    type V = AppView;

    closed spec fn view(&self) -> AppView {
        AppView { window: self.window@, surface: self.surface }
    }
}

impl App {
    /// Puts a window and its surface together; the surface is configured
    /// with the chosen format at the window's current size.
    pub fn new(window: Window, format: usize) -> (r: App)
        ensures
            r@.window == window@,
            r@.surface == (SurfaceConfig {
                format,
                width: window@.width,
                height: window@.height,
                present_mode: crate::surface::PresentMode::Fifo,
            }),
            r@.synced(),
    {
        let (width, height) = window.current_size();
        let surface = SurfaceConfig::new(format, width, height);
        App { window, surface }
    }

    /// Records the window's new size and gives it to the surface; the
    /// window's open flag, the surface's format and its mode stay.
    pub fn resize_window(&mut self, width: u32, height: u32)
        ensures
            final(self)@ == (AppView {
                window: old(self)@.window.apply(WindowOp::Resize(width, height)),
                surface: SurfaceConfig { width, height, ..old(self)@.surface },
            }),
            final(self)@.synced(),
            final(self)@.window.open == old(self)@.window.open,
    {
        self.window.resize(width, height);
        self.surface.resize(width, height);
    }

    /// Handles one event: a quit request or the escape key closes the
    /// window; a resize of this window resizes the surface; a move of this
    /// window asks for the surface to be refreshed; anything else is ignored.
    pub fn handle_event(&mut self, e: Event) -> (r: Reaction)
        ensures
            r == reaction(old(self)@.window.id, e),
            final(self)@ == old(self)@.step(e),
    {
        let id = self.window.get_id();
        match e {
            Event::Window { window_id, win_event } => {
                if window_id != id {
                    return Reaction::Ignored;
                }
                match win_event {
                    WindowEvent::Resized(w, h) => {
                        self.resize_window(w as u32, h as u32);
                        Reaction::Resized
                    },
                    WindowEvent::SizeChanged(w, h) => {
                        self.resize_window(w as u32, h as u32);
                        Reaction::Resized
                    },
                    WindowEvent::Moved(_, _) => Reaction::Refreshed,
                    WindowEvent::Other => Reaction::Ignored,
                }
            },
            Event::Quit => {
                self.window.quit();
                Reaction::Closed
            },
            Event::KeyDown { keycode: Some(crate::event::Keycode::Escape) } => {
                self.window.quit();
                Reaction::Closed
            },
            _ => Reaction::Ignored,
        }
    }

    /// One iteration's event handling: takes every pending event and
    /// handles them in order of arrival, returning one reaction for each.
    /// The caller then reconfigures the surface for each `Resized` or
    /// `Refreshed` reaction and draws one frame, whatever the reactions.
    pub fn process(&mut self) -> (r: Vec<Reaction>)
        ensures
            r@ == reactions(old(self)@.window.id, old(self)@.window.pending),
            final(self)@ == run(polled(old(self)@), old(self)@.window.pending),
    {
        let ghost s0 = polled(self@);
        let ghost id = self@.window.id;
        let events = self.window.get_events();
        let mut r: Vec<Reaction> = Vec::new();
        let mut i: usize = 0;
        while i < events.len()
            invariant
                i <= events@.len(),
                self@ == run(s0, events@.take(i as int)),
                self@.window.id == id,
                r@ == reactions(id, events@.take(i as int)),
            decreases events@.len() - i,
        {
            let e = events[i];
            let reaction = self.handle_event(e);
            r.push(reaction);
            proof {
                let t = events@.take(i as int + 1);
                assert(t.drop_last() =~= events@.take(i as int));
                assert(t.last() == e);
                assert(reactions(id, t) =~= reactions(id, events@.take(i as int)).push(reaction));
            }
            i += 1;
        }
        proof {
            assert(events@.take(events@.len() as int) =~= events@);
        }
        r
    }

    /// Hands an event from the window system to the window.
    pub fn push_event(&mut self, e: Event)
        ensures
            final(self)@ == (AppView {
                window: old(self)@.window.apply(WindowOp::Queue(e)),
                ..old(self)@
            }),
    {
        self.window.push_event(e);
    }

    pub fn is_open(&self) -> (r: bool)
        ensures
            r == self@.window.open,
    {
        self.window.is_open()
    }

    /// The surface configuration to present with.
    pub fn surface(&self) -> (r: SurfaceConfig)
        ensures
            r == self@.surface,
    {
        self.surface
    }

    pub fn window(&self) -> (r: &Window)
        ensures
            r@ == self@.window,
    {
        &self.window
    }
}

} // verus!
