//! Window configuration and the state of an open window.

use vstd::prelude::*;

use crate::event::Event;

verus! {

/// How the window occupies the screen.
#[derive(Clone, Copy, Debug, PartialEq, Eq, Structural)]
pub enum FullscreenMode {
    Windowed,
    Fullscreen,
    Borderless,
}

/// The configuration a window is built from.
pub struct WindowBuilder {
    pub title: String,
    pub width: u32,
    pub height: u32,
    pub resizable: bool,
    pub fullscreen: FullscreenMode,
    pub vsync: bool,
    pub max_fps: Option<u32>,
    pub decorated: bool,
}

/// Mathematical value of a `WindowBuilder`.
pub ghost struct WindowConfig {
    pub title: Seq<char>,
    pub width: u32,
    pub height: u32,
    pub resizable: bool,
    pub fullscreen: FullscreenMode,
    pub vsync: bool,
    pub max_fps: Option<u32>,
    pub decorated: bool,
}

impl View for WindowBuilder {
    type V = WindowConfig;

    open spec fn view(&self) -> WindowConfig {
        WindowConfig {
            title: self.title@,
            width: self.width,
            height: self.height,
            resizable: self.resizable,
            fullscreen: self.fullscreen,
            vsync: self.vsync,
            max_fps: self.max_fps,
            decorated: self.decorated,
        }
    }
}

/// The title a window gets when none is chosen.
pub open spec fn default_title() -> Seq<char> {
    "Vulkan Window"@
}

/// The configuration `WindowBuilder::new` starts from.
pub open spec fn default_config() -> WindowConfig {
    WindowConfig {
        title: default_title(),
        width: 800,
        height: 600,
        resizable: false,
        fullscreen: FullscreenMode::Windowed,
        vsync: true,
        max_fps: None,
        decorated: true,
    }
}

impl WindowBuilder {
    pub fn new() -> (r: Self)
        ensures
            r@ == default_config(),
    {
        let title = "Vulkan Window".to_string();
        proof {
            reveal_strlit("Vulkan Window");
        }
        WindowBuilder {
            title,
            width: 800,
            height: 600,
            resizable: false,
            fullscreen: FullscreenMode::Windowed,
            vsync: true,
            max_fps: None,
            decorated: true,
        }
    }

    pub fn with_title(self, title: &str) -> (r: Self)
        ensures
            r@ == (WindowConfig { title: title@, ..self@ }),
    {
        let mut b = self;
        b.title = title.to_string();
        b
    }

    pub fn with_size(self, width: u32, height: u32) -> (r: Self)
        ensures
            r@ == (WindowConfig { width, height, ..self@ }),
    {
        let mut b = self;
        b.width = width;
        b.height = height;
        b
    }

    pub fn with_resizable(self, resizable: bool) -> (r: Self)
        ensures
            r@ == (WindowConfig { resizable, ..self@ }),
    {
        let mut b = self;
        b.resizable = resizable;
        b
    }

    pub fn with_fullscreen(self, mode: FullscreenMode) -> (r: Self)
        ensures
            r@ == (WindowConfig { fullscreen: mode, ..self@ }),
    {
        let mut b = self;
        b.fullscreen = mode;
        b
    }

    pub fn with_vsync(self, vsync: bool) -> (r: Self)
        ensures
            r@ == (WindowConfig { vsync, ..self@ }),
    {
        let mut b = self;
        b.vsync = vsync;
        b
    }

    pub fn with_max_fps(self, fps: u32) -> (r: Self)
        ensures
            r@ == (WindowConfig { max_fps: Some(fps), ..self@ }),
    {
        let mut b = self;
        b.max_fps = Some(fps);
        b
    }

    pub fn with_decorated(self, decorated: bool) -> (r: Self)
        ensures
            r@ == (WindowConfig { decorated, ..self@ }),
    {
        let mut b = self;
        b.decorated = decorated;
        b
    }

    /// The window-system flags that a native window matching this
    /// configuration is created with.
    pub fn flags(&self) -> (r: WindowFlags)
        ensures
            r == flags_of(self@),
    {
        WindowFlags {
            resizable: self.resizable,
            borderless: !self.decorated || self.fullscreen == FullscreenMode::Borderless,
            fullscreen_desktop: self.fullscreen == FullscreenMode::Fullscreen,
        }
    }

    /// The state of the window built from this configuration, once the
    /// window system has created it under the identity `id`.
    pub fn build(self, id: u32) -> (r: Window)
        ensures
            r@ == opened(self@, id),
    {
        Window {
            id,
            width: self.width,
            height: self.height,
            quit_requested: false,
            max_fps: self.max_fps,
            pending: Vec::new(),
        }
    }
}

/// The flags a native window is created with.
#[derive(Clone, Copy, Debug, PartialEq, Eq, Structural)]
pub struct WindowFlags {
    /// The user may resize the window.
    pub resizable: bool,
    /// The window has no decorations (title bar, border).
    pub borderless: bool,
    /// The window covers the desktop at the desktop's resolution.
    pub fullscreen_desktop: bool,
}

/// The flags that realise a configuration: a window without decorations, or
/// in borderless mode, is borderless; fullscreen mode covers the desktop.
pub open spec fn flags_of(c: WindowConfig) -> WindowFlags {
    WindowFlags {
        resizable: c.resizable,
        borderless: !c.decorated || c.fullscreen == FullscreenMode::Borderless,
        fullscreen_desktop: c.fullscreen == FullscreenMode::Fullscreen,
    }
}

/// An open window with its identity, its size, its open flag and the input
/// events that have arrived and not yet been taken.
pub struct Window {
    id: u32,
    width: u32,
    height: u32,
    quit_requested: bool,
    max_fps: Option<u32>,
    pending: Vec<Event>,
}

/// Mathematical value of a `Window`.
pub ghost struct WindowView {
    pub id: u32,
    pub width: u32,
    pub height: u32,
    pub open: bool,
    pub max_fps: Option<u32>,
    pub pending: Seq<Event>,
}

impl View for Window {
    type V = WindowView;

    closed spec fn view(&self) -> WindowView {
        WindowView {
            id: self.id,
            width: self.width,
            height: self.height,
            open: !self.quit_requested,
            max_fps: self.max_fps,
            pending: self.pending@,
        }
    }
}

/// A freshly built window: open, at the configured size, with no events.
pub open spec fn opened(c: WindowConfig, id: u32) -> WindowView {
    WindowView {
        id,
        width: c.width,
        height: c.height,
        open: true,
        max_fps: c.max_fps,
        pending: Seq::empty(),
    }
}

/// The operations that change a window's state.
pub ghost enum WindowOp {
    /// Ask the window to close.
    Quit,
    /// Record a new size reported by the window system.
    Resize(u32, u32),
    /// An event arrives from the window system.
    Queue(Event),
    /// Take every pending event.
    Poll,
}

impl WindowView {
    /// The state after one operation.
    pub open spec fn apply(self, op: WindowOp) -> WindowView {
        match op {
            WindowOp::Quit => WindowView { open: false, ..self },
            WindowOp::Resize(w, h) => WindowView { width: w, height: h, ..self },
            WindowOp::Queue(e) => WindowView { pending: self.pending.push(e), ..self },
            WindowOp::Poll => WindowView { pending: Seq::empty(), ..self },
        }
    }

    /// What a poll of this state returns.
    pub open spec fn polled(self) -> Seq<Event> {
        self.pending
    }
}

/// The state after a sequence of operations, applied from the first.
pub open spec fn apply_all(v: WindowView, ops: Seq<WindowOp>) -> WindowView
    decreases ops.len(),
{
    if ops.len() == 0 {
        v
    } else {
        apply_all(v.apply(ops[0]), ops.drop_first())
    }
}

/// The operations by which the given events arrive, in order.
pub open spec fn arrivals(es: Seq<Event>) -> Seq<WindowOp> {
    es.map_values(|e: Event| WindowOp::Queue(e))
}

impl Window {
    /// Asks the window to close. Closing is final: no operation reopens it.
    pub fn quit(&mut self)
        ensures
            final(self)@ == old(self)@.apply(WindowOp::Quit),
    {
        self.quit_requested = true;
    }

    /// Hands an event from the window system to the window.
    pub fn push_event(&mut self, e: Event)
        ensures
            final(self)@ == old(self)@.apply(WindowOp::Queue(e)),
    {
        self.pending.push(e);
    }

    /// Takes every pending event, oldest first, leaving none.
    pub fn get_events(&mut self) -> (r: Vec<Event>)
        ensures
            r@ == old(self)@.polled(),
            final(self)@ == old(self)@.apply(WindowOp::Poll),
    {
        let mut r: Vec<Event> = Vec::new();
        std::mem::swap(&mut r, &mut self.pending);
        r
    }

    pub fn is_open(&self) -> (r: bool)
        ensures
            r == self@.open,
    {
        !self.quit_requested
    }

    /// Records the size last reported by the window system.
    pub fn resize(&mut self, width: u32, height: u32)
        ensures
            final(self)@ == old(self)@.apply(WindowOp::Resize(width, height)),
    {
        self.width = width;
        self.height = height;
    }

    /// The size last reported by the window system.
    pub fn current_size(&self) -> (r: (u32, u32))
        ensures
            r == (self@.width, self@.height),
    {
        (self.width, self.height)
    }

    pub fn get_id(&self) -> (r: u32)
        ensures
            r == self@.id,
    {
        self.id
    }
}

/// Once a window is closed, no sequence of operations opens it again.
pub proof fn lemma_closed_window_stays_closed(v: WindowView, ops: Seq<WindowOp>)
    requires
        !v.open,
    ensures
        !apply_all(v, ops).open,
    decreases ops.len(),
{
    if ops.len() > 0 {
        lemma_closed_window_stays_closed(v.apply(ops[0]), ops.drop_first());
    }
}

/// Events that arrive are appended to the pending ones; nothing else changes.
pub proof fn lemma_arrivals_append(v: WindowView, es: Seq<Event>)
    ensures
        apply_all(v, arrivals(es)) == (WindowView { pending: v.pending + es, ..v }),
    decreases es.len(),
{
    if es.len() > 0 {
        let v1 = v.apply(WindowOp::Queue(es[0]));
        assert(arrivals(es).drop_first() =~= arrivals(es.drop_first()));
        lemma_arrivals_append(v1, es.drop_first());
        assert(v1.pending + es.drop_first() =~= v.pending + es);
    } else {
        assert(v.pending + es =~= v.pending);
    }
}

/// A poll returns each event once: right after a poll, a second poll returns
/// nothing, and the next poll returns exactly the events that arrived in
/// between, in order of arrival.
pub proof fn lemma_poll_returns_each_event_once(v: WindowView, es: Seq<Event>)
    ensures
        v.apply(WindowOp::Poll).polled() == Seq::<Event>::empty(),
        apply_all(v.apply(WindowOp::Poll), arrivals(es)).polled() == es,
{
    let v1 = v.apply(WindowOp::Poll);
    lemma_arrivals_append(v1, es);
    assert(v1.pending + es =~= es);
}

} // verus!
