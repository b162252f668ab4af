//! The event dispatcher: the single serialization point of the window
//! manager. Events are handled one at a time, to completion, on one
//! logical writer — two events never mutate the window set concurrently
//! and no two layout passes run against the same tag at once. The
//! caller's loop only waits for the next event, hands it in, performs
//! the returned geometry writes and fires the returned command.

use vstd::prelude::*;

use crate::config::Config;
use crate::config::GapsConfig;
use crate::config::WindowConfig;
use crate::geometry::Rect;
use crate::keyboard::KeyboardEventHandler;
use crate::keyboard::press_transition;
use crate::keyboard::release_transition;
use crate::layout::GeometryWrite;
use crate::layout::LayoutHandle;
use crate::layout::LayoutStrategy;
use crate::layout::check_tiling_fits;
use crate::layout::compute;
use crate::layout::floating_fits;
use crate::layout::layout_fits;
use crate::layout::spec_layout_writes;
use crate::registry::WindowRegistry;
use crate::registry::handle_of;
use crate::registry::spec_configure;
use crate::registry::spec_contains_id;
use crate::registry::spec_tag_of;
use crate::registry::spec_unregister;
use crate::registry::spec_windows_on_tag;
use crate::registry::lemma_windows_on_tag_push;
use crate::window::ManagedWindow;
use crate::window::TagRules;

verus! {

/// A display-server event, reduced to the plain values the core reads.
#[derive(Clone, Copy, PartialEq, Eq, Structural, Debug)]
pub enum Event {
    KeyPress { raw_code: u8 },
    KeyRelease { raw_code: u8 },
    MapNotify { window: u32 },
    UnmapNotify { window: u32 },
    DestroyNotify { window: u32 },
    ConfigureRequest { window: u32, geometry: Rect, border_width: u16 },
    Other,
}

/// What one handled event asks the caller to do: geometry writes to
/// flush to the display server, and at most one command to fire.
#[derive(Debug)]
pub struct DispatchOutcome {
    pub writes: Vec<GeometryWrite>,
    pub command: Option<String>,
}

/// The window a map notification registers: it lands on the active tag
/// under the permissive policy (per-window tag policies come from the
/// external classification, through `WindowRegistry::register`), with
/// no geometry reported yet.
pub open spec fn spec_mapped_window(id: u32, tag: u32) -> ManagedWindow {
    ManagedWindow {
        window: id,
        current_tag: tag,
        allowed_tags: TagRules::All,
        geometry: Rect { x: 0, y: 0, width: 0, height: 0 },
        border_width: 0,
        placed: false,
    }
}

/// The window set after a map notification: unchanged when the id is
/// already managed (the server may repeat itself), else extended.
pub open spec fn spec_map_window(s: Seq<ManagedWindow>, id: u32, tag: u32) -> Seq<ManagedWindow> {
    if spec_contains_id(s, id) {
        s
    } else {
        s.push(spec_mapped_window(id, tag))
    }
}

/// The window manager: the immutable configuration and the state the
/// dispatcher serializes — the registry, the keyboard subsystem, the
/// session's layout strategy and the active tag.
#[derive(Debug)]
pub struct WindowManager {
    pub config: Config,
    pub window_config: WindowConfig,
    pub screen: Rect,
    pub strategy: LayoutStrategy,
    pub active_tag: u32,
    pub registry: WindowRegistry,
    pub keyboard: KeyboardEventHandler,
}

impl WindowManager {
    /// The registry and the keyboard subsystem are well-formed.
    pub open spec fn wf(self) -> bool {
        &&& self.registry.wf()
        &&& self.keyboard.wf()
    }

    /// The gaps the layout engine works with.
    pub open spec fn spec_gaps(self) -> GapsConfig {
        self.config.tiling_config.spec_effective_gaps()
    }

    /// The windows a layout pass of the active tag would see.
    pub open spec fn spec_active_view(self) -> Seq<LayoutHandle> {
        spec_windows_on_tag(self.registry.windows@, self.active_tag)
    }

    /// Whether a layout pass of the active tag fits the machine limits;
    /// when it does not, the pass is skipped and retried on the next
    /// triggering event.
    pub open spec fn spec_pass_fits(self) -> bool {
        layout_fits(self.strategy, self.spec_active_view(), self.screen, self.spec_gaps())
    }

    /// The writes of one layout pass of the active tag, when it fits.
    pub open spec fn spec_pass_writes(self) -> Seq<GeometryWrite> {
        if self.spec_pass_fits() {
            spec_layout_writes(
                self.strategy,
                self.spec_active_view(),
                self.screen,
                self.spec_gaps(),
                self.window_config.open_in_center_on_floating_mode,
            )
        } else {
            Seq::empty()
        }
    }

    /// A fresh manager on the given screen: nothing managed, nothing
    /// held, the tiling strategy, and the first workspace active.
    pub fn new(config: Config, window_config: WindowConfig, screen: Rect) -> (r: WindowManager)
        ensures
            r.config == config,
            r.window_config == window_config,
            r.screen == screen,
            r.strategy == LayoutStrategy::Tiling,
            r.active_tag == 1u32,
            r.registry.windows@ =~= Seq::<ManagedWindow>::empty(),
            r.keyboard.bindings@.len() == 0,
            r.keyboard.input_buffer@.len() == 0,
            r.keyboard.armed is None,
            r.wf(),
    {
        WindowManager {
            config,
            window_config,
            screen,
            strategy: LayoutStrategy::Tiling,
            active_tag: 1,
            registry: WindowRegistry::new(),
            keyboard: KeyboardEventHandler::new(),
        }
    }

    /// Selects the session's layout strategy.
    pub fn set_strategy(&mut self, strategy: LayoutStrategy)
        ensures
            *final(self) == (WindowManager { strategy, ..*old(self) }),
    {
        self.strategy = strategy;
    }

    /// Runs one layout pass of the active tag and returns its writes;
    /// empty when the pass does not fit the machine limits (it is then
    /// retried on the next triggering event, per the recovery policy).
    fn run_layout_pass(&self) -> (writes: Vec<GeometryWrite>)
        ensures
            writes@ == self.spec_pass_writes(),
    {
        let view = self.registry.windows_on_tag(self.active_tag);
        let gaps = self.config.tiling_config().effective_gaps();
        let center = self.window_config.open_in_center_on_floating_mode;
        if check_layout_fits(self.strategy, &view, self.screen, gaps) {
            compute(self.strategy, &view, self.screen, gaps, center)
        } else {
            Vec::new()
        }
    }

    /// Handles one event to completion: classifies it, applies the one
    /// mutation it calls for, and — when the mutation changed the window
    /// membership of the active tag — runs one layout pass over the
    /// resulting window set and returns its writes. Key events never
    /// write geometry; at most the press of a newly completed chord
    /// returns a command.
    pub fn handle_event(&mut self, event: &Event) -> (out: DispatchOutcome)
        requires
            old(self).wf(),
        ensures
            final(self).wf(),
            final(self).config == old(self).config,
            final(self).window_config == old(self).window_config,
            final(self).screen == old(self).screen,
            final(self).strategy == old(self).strategy,
            final(self).active_tag == old(self).active_tag,
            match *event {
                Event::KeyPress { raw_code } => {
                    &&& final(self).registry == old(self).registry
                    &&& press_transition(
                        old(self).keyboard,
                        final(self).keyboard,
                        raw_code,
                        out.command,
                    )
                    &&& out.writes@ == Seq::<GeometryWrite>::empty()
                },
                Event::KeyRelease { raw_code } => {
                    &&& final(self).registry == old(self).registry
                    &&& release_transition(old(self).keyboard, final(self).keyboard, raw_code)
                    &&& out.command is None
                    &&& out.writes@ == Seq::<GeometryWrite>::empty()
                },
                Event::MapNotify { window } => {
                    &&& final(self).keyboard == old(self).keyboard
                    &&& final(self).registry.windows@ == spec_map_window(
                        old(self).registry.windows@,
                        window,
                        old(self).active_tag,
                    )
                    &&& out.command is None
                    &&& out.writes@ == if spec_contains_id(old(self).registry.windows@, window) {
                        Seq::<GeometryWrite>::empty()
                    } else {
                        final(self).spec_pass_writes()
                    }
                },
                Event::UnmapNotify { window } | Event::DestroyNotify { window } => {
                    &&& final(self).keyboard == old(self).keyboard
                    &&& final(self).registry.windows@ == spec_unregister(
                        old(self).registry.windows@,
                        window,
                    )
                    &&& out.command is None
                    &&& out.writes@ == if spec_tag_of(old(self).registry.windows@, window)
                        == Some(old(self).active_tag) {
                        final(self).spec_pass_writes()
                    } else {
                        Seq::<GeometryWrite>::empty()
                    }
                },
                Event::ConfigureRequest { window, geometry, border_width } => {
                    &&& final(self).keyboard == old(self).keyboard
                    &&& final(self).registry.windows@ == spec_configure(
                        old(self).registry.windows@,
                        window,
                        geometry,
                        border_width,
                    )
                    &&& out.command is None
                    &&& out.writes@ == Seq::<GeometryWrite>::empty()
                },
                Event::Other => {
                    &&& *final(self) == *old(self)
                    &&& out.command is None
                    &&& out.writes@ == Seq::<GeometryWrite>::empty()
                },
            },
    {
        match *event {
            Event::KeyPress { raw_code } => {
                let command = self.keyboard.on_press(raw_code);
                DispatchOutcome { writes: Vec::new(), command }
            },
            Event::KeyRelease { raw_code } => {
                self.keyboard.on_relese(raw_code);
                DispatchOutcome { writes: Vec::new(), command: None }
            },
            Event::MapNotify { window } => {
                let geometry = Rect { x: 0, y: 0, width: 0, height: 0 };
                match self.registry.register(window, self.active_tag, TagRules::All, geometry) {
                    Ok(()) => {
                        let writes = self.run_layout_pass();
                        DispatchOutcome { writes, command: None }
                    },
                    Err(_) => DispatchOutcome { writes: Vec::new(), command: None },
                }
            },
            Event::UnmapNotify { window } | Event::DestroyNotify { window } => {
                let was_active = match self.registry.tag_of(window) {
                    Some(tag) => tag == self.active_tag,
                    None => false,
                };
                self.registry.unregister(window);
                if was_active {
                    let writes = self.run_layout_pass();
                    DispatchOutcome { writes, command: None }
                } else {
                    DispatchOutcome { writes: Vec::new(), command: None }
                }
            },
            Event::ConfigureRequest { window, geometry, border_width } => {
                self.registry.configure(window, geometry, border_width);
                DispatchOutcome { writes: Vec::new(), command: None }
            },
            Event::Other => DispatchOutcome { writes: Vec::new(), command: None },
        }
    }
}

/// Law: the dispatcher serializes events — two rapid map notifications
/// for the same tag are handled one after the other, never as two
/// interleaved layout passes. The second pass, whose writes
/// `handle_event` returns, sees the union of both windows: the tag's
/// view after both maps is the view before them extended by exactly the
/// two mapped windows, in order. The final on-screen geometry therefore
/// matches a single pass computed over that union.
pub proof fn lemma_two_maps_one_pass(s: Seq<ManagedWindow>, w1: u32, w2: u32, tag: u32)
    requires
        !spec_contains_id(s, w1),
        !spec_contains_id(s, w2),
        w1 != w2,
    ensures
        spec_windows_on_tag(spec_map_window(spec_map_window(s, w1, tag), w2, tag), tag)
            == spec_windows_on_tag(s, tag).push(handle_of(spec_mapped_window(w1, tag))).push(
            handle_of(spec_mapped_window(w2, tag)),
        ),
{
    let m1 = spec_mapped_window(w1, tag);
    let m2 = spec_mapped_window(w2, tag);
    let s1 = s.push(m1);
    assert forall|i: int| 0 <= i < s1.len() implies (#[trigger] s1[i]).window != w2 by {
        if i < s.len() {
            if s1[i].window == w2 {
                assert(s[i].window == w2);
                assert(spec_contains_id(s, w2));
            }
        }
    }
    assert(!spec_contains_id(s1, w2));
    lemma_windows_on_tag_push(s, m1, tag);
    lemma_windows_on_tag_push(s1, m2, tag);
}

/// Whether one layout pass over these windows fits the machine limits.
fn check_layout_fits(
    strategy: LayoutStrategy,
    windows: &Vec<LayoutHandle>,
    screen: Rect,
    g: GapsConfig,
) -> (r: bool)
    ensures
        r == layout_fits(strategy, windows@, screen, g),
{
    match strategy {
        LayoutStrategy::Tiling => check_tiling_fits(screen, g, windows.len()),
        LayoutStrategy::Monocle => {
            let edges_fit = screen.x as i32 + screen.width as i32 <= i16::MAX as i32
                && screen.y as i32 + screen.height as i32 <= i16::MAX as i32;
            if !edges_fit {
                return false;
            }
            let n = windows.len();
            if n >= 1 && (2 * (g.outer_size as i32) > screen.width as i32 || 2 * (
            g.outer_size as i32) > screen.height as i32) {
                return false;
            }
            true
        },
        LayoutStrategy::Floating => {
            let edges_fit = screen.x as i32 + screen.width as i32 <= i16::MAX as i32
                && screen.y as i32 + screen.height as i32 <= i16::MAX as i32;
            if !edges_fit {
                return false;
            }
            let mut i: usize = 0;
            while i < windows.len()
                invariant
                    strategy is Floating,
                    0 <= i <= windows@.len(),
                    screen.x + screen.width as int <= i16::MAX as int,
                    screen.y + screen.height as int <= i16::MAX as int,
                    forall|j: int|
                        0 <= j < i && !(#[trigger] windows@[j]).placed ==> windows@[j].geometry
                            .width as int <= screen.width as int && windows@[j].geometry.height
                            as int <= screen.height as int,
                decreases windows@.len() - i,
            {
                let w = windows[i];
                if !w.placed && (w.geometry.width > screen.width || w.geometry.height
                    > screen.height) {
                    proof {
                        assert(!floating_fits(windows@, screen)) by {
                            assert(windows@[i as int] == w);
                            assert(!windows@[i as int].placed);
                            assert(!(windows@[i as int].geometry.width as int <= screen.width as int
                                && windows@[i as int].geometry.height as int
                                <= screen.height as int));
                        }
                    }
                    return false;
                }
                i = i + 1;
            }
            true
        },
    }
}

} // verus!

