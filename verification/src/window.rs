//! Managed windows and the tag policy: which workspace ("tag") a window
//! may occupy, and how a requested tag is resolved against that policy.

use vstd::prelude::*;

use crate::geometry::Rect;

verus! {

/// Per-window tag policy, fixed when the window is registered.
///
/// `Only(tags)` restricts the window to the listed tags, in their
/// configured order; an empty list is documented to mean the same as
/// `All` (any tag is allowed).
#[derive(Debug)]
pub enum TagRules {
    All,
    Only(Vec<u32>),
}

/// A window position in screen coordinates.
#[derive(Clone, Copy, PartialEq, Eq, Structural, Debug)]
pub struct WindowPosition {
    pub x: i16,
    pub y: i16,
}

impl WindowPosition {
    pub fn new(x: i16, y: i16) -> (r: WindowPosition)
        ensures
            r == (WindowPosition { x, y }),
    {
        WindowPosition { x, y }
    }

    pub fn x(&self) -> (r: i16)
        ensures
            r == self.x,
    {
        self.x
    }

    pub fn y(&self) -> (r: i16)
        ensures
            r == self.y,
    {
        self.y
    }
}

/// A window extent.
#[derive(Clone, Copy, PartialEq, Eq, Structural, Debug)]
pub struct WindowSize {
    pub height: u16,
    pub width: u16,
}

impl WindowSize {
    pub fn new(height: u16, width: u16) -> (r: WindowSize)
        ensures
            r == (WindowSize { height, width }),
    {
        WindowSize { height, width }
    }

    pub fn height(&self) -> (r: u16)
        ensures
            r == self.height,
    {
        self.height
    }

    pub fn width(&self) -> (r: u16)
        ensures
            r == self.width,
    {
        self.width
    }
}

/// How a requested tag is resolved against a policy:
/// - `All` adopts the request verbatim;
/// - `Only` with an empty list behaves like `All`;
/// - `Only` with the request listed adopts it;
/// - otherwise the first listed tag is adopted — a deterministic
///   fallback, never an error.
pub open spec fn spec_resolve_tag(rules: TagRules, requested: u32) -> u32 {
    match rules {
        TagRules::All => requested,
        TagRules::Only(allowed) => {
            if allowed@.len() == 0 || allowed@.contains(requested) {
                requested
            } else {
                allowed@[0]
            }
        },
    }
}

/// A top-level window the registry manages: its server-assigned id, its
/// last known geometry, and its tag state.
///
/// `placed` records whether the geometry's position was ever assigned
/// (by the server or by a layout pass); a floating pass centers only
/// windows that were never placed.
#[derive(Debug)]
pub struct ManagedWindow {
    pub window: u32,
    pub current_tag: u32,
    pub allowed_tags: TagRules,
    pub geometry: Rect,
    pub border_width: u16,
    pub placed: bool,
}

impl ManagedWindow {
    /// A window's tag is always one its policy allows, unless the policy
    /// lists no tags at all (which allows any).
    pub open spec fn wf(self) -> bool {
        match self.allowed_tags {
            TagRules::All => true,
            TagRules::Only(allowed) => allowed@.len() > 0 ==> allowed@.contains(self.current_tag),
        }
    }

    /// Creates a managed window, resolving the requested starting tag
    /// against the policy.
    pub fn new(window: u32, current_tag: u32, allowed_tags: TagRules, geometry: Rect) -> (w:
        ManagedWindow)
        ensures
            w.window == window,
            w.current_tag == spec_resolve_tag(allowed_tags, current_tag),
            w.allowed_tags == allowed_tags,
            w.geometry == geometry,
            w.border_width == 0,
            !w.placed,
            w.wf(),
    {
        let mut w = ManagedWindow {
            window,
            current_tag,
            allowed_tags,
            geometry,
            border_width: 0,
            placed: false,
        };
        w.move_to(current_tag);
        w
    }

    /// The server-assigned window id.
    pub fn window(&self) -> (r: u32)
        ensures
            r == self.window,
    {
        self.window
    }

    /// Moves the window to the requested tag, resolved against the
    /// policy; everything but the current tag is unchanged.
    pub fn move_to(&mut self, tag: u32)
        ensures
            *final(self) == (ManagedWindow {
                current_tag: spec_resolve_tag(old(self).allowed_tags, tag),
                ..*old(self)
            }),
            final(self).wf(),
    {
        match &self.allowed_tags {
            TagRules::All => {
                self.current_tag = tag;
            },
            TagRules::Only(allowed) => {
                if allowed.len() == 0 || contains_u32(allowed, tag) {
                    self.current_tag = tag;
                } else {
                    self.current_tag = allowed[0];
                }
            },
        }
    }

    pub fn current_tag(&self) -> (r: u32)
        ensures
            r == self.current_tag,
    {
        self.current_tag
    }

    pub fn allowed_tags(&self) -> (r: &TagRules)
        ensures
            r == &self.allowed_tags,
    {
        &self.allowed_tags
    }

    /// The window's extent, from its last known geometry.
    pub fn window_size(&self) -> (r: WindowSize)
        ensures
            r == (WindowSize { height: self.geometry.height, width: self.geometry.width }),
    {
        WindowSize { height: self.geometry.height, width: self.geometry.width }
    }

    /// Records a new extent; position and tag state are unchanged.
    pub fn resize_window(&mut self, window_size: WindowSize)
        ensures
            *final(self) == (ManagedWindow {
                geometry: Rect {
                    width: window_size.width,
                    height: window_size.height,
                    ..old(self).geometry
                },
                ..*old(self)
            }),
    {
        self.geometry.width = window_size.width;
        self.geometry.height = window_size.height;
    }

    /// The window's position, from its last known geometry.
    pub fn window_position(&self) -> (r: WindowPosition)
        ensures
            r == (WindowPosition { x: self.geometry.x, y: self.geometry.y }),
    {
        WindowPosition { x: self.geometry.x, y: self.geometry.y }
    }

    /// Records a new position and marks the window as placed.
    pub fn change_window_position(&mut self, window_position: WindowPosition)
        ensures
            *final(self) == (ManagedWindow {
                geometry: Rect {
                    x: window_position.x,
                    y: window_position.y,
                    ..old(self).geometry
                },
                placed: true,
                ..*old(self)
            }),
    {
        self.geometry.x = window_position.x;
        self.geometry.y = window_position.y;
        self.placed = true;
    }

    pub fn border_size(&self) -> (r: u16)
        ensures
            r == self.border_width,
    {
        self.border_width
    }

    pub fn change_border_size(&mut self, border_size: u16)
        ensures
            *final(self) == (ManagedWindow { border_width: border_size, ..*old(self) }),
    {
        self.border_width = border_size;
    }
}

/// Whether `v` holds `x`.
pub fn contains_u32(v: &Vec<u32>, x: u32) -> (r: bool)
    ensures
        r == v@.contains(x),
{
    let mut i: usize = 0;
    while i < v.len()
        invariant
            0 <= i <= v@.len(),
            forall|j: int| 0 <= j < i ==> v@[j] != x,
        decreases v@.len() - i,
    {
        if v[i] == x {
            return true;
        }
        i = i + 1;
    }
    false
}

/// A request for a tag the policy lists is adopted verbatim.
pub proof fn lemma_allowed_tag_adopted(rules: TagRules, requested: u32)
    requires
        rules matches TagRules::Only(allowed) && allowed@.contains(requested),
    ensures
        spec_resolve_tag(rules, requested) == requested,
{
}

/// A request for a tag the policy forbids is redirected to the first
/// listed tag, in configured order — never rejected, never left
/// undefined.
pub proof fn lemma_forbidden_tag_redirects(rules: TagRules, requested: u32)
    requires
        rules matches TagRules::Only(allowed) && allowed@.len() > 0 && !allowed@.contains(
            requested,
        ),
    ensures
        spec_resolve_tag(rules, requested) == rules->Only_0@[0],
        rules->Only_0@.contains(spec_resolve_tag(rules, requested)),
{
}

/// A policy that lists no tags allows every tag: any request is adopted
/// verbatim, exactly as under `TagRules::All`.
pub proof fn lemma_empty_allowed_set_accepts_any(rules: TagRules, requested: u32)
    requires
        rules matches TagRules::Only(allowed) && allowed@.len() == 0,
    ensures
        spec_resolve_tag(rules, requested) == requested,
        spec_resolve_tag(rules, requested) == spec_resolve_tag(TagRules::All, requested),
{
}

} // verus!
