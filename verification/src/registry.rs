//! The window registry: owns the set of managed windows, in registration
//! order, and resolves every tag change through each window's policy.

use vstd::prelude::*;

use crate::geometry::Rect;
use crate::layout::LayoutHandle;
use crate::window::ManagedWindow;
use crate::window::TagRules;
use crate::window::spec_resolve_tag;

verus! {

/// Why a registry operation was refused.
#[derive(Clone, Copy, PartialEq, Eq, Structural, Debug)]
pub enum RegistryError {
    /// `register` was given a window id that is already managed.
    AlreadyRegistered,
}

/// What the layout engine reads of a managed window.
pub open spec fn handle_of(w: ManagedWindow) -> LayoutHandle {
    LayoutHandle { window: w.window, geometry: w.geometry, placed: w.placed }
}

/// The windows left after unregistering `id`: every window with that id
/// is removed, the rest keep their order.
pub open spec fn spec_unregister(s: Seq<ManagedWindow>, id: u32) -> Seq<ManagedWindow>
    decreases s.len(),
{
    if s.len() == 0 {
        s
    } else if s.last().window == id {
        spec_unregister(s.drop_last(), id)
    } else {
        spec_unregister(s.drop_last(), id).push(s.last())
    }
}

/// The windows after a tag-change request for `id`: that window's tag is
/// resolved against its policy, everything else is untouched.
pub open spec fn spec_set_tag(s: Seq<ManagedWindow>, id: u32, tag: u32) -> Seq<ManagedWindow> {
    Seq::new(
        s.len(),
        |i: int|
            if s[i].window == id {
                ManagedWindow { current_tag: spec_resolve_tag(s[i].allowed_tags, tag), ..s[i] }
            } else {
                s[i]
            },
    )
}

/// The windows after a geometry report for `id`: that window's geometry
/// and border are replaced and it counts as placed; everything else is
/// untouched.
pub open spec fn spec_configure(
    s: Seq<ManagedWindow>,
    id: u32,
    geometry: Rect,
    border_width: u16,
) -> Seq<ManagedWindow> {
    Seq::new(
        s.len(),
        |i: int|
            if s[i].window == id {
                ManagedWindow { geometry, border_width, placed: true, ..s[i] }
            } else {
                s[i]
            },
    )
}

/// The current tag of the window latest registered under `id`, if any.
pub open spec fn spec_tag_of(s: Seq<ManagedWindow>, id: u32) -> Option<u32>
    decreases s.len(),
{
    if s.len() == 0 {
        None
    } else if s.last().window == id {
        Some(s.last().current_tag)
    } else {
        spec_tag_of(s.drop_last(), id)
    }
}

/// The ordered handles of the windows whose current tag is `tag`:
/// the workspace view the layout engine consumes, in registration order.
pub open spec fn spec_windows_on_tag(s: Seq<ManagedWindow>, tag: u32) -> Seq<LayoutHandle>
    decreases s.len(),
{
    if s.len() == 0 {
        Seq::empty()
    } else if s.last().current_tag == tag {
        spec_windows_on_tag(s.drop_last(), tag).push(handle_of(s.last()))
    } else {
        spec_windows_on_tag(s.drop_last(), tag)
    }
}

/// Whether some window in `s` has id `id`.
pub open spec fn spec_contains_id(s: Seq<ManagedWindow>, id: u32) -> bool {
    exists|i: int| 0 <= i < s.len() && (#[trigger] s[i]).window == id
}

/// The registry of managed windows, in registration order.
#[derive(Debug)]
pub struct WindowRegistry {
    pub windows: Vec<ManagedWindow>,
}

impl WindowRegistry {
    /// Ids are unique, and every window's tag obeys its policy.
    pub open spec fn wf(self) -> bool {
        &&& forall|i: int, j: int|
            0 <= i < j < self.windows@.len() ==> (#[trigger] self.windows@[i]).window != (
            #[trigger] self.windows@[j]).window
        &&& forall|i: int| 0 <= i < self.windows@.len() ==> (#[trigger] self.windows@[i]).wf()
    }

    /// An empty registry.
    pub fn new() -> (r: WindowRegistry)
        ensures
            r.windows@ =~= Seq::<ManagedWindow>::empty(),
            r.wf(),
    {
        WindowRegistry { windows: Vec::new() }
    }

    /// How many windows are managed.
    pub fn len(&self) -> (r: usize)
        ensures
            r == self.windows@.len(),
    {
        self.windows.len()
    }

    /// Whether the id is currently managed.
    pub fn contains_window(&self, window_id: u32) -> (r: bool)
        ensures
            r == spec_contains_id(self.windows@, window_id),
    {
        let mut i: usize = 0;
        while i < self.windows.len()
            invariant
                0 <= i <= self.windows@.len(),
                forall|j: int| 0 <= j < i ==> (#[trigger] self.windows@[j]).window != window_id,
            decreases self.windows@.len() - i,
        {
            if self.windows[i].window == window_id {
                return true;
            }
            i = i + 1;
        }
        false
    }

    /// The index of the window with the given id, if any.
    fn find_index(&self, window_id: u32) -> (r: Option<usize>)
        ensures
            match r {
                Some(idx) => 0 <= idx < self.windows@.len() && self.windows@[idx as int].window
                    == window_id,
                None => !spec_contains_id(self.windows@, window_id),
            },
    {
        let mut i: usize = 0;
        while i < self.windows.len()
            invariant
                0 <= i <= self.windows@.len(),
                forall|j: int| 0 <= j < i ==> (#[trigger] self.windows@[j]).window != window_id,
            decreases self.windows@.len() - i,
        {
            if self.windows[i].window == window_id {
                return Some(i);
            }
            i = i + 1;
        }
        None
    }

    /// Registers a window: refused if the id is already managed, else
    /// appended with its starting tag resolved against the policy.
    pub fn register(
        &mut self,
        window_id: u32,
        initial_tag: u32,
        rule: TagRules,
        geometry: Rect,
    ) -> (r: Result<(), RegistryError>)
        requires
            old(self).wf(),
        ensures
            final(self).wf(),
            spec_contains_id(old(self).windows@, window_id) ==> r == Err::<(), RegistryError>(
                RegistryError::AlreadyRegistered,
            ) && *final(self) == *old(self),
            !spec_contains_id(old(self).windows@, window_id) ==> r == Ok::<(), RegistryError>(())
                && final(self).windows@ == old(self).windows@.push(
                ManagedWindow {
                    window: window_id,
                    current_tag: spec_resolve_tag(rule, initial_tag),
                    allowed_tags: rule,
                    geometry,
                    border_width: 0,
                    placed: false,
                },
            ),
    {
        if self.contains_window(window_id) {
            return Err(RegistryError::AlreadyRegistered);
        }
        let w = ManagedWindow::new(window_id, initial_tag, rule, geometry);
        self.windows.push(w);
        Ok(())
    }

    /// Unregisters a window; a no-op when the id is not managed, since
    /// the display server may report the same destruction twice.
    pub fn unregister(&mut self, window_id: u32)
        requires
            old(self).wf(),
        ensures
            final(self).wf(),
            final(self).windows@ == spec_unregister(old(self).windows@, window_id),
            !spec_contains_id(old(self).windows@, window_id) ==> *final(self) == *old(self),
    {
        proof {
            lemma_unregister_unique(self.windows@, window_id);
        }
        match self.find_index(window_id) {
            None => {
                proof {
                    lemma_unregister_absent(self.windows@, window_id);
                }
            },
            Some(idx) => {
                self.windows.remove(idx);
                proof {
                    assert forall|i: int, j: int|
                        0 <= i < j < self.windows@.len() implies (
                    #[trigger] self.windows@[i]).window != (#[trigger] self.windows@[j]).window by {
                        assert(self.windows@[i] == if i < idx {
                            old(self).windows@[i]
                        } else {
                            old(self).windows@[i + 1]
                        });
                        assert(self.windows@[j] == if j < idx {
                            old(self).windows@[j]
                        } else {
                            old(self).windows@[j + 1]
                        });
                    }
                }
            },
        }
    }

    /// Requests a tag for a managed window; the adopted tag is the
    /// request resolved against the window's policy. A no-op when the
    /// id is not managed.
    pub fn set_tag(&mut self, window_id: u32, requested_tag: u32)
        requires
            old(self).wf(),
        ensures
            final(self).wf(),
            final(self).windows@ == spec_set_tag(old(self).windows@, window_id, requested_tag),
            !spec_contains_id(old(self).windows@, window_id) ==> *final(self) == *old(self),
    {
        match self.find_index(window_id) {
            None => {
                proof {
                    assert(spec_set_tag(self.windows@, window_id, requested_tag)
                        =~= self.windows@);
                }
            },
            Some(idx) => {
                let mut w = self.windows.remove(idx);
                w.move_to(requested_tag);
                self.windows.insert(idx, w);
                proof {
                    assert(self.windows@ =~= spec_set_tag(
                        old(self).windows@,
                        window_id,
                        requested_tag,
                    ));
                }
            },
        }
    }

    /// Records a reported geometry for a managed window, which then
    /// counts as placed. A no-op when the id is not managed.
    pub fn configure(&mut self, window_id: u32, geometry: Rect, border_width: u16)
        requires
            old(self).wf(),
        ensures
            final(self).wf(),
            final(self).windows@ == spec_configure(
                old(self).windows@,
                window_id,
                geometry,
                border_width,
            ),
            !spec_contains_id(old(self).windows@, window_id) ==> *final(self) == *old(self),
    {
        match self.find_index(window_id) {
            None => {
                proof {
                    assert(spec_configure(self.windows@, window_id, geometry, border_width)
                        =~= self.windows@);
                }
            },
            Some(idx) => {
                let mut w = self.windows.remove(idx);
                w.geometry = geometry;
                w.border_width = border_width;
                w.placed = true;
                self.windows.insert(idx, w);
                proof {
                    assert(self.windows@ =~= spec_configure(
                        old(self).windows@,
                        window_id,
                        geometry,
                        border_width,
                    ));
                }
            },
        }
    }

    /// The current tag of the managed window with this id, if any.
    pub fn tag_of(&self, window_id: u32) -> (r: Option<u32>)
        ensures
            r == spec_tag_of(self.windows@, window_id),
    {
        let mut i: usize = self.windows.len();
        proof {
            assert(self.windows@.subrange(0, self.windows@.len() as int) =~= self.windows@);
        }
        while i > 0
            invariant
                0 <= i <= self.windows@.len(),
                spec_tag_of(self.windows@, window_id) == spec_tag_of(
                    self.windows@.subrange(0, i as int),
                    window_id,
                ),
            decreases i,
        {
            i = i - 1;
            let w = &self.windows[i];
            if w.window == window_id {
                proof {
                    assert(self.windows@.subrange(0, i as int + 1).last() == self.windows@[
                    i as int]);
                }
                return Some(w.current_tag);
            }
            proof {
                assert(self.windows@.subrange(0, i as int + 1).drop_last()
                    =~= self.windows@.subrange(0, i as int));
            }
        }
        proof {
            assert(self.windows@.subrange(0, 0) =~= Seq::<ManagedWindow>::empty());
        }
        None
    }

    /// The windows currently on `tag`, as layout handles, in
    /// registration order.
    pub fn windows_on_tag(&self, tag: u32) -> (r: Vec<LayoutHandle>)
        ensures
            r@ == spec_windows_on_tag(self.windows@, tag),
    {
        let mut r: Vec<LayoutHandle> = Vec::new();
        let mut i: usize = 0;
        while i < self.windows.len()
            invariant
                0 <= i <= self.windows@.len(),
                r@ == spec_windows_on_tag(self.windows@.subrange(0, i as int), tag),
            decreases self.windows@.len() - i,
        {
            let w = &self.windows[i];
            if w.current_tag == tag {
                r.push(LayoutHandle { window: w.window, geometry: w.geometry, placed: w.placed });
            }
            i = i + 1;
            proof {
                assert(self.windows@.subrange(0, i as int).drop_last() =~= self.windows@.subrange(
                    0,
                    i as int - 1,
                ));
            }
        }
        proof {
            assert(self.windows@.subrange(0, self.windows@.len() as int) =~= self.windows@);
        }
        r
    }
}

/// Unregistering an id that no window has changes nothing.
pub proof fn lemma_unregister_absent(s: Seq<ManagedWindow>, id: u32)
    requires
        !spec_contains_id(s, id),
    ensures
        spec_unregister(s, id) == s,
    decreases s.len(),
{
    if s.len() > 0 {
        assert(!spec_contains_id(s.drop_last(), id));
        lemma_unregister_absent(s.drop_last(), id);
        assert(spec_unregister(s, id) =~= s);
    }
}

/// No window with the unregistered id survives the operation.
pub proof fn lemma_unregister_removes(s: Seq<ManagedWindow>, id: u32)
    ensures
        !spec_contains_id(spec_unregister(s, id), id),
        spec_unregister(s, id).len() <= s.len(),
    decreases s.len(),
{
    if s.len() > 0 {
        lemma_unregister_removes(s.drop_last(), id);
    }
}

/// Law: unregistering is idempotent. Unregistering an id a second time
/// is a no-op — the set of windows, and so the registry size, is the
/// same before and after, and no error arises.
pub proof fn lemma_unregister_idempotent(s: Seq<ManagedWindow>, id: u32)
    ensures
        spec_unregister(spec_unregister(s, id), id) == spec_unregister(s, id),
{
    lemma_unregister_removes(s, id);
    lemma_unregister_absent(spec_unregister(s, id), id);
}

/// When `id` occurs exactly once, at `idx`, unregistering it removes
/// exactly that element.
proof fn lemma_unregister_at(s: Seq<ManagedWindow>, id: u32, idx: int)
    requires
        0 <= idx < s.len(),
        s[idx].window == id,
        forall|j: int| 0 <= j < s.len() && j != idx ==> (#[trigger] s[j]).window != id,
    ensures
        spec_unregister(s, id) == s.remove(idx),
    decreases s.len(),
{
    if idx == s.len() - 1 {
        assert(!spec_contains_id(s.drop_last(), id));
        lemma_unregister_absent(s.drop_last(), id);
        assert(spec_unregister(s, id) =~= s.remove(idx));
    } else {
        assert(s.last().window != id);
        lemma_unregister_at(s.drop_last(), id, idx);
        assert(spec_unregister(s, id) =~= s.remove(idx));
    }
}

/// In a registry with unique ids, unregistering removes the element at
/// the id's index, or nothing when the id is absent.
proof fn lemma_unregister_unique(s: Seq<ManagedWindow>, id: u32)
    requires
        forall|i: int, j: int|
            0 <= i < j < s.len() ==> (#[trigger] s[i]).window != (#[trigger] s[j]).window,
    ensures
        forall|idx: int|
            0 <= idx < s.len() && (#[trigger] s[idx]).window == id ==> spec_unregister(s, id)
                == s.remove(idx),
{
    assert forall|idx: int|
        0 <= idx < s.len() && (#[trigger] s[idx]).window == id implies spec_unregister(s, id)
        == s.remove(idx) by {
        assert forall|j: int| 0 <= j < s.len() && j != idx implies (#[trigger] s[j]).window
            != id by {
            if j < idx {
                assert(s[j].window != s[idx].window);
            } else {
                assert(s[idx].window != s[j].window);
            }
        }
        lemma_unregister_at(s, id, idx);
    }
}

/// Registering a window extends the workspace view of exactly its tag:
/// the view of that tag grows by the new window's handle at the end;
/// the view of every other tag is unchanged.
pub proof fn lemma_windows_on_tag_push(s: Seq<ManagedWindow>, w: ManagedWindow, tag: u32)
    ensures
        w.current_tag == tag ==> spec_windows_on_tag(s.push(w), tag) == spec_windows_on_tag(
            s,
            tag,
        ).push(handle_of(w)),
        w.current_tag != tag ==> spec_windows_on_tag(s.push(w), tag) == spec_windows_on_tag(s, tag),
{
    assert(s.push(w).drop_last() =~= s);
    assert(s.push(w).last() == w);
}

} // verus!
