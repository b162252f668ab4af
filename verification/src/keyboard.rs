//! The keyboard subsystem: tracks which symbolic keys are held and
//! matches the held set against the configured chords.
//!
//! Matching policy, evaluated after every press: among the bindings
//! whose chord is a subset of the held keys, the largest chord wins;
//! ties go to the binding declared first. One command fires per press
//! that makes a new binding maximal; a press that leaves the maximal
//! binding unchanged fires nothing, so a chord cannot repeat-fire while
//! it stays held. Releasing any key of the armed chord disarms it, so
//! the same chord can fire again after a fresh press sequence.

use vstd::prelude::*;
use vstd::string::StrSliceExecFns;

use crate::keycodes::KeyCode;
use crate::keycodes::key_from_label;
use crate::keycodes::spec_key_of_label;
use crate::keycodes::spec_keycode_of;

verus! {

/// A configured chord — an unordered set of symbolic keys — and the
/// command it triggers.
#[derive(Debug)]
pub struct KeyCombination {
    pub combination: Vec<KeyCode>,
    pub command: String,
}

impl KeyCombination {
    pub fn new(combination: Vec<KeyCode>, command: String) -> (r: KeyCombination)
        ensures
            r == (KeyCombination { combination, command }),
    {
        KeyCombination { combination, command }
    }
}

/// Whether every key of `chord` is currently held.
pub open spec fn chord_matches(chord: Seq<KeyCode>, pressed: Seq<KeyCode>) -> bool {
    forall|i: int| 0 <= i < chord.len() ==> pressed.contains(#[trigger] chord[i])
}

/// Whether binding `i`'s chord is a subset of the held keys.
pub open spec fn binding_matches(
    bindings: Seq<KeyCombination>,
    pressed: Seq<KeyCode>,
    i: int,
) -> bool {
    chord_matches(bindings[i].combination@, pressed)
}

/// Whether binding `i` is the match that wins: its chord is held, and
/// every other held chord is smaller, or of equal size but declared
/// later.
pub open spec fn is_best_match(
    bindings: Seq<KeyCombination>,
    pressed: Seq<KeyCode>,
    i: int,
) -> bool {
    &&& 0 <= i < bindings.len()
    &&& binding_matches(bindings, pressed, i)
    &&& forall|j: int|
        0 <= j < bindings.len() && #[trigger] binding_matches(bindings, pressed, j) ==> bindings[j].combination@.len()
            < bindings[i].combination@.len() || (bindings[j].combination@.len()
            == bindings[i].combination@.len() && i <= j)
}

/// The held keys after a press: added once; a key already held is left
/// alone, so duplicate press reports are harmless.
pub open spec fn spec_press(pressed: Seq<KeyCode>, key: KeyCode) -> Seq<KeyCode> {
    if pressed.contains(key) {
        pressed
    } else {
        pressed.push(key)
    }
}

/// The held keys after a release: every copy of the key is dropped, the
/// rest keep their order; releasing a key not held is a no-op.
pub open spec fn spec_release(pressed: Seq<KeyCode>, key: KeyCode) -> Seq<KeyCode>
    decreases pressed.len(),
{
    if pressed.len() == 0 {
        pressed
    } else if pressed.last() == key {
        spec_release(pressed.drop_last(), key)
    } else {
        spec_release(pressed.drop_last(), key).push(pressed.last())
    }
}

/// A key survives a release exactly when it was held and is not the
/// released key.
pub proof fn lemma_release_contains(pressed: Seq<KeyCode>, key: KeyCode, x: KeyCode)
    ensures
        spec_release(pressed, key).contains(x) <==> (pressed.contains(x) && x != key),
    decreases pressed.len(),
{
    if pressed.len() > 0 {
        let d = pressed.drop_last();
        let last = pressed.last();
        lemma_release_contains(d, key, x);
        if d.contains(x) {
            let w = choose|w: int| 0 <= w < d.len() && d[w] == x;
            assert(pressed[w] == x);
            assert(pressed.contains(x));
        }
        if pressed.contains(x) && x != last {
            let w = choose|w: int| 0 <= w < pressed.len() && pressed[w] == x;
            assert(d[w] == x);
            assert(d.contains(x));
        }
        if last != key {
            let r0 = spec_release(d, key);
            if r0.push(last).contains(x) {
                let w = choose|w: int| 0 <= w < r0.push(last).len() && r0.push(last)[w] == x;
                if w < r0.len() {
                    assert(r0[w] == x);
                    assert(r0.contains(x));
                } else {
                    assert(last == x);
                    assert(pressed[pressed.len() - 1] == x);
                    assert(pressed.contains(x));
                }
            }
            if pressed.contains(x) && x != key {
                if x == last {
                    assert(r0.push(last)[r0.len() as int] == x);
                    assert(r0.push(last).contains(x));
                } else {
                    let w = choose|w: int| 0 <= w < r0.len() && r0[w] == x;
                    assert(r0.push(last)[w] == x);
                    assert(r0.push(last).contains(x));
                }
            }
        }
    }
}

/// Law: at most one binding is the best match — the policy is
/// deterministic. Two best matches must have equal chord sizes and each
/// must be declared no later than the other.
pub proof fn lemma_best_match_unique(
    bindings: Seq<KeyCombination>,
    pressed: Seq<KeyCode>,
    i: int,
    j: int,
)
    requires
        is_best_match(bindings, pressed, i),
        is_best_match(bindings, pressed, j),
    ensures
        i == j,
{
}

/// How one press transforms the handler and what it fires: the
/// classified key joins the held set once; if some binding is now the
/// best match and was not armed before, exactly its command fires and
/// it becomes armed; a press that changes nothing maximal, or leaves no
/// chord fully held, fires nothing.
pub open spec fn press_transition(
    oldk: KeyboardEventHandler,
    newk: KeyboardEventHandler,
    raw_code: u8,
    fired: Option<String>,
) -> bool {
    &&& newk.bindings@ == oldk.bindings@
    &&& newk.input_buffer@ == spec_press(oldk.input_buffer@, spec_keycode_of(raw_code))
    &&& forall|i: int|
        is_best_match(newk.bindings@, newk.input_buffer@, i) ==> {
            &&& newk.armed == Some(i as usize)
            &&& if oldk.armed == Some(i as usize) {
                fired is None
            } else {
                fired matches Some(cmd) && cmd == newk.bindings@[i].command
            }
        }
    &&& (forall|j: int|
        0 <= j < newk.bindings@.len() ==> !binding_matches(newk.bindings@, newk.input_buffer@, j))
        ==> fired is None && newk.armed == oldk.armed
}

/// How one release transforms the handler: the classified key leaves
/// the held set (a release of a key not held is a no-op), and a release
/// of any key of the armed chord disarms the handler.
pub open spec fn release_transition(
    oldk: KeyboardEventHandler,
    newk: KeyboardEventHandler,
    raw_code: u8,
) -> bool {
    &&& newk.bindings@ == oldk.bindings@
    &&& newk.input_buffer@ == spec_release(oldk.input_buffer@, spec_keycode_of(raw_code))
    &&& newk.armed == match oldk.armed {
        Some(i) => if oldk.bindings@[i as int].combination@.contains(spec_keycode_of(raw_code)) {
            None::<usize>
        } else {
            Some(i)
        },
        None => None::<usize>,
    }
}

/// The keyboard-event handler: the keys currently held, the configured
/// bindings, and which binding is currently armed (has fired and is
/// still fully held).
#[derive(Debug)]
pub struct KeyboardEventHandler {
    pub input_buffer: Vec<KeyCode>,
    pub bindings: Vec<KeyCombination>,
    pub armed: Option<usize>,
}

impl KeyboardEventHandler {
    /// No key is recorded twice, and an armed binding exists and is
    /// fully held.
    pub open spec fn wf(self) -> bool {
        &&& self.input_buffer@.no_duplicates()
        &&& match self.armed {
            Some(i) => i < self.bindings@.len() && binding_matches(
                self.bindings@,
                self.input_buffer@,
                i as int,
            ),
            None => true,
        }
    }

    /// A fresh handler: nothing held, nothing configured, nothing armed.
    pub fn new() -> (r: KeyboardEventHandler)
        ensures
            r.input_buffer@ =~= Seq::<KeyCode>::empty(),
            r.bindings@ =~= Seq::<KeyCombination>::empty(),
            r.armed is None,
            r.wf(),
    {
        KeyboardEventHandler { input_buffer: Vec::new(), bindings: Vec::new(), armed: None }
    }

    /// The keys currently held, in the order they went down.
    pub fn input_buffer(&self) -> (r: &Vec<KeyCode>)
        ensures
            r == &self.input_buffer,
    {
        &self.input_buffer
    }

    /// Appends a binding; it ranks after every binding already
    /// configured when chord sizes tie.
    pub fn add_binding(&mut self, binding: KeyCombination)
        requires
            old(self).wf(),
        ensures
            final(self).wf(),
            final(self).bindings@ == old(self).bindings@.push(binding),
            final(self).input_buffer@ == old(self).input_buffer@,
            final(self).armed == old(self).armed,
    {
        self.bindings.push(binding);
    }

    /// Records a press of the raw code and evaluates the chords: the
    /// classified key is added to the held set (once), and if that makes
    /// some binding the new best match, exactly its command fires and it
    /// becomes armed. A press that leaves the best match unchanged, or
    /// leaves no chord fully held, fires nothing.
    #[verifier::rlimit(30)]
    pub fn on_press(&mut self, raw_code: u8) -> (fired: Option<String>)
        requires
            old(self).wf(),
        ensures
            final(self).wf(),
            press_transition(*old(self), *final(self), raw_code, fired),
    {
        let key = KeyCode::from(raw_code);
        if !contains_key(&self.input_buffer, key) {
            self.input_buffer.push(key);
        }
        let best = find_best_match(&self.bindings, &self.input_buffer);
        proof {
            if best is Some {
                assert forall|i: int|
                    is_best_match(self.bindings@, self.input_buffer@, i) implies i
                    == best->0 as int by {
                    lemma_best_match_unique(
                        self.bindings@,
                        self.input_buffer@,
                        i,
                        best->0 as int,
                    );
                }
            } else {
                if self.armed is Some {
                    let a = self.armed->0;
                    let chord = self.bindings@[a as int].combination@;
                    assert forall|t: int| 0 <= t < chord.len() implies self.input_buffer@.contains(
                        #[trigger] chord[t],
                    ) by {
                        assert(old(self).input_buffer@.contains(chord[t]));
                        let w = choose|w: int|
                            0 <= w < old(self).input_buffer@.len() && old(self).input_buffer@[w]
                                == chord[t];
                        assert(self.input_buffer@[w] == chord[t]);
                    }
                    assert(binding_matches(self.bindings@, self.input_buffer@, a as int));
                    assert(false);
                }

            }
        }
        let fired: Option<String> = match best {
            Some(i) => {
                proof {
                    assert(is_best_match(self.bindings@, self.input_buffer@, i as int));
                    assert(binding_matches(self.bindings@, self.input_buffer@, i as int));
                }
                let was_armed = match self.armed {
                    Some(a) => a == i,
                    None => false,
                };
                self.armed = Some(i);
                if was_armed {
                    None
                } else {
                    Some(self.bindings[i].command.clone())
                }
            },
            None => None,
        };
        proof {
            assert(self.bindings@ == old(self).bindings@);
            assert(self.input_buffer@ == spec_press(
                old(self).input_buffer@,
                spec_keycode_of(raw_code),
            ));
            assert forall|i: int|
                is_best_match(self.bindings@, self.input_buffer@, i) implies {
                &&& self.armed == Some(i as usize)
                &&& if old(self).armed == Some(i as usize) {
                    fired is None
                } else {
                    fired matches Some(cmd) && cmd == self.bindings@[i].command
                }
            } by {
                assert(0 <= i < self.bindings@.len());
            }
            assert((forall|j: int|
                0 <= j < self.bindings@.len() ==> !binding_matches(
                    self.bindings@,
                    self.input_buffer@,
                    j,
                )) ==> fired is None && self.armed == old(self).armed);
            assert(press_transition(*old(self), *self, raw_code, fired));
        }
        fired
    }

    /// Records a release of the raw code: the classified key leaves the
    /// held set (a release of a key not held is a no-op), and if the key
    /// belongs to the armed chord, the handler disarms so that chord can
    /// fire again after a fresh press sequence.
    pub fn on_relese(&mut self, raw_code: u8)
        requires
            old(self).wf(),
        ensures
            final(self).wf(),
            release_transition(*old(self), *final(self), raw_code),
    {
        let key = KeyCode::from(raw_code);
        let n = self.input_buffer.len();
        let mut kept: Vec<KeyCode> = Vec::new();
        let mut i: usize = 0;
        while i < n
            invariant
                n == self.input_buffer@.len(),
                0 <= i <= n,
                key == spec_keycode_of(raw_code),
                kept@ == spec_release(self.input_buffer@.subrange(0, i as int), key),
                old(self).input_buffer@ == self.input_buffer@,
                *old(self) == *self,
            decreases n - i,
        {
            let k = self.input_buffer[i];
            if !(k == key) {
                kept.push(k);
            }
            i = i + 1;
            proof {
                assert(self.input_buffer@.subrange(0, i as int).drop_last()
                    =~= self.input_buffer@.subrange(0, i as int - 1));
            }
        }
        proof {
            assert(self.input_buffer@.subrange(0, n as int) =~= self.input_buffer@);
            lemma_release_no_duplicates(self.input_buffer@, key);
        }
        self.input_buffer = kept;
        match self.armed {
            Some(a) => {
                if contains_key(&self.bindings[a].combination, key) {
                    self.armed = None;
                } else {
                    proof {
                        let chord = self.bindings@[a as int].combination@;
                        assert forall|t: int| 0 <= t < chord.len() implies self.input_buffer@
                            .contains(#[trigger] chord[t]) by {
                            lemma_release_contains(old(self).input_buffer@, key, chord[t]);
                        }
                    }
                }
            },
            None => {},
        }
    }
}

/// Whether the vector holds the key.
pub fn contains_key(v: &Vec<KeyCode>, key: KeyCode) -> (r: bool)
    ensures
        r == v@.contains(key),
{
    let mut i: usize = 0;
    while i < v.len()
        invariant
            0 <= i <= v@.len(),
            forall|j: int| 0 <= j < i ==> v@[j] != key,
        decreases v@.len() - i,
    {
        if v[i] == key {
            return true;
        }
        i = i + 1;
    }
    false
}

/// Releasing a key keeps the held set free of duplicates.
proof fn lemma_release_no_duplicates(pressed: Seq<KeyCode>, key: KeyCode)
    requires
        pressed.no_duplicates(),
    ensures
        spec_release(pressed, key).no_duplicates(),
    decreases pressed.len(),
{
    if pressed.len() > 0 {
        assert(pressed.drop_last().no_duplicates());
        lemma_release_no_duplicates(pressed.drop_last(), key);
        if pressed.last() != key {
            let r = spec_release(pressed.drop_last(), key);
            assert forall|t: int| 0 <= t < r.len() implies r[t] != pressed.last() by {
                assert(r.contains(r[t]));
                lemma_release_contains(pressed.drop_last(), key, r[t]);
                let s = choose|s: int| 0 <= s < pressed.drop_last().len() && pressed.drop_last()[s]
                    == r[t];
                assert(pressed[s] == r[t]);
            }
        }
    }
}

/// Whether every key of `chord` is in `pressed`.
fn chord_is_held(chord: &Vec<KeyCode>, pressed: &Vec<KeyCode>) -> (r: bool)
    ensures
        r == chord_matches(chord@, pressed@),
{
    let mut i: usize = 0;
    while i < chord.len()
        invariant
            0 <= i <= chord@.len(),
            forall|j: int| 0 <= j < i ==> pressed@.contains(#[trigger] chord@[j]),
        decreases chord@.len() - i,
    {
        if !contains_key(pressed, chord[i]) {
            return false;
        }
        i = i + 1;
    }
    true
}

/// Finds the binding that wins on the held keys: the largest fully held
/// chord, ties to the binding declared first; `None` when no chord is
/// fully held.
fn find_best_match(bindings: &Vec<KeyCombination>, pressed: &Vec<KeyCode>) -> (r: Option<usize>)
    ensures
        match r {
            Some(i) => is_best_match(bindings@, pressed@, i as int),
            None => forall|j: int|
                0 <= j < bindings@.len() ==> !binding_matches(bindings@, pressed@, j),
        },
{
    let mut best: Option<usize> = None;
    let mut i: usize = 0;
    while i < bindings.len()
        invariant
            0 <= i <= bindings@.len(),
            match best {
                Some(b) => b < i && binding_matches(bindings@, pressed@, b as int) && forall|j: int|
                    0 <= j < i && #[trigger] binding_matches(bindings@, pressed@, j)
                        ==> bindings@[j].combination@.len() < bindings@[b as int].combination@.len()
                        || (bindings@[j].combination@.len()
                        == bindings@[b as int].combination@.len() && b <= j),
                None => forall|j: int|
                    0 <= j < i ==> !binding_matches(bindings@, pressed@, j),
            },
        decreases bindings@.len() - i,
    {
        if chord_is_held(&bindings[i].combination, pressed) {
            match best {
                Some(b) => {
                    if bindings[i].combination.len() > bindings[b].combination.len() {
                        best = Some(i);
                    }
                },
                None => {
                    best = Some(i);
                },
            }
        }
        i = i + 1;
    }
    best
}

/// The position of the leftmost chord separator `" + "` at or after
/// `from`, if any.
pub open spec fn spec_find_sep(s: Seq<char>, from: int) -> Option<int>
    decreases s.len() - from,
{
    if from < 0 || from + 3 > s.len() {
        None
    } else if s.subrange(from, from + 3) == " + "@ {
        Some(from)
    } else {
        spec_find_sep(s, from + 1)
    }
}

/// The keys a combination string names: its `" + "`-separated tokens,
/// each looked up as a key label, leftmost separator first. `None` as
/// soon as one token is no key label.
pub open spec fn spec_parse_combination(s: Seq<char>) -> Option<Seq<KeyCode>>
    decreases s.len(),
{
    match spec_find_sep(s, 0) {
        None => match spec_key_of_label(s) {
            None => None,
            Some(k) => Some(seq![k]),
        },
        Some(p) => if 0 <= p && p + 3 <= s.len() {
            match spec_key_of_label(s.subrange(0, p)) {
                None => None,
                Some(k) => match spec_parse_combination(s.subrange(p + 3, s.len() as int)) {
                    None => None,
                    Some(ks) => Some(seq![k] + ks),
                },
            }
        } else {
            None
        },
    }
}

/// A found separator lies in range and is the string `" + "` there.
proof fn lemma_find_sep_bounds(s: Seq<char>, from: int)
    requires
        spec_find_sep(s, from) is Some,
    ensures
        from <= spec_find_sep(s, from)->0,
        spec_find_sep(s, from)->0 + 3 <= s.len(),
    decreases s.len() - from,
{
    if !(from < 0 || from + 3 > s.len()) && !(s.subrange(from, from + 3) == " + "@) {
        lemma_find_sep_bounds(s, from + 1);
    }
}

/// Finds the leftmost chord separator in the string.
fn find_sep(s: &str) -> (r: Option<usize>)
    ensures
        r matches Some(p) ==> spec_find_sep(s@, 0) == Some(p as int),
        r is None ==> spec_find_sep(s@, 0) is None,
{
    let n = s.unicode_len();
    let mut i: usize = 0;
    loop
        invariant
            0 <= i <= n,
            n == s@.len(),
            spec_find_sep(s@, 0) == spec_find_sep(s@, i as int),
        ensures
            i + 3 <= n,
            s@.subrange(i as int, i as int + 3) == " + "@,
            spec_find_sep(s@, 0) == Some(i as int),
        decreases n - i,
    {
        if n < 3 || i > n - 3 {
            proof {
                assert(i as int + 3 > s@.len());
                assert(spec_find_sep(s@, i as int) is None);
            }
            return None;
        }
        let c0 = s.get_char(i);
        let c1 = s.get_char(i + 1);
        let c2 = s.get_char(i + 2);
        proof {
            reveal_strlit(" + ");
        }
        if c0 == ' ' && c1 == '+' && c2 == ' ' {
            proof {
                assert(s@.subrange(i as int, i as int + 3) =~= " + "@);
            }
            break;
        }
        proof {
            if s@.subrange(i as int, i as int + 3) == " + "@ {
                assert(s@.subrange(i as int, i as int + 3)[0] == ' ');
                assert(s@.subrange(i as int, i as int + 3)[1] == '+');
                assert(s@.subrange(i as int, i as int + 3)[2] == ' ');
                assert(false);
            }
        }
        i = i + 1;
    }
    Some(i)
}

/// Parses one combination string into its keys, per
/// `spec_parse_combination`.
fn parse_combination_str(s: &str) -> (r: Result<Vec<KeyCode>, ()>)
    ensures
        r matches Ok(keys) ==> spec_parse_combination(s@) == Some(keys@),
        r is Err ==> spec_parse_combination(s@) is None,
    decreases s@.len(),
{
    match find_sep(s) {
        None => {
            match key_from_label(s) {
                None => Err(()),
                Some(k) => {
                    let mut keys: Vec<KeyCode> = Vec::new();
                    keys.push(k);
                    proof {
                        assert(keys@ =~= seq![k]);
                    }
                    Ok(keys)
                },
            }
        },
        Some(p) => {
            proof {
                lemma_find_sep_bounds(s@, 0);
            }
            let n = s.unicode_len();
            let head = s.substring_char(0, p);
            let tail = s.substring_char(p + 3, n);
            match key_from_label(head) {
                None => Err(()),
                Some(k) => {
                    match parse_combination_str(tail) {
                        Err(()) => Err(()),
                        Ok(mut keys) => {
                            keys.insert(0, k);
                            proof {
                                assert(keys@ =~= seq![k] + keys@.subrange(1, keys@.len() as int));
                            }
                            Ok(keys)
                        },
                    }
                },
            }
        },
    }
}

/// Parses a configured chord: the combination string is split on
/// `" + "` and each token is looked up as a key label. The whole
/// combination is rejected as soon as one token names no key.
pub fn parce_combination(combination: String) -> (r: Result<Vec<KeyCode>, ()>)
    ensures
        r matches Ok(keys) ==> spec_parse_combination(combination@) == Some(keys@),
        r is Err ==> spec_parse_combination(combination@) is None,
{
    parse_combination_str(combination.as_str())
}

} // verus!
