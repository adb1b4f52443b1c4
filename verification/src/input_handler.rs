//! The per-frame input snapshot: the mouse position in window pixels, the
//! mouse buttons, and the pressed state of every tracked key.
//!
//! Key codes are small integers; the windowing layer translates its own
//! key events to these codes before handing them in. The pressed states
//! live in a hash map whose contents are tracked as a `Map` view.

use vstd::prelude::*;

verus! {

/// How many distinct key codes the handler tracks.
pub const KEY_CODE_COUNT: u32 = 134;

/// The pressed state of every tracked key, stored in a hash map keyed by
/// key code.
#[verifier::external_body]
pub struct KeyStore {
    map: hashbrown::HashMap<u32, bool>,
}

/// The contents of a key store: which code maps to which pressed state.
pub uninterp spec fn key_states(ks: KeyStore) -> Map<u32, bool>;

/// A key counts as pressed when the map holds `true` for it; a key the map
/// does not know is not pressed.
pub open spec fn key_pressed(m: Map<u32, bool>, key: u32) -> bool {
    m.dom().contains(key) && m[key]
}

/// Every tracked key code, none of them pressed.
pub open spec fn all_keys_released() -> Map<u32, bool> {
    Map::new(|k: u32| k < KEY_CODE_COUNT, |k: u32| false)
}

/// A key store content with no key at all.
pub open spec fn no_keys() -> Map<u32, bool> {
    Map::empty()
}

/// Relies on hashbrown::HashMap::new: a freshly created map is empty.
#[verifier::external_body]
fn key_store_new() -> (r: KeyStore)
    ensures
        key_states(r) == no_keys(),
{
    KeyStore { map: hashbrown::HashMap::new() }
}

/// Relies on hashbrown::HashMap::insert: the key now maps to the given
/// value and every other key keeps its state.
#[verifier::external_body]
fn key_store_set(ks: &mut KeyStore, key: u32, pressed: bool)
    ensures
        key_states(*final(ks)) == key_states(*old(ks)).insert(key, pressed),
{
    ks.map.insert(key, pressed);
}

/// Relies on hashbrown::HashMap::get: the value stored under the key, or
/// `None` when the map does not know it.
#[verifier::external_body]
fn key_store_get(ks: &KeyStore, key: u32) -> (r: Option<bool>)
    ensures
        r matches Some(v) ==> key_states(*ks).dom().contains(key) && key_states(*ks)[key] == v,
        r is None ==> !key_states(*ks).dom().contains(key),
{
    ks.map.get(&key).copied()
}

/// Relies on hashbrown::HashMap::iter: every stored entry is yielded
/// exactly once, in no particular order.
#[verifier::external_body]
fn key_store_entries(ks: &KeyStore) -> (r: Vec<(u32, bool)>)
    ensures
        forall|i: int|
            0 <= i < r@.len() ==> key_states(*ks).dom().contains(#[trigger] r@[i].0) && key_states(
                *ks,
            )[r@[i].0] == r@[i].1,
        forall|k: u32|
            key_states(*ks).dom().contains(k) ==> exists|i: int|
                0 <= i < r@.len() && (#[trigger] r@[i]).0 == k,
        forall|i: int, j: int| 0 <= i < j < r@.len() ==> r@[i].0 != r@[j].0,
{
    ks.map.iter().map(|(k, v)| (*k, *v)).collect()
}

/// A window event reduced to the plain values input handling reads: the
/// windowing layer turns its own event type into this one.
#[derive(Clone, Copy, Debug, PartialEq, Eq, Structural)]
pub enum WindowInputEvent {
    /// The mouse moved to this position, in window pixels.
    CursorMoved { x: i32, y: i32 },
    /// A key went down or up.
    Key { code: u32, pressed: bool },
    /// Anything else; input handling does not consume it.
    Other,
}

/// The input snapshot handed to every component update: mouse position,
/// mouse buttons, and the pressed state of each tracked key.
pub struct InputHandler {
    pub key_presses: KeyStore,
    pub mouse_x: i32,
    pub mouse_y: i32,
    pub mouse_buttons: [bool; 3],
}

/// A key store that knows every tracked key code and holds each released.
fn create_keyboard_hash_map() -> (ks: KeyStore)
    ensures
        key_states(ks) == all_keys_released(),
{
    let mut ks = key_store_new();
    let mut code: u32 = 0;
    proof {
        assert(key_states(ks) =~= Map::<u32, bool>::new(|k: u32| k < 0u32, |k: u32| false));
    }
    while code < KEY_CODE_COUNT
        invariant
            code <= KEY_CODE_COUNT,
            key_states(ks) == Map::<u32, bool>::new(|k: u32| k < code, |k: u32| false),
        decreases KEY_CODE_COUNT - code,
    {
        key_store_set(&mut ks, code, false);
        proof {
            assert(key_states(ks) =~= Map::<u32, bool>::new(
                |k: u32| k < code + 1,
                |k: u32| false,
            ));
        }
        code = code + 1;
    }
    ks
}

impl InputHandler {
    /// A fresh snapshot: the mouse at the origin, no button down, every
    /// tracked key released.
    pub fn new_default() -> (h: InputHandler)
        ensures
            key_states(h.key_presses) == all_keys_released(),
            h.mouse_x == 0,
            h.mouse_y == 0,
            h.mouse_buttons@ == seq![false, false, false],
    {
        let h = InputHandler {
            key_presses: create_keyboard_hash_map(),
            mouse_x: 0,
            mouse_y: 0,
            mouse_buttons: [false, false, false],
        };
        proof {
            assert(h.mouse_buttons@ =~= seq![false, false, false]);
        }
        h
    }

    /// Record a new mouse position, leaving keys and buttons untouched.
    pub fn set_mouse_position(&mut self, x: i32, y: i32)
        ensures
            final(self).mouse_x == x,
            final(self).mouse_y == y,
            final(self).key_presses == old(self).key_presses,
            final(self).mouse_buttons == old(self).mouse_buttons,
    {
        self.mouse_x = x;
        self.mouse_y = y;
    }

    /// Record that a key went down or up, leaving everything else
    /// untouched.
    pub fn set_key_state(&mut self, key: u32, pressed: bool)
        ensures
            key_states(final(self).key_presses) == key_states(old(self).key_presses).insert(
                key,
                pressed,
            ),
            final(self).mouse_x == old(self).mouse_x,
            final(self).mouse_y == old(self).mouse_y,
            final(self).mouse_buttons == old(self).mouse_buttons,
    {
        key_store_set(&mut self.key_presses, key, pressed);
    }

    /// Feed one window event into the snapshot: a mouse move updates the
    /// position, a key event updates that key's state, anything else is
    /// left to the caller. Returns whether the event was consumed here.
    pub fn handle_window_event(&mut self, event: WindowInputEvent) -> (handled: bool)
        ensures
            handled == !(event is Other),
            event matches WindowInputEvent::CursorMoved { x, y } ==> {
                &&& final(self).mouse_x == x
                &&& final(self).mouse_y == y
                &&& final(self).key_presses == old(self).key_presses
                &&& final(self).mouse_buttons == old(self).mouse_buttons
            },
            event matches WindowInputEvent::Key { code, pressed } ==> {
                &&& key_states(final(self).key_presses) == key_states(
                    old(self).key_presses,
                ).insert(code, pressed)
                &&& final(self).mouse_x == old(self).mouse_x
                &&& final(self).mouse_y == old(self).mouse_y
                &&& final(self).mouse_buttons == old(self).mouse_buttons
            },
            event is Other ==> *final(self) == *old(self),
    {
        match event {
            WindowInputEvent::CursorMoved { x, y } => {
                self.set_mouse_position(x, y);
                true
            },
            WindowInputEvent::Key { code, pressed } => {
                self.set_key_state(code, pressed);
                true
            },
            WindowInputEvent::Other => false,
        }
    }

    /// The mouse position of this snapshot.
    pub fn get_mouse_pos(&self) -> (r: (i32, i32))
        ensures
            r.0 == self.mouse_x,
            r.1 == self.mouse_y,
    {
        (self.mouse_x, self.mouse_y)
    }

    /// Whether one key is pressed; a key the store does not know counts as
    /// released.
    pub fn get_key_press(&self, key: u32) -> (r: bool)
        ensures
            r == key_pressed(key_states(self.key_presses), key),
    {
        match key_store_get(&self.key_presses, key) {
            Some(v) => v,
            None => false,
        }
    }

    /// Every key that is currently pressed, each exactly once, in no
    /// particular order.
    pub fn get_keys_pressed(&self) -> (r: Vec<u32>)
        ensures
            forall|k: u32| r@.contains(k) <==> key_pressed(key_states(self.key_presses), k),
            r@.no_duplicates(),
    {
        let entries = key_store_entries(&self.key_presses);
        let mut r: Vec<u32> = Vec::new();
        let mut i: usize = 0;
        while i < entries.len()
            invariant
                i <= entries@.len(),
                forall|j: int|
                    0 <= j < entries@.len() ==> key_states(self.key_presses).dom().contains(
                        #[trigger] entries@[j].0,
                    ) && key_states(self.key_presses)[entries@[j].0] == entries@[j].1,
                forall|j: int, l: int|
                    0 <= j < l < entries@.len() ==> entries@[j].0 != entries@[l].0,
                forall|k: u32|
                    r@.contains(k) <==> exists|j: int|
                        0 <= j < i && (#[trigger] entries@[j]).0 == k && entries@[j].1,
                r@.no_duplicates(),
            decreases entries@.len() - i,
        {
            let ghost prev_r = r@;
            let ghost prev_i = i as int;
            let (key, pressed) = entries[i];
            if pressed {
                proof {
                    if r@.contains(key) {
                        let j = choose|j: int|
                            0 <= j < i && (#[trigger] entries@[j]).0 == key && entries@[j].1;
                        assert(entries@[j].0 != entries@[i as int].0);
                    }
                }
                r.push(key);
            }
            i = i + 1;
            proof {
                assert forall|k: u32|
                    r@.contains(k) implies exists|j: int|
                        0 <= j < i && (#[trigger] entries@[j]).0 == k && entries@[j].1 by {
                    if prev_r.contains(k) {
                        let j = choose|j: int|
                            0 <= j < prev_i && (#[trigger] entries@[j]).0 == k && entries@[j].1;
                        assert(0 <= j < i && entries@[j].0 == k && entries@[j].1);
                    } else {
                        assert(pressed && k == key);
                        assert(entries@[prev_i].0 == k && entries@[prev_i].1);
                    }
                }
                assert forall|k: u32|
                    (exists|j: int| 0 <= j < i && (#[trigger] entries@[j]).0 == k && entries@[j].1)
                        implies r@.contains(k) by {
                    let j = choose|j: int|
                        0 <= j < i && (#[trigger] entries@[j]).0 == k && entries@[j].1;
                    if j < prev_i {
                        assert(prev_r.contains(k));
                        let idx = choose|idx: int| 0 <= idx < prev_r.len() && prev_r[idx] == k;
                        assert(r@[idx] == k);
                    } else {
                        assert(pressed && key == k);
                        assert(r@[prev_r.len() as int] == key);
                    }
                }
            }
        }
        proof {
            assert forall|k: u32|
                r@.contains(k) <==> key_pressed(key_states(self.key_presses), k) by {
                if r@.contains(k) {
                    let j = choose|j: int|
                        0 <= j < entries@.len() && (#[trigger] entries@[j]).0 == k
                            && entries@[j].1;
                    assert(key_pressed(key_states(self.key_presses), k));
                }
                if key_pressed(key_states(self.key_presses), k) {
                    let j = choose|j: int|
                        0 <= j < entries@.len() && (#[trigger] entries@[j]).0 == k;
                    assert(entries@[j].1);
                }
            }
        }
        r
    }
}

} // verus!
