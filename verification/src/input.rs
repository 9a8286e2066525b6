use vstd::prelude::*;
use crate::paint::BrushKeys;

verus! {

/// A keyboard key, as far as the program tells keys apart: the keys that
/// steer the brush by name, every other key by its code.
#[derive(Clone, Copy, Debug, PartialEq, Eq, Structural)]
pub enum Key {
    Key1,
    Key2,
    Key3,
    Key9,
    Key0,
    Comma,
    Period,
    Other(u32),
}

/// A mouse button.
#[derive(Clone, Copy, Debug, PartialEq, Eq, Structural)]
pub enum MouseButton {
    Left,
    Right,
    Middle,
    Other(u16),
}

/// Which keys and mouse buttons are held down, as the window's events have
/// reported them so far.
pub struct Input {
    keys: Vec<Key>,
    buttons: Vec<MouseButton>,
}

/// The set of held keys after one key event: a press adds the key, a release
/// takes it out.
pub open spec fn keys_after_event(held: Set<Key>, key: Key, pressed: bool) -> Set<Key> {
    if pressed { held.insert(key) } else { held.remove(key) }
}

/// The set of held buttons after one button event.
pub open spec fn buttons_after_event(held: Set<MouseButton>, button: MouseButton, pressed: bool) -> Set<
    MouseButton,
> {
    if pressed { held.insert(button) } else { held.remove(button) }
}

/// Which brush keys a set of held keys holds.
pub open spec fn brush_keys_of(held: Set<Key>) -> BrushKeys {
    BrushKeys {
        key1: held.contains(Key::Key1),
        key2: held.contains(Key::Key2),
        key3: held.contains(Key::Key3),
        comma: held.contains(Key::Comma),
        period: held.contains(Key::Period),
        key9: held.contains(Key::Key9),
        key0: held.contains(Key::Key0),
    }
}

impl Input {
    #[verifier::type_invariant]
    spec fn well_formed(self) -> bool {
        &&& self.keys@.no_duplicates()
        &&& self.buttons@.no_duplicates()
    }

    /// The keys held down.
    pub closed spec fn held_keys(self) -> Set<Key> {
        Set::new(|k: Key| self.keys@.contains(k))
    }

    /// The mouse buttons held down.
    pub closed spec fn held_buttons(self) -> Set<MouseButton> {
        Set::new(|b: MouseButton| self.buttons@.contains(b))
    }

    /// No key and no button held.
    pub fn new() -> (input: Input)
        ensures
            input.held_keys() == Set::<Key>::empty(),
            input.held_buttons() == Set::<MouseButton>::empty(),
    {
        let input = Input { keys: Vec::new(), buttons: Vec::new() };
        assert(input.held_keys() =~= Set::<Key>::empty());
        assert(input.held_buttons() =~= Set::<MouseButton>::empty());
        input
    }

    /// Records a key event; an event that names no key changes nothing.
    pub fn handle_key_event(&mut self, key: Option<Key>, pressed: bool)
        ensures
            match key {
                Some(k) => final(self).held_keys() == keys_after_event(old(self).held_keys(), k, pressed),
                None => final(self).held_keys() == old(self).held_keys(),
            },
            final(self).held_buttons() == old(self).held_buttons(),
    {
        proof { use_type_invariant(&*self); }
        if let Some(k) = key {
            let mut keys: Vec<Key> = Vec::new();
            std::mem::swap(&mut keys, &mut self.keys);
            let pos = Self::key_position(&keys, k);
            if pressed {
                if pos.is_none() {
                    keys.push(k);
                    proof { lemma_push_contains(old(self).keys@, k); }
                }
            } else {
                if let Some(i) = pos {
                    keys.remove(i);
                    proof { lemma_remove_unique(old(self).keys@, i as int); }
                }
            }
            self.keys = keys;
            assert(self.held_keys() =~= keys_after_event(old(self).held_keys(), k, pressed));
        }
        assert(self.held_buttons() =~= old(self).held_buttons());
    }

    /// Records a mouse button event.
    pub fn handle_mouse_button(&mut self, button: MouseButton, pressed: bool)
        ensures
            final(self).held_buttons() == buttons_after_event(
                old(self).held_buttons(),
                button,
                pressed,
            ),
            final(self).held_keys() == old(self).held_keys(),
    {
        proof { use_type_invariant(&*self); }
        let mut buttons: Vec<MouseButton> = Vec::new();
        std::mem::swap(&mut buttons, &mut self.buttons);
        let pos = Self::button_position(&buttons, button);
        if pressed {
            if pos.is_none() {
                buttons.push(button);
                proof { lemma_push_contains(old(self).buttons@, button); }
            }
        } else {
            if let Some(i) = pos {
                buttons.remove(i);
                proof { lemma_remove_unique(old(self).buttons@, i as int); }
            }
        }
        self.buttons = buttons;
        assert(self.held_buttons() =~= buttons_after_event(old(self).held_buttons(), button, pressed));
        assert(self.held_keys() =~= old(self).held_keys());
    }

    /// Whether `key` is held down.
    pub fn is_key_down(&self, key: Key) -> (down: bool)
        ensures
            down == self.held_keys().contains(key),
    {
        Self::key_position(&self.keys, key).is_some()
    }

    /// Whether `button` is held down.
    pub fn is_mouse_down(&self, button: MouseButton) -> (down: bool)
        ensures
            down == self.held_buttons().contains(button),
    {
        Self::button_position(&self.buttons, button).is_some()
    }

    /// Which of the keys that steer the brush are held down.
    pub fn brush_keys(&self) -> (keys: BrushKeys)
        ensures
            keys == brush_keys_of(self.held_keys()),
    {
        BrushKeys {
            key1: self.is_key_down(Key::Key1),
            key2: self.is_key_down(Key::Key2),
            key3: self.is_key_down(Key::Key3),
            comma: self.is_key_down(Key::Comma),
            period: self.is_key_down(Key::Period),
            key9: self.is_key_down(Key::Key9),
            key0: self.is_key_down(Key::Key0),
        }
    }

    fn key_position(keys: &Vec<Key>, k: Key) -> (pos: Option<usize>)
        ensures
            match pos {
                Some(i) => i < keys@.len() && keys@[i as int] == k,
                None => !keys@.contains(k),
            },
    {
        let n = keys.len();
        for i in 0..n
            invariant
                n == keys@.len(),
                forall|j: int| 0 <= j < i ==> keys@[j] != k,
        {
            if keys[i] == k {
                return Some(i);
            }
        }
        None
    }

    fn button_position(buttons: &Vec<MouseButton>, b: MouseButton) -> (pos: Option<usize>)
        ensures
            match pos {
                Some(i) => i < buttons@.len() && buttons@[i as int] == b,
                None => !buttons@.contains(b),
            },
    {
        let n = buttons.len();
        for i in 0..n
            invariant
                n == buttons@.len(),
                forall|j: int| 0 <= j < i ==> buttons@[j] != b,
        {
            if buttons[i] == b {
                return Some(i);
            }
        }
        None
    }
}

/// Pushing a value absent from a sequence without repeats keeps it without
/// repeats and adds exactly that value.
proof fn lemma_push_contains<A>(s: Seq<A>, a: A)
    requires
        s.no_duplicates(),
        !s.contains(a),
    ensures
        s.push(a).no_duplicates(),
        forall|x: A| s.push(a).contains(x) <==> (s.contains(x) || x == a),
{
    let r = s.push(a);
    assert(r[s.len() as int] == a);
    assert forall|x: A| r.contains(x) <==> (s.contains(x) || x == a) by {
        if r.contains(x) {
            let j = choose|j: int| 0 <= j < r.len() && r[j] == x;
            if j < s.len() {
                assert(s[j] == x);
            }
        }
        if s.contains(x) {
            let j = choose|j: int| 0 <= j < s.len() && s[j] == x;
            assert(r[j] == x);
        }
    }
}

/// Taking out the one place of a value from a sequence without repeats
/// leaves every other value and a sequence without repeats.
proof fn lemma_remove_unique<A>(s: Seq<A>, i: int)
    requires
        s.no_duplicates(),
        0 <= i < s.len(),
    ensures
        s.remove(i).no_duplicates(),
        forall|x: A| s.remove(i).contains(x) <==> (s.contains(x) && x != s[i]),
{
    let r = s.remove(i);
    assert forall|x: A| r.contains(x) <==> (s.contains(x) && x != s[i]) by {
        if r.contains(x) {
            let j = choose|j: int| 0 <= j < r.len() && r[j] == x;
            if j < i {
                assert(s[j] == x);
            } else {
                assert(s[j + 1] == x);
            }
        }
        if s.contains(x) && x != s[i] {
            let j = choose|j: int| 0 <= j < s.len() && s[j] == x;
            if j < i {
                assert(r[j] == x);
            } else {
                assert(r[j - 1] == x);
            }
        }
    }
}

/// A key event decides alone whether its key is held afterwards, and leaves
/// every other key as it was.
pub proof fn lemma_key_event_read_after_write(held: Set<Key>, key: Key, pressed: bool, other: Key)
    requires
        other != key,
    ensures
        keys_after_event(held, key, pressed).contains(key) == pressed,
        keys_after_event(held, key, pressed).contains(other) == held.contains(other),
{
}

/// A button event decides alone whether its button is held afterwards, and
/// leaves every other button as it was.
pub proof fn lemma_button_event_read_after_write(
    held: Set<MouseButton>,
    button: MouseButton,
    pressed: bool,
    other: MouseButton,
)
    requires
        other != button,
    ensures
        buttons_after_event(held, button, pressed).contains(button) == pressed,
        buttons_after_event(held, button, pressed).contains(other) == held.contains(other),
{
}

} // verus!
