//! The global hotkey Ctrl+Alt+I: which keys are held, and when the combination
//! fires.
use vstd::prelude::*;

verus! {

/// A key of the keyboard, as the hotkey logic tells keys apart.
#[derive(Clone, Copy, Debug, PartialEq, Eq, Structural)]
pub enum KeyCode {
    ControlLeft,
    ControlRight,
    Alt,
    KeyI,
    /// Any other key, by an identifier unique to it.
    Other(u64),
}

/// A keyboard event.
#[derive(Clone, Copy, Debug, PartialEq, Eq, Structural)]
pub enum KeyEvent {
    Press(KeyCode),
    Release(KeyCode),
    /// Mouse and other events.
    Other,
}

/// The keys held down, in the order in which they were pressed.
pub struct PressedKeys {
    pub keys: Vec<KeyCode>,
}

/// Whether the held keys make up Ctrl (left or right) + Alt + I.
pub open spec fn hotkey_held(keys: Seq<KeyCode>) -> bool {
    &&& (keys.contains(KeyCode::ControlLeft) || keys.contains(KeyCode::ControlRight))
    &&& keys.contains(KeyCode::Alt)
    &&& keys.contains(KeyCode::KeyI)
}

/// The held keys without `k`.
pub open spec fn without_key(keys: Seq<KeyCode>, k: KeyCode) -> Seq<KeyCode>
    decreases keys.len(),
{
    if keys.len() == 0 {
        Seq::empty()
    } else if keys.last() == k {
        without_key(keys.drop_last(), k)
    } else {
        without_key(keys.drop_last(), k).push(keys.last())
    }
}

/// The held keys after a press, before the hotkey is checked.
pub open spec fn after_press(keys: Seq<KeyCode>, k: KeyCode) -> Seq<KeyCode> {
    if keys.contains(k) {
        keys
    } else {
        keys.push(k)
    }
}

/// The held keys after an event, and whether the hotkey fired: a press adds the
/// key (once) and, where Ctrl+Alt+I is then held, fires and forgets every key;
/// a release forgets the key.
pub open spec fn next_keys(keys: Seq<KeyCode>, e: KeyEvent) -> (Seq<KeyCode>, bool) {
    match e {
        KeyEvent::Press(k) => {
            let held = after_press(keys, k);
            if hotkey_held(held) {
                (Seq::empty(), true)
            } else {
                (held, false)
            }
        },
        KeyEvent::Release(k) => (without_key(keys, k), false),
        KeyEvent::Other => (keys, false),
    }
}

fn contains_key_code(keys: &Vec<KeyCode>, k: KeyCode) -> (r: bool)
    ensures
        r == keys@.contains(k),
{
    for i in 0..keys.len()
        invariant
            forall|j: int| 0 <= j < i ==> keys@[j] != k,
    {
        if keys[i] == k {
            assert(keys@[i as int] == k);
            return true;
        }
    }
    false
}

proof fn lemma_push_contains(s: Seq<KeyCode>, v: KeyCode, x: KeyCode)
    ensures
        s.push(v).contains(x) <==> (s.contains(x) || x == v),
{
    if s.push(v).contains(x) && x != v {
        let j = choose|j: int| 0 <= j < s.push(v).len() && s.push(v)[j] == x;
        assert(s[j] == x);
    }
    if s.contains(x) {
        let j = choose|j: int| 0 <= j < s.len() && s[j] == x;
        assert(s.push(v)[j] == x);
    }
    if x == v {
        assert(s.push(v)[s.len() as int] == x);
    }
}

proof fn lemma_without_key_contents(keys: Seq<KeyCode>, k: KeyCode)
    ensures
        forall|x: KeyCode| #[trigger] without_key(keys, k).contains(x) <==> (keys.contains(x) && x != k),
    decreases keys.len(),
{
    if keys.len() > 0 {
        let d = keys.drop_last();
        let l = keys.last();
        assert(d.push(l) =~= keys);
        lemma_without_key_contents(d, k);
        assert forall|x: KeyCode| #[trigger] without_key(keys, k).contains(x) <==> (keys.contains(x)
            && x != k) by {
            lemma_push_contains(d, l, x);
            assert(without_key(d, k).contains(x) <==> (d.contains(x) && x != k));
            if l == k {
                assert(without_key(keys, k) == without_key(d, k));
            } else {
                assert(without_key(keys, k) == without_key(d, k).push(l));
                lemma_push_contains(without_key(d, k), l, x);
            }
        }
    }
}

proof fn lemma_without_key_no_duplicates(keys: Seq<KeyCode>, k: KeyCode)
    requires
        keys.no_duplicates(),
    ensures
        without_key(keys, k).no_duplicates(),
    decreases keys.len(),
{
    if keys.len() > 0 {
        let d = keys.drop_last();
        assert(d.no_duplicates());
        lemma_without_key_no_duplicates(d, k);
        lemma_without_key_contents(d, k);
        if keys.last() != k {
            let w = without_key(d, k);
            assert(!d.contains(keys.last())) by {
                if d.contains(keys.last()) {
                    let j = choose|j: int| 0 <= j < d.len() && d[j] == keys.last();
                    assert(keys[j] == keys[keys.len() - 1]);
                }
            }
            assert(!w.contains(keys.last()));
            assert forall|a: int, b: int|
                0 <= a < w.push(keys.last()).len() && 0 <= b < w.push(keys.last()).len() && a
                    != b implies w.push(keys.last())[a] != w.push(keys.last())[b] by {
                if a == w.len() {
                    assert(w[b] != keys.last()) by {
                        if w[b] == keys.last() {
                            assert(w.contains(keys.last()));
                        }
                    }
                } else if b == w.len() {
                    assert(w[a] != keys.last()) by {
                        if w[a] == keys.last() {
                            assert(w.contains(keys.last()));
                        }
                    }
                }
            }
        }
    }
}

fn remove_key_code(keys: &Vec<KeyCode>, k: KeyCode) -> (r: Vec<KeyCode>)
    ensures
        r@ == without_key(keys@, k),
{
    let mut out: Vec<KeyCode> = Vec::new();
    for i in 0..keys.len()
        invariant
            out@ == without_key(keys@.take(i as int), k),
    {
        proof {
            assert(keys@.take(i + 1).drop_last() =~= keys@.take(i as int));
            assert(keys@.take(i + 1).last() == keys@[i as int]);
        }
        if keys[i] != k {
            out.push(keys[i]);
        }
    }
    assert(keys@.take(keys.len() as int) =~= keys@);
    out
}

/// Whether `x` is held once `k` has been pressed on top of `keys`.
pub open spec fn held_after_press(keys: Seq<KeyCode>, k: KeyCode, x: KeyCode) -> bool {
    keys.contains(x) || x == k
}

/// The hotkey fires exactly on a press after which a Control key (left or
/// right), Alt and I are all held; a release or any other event never fires.
/// When a press does not fire, the held keys are those held before plus the
/// pressed one.
pub proof fn law_hotkey_fires_exactly(keys: Seq<KeyCode>, e: KeyEvent)
    ensures
        next_keys(keys, e).1 == match e {
            KeyEvent::Press(k) => (held_after_press(keys, k, KeyCode::ControlLeft)
                || held_after_press(keys, k, KeyCode::ControlRight)) && held_after_press(
                keys,
                k,
                KeyCode::Alt,
            ) && held_after_press(keys, k, KeyCode::KeyI),
            _ => false,
        },
        forall|k: KeyCode, x: KeyCode|
            e == KeyEvent::Press(k) && !next_keys(keys, e).1 ==> next_keys(keys, e).0.contains(x)
                == #[trigger] held_after_press(keys, k, x),
{
    if let KeyEvent::Press(k) = e {
        assert forall|x: KeyCode| #[trigger] after_press(keys, k).contains(x) == held_after_press(
            keys,
            k,
            x,
        ) by {
            lemma_push_contains(keys, k, x);
        }
        assert(after_press(keys, k).contains(KeyCode::ControlLeft) == held_after_press(
            keys,
            k,
            KeyCode::ControlLeft,
        ));
        assert(after_press(keys, k).contains(KeyCode::ControlRight) == held_after_press(
            keys,
            k,
            KeyCode::ControlRight,
        ));
        assert(after_press(keys, k).contains(KeyCode::Alt) == held_after_press(
            keys,
            k,
            KeyCode::Alt,
        ));
        assert(after_press(keys, k).contains(KeyCode::KeyI) == held_after_press(
            keys,
            k,
            KeyCode::KeyI,
        ));
    }
}

impl PressedKeys {
    /// No key held.
    pub fn new() -> (r: PressedKeys)
        ensures
            r.keys@ == Seq::<KeyCode>::empty(),
    {
        PressedKeys { keys: Vec::new() }
    }

    /// Takes an event; returns whether Ctrl+Alt+I fired.
    pub fn handle_event(&mut self, event: KeyEvent) -> (fired: bool)
        ensures
            (final(self).keys@, fired) == next_keys(old(self).keys@, event),
            fired == match event {
                KeyEvent::Press(k) => (held_after_press(old(self).keys@, k, KeyCode::ControlLeft)
                    || held_after_press(old(self).keys@, k, KeyCode::ControlRight))
                    && held_after_press(old(self).keys@, k, KeyCode::Alt) && held_after_press(
                    old(self).keys@,
                    k,
                    KeyCode::KeyI,
                ),
                _ => false,
            },
    {
        proof {
            law_hotkey_fires_exactly(self.keys@, event);
        }
        match event {
            KeyEvent::Press(k) => {
                if !contains_key_code(&self.keys, k) {
                    self.keys.push(k);
                }
                let ctrl = contains_key_code(&self.keys, KeyCode::ControlLeft) || contains_key_code(
                    &self.keys,
                    KeyCode::ControlRight,
                );
                if ctrl && contains_key_code(&self.keys, KeyCode::Alt) && contains_key_code(
                    &self.keys,
                    KeyCode::KeyI,
                ) {
                    self.keys = Vec::new();
                    true
                } else {
                    false
                }
            },
            KeyEvent::Release(k) => {
                self.keys = remove_key_code(&self.keys, k);
                false
            },
            KeyEvent::Other => false,
        }
    }
}

/// A key is never held twice: every event keeps the held keys free of
/// duplicates.
pub proof fn law_held_keys_distinct(keys: Seq<KeyCode>, e: KeyEvent)
    requires
        keys.no_duplicates(),
    ensures
        next_keys(keys, e).0.no_duplicates(),
{
    match e {
        KeyEvent::Press(k) => {
            if !keys.contains(k) {
                let p = keys.push(k);
                assert forall|a: int, b: int| 0 <= a < p.len() && 0 <= b < p.len() && a != b implies p[a]
                    != p[b] by {
                    if a == keys.len() && p[b] == k {
                        assert(keys.contains(k)) by {
                            assert(keys[b] == k);
                        }
                    }
                    if b == keys.len() && p[a] == k {
                        assert(keys.contains(k)) by {
                            assert(keys[a] == k);
                        }
                    }
                }
            }
        },
        KeyEvent::Release(k) => {
            lemma_without_key_no_duplicates(keys, k);
        },
        KeyEvent::Other => {},
    }
}

/// After a release the key is no longer held, and every other held key still is.
pub proof fn law_release_forgets_key(keys: Seq<KeyCode>, k: KeyCode, x: KeyCode)
    ensures
        next_keys(keys, KeyEvent::Release(k)).0.contains(x) <==> (keys.contains(x) && x != k),
{
    lemma_without_key_contents(keys, k);
}

/// When the hotkey fires, no key is held afterwards; it fires only on a press.
pub proof fn law_fire_clears(keys: Seq<KeyCode>, e: KeyEvent)
    ensures
        next_keys(keys, e).1 ==> next_keys(keys, e).0.len() == 0 && e is Press,
{
}

} // verus!
