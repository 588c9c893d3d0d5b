use vstd::prelude::*;

use std::collections::HashSet;

use crate::keys::{code_of, key_code, key_of_code, lemma_key_code_injective, Key};

verus! {

/// Whether the global key listener is watching for the activation chord or
/// the overlay is open and navigating.
#[derive(PartialEq, Eq, Structural, Clone, Copy, Debug)]
pub enum AppMode {
    Monitoring,
    Navigating,
}

/// A request from the key listener to the overlay window.
#[derive(PartialEq, Eq, Structural, Clone, Copy, Debug)]
pub enum OverlayCommand {
    Show,
    Hide,
}

/// A keyboard event from the global keyboard hook.
#[derive(PartialEq, Eq, Structural, Clone, Copy, Debug)]
pub enum InputEvent {
    KeyPress(Key),
    KeyRelease(Key),
    /// Any other event: mouse moves, clicks, the wheel.
    Other,
}

/// `s` with each run of equal consecutive keys reduced to one key.
pub open spec fn dedup_seq(s: Seq<Key>) -> Seq<Key>
    decreases s.len(),
{
    if s.len() <= 1 {
        s
    } else if s[s.len() - 1] == s[s.len() - 2] {
        dedup_seq(s.drop_last())
    } else {
        dedup_seq(s.drop_last()).push(s.last())
    }
}

/// The last key survives deduplication.
pub proof fn lemma_dedup_last(s: Seq<Key>)
    requires
        s.len() > 0,
    ensures
        dedup_seq(s).len() > 0,
        dedup_seq(s).last() == s.last(),
    decreases s.len(),
{
    if s.len() > 1 && s[s.len() - 1] == s[s.len() - 2] {
        lemma_dedup_last(s.drop_last());
    }
}

/// Removes consecutive repeated keys, keeping the first of each run.
pub fn dedup_keys(v: &mut Vec<Key>)
    ensures
        final(v)@ == dedup_seq(old(v)@),
{
    let mut out: Vec<Key> = Vec::new();
    let n = v.len();
    for i in 0..n
        invariant
            n == v@.len(),
            out@ == dedup_seq(v@.take(i as int)),
            i > 0 ==> out@.len() > 0 && out@.last() == v@[i - 1],
    {
        let k = v[i];
        let ghost before = v@.take(i as int);
        assert(v@.take(i + 1).drop_last() =~= before);
        if out.len() == 0 || out[out.len() - 1] != k {
            out.push(k);
        }
        proof {
            lemma_dedup_last(v@.take(i + 1));
        }
    }
    assert(v@.take(n as int) =~= v@);
    *v = out;
}

/// A set of keys: a hash set of the keys' numbers (`key_code`).
pub struct KeySet {
    keys: HashSet<u64>,
}

impl View for KeySet {
    type V = Set<Key>;

    closed spec fn view(&self) -> Set<Key> {
        Set::new(|k: Key| self.keys@.contains(key_code(k)))
    }
}

/// Distinct keys have distinct numbers.
proof fn lemma_codes_differ(key: Key)
    ensures
        forall|k: Key| k != key ==> #[trigger] key_code(k) != key_code(key),
{
    lemma_key_code_injective();
    assert forall|k: Key| k != key implies #[trigger] key_code(k) != key_code(key) by {
        assert(key_of_code(key_code(k)) == k);
    }
}

impl KeySet {
    /// The empty set.
    pub fn new() -> (s: KeySet)
        ensures
            s@ == Set::<Key>::empty(),
    {
        let s = KeySet { keys: HashSet::new() };
        assert(s@ =~= Set::<Key>::empty());
        s
    }

    /// Whether the set holds `key`.
    pub fn contains(&self, key: Key) -> (r: bool)
        ensures
            r == self@.contains(key),
    {
        broadcast use vstd::std_specs::hash::group_hash_axioms;

        let code = code_of(key);
        self.keys.contains(&code)
    }

    /// Adds `key`.
    pub fn insert(&mut self, key: Key)
        ensures
            final(self)@ == old(self)@.insert(key),
    {
        broadcast use vstd::std_specs::hash::group_hash_axioms;

        let ghost before = self@;
        self.keys.insert(code_of(key));
        proof {
            lemma_codes_differ(key);
            assert(self@ =~= before.insert(key));
        }
    }

    /// Removes `key`.
    pub fn remove(&mut self, key: Key)
        ensures
            final(self)@ == old(self)@.remove(key),
    {
        broadcast use vstd::std_specs::hash::group_hash_axioms;

        let ghost before = self@;
        let code = code_of(key);
        self.keys.remove(&code);
        proof {
            lemma_codes_differ(key);
            assert(self@ =~= before.remove(key));
        }
    }

    /// Removes every key.
    pub fn clear(&mut self)
        ensures
            final(self)@ == Set::<Key>::empty(),
    {
        self.keys.clear();
        assert(self@ =~= Set::<Key>::empty());
    }
}

/// The state of the global key listener.
pub struct AppState {
    /// The keys pressed since the last release, runs of one key counted once.
    pub keys_history: Vec<Key>,
    /// The keys held down.
    pub keys_current: KeySet,
    pub app_mode: AppMode,
}

/// Whether a key history ends with Alt followed by left Control: the chord
/// that opens the overlay.
pub open spec fn ends_with_chord(h: Seq<Key>) -> bool {
    h.len() >= 2 && h[h.len() - 2] == Key::Alt && h[h.len() - 1] == Key::ControlLeft
}

/// One step of the key listener, on its key history, its held keys and its
/// mode, with what it asks of the overlay.
///
/// While monitoring: a key press is recorded, and when the history then ends
/// with Alt followed by left Control the listener starts navigating, forgets
/// all keys and asks for the overlay; a key release forgets the history.
/// While navigating, events are ignored.
pub open spec fn listener_step(history: Seq<Key>, current: Set<Key>, mode: AppMode, event: InputEvent) -> (
    Seq<Key>,
    Set<Key>,
    AppMode,
    Option<OverlayCommand>,
) {
    if mode == AppMode::Monitoring {
        match event {
            InputEvent::KeyPress(k) => {
                let h = dedup_seq(history.push(k));
                if ends_with_chord(h) {
                    (Seq::empty(), Set::empty(), AppMode::Navigating, Some(OverlayCommand::Show))
                } else {
                    (h, current.insert(k), mode, None)
                }
            },
            InputEvent::KeyRelease(k) => (Seq::empty(), current.remove(k), mode, None),
            InputEvent::Other => (history, current, mode, None),
        }
    } else {
        (history, current, mode, None)
    }
}

impl AppState {
    /// A listener that watches for the chord, with nothing pressed yet.
    pub fn new() -> (s: AppState)
        ensures
            s.keys_history@ == Seq::<Key>::empty(),
            s.keys_current@ == Set::<Key>::empty(),
            s.app_mode == AppMode::Monitoring,
    {
        AppState { keys_history: Vec::new(), keys_current: KeySet::new(), app_mode: AppMode::Monitoring }
    }

    /// Handles one keyboard event, and says whether to show the overlay.
    pub fn handle_event(&mut self, event: InputEvent) -> (r: Option<OverlayCommand>)
        ensures
            (final(self).keys_history@, final(self).keys_current@, final(self).app_mode, r) == listener_step(
                old(self).keys_history@,
                old(self).keys_current@,
                old(self).app_mode,
                event,
            ),
    {
        if self.app_mode == AppMode::Monitoring {
            match event {
                InputEvent::KeyPress(key) => {
                    self.keys_current.insert(key);
                    self.keys_history.push(key);
                    dedup_keys(&mut self.keys_history);
                    let n = self.keys_history.len();
                    if n >= 2 {
                        let last = self.keys_history[n - 1];
                        let second_to_last = self.keys_history[n - 2];
                        if second_to_last == Key::Alt && last == Key::ControlLeft {
                            self.app_mode = AppMode::Navigating;
                            self.keys_history.clear();
                            self.keys_current.clear();
                            return Some(OverlayCommand::Show);
                        }
                    }
                    None
                },
                InputEvent::KeyRelease(key) => {
                    self.keys_current.remove(key);
                    self.keys_history.clear();
                    None
                },
                InputEvent::Other => None,
            }
        } else {
            None
        }
    }

    /// The overlay has closed: watch for the chord again, with no keys
    /// remembered.
    pub fn return_to_monitoring(&mut self)
        ensures
            final(self).app_mode == AppMode::Monitoring,
            final(self).keys_history@ == Seq::<Key>::empty(),
            final(self).keys_current@ == Set::<Key>::empty(),
    {
        self.app_mode = AppMode::Monitoring;
        self.keys_history.clear();
        self.keys_current.clear();
    }
}

} // verus!
