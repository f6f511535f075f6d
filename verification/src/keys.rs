//! The live model of which physical keys are currently held.
//!
//! The store is mutated by the input-observation callback (one transition per
//! observed event, in observation order) and read by the placement loop
//! through point-in-time snapshots. The two execution contexts share it only
//! under an exclusion gate owned by the unverified shell; the store itself is
//! a plain value, so every transition below is verified.

use vstd::prelude::*;

verus! {

use crate::chord;
use crate::screens::Position;

/// A raw key transition observed by the input source: a key went down or up.
#[derive(Debug, Clone, Copy, PartialEq, Eq, Structural)]
pub enum KeyEvent {
    Down(i64),
    Up(i64),
}

/// The set of keys held after applying `events`, in order, to an initially
/// empty store: a press inserts the code, a release removes it.
pub open spec fn held_after(events: Seq<KeyEvent>) -> Set<i64>
    decreases events.len(),
{
    if events.len() == 0 {
        Set::empty()
    } else {
        match events.last() {
            KeyEvent::Down(code) => held_after(events.drop_last()).insert(code),
            KeyEvent::Up(code) => held_after(events.drop_last()).remove(code),
        }
    }
}

/// The held-key set, backed by a vector in observation order. A code appears
/// at most once; membership changes only through explicit press/release
/// transitions.
pub struct KeyStateStore {
    down_keys: Vec<i64>,
}

impl View for KeyStateStore {
    type V = Seq<i64>;

    closed spec fn view(&self) -> Seq<i64> {
        self.down_keys@
    }
}

/// Linear scan for a code; the held set is small (single digits in practice).
pub(crate) fn vec_contains(keys: &Vec<i64>, code: i64) -> (r: bool)
    ensures
        r == keys@.contains(code),
{
    let mut i: usize = 0;
    while i < keys.len()
        invariant
            0 <= i <= keys@.len(),
            forall|j: int| 0 <= j < i ==> keys@[j] != code,
        decreases keys@.len() - i,
    {
        if keys[i] == code {
            assert(keys@[i as int] == code);
            return true;
        }
        i += 1;
    }
    false
}

impl KeyStateStore {
    /// No duplicate codes: each held key is recorded exactly once.
    pub open spec fn wf(&self) -> bool {
        self@.no_duplicates()
    }

    pub fn new() -> (s: KeyStateStore)
        ensures
            s@ == Seq::<i64>::empty(),
            s.wf(),
    {
        let s = KeyStateStore { down_keys: Vec::new() };
        proof {
            assert(s@ =~= Seq::<i64>::empty());
        }
        s
    }

    /// Record a press: adds `code` if absent; a no-op if it is already held.
    pub fn mark_down(&mut self, code: i64)
        requires
            old(self).wf(),
        ensures
            final(self).wf(),
            old(self)@.contains(code) ==> final(self)@ == old(self)@,
            !old(self)@.contains(code) ==> final(self)@ == old(self)@.push(code),
            forall|c: i64|
                #[trigger] final(self)@.contains(c) <==> (old(self)@.contains(c) || c == code),
    {
        if !vec_contains(&self.down_keys, code) {
            self.down_keys.push(code);
            proof {
                let s_old = old(self)@;
                let s_new = self@;
                assert(s_new =~= s_old.push(code));
                assert forall|i: int, j: int|
                    0 <= i < s_new.len() && 0 <= j < s_new.len() && i != j implies s_new[i]
                    != s_new[j] by {
                    if i < s_old.len() && j < s_old.len() {
                        assert(s_new[i] == s_old[i] && s_new[j] == s_old[j]);
                    } else if j == s_old.len() {
                        assert(s_new[j] == code && s_new[i] == s_old[i]);
                        assert(s_old.contains(s_old[i]));
                    } else {
                        assert(s_new[i] == code && s_new[j] == s_old[j]);
                        assert(s_old.contains(s_old[j]));
                    }
                };
                assert forall|c: i64| #[trigger]
                    s_new.contains(c) implies (s_old.contains(c) || c == code) by {
                    let i = choose|i: int| 0 <= i < s_new.len() && s_new[i] == c;
                    if i < s_old.len() {
                        assert(s_old[i] == c);
                    }
                };
                assert forall|c: i64| s_old.contains(c) || c == code implies #[trigger]
                    s_new.contains(c) by {
                    if s_old.contains(c) {
                        let i = choose|i: int| 0 <= i < s_old.len() && s_old[i] == c;
                        assert(s_new[i] == c);
                    } else {
                        assert(s_new[s_old.len() as int] == code);
                    }
                };
            }
        } else {
            proof {
                assert forall|c: i64| #[trigger]
                    self@.contains(c) <==> (old(self)@.contains(c) || c == code) by {}
            }
        }
    }

    /// Record a release: removes `code` if held; a no-op if it is absent.
    pub fn mark_up(&mut self, code: i64)
        requires
            old(self).wf(),
        ensures
            final(self).wf(),
            !old(self)@.contains(code) ==> final(self)@ == old(self)@,
            old(self)@.contains(code) ==> final(self)@ == old(self)@.remove(
                old(self)@.index_of(code),
            ),
            forall|c: i64|
                #[trigger] final(self)@.contains(c) <==> (old(self)@.contains(c) && c != code),
    {
        let mut i: usize = 0;
        while i < self.down_keys.len()
            invariant
                0 <= i <= self.down_keys@.len(),
                forall|j: int| 0 <= j < i ==> self.down_keys@[j] != code,
                self == old(self),
                old(self).wf(),
            decreases self.down_keys@.len() - i,
        {
            if self.down_keys[i] == code {
                proof {
                    let s = old(self)@;
                    assert(s[i as int] == code);
                    assert(s.contains(code));
                    lemma_remove_no_dup(s, i as int);
                    // `index_of` picks some index holding `code`; with no
                    // duplicates that index is `i`.
                    let ix = s.index_of(code);
                    assert(0 <= ix < s.len() && s[ix] == code);
                    if ix != i as int {
                        assert(s[ix] != s[i as int]);
                    }
                    assert(ix == i as int);
                }
                self.down_keys.remove(i);
                return ;
            }
            i += 1;
        }
        proof {
            let s = old(self)@;
            if s.contains(code) {
                let j = choose|j: int| 0 <= j < s.len() && s[j] == code;
                assert(s[j] != code);
            }
        }
    }

    /// Apply one observed transition.
    pub fn apply_event(&mut self, event: KeyEvent)
        requires
            old(self).wf(),
        ensures
            final(self).wf(),
            forall|c: i64|
                #[trigger] final(self)@.contains(c) <==> (match event {
                    KeyEvent::Down(k) => old(self)@.contains(c) || c == k,
                    KeyEvent::Up(k) => old(self)@.contains(c) && c != k,
                }),
    {
        match event {
            KeyEvent::Down(code) => self.mark_down(code),
            KeyEvent::Up(code) => self.mark_up(code),
        }
    }

    /// A modifier reported through a flags-changed signal carries its current
    /// state, not a transition; derive the transition by diffing `active`
    /// against the code's current membership. Tracked per modifier,
    /// independently of every other code.
    pub fn apply_modifier_flag(&mut self, code: i64, active: bool)
        requires
            old(self).wf(),
        ensures
            final(self).wf(),
            forall|c: i64|
                #[trigger] final(self)@.contains(c) <==> (if active {
                    old(self)@.contains(c) || c == code
                } else {
                    old(self)@.contains(c) && c != code
                }),
            active && old(self)@.contains(code) ==> final(self)@ == old(self)@,
            !active && !old(self)@.contains(code) ==> final(self)@ == old(self)@,
    {
        if active {
            self.mark_down(code);
        } else {
            self.mark_up(code);
        }
    }

    /// Resolve the currently held keys to a placement intent.
    pub fn get_current_position(&self) -> (r: Option<Position>)
        ensures
            r == chord::spec_resolve_keys(self@),
    {
        chord::get_position_from_keys(&self.down_keys)
    }

    /// A consistent point-in-time copy of the held set, in observation order.
    pub fn snapshot(&self) -> (r: Vec<i64>)
        ensures
            r@ == self@,
    {
        let mut r: Vec<i64> = Vec::new();
        let mut i: usize = 0;
        while i < self.down_keys.len()
            invariant
                0 <= i <= self.down_keys@.len(),
                r@ == self.down_keys@.subrange(0, i as int),
            decreases self.down_keys@.len() - i,
        {
            let k = self.down_keys[i];
            r.push(k);
            proof {
                assert(r@ =~= self.down_keys@.subrange(0, i + 1 as int));
            }
            i += 1;
        }
        proof {
            assert(r@ =~= self.down_keys@);
        }
        r
    }
}

/// Removing the only occurrence of a value from a duplicate-free sequence
/// keeps it duplicate-free and removes exactly that value from the membership.
proof fn lemma_remove_no_dup(s: Seq<i64>, k: int)
    requires
        0 <= k < s.len(),
        s.no_duplicates(),
    ensures
        s.remove(k).no_duplicates(),
        forall|c: i64| #[trigger] s.remove(k).contains(c) <==> (s.contains(c) && c != s[k]),
{
    s.remove_ensures(k);
    let r = s.remove(k);
    assert(r.len() == s.len() - 1);
    assert forall|i: int, j: int|
        0 <= i < r.len() && 0 <= j < r.len() && i != j implies r[i] != r[j] by {
        let si: int = if i < k {
            i
        } else {
            i + 1
        };
        let sj: int = if j < k {
            j
        } else {
            j + 1
        };
        assert(r[i] == s[si] && r[j] == s[sj]);
    };
    assert forall|c: i64| #[trigger] r.contains(c) implies (s.contains(c) && c != s[k]) by {
        let i = choose|i: int| 0 <= i < r.len() && r[i] == c;
        let si: int = if i < k {
            i
        } else {
            i + 1
        };
        assert(s[si] == c);
        assert(s.contains(c));
        assert(si != k);
    };
    assert forall|c: i64| s.contains(c) && c != s[k] implies #[trigger] r.contains(c) by {
        let i = choose|i: int| 0 <= i < s.len() && s[i] == c;
        assert(i != k);
        if i < k {
            assert(r[i] == c);
        } else {
            assert(r[i - 1] == c);
        }
    };
}

/// Law: a snapshot taken after any sequence of press/release transitions
/// holds exactly the keys that were pressed and not released afterwards: a
/// code is held after `events` exactly when some press of it is followed by
/// no later release of it.
pub proof fn lemma_held_iff_pressed_unreleased(events: Seq<KeyEvent>, c: i64)
    ensures
        held_after(events).contains(c) <==> (exists|i: int|
            0 <= i < events.len() && events[i] == KeyEvent::Down(c) && (forall|j: int|
                i < j < events.len() ==> events[j] != KeyEvent::Up(c))),
    decreases events.len(),
{
    if events.len() == 0 {
    } else {
        let prefix = events.drop_last();
        lemma_held_iff_pressed_unreleased(prefix, c);
        let last = events.last();
        let n = events.len() - 1;
        assert(events[n] == last);
        assert(forall|i: int| 0 <= i < n ==> events[i] == prefix[i]);
        if last == KeyEvent::Down(c) {
            assert(held_after(events).contains(c));
            assert(events[n] == KeyEvent::Down(c) && (forall|j: int|
                n < j < events.len() ==> events[j] != KeyEvent::Up(c)));
        } else if last == KeyEvent::Up(c) {
            assert(!held_after(events).contains(c));
            assert forall|i: int|
                0 <= i < events.len() && events[i] == KeyEvent::Down(c) implies !(forall|j: int|
                i < j < events.len() ==> events[j] != KeyEvent::Up(c)) by {
                assert(events[n] == KeyEvent::Up(c));
            };
        } else {
            assert(held_after(events).contains(c) <==> held_after(prefix).contains(c));
            if exists|i: int|
                0 <= i < prefix.len() && prefix[i] == KeyEvent::Down(c) && (forall|j: int|
                    i < j < prefix.len() ==> prefix[j] != KeyEvent::Up(c)) {
                let i = choose|i: int|
                    0 <= i < prefix.len() && prefix[i] == KeyEvent::Down(c) && (forall|j: int|
                        i < j < prefix.len() ==> prefix[j] != KeyEvent::Up(c));
                assert(events[i] == KeyEvent::Down(c));
                assert forall|j: int| i < j < events.len() implies events[j] != KeyEvent::Up(
                    c,
                ) by {
                    if j < n {
                        assert(events[j] == prefix[j]);
                    }
                };
            }
            if exists|i: int|
                0 <= i < events.len() && events[i] == KeyEvent::Down(c) && (forall|j: int|
                    i < j < events.len() ==> events[j] != KeyEvent::Up(c)) {
                let i = choose|i: int|
                    0 <= i < events.len() && events[i] == KeyEvent::Down(c) && (forall|j: int|
                        i < j < events.len() ==> events[j] != KeyEvent::Up(c));
                assert(i != n);
                assert(prefix[i] == KeyEvent::Down(c));
                assert(forall|j: int| i < j < prefix.len() ==> prefix[j] != KeyEvent::Up(c));
            }
        }
    }
}

/// Law: applying one more event transforms the held set by exactly one
/// insertion or removal.
pub proof fn lemma_held_after_step(events: Seq<KeyEvent>, event: KeyEvent)
    ensures
        held_after(events.push(event)) == (match event {
            KeyEvent::Down(code) => held_after(events).insert(code),
            KeyEvent::Up(code) => held_after(events).remove(code),
        }),
{
    let all = events.push(event);
    assert(all.last() == event);
    assert(all.drop_last() =~= events);
}

} // verus!
