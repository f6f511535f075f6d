//! The chord resolver: a pure, total map from a snapshot of held keys to an
//! optional placement intent, driven by a fixed, closed decision table over
//! six tracked key codes.
//!
//! The geometry layer also plans the four corner intents and `Min`, but no
//! table row reaches them; the gap is kept as it stands rather than wired up.

use vstd::prelude::*;

verus! {

use crate::keys::vec_contains;
use crate::screens::Position;

/// Physical key code of the command modifier.
pub const KEY_COMMAND: i64 = 0x37;

/// Physical key code of the control modifier.
pub const KEY_CONTROL: i64 = 0x3B;

/// Physical key code of the left arrow.
pub const KEY_LEFT_ARROW: i64 = 0x7B;

/// Physical key code of the right arrow.
pub const KEY_RIGHT_ARROW: i64 = 0x7C;

/// Physical key code of the down arrow.
pub const KEY_DOWN_ARROW: i64 = 0x7D;

/// Physical key code of the up arrow.
pub const KEY_UP_ARROW: i64 = 0x7E;

/// True of the six key codes the decision table reads; every other code is
/// ignored by resolution.
pub open spec fn tracked_key(code: i64) -> bool {
    code == KEY_COMMAND || code == KEY_CONTROL || code == KEY_LEFT_ARROW || code == KEY_RIGHT_ARROW
        || code == KEY_DOWN_ARROW || code == KEY_UP_ARROW
}

/// The decision table over the six membership bits, in the order
/// (cmd, ctrl, left, right, down, up). The three listed rows have disjoint
/// signatures; every other combination resolves to nothing.
pub open spec fn spec_resolve(
    cmd: bool,
    ctrl: bool,
    left: bool,
    right: bool,
    down: bool,
    up: bool,
) -> Option<Position> {
    if cmd && ctrl && left && !right && !down && !up {
        Some(Position::Left)
    } else if cmd && ctrl && !left && right && !down && !up {
        Some(Position::Right)
    } else if cmd && ctrl && !left && !right && !down && up {
        Some(Position::Max)
    } else {
        None
    }
}

/// Resolution of a snapshot: the decision table applied to the memberships of
/// the six tracked codes.
pub open spec fn spec_resolve_keys(keys: Seq<i64>) -> Option<Position> {
    spec_resolve(
        keys.contains(KEY_COMMAND),
        keys.contains(KEY_CONTROL),
        keys.contains(KEY_LEFT_ARROW),
        keys.contains(KEY_RIGHT_ARROW),
        keys.contains(KEY_DOWN_ARROW),
        keys.contains(KEY_UP_ARROW),
    )
}

/// Resolve a snapshot of held keys to a placement intent, or to nothing when
/// the snapshot matches no table row.
pub fn get_position_from_keys(pressed_keys: &Vec<i64>) -> (r: Option<Position>)
    ensures
        r == spec_resolve_keys(pressed_keys@),
{
    let contains_cmd = vec_contains(pressed_keys, KEY_COMMAND);
    let contains_ctrl = vec_contains(pressed_keys, KEY_CONTROL);
    let contains_left = vec_contains(pressed_keys, KEY_LEFT_ARROW);
    let contains_right = vec_contains(pressed_keys, KEY_RIGHT_ARROW);
    let contains_down = vec_contains(pressed_keys, KEY_DOWN_ARROW);
    let contains_up = vec_contains(pressed_keys, KEY_UP_ARROW);

    match (contains_cmd, contains_ctrl, contains_left, contains_right, contains_down, contains_up) {
        (true, true, true, false, false, false) => Some(Position::Left),
        (true, true, false, true, false, false) => Some(Position::Right),
        (true, true, false, false, false, true) => Some(Position::Max),
        _ => None,
    }
}

/// Law: resolution is a pure function of the tracked memberships alone. Two
/// snapshots that agree on the six tracked codes — in particular, two
/// identical snapshots — resolve to the same intent, whatever untracked keys
/// either one holds.
pub proof fn lemma_resolve_depends_only_on_tracked_keys(a: Seq<i64>, b: Seq<i64>)
    requires
        forall|code: i64| #[trigger] tracked_key(code) ==> a.contains(code) == b.contains(code),
    ensures
        spec_resolve_keys(a) == spec_resolve_keys(b),
{
    assert(tracked_key(KEY_COMMAND));
    assert(tracked_key(KEY_CONTROL));
    assert(tracked_key(KEY_LEFT_ARROW));
    assert(tracked_key(KEY_RIGHT_ARROW));
    assert(tracked_key(KEY_DOWN_ARROW));
    assert(tracked_key(KEY_UP_ARROW));
}

/// Law: the decision table is closed. Each intent is produced exactly by its
/// row's membership signature, and a snapshot matching no row — extra
/// modifiers missing, conflicting arrows, or anything else — resolves to
/// nothing.
pub proof fn lemma_resolve_closed_table(keys: Seq<i64>)
    ensures
        spec_resolve_keys(keys) == Some(Position::Left) <==> (keys.contains(KEY_COMMAND)
            && keys.contains(KEY_CONTROL) && keys.contains(KEY_LEFT_ARROW) && !keys.contains(
            KEY_RIGHT_ARROW,
        ) && !keys.contains(KEY_DOWN_ARROW) && !keys.contains(KEY_UP_ARROW)),
        spec_resolve_keys(keys) == Some(Position::Right) <==> (keys.contains(KEY_COMMAND)
            && keys.contains(KEY_CONTROL) && !keys.contains(KEY_LEFT_ARROW) && keys.contains(
            KEY_RIGHT_ARROW,
        ) && !keys.contains(KEY_DOWN_ARROW) && !keys.contains(KEY_UP_ARROW)),
        spec_resolve_keys(keys) == Some(Position::Max) <==> (keys.contains(KEY_COMMAND)
            && keys.contains(KEY_CONTROL) && !keys.contains(KEY_LEFT_ARROW) && !keys.contains(
            KEY_RIGHT_ARROW,
        ) && !keys.contains(KEY_DOWN_ARROW) && keys.contains(KEY_UP_ARROW)),
        spec_resolve_keys(keys) is None <==> !(spec_resolve_keys(keys) == Some(Position::Left)
            || spec_resolve_keys(keys) == Some(Position::Right) || spec_resolve_keys(keys) == Some(
            Position::Max,
        )),
{
}

} // verus!
