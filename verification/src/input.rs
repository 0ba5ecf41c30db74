//! The buttons, modifiers and keys that are held down, and the report that
//! each change of them calls for.

use crate::text::{first_index_of, lemma_first_index_of};
use crate::types::{KeyboardInput, MouseInput};
use crate::wire::{signed_of, to_signed};
use vstd::prelude::*;
use vstd::relations::{sorted_by, total_ordering};
use vstd::seq_lib::lemma_sorted_unique;

verus! {

/// The order in which the held keys stand after a release: greater codes
/// first, so that the free slots come last.
pub open spec fn descending() -> spec_fn(u8, u8) -> bool {
    |a: u8, b: u8| a >= b
}

/// The slots after `key` went down: unchanged where `key` is held already or
/// no slot is free, else `key` in the first free slot.
pub open spec fn pressed(keys: Seq<u8>, key: u8) -> Seq<u8> {
    if keys.contains(key) || !keys.contains(0u8) {
        keys
    } else {
        keys.update(first_index_of(keys, 0u8), key)
    }
}

/// The slots with every slot that holds `key` set free.
pub open spec fn cleared(keys: Seq<u8>, key: u8) -> Seq<u8> {
    Seq::new(
        keys.len(),
        |i: int|
            if keys[i] == key {
                0u8
            } else {
                keys[i]
            },
    )
}

/// The slots after `key` went up: `key` set free, the rest in descending order.
pub open spec fn released(keys: Seq<u8>, key: u8) -> Seq<u8> {
    cleared(keys, key).sort_by(descending())
}

/// The slots after the keys `codes` went down one after the other.
pub open spec fn pressed_all(keys: Seq<u8>, codes: Seq<u8>) -> Seq<u8>
    decreases codes.len(),
{
    if codes.len() == 0 {
        keys
    } else {
        pressed(pressed_all(keys, codes.drop_last()), codes.last())
    }
}

/// How many slots hold a key.
pub open spec fn occupied(keys: Seq<u8>) -> nat
    decreases keys.len(),
{
    if keys.len() == 0 {
        0
    } else {
        occupied(keys.drop_last()) + if keys.last() != 0 {
            1nat
        } else {
            0nat
        }
    }
}

/// Six free slots.
pub open spec fn no_keys() -> Seq<u8> {
    seq![0u8, 0u8, 0u8, 0u8, 0u8, 0u8]
}

/// What is held down at the moment.
#[derive(Debug, Clone, Copy, PartialEq, Eq)]
pub struct InputState {
    /// The mouse buttons that are down, one bit each.
    pub buttons: u8,
    /// The modifier keys that are down, one bit each.
    pub modifiers: u8,
    /// The codes of the other keys that are down; a free slot holds zero.
    pub keys: [u8; 6],
}

impl InputState {
    /// The mouse report that carries the held buttons with a movement and a
    /// turn of the wheel.
    pub open spec fn spec_mouse_report(&self, x: i8, y: i8, wheel: i8) -> MouseInput {
        MouseInput { button: signed_of(self.buttons), x, y, wheel, reserved: 0 }
    }

    /// The keyboard report that carries the held modifiers and keys.
    pub open spec fn spec_keyboard_report(&self) -> KeyboardInput {
        KeyboardInput { modifiers: self.modifiers, reserved: 0, keys: self.keys }
    }

    /// Whether nothing is held down.
    pub open spec fn is_idle(&self) -> bool {
        self.buttons == 0 && self.modifiers == 0 && self.keys@ == no_keys()
    }

    /// Nothing held down.
    pub fn new() -> (r: Self)
        ensures
            r.is_idle(),
    {
        let r = InputState { buttons: 0, modifiers: 0, keys: [0; 6] };
        assert(r.keys@ =~= no_keys());
        r
    }

    /// The mouse report that carries the held buttons with a movement and a
    /// turn of the wheel.
    #[verifier::when_used_as_spec(spec_mouse_report)]
    pub fn mouse_report(&self, x: i8, y: i8, wheel: i8) -> (r: MouseInput)
        ensures
            r == self.spec_mouse_report(x, y, wheel),
    {
        MouseInput { button: to_signed(self.buttons), x, y, wheel, reserved: 0 }
    }

    /// The keyboard report that carries the held modifiers and keys.
    #[verifier::when_used_as_spec(spec_keyboard_report)]
    pub fn keyboard_report(&self) -> (r: KeyboardInput)
        ensures
            r == self.spec_keyboard_report(),
    {
        KeyboardInput { modifiers: self.modifiers, reserved: 0, keys: self.keys }
    }

    /// A movement by `dx` and `dy`: the held buttons, the movement, no wheel.
    pub fn mouse_move(&self, dx: i8, dy: i8) -> (r: MouseInput)
        ensures
            r == self.spec_mouse_report(dx, dy, 0),
    {
        self.mouse_report(dx, dy, 0)
    }

    /// A turn of the wheel by `delta`: the held buttons, no movement.
    pub fn wheel(&self, delta: i8) -> (r: MouseInput)
        ensures
            r == self.spec_mouse_report(0, 0, delta),
    {
        self.mouse_report(0, 0, delta)
    }

    /// The buttons of `button` go down; the report carries the buttons now
    /// held, without movement.
    pub fn button_down(&mut self, button: u8) -> (r: MouseInput)
        ensures
            final(self).buttons == old(self).buttons | button,
            final(self).buttons & button == button,
            final(self).modifiers == old(self).modifiers,
            final(self).keys == old(self).keys,
            r == final(self).spec_mouse_report(0, 0, 0),
    {
        let before: u8 = self.buttons;
        self.buttons = before | button;
        assert((before | button) & button == button) by (bit_vector);
        self.mouse_report(0, 0, 0)
    }

    /// The buttons of `button` go up; the report carries the buttons still
    /// held, without movement.
    pub fn button_up(&mut self, button: u8) -> (r: MouseInput)
        ensures
            final(self).buttons == old(self).buttons & !button,
            final(self).buttons & button == 0,
            final(self).modifiers == old(self).modifiers,
            final(self).keys == old(self).keys,
            r == final(self).spec_mouse_report(0, 0, 0),
    {
        let before: u8 = self.buttons;
        self.buttons = before & !button;
        assert((before & !button) & button == 0) by (bit_vector);
        self.mouse_report(0, 0, 0)
    }

    /// A click: the buttons of `button` go down and up again. The first
    /// report is that of the press, the second that of the release.
    pub fn click(&mut self, button: u8) -> (r: (MouseInput, MouseInput))
        ensures
            final(self).buttons == (old(self).buttons | button) & !button,
            final(self).modifiers == old(self).modifiers,
            final(self).keys == old(self).keys,
            r.0 == (InputState { buttons: old(self).buttons | button, ..*old(self) })
                .spec_mouse_report(0, 0, 0),
            r.1 == final(self).spec_mouse_report(0, 0, 0),
    {
        let down = self.button_down(button);
        let up = self.button_up(button);
        (down, up)
    }

    /// The modifiers of `mask` go down; the report carries what is now held.
    pub fn modifier_down(&mut self, mask: u8) -> (r: KeyboardInput)
        ensures
            final(self).modifiers == old(self).modifiers | mask,
            final(self).modifiers & mask == mask,
            final(self).buttons == old(self).buttons,
            final(self).keys == old(self).keys,
            r == final(self).spec_keyboard_report(),
    {
        let before: u8 = self.modifiers;
        self.modifiers = before | mask;
        assert((before | mask) & mask == mask) by (bit_vector);
        self.keyboard_report()
    }

    /// The modifiers of `mask` go up; the report carries what is still held.
    pub fn modifier_up(&mut self, mask: u8) -> (r: KeyboardInput)
        ensures
            final(self).modifiers == old(self).modifiers & !mask,
            final(self).modifiers & mask == 0,
            final(self).buttons == old(self).buttons,
            final(self).keys == old(self).keys,
            r == final(self).spec_keyboard_report(),
    {
        let before: u8 = self.modifiers;
        self.modifiers = before & !mask;
        assert((before & !mask) & mask == 0) by (bit_vector);
        self.keyboard_report()
    }

    /// The key `key` goes down: it takes the first free slot, unless it is
    /// held already or all six slots are taken, in which case nothing
    /// changes. The report carries what is now held.
    pub fn key_down(&mut self, key: u8) -> (r: KeyboardInput)
        ensures
            final(self).keys@ == pressed(old(self).keys@, key),
            final(self).buttons == old(self).buttons,
            final(self).modifiers == old(self).modifiers,
            r == final(self).spec_keyboard_report(),
    {
        let mut held: bool = false;
        let mut free: usize = 6;
        let mut i: usize = 0;
        while i < 6
            invariant
                i <= 6,
                *self == *old(self),
                held == exists|j: int| 0 <= j < i && self.keys@[j] == key,
                free <= 6,
                free < 6 ==> free < i && self.keys@[free as int] == 0,
                forall|j: int| 0 <= j < i && j < free ==> self.keys@[j] != 0,
            decreases 6 - i,
        {
            if self.keys[i] == key {
                held = true;
            }
            if free == 6 && self.keys[i] == 0 {
                free = i;
            }
            i += 1;
        }
        proof {
            let keys = old(self).keys@;
            assert(held == keys.contains(key));
            if free < 6 {
                lemma_first_index_of(keys, 0u8, free as int);
                assert(keys.contains(0u8));
            } else {
                assert(!keys.contains(0u8));
            }
        }
        if !held && free < 6 {
            self.keys[free] = key;
        }
        self.keyboard_report()
    }

    /// The key `key` goes up: every slot that holds it is set free, and the
    /// keys still held are put in descending order, the free slots last.
    /// The report carries what is still held.
    pub fn key_up(&mut self, key: u8) -> (r: KeyboardInput)
        ensures
            final(self).keys@ == released(old(self).keys@, key),
            key != 0 ==> !final(self).keys@.contains(key),
            final(self).buttons == old(self).buttons,
            final(self).modifiers == old(self).modifiers,
            r == final(self).spec_keyboard_report(),
    {
        let mut keys: [u8; 6] = self.keys;
        let mut i: usize = 0;
        while i < 6
            invariant
                i <= 6,
                *self == *old(self),
                forall|j: int| 0 <= j < i ==> keys@[j] == cleared(self.keys@, key)[j],
                forall|j: int| i <= j < 6 ==> keys@[j] == self.keys@[j],
            decreases 6 - i,
        {
            if keys[i] == key {
                keys[i] = 0;
            }
            i += 1;
        }
        assert(keys@ =~= cleared(self.keys@, key));
        let sorted = sort_descending(keys);
        proof {
            lemma_descending_is_total();
            keys@.lemma_sort_by_ensures(descending());
            if key != 0 {
                assert(!keys@.contains(key));
            }
        }
        self.keys = sorted;
        self.keyboard_report()
    }

    /// A tap: the key `key` goes down and up again. The first report is that
    /// of the press, the second that of the release.
    pub fn tap(&mut self, key: u8) -> (r: (KeyboardInput, KeyboardInput))
        ensures
            final(self).keys@ == released(pressed(old(self).keys@, key), key),
            final(self).buttons == old(self).buttons,
            final(self).modifiers == old(self).modifiers,
            r.0.modifiers == old(self).modifiers,
            r.0.reserved == 0,
            r.0.keys@ == pressed(old(self).keys@, key),
            r.1 == final(self).spec_keyboard_report(),
    {
        let down = self.key_down(key);
        let up = self.key_up(key);
        (down, up)
    }

    /// Lets go of everything. The two reports, one for the mouse and one for
    /// the keyboard, carry nothing but zeros.
    pub fn reset(&mut self) -> (r: (MouseInput, KeyboardInput))
        ensures
            final(self).is_idle(),
            r.0 == (MouseInput { button: 0, x: 0, y: 0, wheel: 0, reserved: 0 }),
            r.1.modifiers == 0,
            r.1.reserved == 0,
            r.1.keys@ == no_keys(),
    {
        self.buttons = 0;
        self.modifiers = 0;
        self.keys = [0; 6];
        assert(self.keys@ =~= no_keys());
        (self.mouse_report(0, 0, 0), self.keyboard_report())
    }
}

/// The descending order of codes is a total order.
pub proof fn lemma_descending_is_total()
    ensures
        total_ordering(descending()),
{
}

/// The six slots in descending order.
pub fn sort_descending(keys: [u8; 6]) -> (r: [u8; 6])
    ensures
        r@ == keys@.sort_by(descending()),
{
    let mut a: [u8; 6] = keys;
    let mut i: usize = 0;
    while i < 6
        invariant
            i <= 6,
            a@.to_multiset() == keys@.to_multiset(),
            forall|p: int, q: int| 0 <= p < q < 6 && p < i ==> a@[p] >= a@[q],
        decreases 6 - i,
    {
        let mut j: usize = i + 1;
        while j < 6
            invariant
                i < 6,
                i < j <= 6,
                a@.to_multiset() == keys@.to_multiset(),
                forall|p: int, q: int| 0 <= p < q < 6 && p < i ==> a@[p] >= a@[q],
                forall|q: int| i < q < j ==> a@[i as int] >= a@[q],
            decreases 6 - j,
        {
            if a[j] > a[i] {
                let ghost before = a@;
                let x: u8 = a[i];
                let y: u8 = a[j];
                a[i] = y;
                a[j] = x;
                proof {
                    lemma_swap_keeps_multiset(before, i as int, j as int);
                    assert(a@ =~= before.update(i as int, y).update(j as int, x));
                }
            }
            j += 1;
        }
        i += 1;
    }
    proof {
        lemma_descending_is_total();
        keys@.lemma_sort_by_ensures(descending());
        assert(sorted_by(a@, descending())) by {
            assert forall|p: int, q: int| 0 <= p < q < a@.len() implies #[trigger] descending()(
                a@[p],
                a@[q],
            ) by {
                assert(a@[p] >= a@[q]);
            }
        }
        lemma_sorted_unique(a@, keys@.sort_by(descending()), descending());
    }
    a
}

/// Swapping two elements of a sequence keeps what it holds.
pub proof fn lemma_swap_keeps_multiset(s: Seq<u8>, i: int, j: int)
    requires
        0 <= i < s.len(),
        0 <= j < s.len(),
    ensures
        s.update(i, s[j]).update(j, s[i]).to_multiset() == s.to_multiset(),
{
    broadcast use vstd::multiset::group_multiset_axioms;

    let t = s.update(i, s[j]);
    vstd::seq_lib::to_multiset_update(s, i, s[j]);
    vstd::seq_lib::to_multiset_update(t, j, s[i]);
    vstd::seq_lib::to_multiset_contains(s, s[i]);
    vstd::seq_lib::to_multiset_contains(s, s[j]);
    assert(s.contains(s[i]));
    assert(s.contains(s[j]));
    assert(t.update(j, s[i]).to_multiset() =~= s.to_multiset());
}

/// Pressing a key that is held changes nothing: no second slot is taken and
/// as many slots are occupied as before.
pub proof fn lemma_key_down_held(keys: Seq<u8>, key: u8)
    requires
        keys.contains(key),
    ensures
        pressed(keys, key) == keys,
        occupied(pressed(keys, key)) == occupied(keys),
{
}

/// Pressing a key twice is pressing it once.
pub proof fn lemma_key_down_idempotent(keys: Seq<u8>, key: u8)
    ensures
        pressed(pressed(keys, key), key) == pressed(keys, key),
{
    if !keys.contains(key) && keys.contains(0u8) {
        let free = first_index_of(keys, 0u8);
        lemma_first_free_slot(keys);
        assert(pressed(keys, key)[free] == key);
        assert(pressed(keys, key).contains(key));
    }
}

/// With all slots taken, a further key is dropped.
pub proof fn lemma_key_down_full(keys: Seq<u8>, key: u8)
    requires
        !keys.contains(0u8),
    ensures
        pressed(keys, key) == keys,
{
}

/// Where a slot is free, the first free slot is one of the slots and is free.
pub proof fn lemma_first_free_slot(keys: Seq<u8>)
    requires
        keys.contains(0u8),
    ensures
        0 <= first_index_of(keys, 0u8) < keys.len(),
        keys[first_index_of(keys, 0u8)] == 0,
    decreases keys.len(),
{
    let i = choose|i: int| 0 <= i < keys.len() && keys[i] == 0u8;
    if keys[0] != 0 {
        let rest = keys.drop_first();
        assert(rest[i - 1] == 0u8);
        lemma_first_free_slot(rest);
    }
}

/// Slots that all hold a key are all occupied.
pub proof fn lemma_occupied_all(keys: Seq<u8>)
    requires
        forall|i: int| 0 <= i < keys.len() ==> keys[i] != 0,
    ensures
        occupied(keys) == keys.len(),
    decreases keys.len(),
{
    if keys.len() > 0 {
        lemma_occupied_all(keys.drop_last());
    }
}

/// The first `n` of some distinct codes, none of them zero, pressed one after
/// the other with nothing held before, stand in the first `n` slots in the
/// order in which they were pressed.
pub proof fn lemma_pressed_in_order(codes: Seq<u8>, n: int)
    requires
        0 <= n <= 6,
        n <= codes.len(),
        forall|i: int| 0 <= i < codes.len() ==> codes[i] != 0,
        forall|i: int, j: int| 0 <= i < j < codes.len() ==> codes[i] != codes[j],
    ensures
        pressed_all(no_keys(), codes.subrange(0, n)) == Seq::new(
            6,
            |i: int|
                if i < n {
                    codes[i]
                } else {
                    0u8
                },
        ),
    decreases n,
{
    let target = Seq::new(
        6,
        |i: int|
            if i < n {
                codes[i]
            } else {
                0u8
            },
    );
    if n == 0 {
        assert(codes.subrange(0, 0).len() == 0);
        assert(target =~= no_keys());
    } else {
        lemma_pressed_in_order(codes, n - 1);
        let before = Seq::new(
            6,
            |i: int|
                if i < n - 1 {
                    codes[i]
                } else {
                    0u8
                },
        );
        let key = codes[n - 1];
        assert(codes.subrange(0, n).drop_last() =~= codes.subrange(0, n - 1));
        assert(codes.subrange(0, n).last() == key);
        assert(before[n - 1] == 0u8);
        assert(before.contains(0u8));
        assert(!before.contains(key)) by {
            if before.contains(key) {
                let i = choose|i: int| 0 <= i < before.len() && before[i] == key;
                assert(i < n - 1);
            }
        }
        lemma_first_index_of(before, 0u8, n - 1);
        assert(pressed(before, key) =~= target);
    }
}

/// Seven distinct keys pressed one after the other with nothing held before:
/// the first six take the six slots, and the seventh is dropped.
pub proof fn lemma_seventh_key_dropped(codes: Seq<u8>)
    requires
        codes.len() == 7,
        forall|i: int| 0 <= i < codes.len() ==> codes[i] != 0,
        forall|i: int, j: int| 0 <= i < j < codes.len() ==> codes[i] != codes[j],
    ensures
        pressed_all(no_keys(), codes) == codes.subrange(0, 6),
        pressed_all(no_keys(), codes) == pressed_all(no_keys(), codes.subrange(0, 6)),
        occupied(pressed_all(no_keys(), codes)) == 6,
{
    lemma_pressed_in_order(codes, 6);
    let six = pressed_all(no_keys(), codes.subrange(0, 6));
    assert(six =~= codes.subrange(0, 6));
    assert(codes.drop_last() =~= codes.subrange(0, 6));
    assert(!six.contains(0u8)) by {
        if six.contains(0u8) {
            let i = choose|i: int| 0 <= i < six.len() && six[i] == 0u8;
            assert(codes[i] == 0);
        }
    }
    lemma_key_down_full(six, codes.last());
    lemma_occupied_all(six);
}

} // verus!
