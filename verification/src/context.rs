use vstd::prelude::*;

use crate::input::Axis;
use crate::input::DeviceId;
use crate::input::GamepadButton;
use crate::input::Key;
use crate::input::MouseButton;
use crate::input::Sample;
use crate::input::Vec2;

verus! {

/// A gamepad button currently held down.
#[derive(Clone, Copy, PartialEq, Eq, Structural, Debug)]
struct PadButtonEntry {
    dev: DeviceId,
    button: GamepadButton,
}

/// The last value reported for one axis of one gamepad.
#[derive(Clone, Copy, PartialEq, Eq, Structural, Debug)]
struct AxisEntry {
    dev: DeviceId,
    axis: Axis,
    value: Sample,
}

/// The last entry for `(dev, axis)` wins: the value of the most recent
/// report, or `None` when none is on record.
spec fn axis_lookup(s: Seq<AxisEntry>, dev: DeviceId, axis: Axis) -> Option<Sample>
    decreases s.len(),
{
    if s.len() == 0 {
        None
    } else if s.last().dev == dev && s.last().axis == axis {
        Some(s.last().value)
    } else {
        axis_lookup(s.drop_last(), dev, axis)
    }
}

/// Dropping entries of other keys never changes a key's last value.
proof fn lemma_axis_lookup_filter_keeps(
    s: Seq<AxisEntry>,
    keep: spec_fn(AxisEntry) -> bool,
    dev: DeviceId,
    axis: Axis,
)
    requires
        forall|e: AxisEntry| e.dev == dev && e.axis == axis ==> #[trigger] keep(e),
    ensures
        axis_lookup(s.filter(keep), dev, axis) == axis_lookup(s, dev, axis),
    decreases s.len(),
{
    reveal(Seq::filter);
    if s.len() == 0 {
    } else {
        let l = s.last();
        let dl = s.drop_last();
        lemma_axis_lookup_filter_keeps(dl, keep, dev, axis);
        if keep(l) {
            assert(s.filter(keep) == dl.filter(keep).push(l));
            assert(dl.filter(keep).push(l).drop_last() =~= dl.filter(keep));
            assert(dl.filter(keep).push(l).last() == l);
        } else {
            assert(s.filter(keep) == dl.filter(keep));
        }
    }
}

/// Dropping every entry of a key leaves no value on record for it.
proof fn lemma_axis_lookup_filter_drops(
    s: Seq<AxisEntry>,
    keep: spec_fn(AxisEntry) -> bool,
    dev: DeviceId,
    axis: Axis,
)
    requires
        forall|e: AxisEntry| e.dev == dev && e.axis == axis ==> !(#[trigger] keep(e)),
    ensures
        axis_lookup(s.filter(keep), dev, axis) is None,
    decreases s.len(),
{
    reveal(Seq::filter);
    if s.len() == 0 {
    } else {
        let l = s.last();
        let dl = s.drop_last();
        lemma_axis_lookup_filter_drops(dl, keep, dev, axis);
        if keep(l) {
            assert(s.filter(keep) == dl.filter(keep).push(l));
            assert(dl.filter(keep).push(l).drop_last() =~= dl.filter(keep));
            assert(dl.filter(keep).push(l).last() == l);
        } else {
            assert(s.filter(keep) == dl.filter(keep));
        }
    }
}

/// Last-known input-device state, updated by the dispatch loop as events
/// are drained and readable by the game through [`AppContext`].
pub struct InputState {
    cursor: Vec2,
    keys_down: Vec<Key>,
    mouse_down: Vec<MouseButton>,
    pads: Vec<DeviceId>,
    pad_buttons: Vec<PadButtonEntry>,
    pad_axes: Vec<AxisEntry>,
}

impl InputState {
    /// The last cursor position the host reported.
    pub closed spec fn spec_cursor(self) -> Vec2 {
        self.cursor
    }

    /// Whether `key` is currently held down.
    pub closed spec fn spec_key_down(self, key: Key) -> bool {
        self.keys_down@.contains(key)
    }

    /// Whether `button` is currently held down.
    pub closed spec fn spec_mouse_down(self, button: MouseButton) -> bool {
        self.mouse_down@.contains(button)
    }

    /// The identifiers of the gamepads currently connected, in connection order.
    pub closed spec fn spec_pads(self) -> Seq<DeviceId> {
        self.pads@
    }

    /// Whether `button` on gamepad `dev` is currently held down.
    pub closed spec fn spec_pad_button_down(self, dev: DeviceId, button: GamepadButton) -> bool {
        self.pad_buttons@.contains(PadButtonEntry { dev, button })
    }

    /// The last value reported for `axis` on gamepad `dev`, if any.
    pub closed spec fn spec_axis_value(self, dev: DeviceId, axis: Axis) -> Option<Sample> {
        axis_lookup(self.pad_axes@, dev, axis)
    }

    /// A state with no devices known and the cursor at the zero sample.
    pub fn new() -> (r: InputState)
        ensures
            r.spec_cursor() == (Vec2 { x: Sample { bits: 0 }, y: Sample { bits: 0 } }),
            forall|k: Key| !r.spec_key_down(k),
            forall|b: MouseButton| !r.spec_mouse_down(b),
            r.spec_pads() == Seq::<DeviceId>::empty(),
            forall|d: DeviceId, b: GamepadButton| !r.spec_pad_button_down(d, b),
            forall|d: DeviceId, a: Axis| r.spec_axis_value(d, a) is None,
    {
        InputState {
            cursor: Vec2 { x: Sample { bits: 0 }, y: Sample { bits: 0 } },
            keys_down: Vec::new(),
            mouse_down: Vec::new(),
            pads: Vec::new(),
            pad_buttons: Vec::new(),
            pad_axes: Vec::new(),
        }
    }

    pub fn cursor(&self) -> (r: Vec2)
        ensures
            r == self.spec_cursor(),
    {
        self.cursor
    }

    pub fn is_key_down(&self, key: Key) -> (r: bool)
        ensures
            r == self.spec_key_down(key),
    {
        let mut i: usize = 0;
        while i < self.keys_down.len()
            invariant
                i <= self.keys_down.len(),
                forall|j: int| 0 <= j < i ==> self.keys_down@[j] != key,
            decreases self.keys_down.len() - i,
        {
            if self.keys_down[i] == key {
                return true;
            }
            i = i + 1;
        }
        false
    }

    pub fn is_mouse_down(&self, button: MouseButton) -> (r: bool)
        ensures
            r == self.spec_mouse_down(button),
    {
        let mut i: usize = 0;
        while i < self.mouse_down.len()
            invariant
                i <= self.mouse_down.len(),
                forall|j: int| 0 <= j < i ==> self.mouse_down@[j] != button,
            decreases self.mouse_down.len() - i,
        {
            if self.mouse_down[i] == button {
                return true;
            }
            i = i + 1;
        }
        false
    }

    /// The currently connected gamepads, in connection order.
    pub fn pads(&self) -> (r: Vec<DeviceId>)
        ensures
            r@ == self.spec_pads(),
    {
        let mut out: Vec<DeviceId> = Vec::new();
        let mut i: usize = 0;
        while i < self.pads.len()
            invariant
                i <= self.pads.len(),
                out@ == self.pads@.take(i as int),
            decreases self.pads.len() - i,
        {
            out.push(self.pads[i]);
            proof {
                assert(self.pads@.take(i + 1 as int) =~= self.pads@.take(i as int).push(
                    self.pads@[i as int],
                ));
            }
            i = i + 1;
        }
        proof {
            assert(self.pads@.take(self.pads@.len() as int) =~= self.pads@);
        }
        out
    }

    pub fn is_pad_button_down(&self, dev: DeviceId, button: GamepadButton) -> (r: bool)
        ensures
            r == self.spec_pad_button_down(dev, button),
    {
        let mut i: usize = 0;
        while i < self.pad_buttons.len()
            invariant
                i <= self.pad_buttons.len(),
                forall|j: int|
                    0 <= j < i ==> self.pad_buttons@[j] != (PadButtonEntry { dev, button }),
            decreases self.pad_buttons.len() - i,
        {
            let e = self.pad_buttons[i];
            if e.dev == dev && e.button == button {
                return true;
            }
            i = i + 1;
        }
        false
    }

    /// The last value reported for `axis` on `dev`, or `None` when no
    /// report is on record.
    pub fn axis_value(&self, dev: DeviceId, axis: Axis) -> (r: Option<Sample>)
        ensures
            r == self.spec_axis_value(dev, axis),
    {
        let s = &self.pad_axes;
        let mut i: usize = s.len();
        proof {
            assert(s@.take(s@.len() as int) =~= s@);
        }
        while i > 0
            invariant
                i <= s@.len(),
                s@ == self.pad_axes@,
                axis_lookup(s@, dev, axis) == axis_lookup(s@.take(i as int), dev, axis),
            decreases i,
        {
            let e = s[i - 1];
            proof {
                assert(s@.take(i as int).last() == s@[i - 1]);
                assert(s@.take(i as int).drop_last() =~= s@.take(i - 1));
            }
            if e.dev == dev && e.axis == axis {
                proof {
                    assert(s@.take(i as int).len() > 0);
                    assert(s@.take(i as int).last().dev == dev);
                    assert(axis_lookup(s@.take(i as int), dev, axis) == Some(e.value));
                }
                return Some(e.value);
            }
            i = i - 1;
        }
        proof {
            assert(s@.take(0) =~= Seq::<AxisEntry>::empty());
        }
        None
    }

    pub(crate) fn note_pad_button(&mut self, dev: DeviceId, button: GamepadButton, pressed: bool)
        ensures
            forall|d: DeviceId, b: GamepadButton|
                final (self).spec_pad_button_down(d, b) == if d == dev && b == button {
                    pressed
                } else {
                    old(self).spec_pad_button_down(d, b)
                },
            final (self).spec_cursor() == old(self).spec_cursor(),
            forall|k: Key| final (self).spec_key_down(k) == old(self).spec_key_down(k),
            forall|b: MouseButton| final (self).spec_mouse_down(b) == old(self).spec_mouse_down(
                b,
            ),
            final (self).spec_pads() == old(self).spec_pads(),
            forall|d: DeviceId, a: Axis|
                final (self).spec_axis_value(d, a) == old(self).spec_axis_value(d, a),
    {
        let entry = PadButtonEntry { dev, button };
        let kept = retain_pad_buttons(&self.pad_buttons, entry);
        self.pad_buttons = kept;
        if pressed {
            self.pad_buttons.push(entry);
        }
        proof {
            broadcast use vstd::seq_lib::group_seq_properties;

            let s = old(self).pad_buttons@;
            let p = |e: PadButtonEntry| e != entry;
            let f = s.filter(p);
            assert forall|d: DeviceId, b: GamepadButton|
                self.pad_buttons@.contains(PadButtonEntry { dev: d, button: b }) == if d == dev
                    && b == button {
                    pressed
                } else {
                    s.contains(PadButtonEntry { dev: d, button: b })
                } by {
                let q = PadButtonEntry { dev: d, button: b };
                if f.contains(q) {
                    s.lemma_filter_contains_rev(p, q);
                    let i = choose|i: int| 0 <= i < f.len() && f[i] == q;
                    s.lemma_filter_pred(p, i);
                }
                if s.contains(q) && q != entry {
                    let i = choose|i: int| 0 <= i < s.len() && s[i] == q;
                    s.lemma_filter_contains(p, i);
                    assert(f.contains(q));
                }
            }
        }
    }

    pub(crate) fn note_axis(&mut self, dev: DeviceId, axis: Axis, value: Sample)
        ensures
            forall|d: DeviceId, a: Axis|
                final (self).spec_axis_value(d, a) == if d == dev && a == axis {
                    Some(value)
                } else {
                    old(self).spec_axis_value(d, a)
                },
            final (self).spec_cursor() == old(self).spec_cursor(),
            forall|k: Key| final (self).spec_key_down(k) == old(self).spec_key_down(k),
            forall|b: MouseButton| final (self).spec_mouse_down(b) == old(self).spec_mouse_down(
                b,
            ),
            final (self).spec_pads() == old(self).spec_pads(),
            forall|d: DeviceId, b: GamepadButton|
                final (self).spec_pad_button_down(d, b) == old(self).spec_pad_button_down(d, b),
    {
        let kept = retain_axes_of_key(&self.pad_axes, dev, axis);
        self.pad_axes = kept;
        self.pad_axes.push(AxisEntry { dev, axis, value });
        proof {
            let s = old(self).pad_axes@;
            let keep = |e: AxisEntry| !(e.dev == dev && e.axis == axis);
            let f = s.filter(keep);
            let g = self.pad_axes@;
            assert(g == f.push(AxisEntry { dev, axis, value }));
            assert(g.drop_last() =~= f);
            assert(g.last() == AxisEntry { dev, axis, value });
            assert forall|d: DeviceId, a: Axis|
                axis_lookup(g, d, a) == if d == dev && a == axis {
                    Some(value)
                } else {
                    axis_lookup(s, d, a)
                } by {
                if d == dev && a == axis {
                    assert(axis_lookup(g, d, a) == Some(value));
                } else {
                    assert(axis_lookup(g, d, a) == axis_lookup(f, d, a));
                    lemma_axis_lookup_filter_keeps(s, keep, d, a);
                }
            }
        }
    }

    pub(crate) fn note_cursor(&mut self, pos: Vec2)
        ensures
            final (self).spec_cursor() == pos,
            forall|k: Key| final (self).spec_key_down(k) == old(self).spec_key_down(k),
            forall|b: MouseButton| final (self).spec_mouse_down(b) == old(self).spec_mouse_down(
                b,
            ),
            final (self).spec_pads() == old(self).spec_pads(),
            forall|d: DeviceId, b: GamepadButton|
                final (self).spec_pad_button_down(d, b) == old(self).spec_pad_button_down(d, b),
            forall|d: DeviceId, a: Axis|
                final (self).spec_axis_value(d, a) == old(self).spec_axis_value(d, a),
    {
        self.cursor = pos;
    }

    pub(crate) fn note_key(&mut self, key: Key, pressed: bool)
        ensures
            forall|k: Key|
                final (self).spec_key_down(k) == if k == key {
                    pressed
                } else {
                    old(self).spec_key_down(k)
                },
            final (self).spec_cursor() == old(self).spec_cursor(),
            forall|b: MouseButton| final (self).spec_mouse_down(b) == old(self).spec_mouse_down(
                b,
            ),
            final (self).spec_pads() == old(self).spec_pads(),
            forall|d: DeviceId, b: GamepadButton|
                final (self).spec_pad_button_down(d, b) == old(self).spec_pad_button_down(d, b),
            forall|d: DeviceId, a: Axis|
                final (self).spec_axis_value(d, a) == old(self).spec_axis_value(d, a),
    {
        let kept = retain_keys(&self.keys_down, key);
        self.keys_down = kept;
        if pressed {
            self.keys_down.push(key);
        }
        proof {
            broadcast use vstd::seq_lib::group_seq_properties;

            let s = old(self).keys_down@;
            let p = |k: Key| k != key;
            let f = s.filter(p);
            assert forall|k: Key|
                self.keys_down@.contains(k) == if k == key {
                    pressed
                } else {
                    s.contains(k)
                } by {
                if f.contains(k) {
                    s.lemma_filter_contains_rev(p, k);
                    let i = choose|i: int| 0 <= i < f.len() && f[i] == k;
                    s.lemma_filter_pred(p, i);
                }
                if s.contains(k) && k != key {
                    let i = choose|i: int| 0 <= i < s.len() && s[i] == k;
                    s.lemma_filter_contains(p, i);
                    assert(f.contains(k));
                }
            }
        }
    }

    pub(crate) fn note_mouse(&mut self, button: MouseButton, pressed: bool)
        ensures
            forall|b: MouseButton|
                final (self).spec_mouse_down(b) == if b == button {
                    pressed
                } else {
                    old(self).spec_mouse_down(b)
                },
            final (self).spec_cursor() == old(self).spec_cursor(),
            forall|k: Key| final (self).spec_key_down(k) == old(self).spec_key_down(k),
            final (self).spec_pads() == old(self).spec_pads(),
            forall|d: DeviceId, b: GamepadButton|
                final (self).spec_pad_button_down(d, b) == old(self).spec_pad_button_down(d, b),
            forall|d: DeviceId, a: Axis|
                final (self).spec_axis_value(d, a) == old(self).spec_axis_value(d, a),
    {
        let kept = retain_mouse(&self.mouse_down, button);
        self.mouse_down = kept;
        if pressed {
            self.mouse_down.push(button);
        }
        proof {
            broadcast use vstd::seq_lib::group_seq_properties;

            let s = old(self).mouse_down@;
            let p = |b: MouseButton| b != button;
            let f = s.filter(p);
            assert forall|b: MouseButton|
                self.mouse_down@.contains(b) == if b == button {
                    pressed
                } else {
                    s.contains(b)
                } by {
                if f.contains(b) {
                    s.lemma_filter_contains_rev(p, b);
                    let i = choose|i: int| 0 <= i < f.len() && f[i] == b;
                    s.lemma_filter_pred(p, i);
                }
                if s.contains(b) && b != button {
                    let i = choose|i: int| 0 <= i < s.len() && s[i] == b;
                    s.lemma_filter_contains(p, i);
                    assert(f.contains(b));
                }
            }
        }
    }

    pub(crate) fn note_pad_connected(&mut self, dev: DeviceId)
        ensures
            final (self).spec_pads() == old(self).spec_pads().push(dev),
            final (self).spec_cursor() == old(self).spec_cursor(),
            forall|k: Key| final (self).spec_key_down(k) == old(self).spec_key_down(k),
            forall|b: MouseButton| final (self).spec_mouse_down(b) == old(self).spec_mouse_down(
                b,
            ),
            forall|d: DeviceId, b: GamepadButton|
                final (self).spec_pad_button_down(d, b) == old(self).spec_pad_button_down(d, b),
            forall|d: DeviceId, a: Axis|
                final (self).spec_axis_value(d, a) == old(self).spec_axis_value(d, a),
    {
        self.pads.push(dev);
    }

    /// Retires `dev`: removes it from the connected list and forgets its
    /// button and axis state, so nothing of a disconnected identifier is
    /// kept on record.
    pub(crate) fn note_pad_disconnected(&mut self, dev: DeviceId)
        ensures
            final (self).spec_pads() == old(self).spec_pads().filter(
                |d: DeviceId| d != dev,
            ),
            final (self).spec_cursor() == old(self).spec_cursor(),
            forall|k: Key| final (self).spec_key_down(k) == old(self).spec_key_down(k),
            forall|b: MouseButton| final (self).spec_mouse_down(b) == old(self).spec_mouse_down(
                b,
            ),
            forall|b: GamepadButton| !final (self).spec_pad_button_down(dev, b),
            forall|d: DeviceId, b: GamepadButton|
                d != dev ==> final (self).spec_pad_button_down(d, b) == old(
                    self,
                ).spec_pad_button_down(d, b),
            forall|a: Axis| final (self).spec_axis_value(dev, a) is None,
            forall|d: DeviceId, a: Axis|
                d != dev ==> final (self).spec_axis_value(d, a) == old(self).spec_axis_value(
                    d,
                    a,
                ),
    {
        let kept = retain_pads(&self.pads, dev);
        self.pads = kept;
        let kept_buttons = retain_pad_buttons_of_other_devs(&self.pad_buttons, dev);
        self.pad_buttons = kept_buttons;
        let kept_axes = retain_axes_of_other_devs(&self.pad_axes, dev);
        self.pad_axes = kept_axes;
        proof {
            broadcast use vstd::seq_lib::group_seq_properties;

            let s = old(self).pad_buttons@;
            let p = |e: PadButtonEntry| e.dev != dev;
            let f = s.filter(p);
            assert forall|d: DeviceId, b: GamepadButton|
                self.pad_buttons@.contains(PadButtonEntry { dev: d, button: b }) == (d != dev
                    && s.contains(PadButtonEntry { dev: d, button: b })) by {
                let q = PadButtonEntry { dev: d, button: b };
                if f.contains(q) {
                    s.lemma_filter_contains_rev(p, q);
                    let i = choose|i: int| 0 <= i < f.len() && f[i] == q;
                    s.lemma_filter_pred(p, i);
                }
                if s.contains(q) && d != dev {
                    let i = choose|i: int| 0 <= i < s.len() && s[i] == q;
                    s.lemma_filter_contains(p, i);
                    assert(f.contains(q));
                }
            }
            let sa = old(self).pad_axes@;
            let keep = |e: AxisEntry| e.dev != dev;
            assert forall|a: Axis| axis_lookup(self.pad_axes@, dev, a) is None by {
                lemma_axis_lookup_filter_drops(sa, keep, dev, a);
            }
            assert forall|d: DeviceId, a: Axis| d != dev implies axis_lookup(
                self.pad_axes@,
                d,
                a,
            ) == axis_lookup(sa, d, a) by {
                lemma_axis_lookup_filter_keeps(sa, keep, d, a);
            }
        }
    }
}

/// Copies `v` without any occurrence of `except`.
fn retain_pad_buttons(v: &Vec<PadButtonEntry>, except: PadButtonEntry) -> (r: Vec<
    PadButtonEntry,
>)
    ensures
        r@ == v@.filter(|e: PadButtonEntry| e != except),
{
    broadcast use vstd::seq_lib::group_seq_properties;

    let mut out: Vec<PadButtonEntry> = Vec::new();
    let mut i: usize = 0;
    proof {
        assert(v@.take(0) =~= Seq::<PadButtonEntry>::empty());
        reveal(Seq::filter);
        assert(Seq::<PadButtonEntry>::empty().filter(|e: PadButtonEntry| e != except)
            =~= Seq::<PadButtonEntry>::empty());
    }
    while i < v.len()
        invariant
            i <= v.len(),
            out@ == v@.take(i as int).filter(|e: PadButtonEntry| e != except),
        decreases v.len() - i,
    {
        proof {
            assert(v@.take(i + 1 as int) =~= v@.take(i as int).push(v@[i as int]));
            v@.take(i as int).lemma_filter_push(v@[i as int], |e: PadButtonEntry| e != except);
        }
        let e = v[i];
        if !(e.dev == except.dev && e.button == except.button) {
            out.push(e);
        }
        i = i + 1;
    }
    proof {
        assert(v@.take(v@.len() as int) =~= v@);
    }
    out
}

/// Copies `v` keeping only entries of devices other than `dev`.
fn retain_pad_buttons_of_other_devs(v: &Vec<PadButtonEntry>, dev: DeviceId) -> (r: Vec<
    PadButtonEntry,
>)
    ensures
        r@ == v@.filter(|e: PadButtonEntry| e.dev != dev),
{
    broadcast use vstd::seq_lib::group_seq_properties;

    let mut out: Vec<PadButtonEntry> = Vec::new();
    let mut i: usize = 0;
    proof {
        assert(v@.take(0) =~= Seq::<PadButtonEntry>::empty());
        reveal(Seq::filter);
        assert(Seq::<PadButtonEntry>::empty().filter(|e: PadButtonEntry| e.dev != dev)
            =~= Seq::<PadButtonEntry>::empty());
    }
    while i < v.len()
        invariant
            i <= v.len(),
            out@ == v@.take(i as int).filter(|e: PadButtonEntry| e.dev != dev),
        decreases v.len() - i,
    {
        proof {
            assert(v@.take(i + 1 as int) =~= v@.take(i as int).push(v@[i as int]));
            v@.take(i as int).lemma_filter_push(v@[i as int], |e: PadButtonEntry| e.dev != dev);
        }
        let e = v[i];
        if e.dev != dev {
            out.push(e);
        }
        i = i + 1;
    }
    proof {
        assert(v@.take(v@.len() as int) =~= v@);
    }
    out
}

/// Copies `v` without any entry for the axis `axis` of `dev`.
fn retain_axes_of_key(v: &Vec<AxisEntry>, dev: DeviceId, axis: Axis) -> (r: Vec<AxisEntry>)
    ensures
        r@ == v@.filter(|e: AxisEntry| !(e.dev == dev && e.axis == axis)),
{
    broadcast use vstd::seq_lib::group_seq_properties;

    let mut out: Vec<AxisEntry> = Vec::new();
    let mut i: usize = 0;
    proof {
        assert(v@.take(0) =~= Seq::<AxisEntry>::empty());
        reveal(Seq::filter);
        assert(Seq::<AxisEntry>::empty().filter(|e: AxisEntry| !(e.dev == dev && e.axis == axis))
            =~= Seq::<AxisEntry>::empty());
    }
    while i < v.len()
        invariant
            i <= v.len(),
            out@ == v@.take(i as int).filter(|e: AxisEntry| !(e.dev == dev && e.axis == axis)),
        decreases v.len() - i,
    {
        proof {
            assert(v@.take(i + 1 as int) =~= v@.take(i as int).push(v@[i as int]));
            v@.take(i as int).lemma_filter_push(
                v@[i as int],
                |e: AxisEntry| !(e.dev == dev && e.axis == axis),
            );
        }
        let e = v[i];
        if !(e.dev == dev && e.axis == axis) {
            out.push(e);
        }
        i = i + 1;
    }
    proof {
        assert(v@.take(v@.len() as int) =~= v@);
    }
    out
}

/// Copies `v` keeping only entries of devices other than `dev`.
fn retain_axes_of_other_devs(v: &Vec<AxisEntry>, dev: DeviceId) -> (r: Vec<AxisEntry>)
    ensures
        r@ == v@.filter(|e: AxisEntry| e.dev != dev),
{
    broadcast use vstd::seq_lib::group_seq_properties;

    let mut out: Vec<AxisEntry> = Vec::new();
    let mut i: usize = 0;
    proof {
        assert(v@.take(0) =~= Seq::<AxisEntry>::empty());
        reveal(Seq::filter);
        assert(Seq::<AxisEntry>::empty().filter(|e: AxisEntry| e.dev != dev)
            =~= Seq::<AxisEntry>::empty());
    }
    while i < v.len()
        invariant
            i <= v.len(),
            out@ == v@.take(i as int).filter(|e: AxisEntry| e.dev != dev),
        decreases v.len() - i,
    {
        proof {
            assert(v@.take(i + 1 as int) =~= v@.take(i as int).push(v@[i as int]));
            v@.take(i as int).lemma_filter_push(v@[i as int], |e: AxisEntry| e.dev != dev);
        }
        let e = v[i];
        if e.dev != dev {
            out.push(e);
        }
        i = i + 1;
    }
    proof {
        assert(v@.take(v@.len() as int) =~= v@);
    }
    out
}

/// Copies `v` without any occurrence of `except`.
fn retain_keys(v: &Vec<Key>, except: Key) -> (r: Vec<Key>)
    ensures
        r@ == v@.filter(|k: Key| k != except),
{
    broadcast use vstd::seq_lib::group_seq_properties;

    let mut out: Vec<Key> = Vec::new();
    let mut i: usize = 0;
    proof {
        assert(v@.take(0) =~= Seq::<Key>::empty());
        reveal(Seq::filter);
        assert(Seq::<Key>::empty().filter(|k: Key| k != except) =~= Seq::<Key>::empty());
    }
    while i < v.len()
        invariant
            i <= v.len(),
            out@ == v@.take(i as int).filter(|k: Key| k != except),
        decreases v.len() - i,
    {
        proof {
            assert(v@.take(i + 1 as int) =~= v@.take(i as int).push(v@[i as int]));
            v@.take(i as int).lemma_filter_push(v@[i as int], |k: Key| k != except);
        }
        if v[i] != except {
            out.push(v[i]);
        }
        i = i + 1;
    }
    proof {
        assert(v@.take(v@.len() as int) =~= v@);
    }
    out
}

/// Copies `v` without any occurrence of `except`.
fn retain_mouse(v: &Vec<MouseButton>, except: MouseButton) -> (r: Vec<MouseButton>)
    ensures
        r@ == v@.filter(|b: MouseButton| b != except),
{
    broadcast use vstd::seq_lib::group_seq_properties;

    let mut out: Vec<MouseButton> = Vec::new();
    let mut i: usize = 0;
    proof {
        assert(v@.take(0) =~= Seq::<MouseButton>::empty());
        reveal(Seq::filter);
        assert(Seq::<MouseButton>::empty().filter(|b: MouseButton| b != except) =~= Seq::<MouseButton>::empty());
    }
    while i < v.len()
        invariant
            i <= v.len(),
            out@ == v@.take(i as int).filter(|b: MouseButton| b != except),
        decreases v.len() - i,
    {
        proof {
            assert(v@.take(i + 1 as int) =~= v@.take(i as int).push(v@[i as int]));
            v@.take(i as int).lemma_filter_push(v@[i as int], |b: MouseButton| b != except);
        }
        if v[i] != except {
            out.push(v[i]);
        }
        i = i + 1;
    }
    proof {
        assert(v@.take(v@.len() as int) =~= v@);
    }
    out
}

/// Copies `v` without any occurrence of `except`.
fn retain_pads(v: &Vec<DeviceId>, except: DeviceId) -> (r: Vec<DeviceId>)
    ensures
        r@ == v@.filter(|d: DeviceId| d != except),
{
    broadcast use vstd::seq_lib::group_seq_properties;

    let mut out: Vec<DeviceId> = Vec::new();
    let mut i: usize = 0;
    proof {
        assert(v@.take(0) =~= Seq::<DeviceId>::empty());
        reveal(Seq::filter);
        assert(Seq::<DeviceId>::empty().filter(|d: DeviceId| d != except) =~= Seq::<DeviceId>::empty());
    }
    while i < v.len()
        invariant
            i <= v.len(),
            out@ == v@.take(i as int).filter(|d: DeviceId| d != except),
        decreases v.len() - i,
    {
        proof {
            assert(v@.take(i + 1 as int) =~= v@.take(i as int).push(v@[i as int]));
            v@.take(i as int).lemma_filter_push(v@[i as int], |d: DeviceId| d != except);
        }
        if v[i] != except {
            out.push(v[i]);
        }
        i = i + 1;
    }
    proof {
        assert(v@.take(v@.len() as int) =~= v@);
    }
    out
}

/// The control and query facade handed to every game callback. The game
/// borrows it during a callback and never owns it; requesting exit here
/// is observed by the dispatch loop at the next drain or frame boundary.
pub struct AppContext {
    exit_requested: bool,
    pub(crate) input: InputState,
}

impl AppContext {
    /// Whether `exit` has been called since the loop started.
    pub closed spec fn spec_exit_requested(self) -> bool {
        self.exit_requested
    }

    /// The input state visible to queries.
    pub closed spec fn spec_input(self) -> InputState {
        self.input
    }

    pub(crate) fn new() -> (r: AppContext)
        ensures
            !r.spec_exit_requested(),
            forall|k: Key| !r.spec_input().spec_key_down(k),
            forall|b: MouseButton| !r.spec_input().spec_mouse_down(b),
            r.spec_input().spec_pads() == Seq::<DeviceId>::empty(),
    {
        AppContext { exit_requested: false, input: InputState::new() }
    }

    /// Asks the dispatch loop to stop. The request is observed at the
    /// next drain or frame boundary; the current callback still completes.
    pub fn exit(&mut self)
        ensures
            final (self).spec_exit_requested(),
            final (self).spec_input() == old(self).spec_input(),
    {
        self.exit_requested = true;
    }

    pub fn exit_requested(&self) -> (r: bool)
        ensures
            r == self.spec_exit_requested(),
    {
        self.exit_requested
    }

    /// Read-only access to the last-known device state.
    pub fn input(&self) -> (r: &InputState)
        ensures
            *r == self.spec_input(),
    {
        &self.input
    }

    pub(crate) fn note_cursor(&mut self, pos: Vec2)
        ensures
            final (self).spec_exit_requested() == old(self).spec_exit_requested(),
            final (self).spec_input().spec_cursor() == pos,
            forall|k: Key|
                final (self).spec_input().spec_key_down(k) == old(
                    self,
                ).spec_input().spec_key_down(k),
            forall|b: MouseButton|
                final (self).spec_input().spec_mouse_down(b) == old(
                    self,
                ).spec_input().spec_mouse_down(b),
            final (self).spec_input().spec_pads() == old(self).spec_input().spec_pads(),
            forall|d: DeviceId, b: GamepadButton|
                final (self).spec_input().spec_pad_button_down(d, b) == old(
                    self,
                ).spec_input().spec_pad_button_down(d, b),
            forall|d: DeviceId, a: Axis|
                final (self).spec_input().spec_axis_value(d, a) == old(
                    self,
                ).spec_input().spec_axis_value(d, a),
    {
        self.input.note_cursor(pos);
    }

    pub(crate) fn note_key(&mut self, key: Key, pressed: bool)
        ensures
            final (self).spec_exit_requested() == old(self).spec_exit_requested(),
            forall|k: Key|
                final (self).spec_input().spec_key_down(k) == if k == key {
                    pressed
                } else {
                    old(self).spec_input().spec_key_down(k)
                },
            final (self).spec_input().spec_cursor() == old(self).spec_input().spec_cursor(),
            forall|b: MouseButton|
                final (self).spec_input().spec_mouse_down(b) == old(
                    self,
                ).spec_input().spec_mouse_down(b),
            final (self).spec_input().spec_pads() == old(self).spec_input().spec_pads(),
            forall|d: DeviceId, b: GamepadButton|
                final (self).spec_input().spec_pad_button_down(d, b) == old(
                    self,
                ).spec_input().spec_pad_button_down(d, b),
            forall|d: DeviceId, a: Axis|
                final (self).spec_input().spec_axis_value(d, a) == old(
                    self,
                ).spec_input().spec_axis_value(d, a),
    {
        self.input.note_key(key, pressed);
    }

    pub(crate) fn note_mouse(&mut self, button: MouseButton, pressed: bool)
        ensures
            final (self).spec_exit_requested() == old(self).spec_exit_requested(),
            forall|b: MouseButton|
                final (self).spec_input().spec_mouse_down(b) == if b == button {
                    pressed
                } else {
                    old(self).spec_input().spec_mouse_down(b)
                },
            final (self).spec_input().spec_cursor() == old(self).spec_input().spec_cursor(),
            forall|k: Key|
                final (self).spec_input().spec_key_down(k) == old(
                    self,
                ).spec_input().spec_key_down(k),
            final (self).spec_input().spec_pads() == old(self).spec_input().spec_pads(),
            forall|d: DeviceId, b: GamepadButton|
                final (self).spec_input().spec_pad_button_down(d, b) == old(
                    self,
                ).spec_input().spec_pad_button_down(d, b),
            forall|d: DeviceId, a: Axis|
                final (self).spec_input().spec_axis_value(d, a) == old(
                    self,
                ).spec_input().spec_axis_value(d, a),
    {
        self.input.note_mouse(button, pressed);
    }

    pub(crate) fn note_pad_connected(&mut self, dev: DeviceId)
        ensures
            final (self).spec_exit_requested() == old(self).spec_exit_requested(),
            final (self).spec_input().spec_pads() == old(self).spec_input().spec_pads().push(
                dev,
            ),
            final (self).spec_input().spec_cursor() == old(self).spec_input().spec_cursor(),
            forall|k: Key|
                final (self).spec_input().spec_key_down(k) == old(
                    self,
                ).spec_input().spec_key_down(k),
            forall|b: MouseButton|
                final (self).spec_input().spec_mouse_down(b) == old(
                    self,
                ).spec_input().spec_mouse_down(b),
            forall|d: DeviceId, b: GamepadButton|
                final (self).spec_input().spec_pad_button_down(d, b) == old(
                    self,
                ).spec_input().spec_pad_button_down(d, b),
            forall|d: DeviceId, a: Axis|
                final (self).spec_input().spec_axis_value(d, a) == old(
                    self,
                ).spec_input().spec_axis_value(d, a),
    {
        self.input.note_pad_connected(dev);
    }

    pub(crate) fn note_pad_disconnected(&mut self, dev: DeviceId)
        ensures
            final (self).spec_exit_requested() == old(self).spec_exit_requested(),
            final (self).spec_input().spec_pads() == old(
                self,
            ).spec_input().spec_pads().filter(|d: DeviceId| d != dev),
            forall|b: GamepadButton| !final (self).spec_input().spec_pad_button_down(dev, b),
            forall|a: Axis| final (self).spec_input().spec_axis_value(dev, a) is None,
            final (self).spec_input().spec_cursor() == old(self).spec_input().spec_cursor(),
            forall|k: Key|
                final (self).spec_input().spec_key_down(k) == old(
                    self,
                ).spec_input().spec_key_down(k),
            forall|b: MouseButton|
                final (self).spec_input().spec_mouse_down(b) == old(
                    self,
                ).spec_input().spec_mouse_down(b),
            forall|d: DeviceId, b: GamepadButton|
                d != dev ==> final (self).spec_input().spec_pad_button_down(d, b) == old(
                    self,
                ).spec_input().spec_pad_button_down(d, b),
            forall|d: DeviceId, a: Axis|
                d != dev ==> final (self).spec_input().spec_axis_value(d, a) == old(
                    self,
                ).spec_input().spec_axis_value(d, a),
    {
        self.input.note_pad_disconnected(dev);
    }

    pub(crate) fn note_pad_button(&mut self, dev: DeviceId, button: GamepadButton, pressed: bool)
        ensures
            final (self).spec_exit_requested() == old(self).spec_exit_requested(),
            forall|d: DeviceId, b: GamepadButton|
                final (self).spec_input().spec_pad_button_down(d, b) == if d == dev && b
                    == button {
                    pressed
                } else {
                    old(self).spec_input().spec_pad_button_down(d, b)
                },
            final (self).spec_input().spec_cursor() == old(self).spec_input().spec_cursor(),
            forall|k: Key|
                final (self).spec_input().spec_key_down(k) == old(
                    self,
                ).spec_input().spec_key_down(k),
            forall|b: MouseButton|
                final (self).spec_input().spec_mouse_down(b) == old(
                    self,
                ).spec_input().spec_mouse_down(b),
            final (self).spec_input().spec_pads() == old(self).spec_input().spec_pads(),
            forall|d: DeviceId, a: Axis|
                final (self).spec_input().spec_axis_value(d, a) == old(
                    self,
                ).spec_input().spec_axis_value(d, a),
    {
        self.input.note_pad_button(dev, button, pressed);
    }

    pub(crate) fn note_axis(&mut self, dev: DeviceId, axis: Axis, value: Sample)
        ensures
            final (self).spec_exit_requested() == old(self).spec_exit_requested(),
            forall|d: DeviceId, a: Axis|
                final (self).spec_input().spec_axis_value(d, a) == if d == dev && a == axis {
                    Some(value)
                } else {
                    old(self).spec_input().spec_axis_value(d, a)
                },
            final (self).spec_input().spec_cursor() == old(self).spec_input().spec_cursor(),
            forall|k: Key|
                final (self).spec_input().spec_key_down(k) == old(
                    self,
                ).spec_input().spec_key_down(k),
            forall|b: MouseButton|
                final (self).spec_input().spec_mouse_down(b) == old(
                    self,
                ).spec_input().spec_mouse_down(b),
            final (self).spec_input().spec_pads() == old(self).spec_input().spec_pads(),
            forall|d: DeviceId, b: GamepadButton|
                final (self).spec_input().spec_pad_button_down(d, b) == old(
                    self,
                ).spec_input().spec_pad_button_down(d, b),
    {
        self.input.note_axis(dev, axis, value);
    }

}

/// The facade handed to the game's `render` callback. The game hands it
/// at most one draw handle per frame: handing it a second one is not an
/// error, but replaces the first, so the loop submits at most one draw
/// to the renderer per frame and a repeated call supersedes rather than
/// adds.
pub struct RenderContext {
    pending: Option<u64>,
}

impl RenderContext {
    /// The draw handle the loop will submit at the end of this frame, if any.
    pub closed spec fn spec_pending(self) -> Option<u64> {
        self.pending
    }

    pub fn new() -> (r: RenderContext)
        ensures
            r.spec_pending() is None,
    {
        RenderContext { pending: None }
    }

    /// Records `draw` as the frame's draw request. Calling this a second
    /// time within one callback replaces the earlier request: the last
    /// handle recorded is the one the loop submits.
    pub fn render(&mut self, draw: u64)
        ensures
            final (self).spec_pending() == Some(draw),
    {
        self.pending = Some(draw);
    }

    /// The draw handle recorded so far in this frame, if any.
    pub fn pending(&self) -> (r: Option<u64>)
        ensures
            r == self.spec_pending(),
    {
        self.pending
    }
}

} // verus!
