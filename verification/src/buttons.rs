//! The button/keymap dispatcher: a 16-bit hardware button code is mapped
//! through the active keymap schema to an action; held synthesized keys are
//! tracked in insertion order for the bulk release-all code.

use vstd::prelude::*;

use crate::config::{ActionV, Config, KeymapSchema, SchemaV};
use crate::events::KeyboardEvent;
use vstd::arithmetic::div_mod::{
    lemma_add_mod_noop, lemma_mod_multiples_vanish, lemma_mod_self_0, lemma_small_mod,
};

verus! {

/// The schema slot a recognized button code selects.
#[derive(Clone, Copy, Debug, PartialEq, Eq, Structural)]
pub enum ButtonSlot {
    Button0,
    Button1,
    Button2,
    Button3,
    Button4,
    Button5,
    Button6,
    Button7,
    /// Ring rotated counter-clockwise.
    Ring0,
    /// Ring rotated clockwise.
    Ring1,
    /// The ring-center button.
    RingButton,
}

/// The fixed table from hardware button codes to schema slots. The
/// release-all sentinel 0 is not a slot, and unrecognized codes map to
/// nothing.
pub open spec fn slot_of_code(code: u16) -> Option<ButtonSlot> {
    if code == 0x0100 {
        Some(ButtonSlot::Button0)
    } else if code == 0x0200 {
        Some(ButtonSlot::Button1)
    } else if code == 0x0400 {
        Some(ButtonSlot::Button2)
    } else if code == 0x0800 {
        Some(ButtonSlot::Button3)
    } else if code == 0x0801 {
        Some(ButtonSlot::Ring1)
    } else if code == 0x0802 {
        Some(ButtonSlot::Ring0)
    } else if code == 0x0803 {
        Some(ButtonSlot::RingButton)
    } else if code == 0x1000 {
        Some(ButtonSlot::Button4)
    } else if code == 0x2000 {
        Some(ButtonSlot::Button5)
    } else if code == 0x4000 {
        Some(ButtonSlot::Button6)
    } else if code == 0x8000 {
        Some(ButtonSlot::Button7)
    } else {
        None
    }
}

/// The action bound to a slot in one schema.
pub open spec fn action_of(schema: SchemaV, slot: ButtonSlot) -> ActionV {
    match slot {
        ButtonSlot::Button0 => schema.button0,
        ButtonSlot::Button1 => schema.button1,
        ButtonSlot::Button2 => schema.button2,
        ButtonSlot::Button3 => schema.button3,
        ButtonSlot::Button4 => schema.button4,
        ButtonSlot::Button5 => schema.button5,
        ButtonSlot::Button6 => schema.button6,
        ButtonSlot::Button7 => schema.button7,
        ButtonSlot::Ring0 => schema.ring0,
        ButtonSlot::Ring1 => schema.ring1,
        ButtonSlot::RingButton => schema.ring_button,
    }
}

/// The events of a press action: one press per key, in order, closed by a
/// synchronization event.
pub open spec fn press_events(keys: Seq<u16>) -> Seq<KeyboardEvent> {
    keys.map_values(|k: u16| KeyboardEvent::Key { code: k, pressed: true })
        + seq![KeyboardEvent::SynReport]
}

/// The events of a release-all: one release per held key, in insertion
/// order, closed by a synchronization event.
pub open spec fn release_events(held: Seq<u16>) -> Seq<KeyboardEvent> {
    held.map_values(|k: u16| KeyboardEvent::Key { code: k, pressed: false })
        + seq![KeyboardEvent::SynReport]
}

/// The held-keys set after a press action: each key of the action is
/// appended in order unless it is already held.
pub open spec fn insert_keys(held: Seq<u16>, keys: Seq<u16>) -> Seq<u16>
    decreases keys.len(),
{
    if keys.len() == 0 {
        held
    } else {
        let held1 = if held.contains(keys[0]) {
            held
        } else {
            held.push(keys[0])
        };
        insert_keys(held1, keys.drop_first())
    }
}

/// One step of the dispatcher on a 16-bit button code: the new active
/// schema index, the new held-keys set, and the emitted keyboard events.
///
/// Code 0 is the release-all sentinel: held keys are released in insertion
/// order and the set cleared; with nothing held it is a no-op with no
/// event traffic. A recognized code runs the bound action of the active
/// schema: a press action presses its keys in order and records them as
/// held; a schema switch advances the index cyclically and emits nothing;
/// a no-op and an unrecognized code change and emit nothing.
pub open spec fn button_step(conf: crate::config::ConfigV, index: int, held: Seq<u16>, code: u16)
    -> (int, Seq<u16>, Seq<KeyboardEvent>) {
    if code == 0 {
        if held.len() == 0 {
            (index, held, Seq::<KeyboardEvent>::empty())
        } else {
            (index, Seq::<u16>::empty(), release_events(held))
        }
    } else {
        match slot_of_code(code) {
            None => (index, held, Seq::<KeyboardEvent>::empty()),
            Some(slot) => match action_of(conf.keymaps[index], slot) {
                ActionV::Press(keys) => (index, insert_keys(held, keys), press_events(keys)),
                ActionV::SwitchSchema => (
                    (index + 1) % (conf.keymaps.len() as int),
                    held,
                    Seq::<KeyboardEvent>::empty(),
                ),
                ActionV::NoOp => (index, held, Seq::<KeyboardEvent>::empty()),
            },
        }
    }
}

/// Whether a key code is held.
fn held_contains(held: &Vec<u16>, code: u16) -> (r: bool)
    ensures
        r == held@.contains(code),
{
    let mut i: usize = 0;
    while i < held.len()
        invariant
            i <= held@.len(),
            forall|j: int| 0 <= j < i ==> held@[j] != code,
        decreases held@.len() - i,
    {
        if held[i] == code {
            return true;
        }
        i = i + 1;
    }
    false
}

/// Release every held key, in insertion order, and clear the set; a no-op
/// with no event traffic when nothing is held.
pub fn release_all(held: &mut Vec<u16>, out: &mut Vec<KeyboardEvent>)
    ensures
        old(held)@.len() == 0 ==> {
            &&& final(held)@ == old(held)@
            &&& final(out)@ == old(out)@
        },
        old(held)@.len() > 0 ==> {
            &&& final(held)@ == Seq::<u16>::empty()
            &&& final(out)@ == old(out)@ + release_events(old(held)@)
        },
{
    if held.len() == 0 {
        return ;
    }
    let ghost held0 = held@;
    let ghost out0 = out@;
    let mut i: usize = 0;
    while i < held.len()
        invariant
            held@ == held0,
            i <= held0.len(),
            out@ == out0 + held0.take(i as int).map_values(
                |k: u16| KeyboardEvent::Key { code: k, pressed: false },
            ),
        decreases held0.len() - i,
    {
        let code = held[i];
        out.push(KeyboardEvent::Key { code, pressed: false });
        proof {
            assert(out@ =~= out0 + held0.take(i + 1).map_values(
                |k: u16| KeyboardEvent::Key { code: k, pressed: false },
            ));
        }
        i = i + 1;
    }
    held.clear();
    out.push(KeyboardEvent::SynReport);
    proof {
        assert(held0.take(held0.len() as int) =~= held0);
        assert(out@ =~= out0 + release_events(held0));
    }
}

/// Run a press action: press each key in order, record it as held unless
/// it already is, and close with one synchronization event.
pub fn press_action(held: &mut Vec<u16>, keys: &Vec<u16>, out: &mut Vec<KeyboardEvent>)
    requires
        old(held)@.no_duplicates(),
    ensures
        final(held)@ == insert_keys(old(held)@, keys@),
        final(held)@.no_duplicates(),
        final(out)@ == old(out)@ + press_events(keys@),
{
    let ghost held0 = held@;
    let ghost out0 = out@;
    proof {
        assert(keys@.skip(0) =~= keys@);
    }
    let mut i: usize = 0;
    while i < keys.len()
        invariant
            held@.no_duplicates(),
            i <= keys@.len(),
            insert_keys(held0, keys@) == insert_keys(held@, keys@.skip(i as int)),
            out@ == out0 + keys@.take(i as int).map_values(
                |k: u16| KeyboardEvent::Key { code: k, pressed: true },
            ),
        decreases keys@.len() - i,
    {
        let code = keys[i];
        out.push(KeyboardEvent::Key { code, pressed: true });
        if !held_contains(held, code) {
            held.push(code);
        }
        proof {
            assert(keys@.skip(i as int).drop_first() =~= keys@.skip(i + 1));
            assert(keys@.skip(i as int)[0] == keys@[i as int]);
            assert(out@ =~= out0 + keys@.take(i + 1).map_values(
                |k: u16| KeyboardEvent::Key { code: k, pressed: true },
            ));
        }
        i = i + 1;
    }
    out.push(KeyboardEvent::SynReport);
    proof {
        assert(keys@.skip(keys@.len() as int) =~= Seq::<u16>::empty());
        assert(keys@.take(keys@.len() as int) =~= keys@);
        assert(insert_keys(held@, Seq::<u16>::empty()) == held@);
        assert(out@ =~= out0 + press_events(keys@));
    }
}

/// Advance the active schema index cyclically; with a single schema this
/// leaves the index unchanged.
pub fn switch_schema(keymap_index: &mut usize, schema_count: usize)
    requires
        schema_count > 0,
        *old(keymap_index) < schema_count,
    ensures
        *final(keymap_index) == (*old(keymap_index) + 1) % (schema_count as int),
        *final(keymap_index) < schema_count,
        schema_count == 1 ==> *final(keymap_index) == *old(keymap_index),
{
    let current = *keymap_index;
    let new_index = if current + 1 == schema_count {
        0
    } else {
        current + 1
    };
    proof {
        if current + 1 == schema_count {
            lemma_mod_self_0(schema_count as int);
        } else {
            lemma_small_mod((current + 1) as nat, schema_count as nat);
        }
    }
    if new_index != current {
        *keymap_index = new_index;
    }
}

/// Schema cycling: starting from any valid index, `n` consecutive switch
/// steps over `n` schemas return the index to its starting value.
pub proof fn lemma_schema_cycle(start: int, n: int, k: int)
    requires
        n > 0,
        0 <= start < n,
        0 <= k <= n,
    ensures
        switch_iter(start, n, k) == if k == n {
            start
        } else {
            (start + k) % n
        },
    decreases k,
{
    if k == 0 {
        lemma_small_mod(start as nat, n as nat);
    } else {
        lemma_schema_cycle(start, n, k - 1);
        if n == 1 {
            lemma_mod_self_0(1);
        } else {
            lemma_add_mod_noop(start + k - 1, 1, n);
            lemma_small_mod(1 as nat, n as nat);
            if k == n {
                lemma_mod_multiples_vanish(1, start, n);
                lemma_small_mod(start as nat, n as nat);
            }
        }
    }
}

/// The index reached after `k` consecutive schema switches.
pub open spec fn switch_iter(start: int, n: int, k: int) -> int
    decreases k,
{
    if k <= 0 {
        start
    } else {
        (switch_iter(start, n, k - 1) + 1) % n
    }
}

/// The action bound to a slot in this schema.
impl KeymapSchema {
    pub fn action(&self, slot: ButtonSlot) -> (r: &crate::config::Action)
        ensures
            r@ == action_of(self@, slot),
    {
        match slot {
            ButtonSlot::Button0 => &self.button0,
            ButtonSlot::Button1 => &self.button1,
            ButtonSlot::Button2 => &self.button2,
            ButtonSlot::Button3 => &self.button3,
            ButtonSlot::Button4 => &self.button4,
            ButtonSlot::Button5 => &self.button5,
            ButtonSlot::Button6 => &self.button6,
            ButtonSlot::Button7 => &self.button7,
            ButtonSlot::Ring0 => &self.ring0,
            ButtonSlot::Ring1 => &self.ring1,
            ButtonSlot::RingButton => &self.ring_button,
        }
    }
}

/// Map a button code to its schema slot, or nothing for an unrecognized
/// code.
pub fn slot_for_code(code: u16) -> (r: Option<ButtonSlot>)
    ensures
        r == slot_of_code(code),
{
    if code == 0x0100 {
        Some(ButtonSlot::Button0)
    } else if code == 0x0200 {
        Some(ButtonSlot::Button1)
    } else if code == 0x0400 {
        Some(ButtonSlot::Button2)
    } else if code == 0x0800 {
        Some(ButtonSlot::Button3)
    } else if code == 0x0801 {
        Some(ButtonSlot::Ring1)
    } else if code == 0x0802 {
        Some(ButtonSlot::Ring0)
    } else if code == 0x0803 {
        Some(ButtonSlot::RingButton)
    } else if code == 0x1000 {
        Some(ButtonSlot::Button4)
    } else if code == 0x2000 {
        Some(ButtonSlot::Button5)
    } else if code == 0x4000 {
        Some(ButtonSlot::Button6)
    } else if code == 0x8000 {
        Some(ButtonSlot::Button7)
    } else {
        None
    }
}

/// Dispatch one button report (usage byte already stripped): bytes 1-2
/// form the big-endian button code, which runs through [`button_step`].
pub fn handle_button_event(
    conf: &Config,
    keymap_index: &mut usize,
    held: &mut Vec<u16>,
    buf: &[u8],
    out: &mut Vec<KeyboardEvent>,
)
    requires
        conf@.wf(),
        *old(keymap_index) < conf@.keymaps.len(),
        old(held)@.no_duplicates(),
        buf@.len() >= 3,
    ensures
        ({
            let code = button_code(buf@);
            let step = button_step(conf@, *old(keymap_index) as int, old(held)@, code);
            &&& *final(keymap_index) == step.0
            &&& final(held)@ == step.1
            &&& final(out)@ == old(out)@ + step.2
        }),
        *final(keymap_index) < conf@.keymaps.len(),
        final(held)@.no_duplicates(),
{
    let code: u16 = ((buf[1] as u16) * 256) + (buf[2] as u16);
    if code == 0 {
        release_all(held, out);
        proof {
            let step = button_step(conf@, *old(keymap_index) as int, old(held)@, code);
            assert(out@ =~= old(out)@ + step.2);
        }
        return ;
    }
    let slot = match slot_for_code(code) {
        Some(slot) => slot,
        None => {
            proof {
                let step = button_step(conf@, *old(keymap_index) as int, old(held)@, code);
                assert(out@ =~= old(out)@ + step.2);
            }
            return ;
        },
    };
    let schema = &conf.keymaps[*keymap_index];
    proof {
        assert(schema@ == conf@.keymaps[*old(keymap_index) as int]);
    }
    match schema.action(slot) {
        crate::config::Action::Press(keys) => {
            press_action(held, keys, out);
        }
        crate::config::Action::SwitchSchema => {
            switch_schema(keymap_index, conf.keymaps.len());
        }
        crate::config::Action::NoOp => {},
    }
    proof {
        let code_s = button_code(buf@);
        let step = button_step(conf@, *old(keymap_index) as int, old(held)@, code_s);
        assert(out@ =~= old(out)@ + step.2);
    }
}

/// The 16-bit big-endian button code of a button report buffer (usage byte
/// already stripped).
pub open spec fn button_code(buf: Seq<u8>) -> u16 {
    (buf[1] * 256 + buf[2]) as u16
}

} // verus!
