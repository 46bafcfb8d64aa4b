//! Key event construction: resolving the logical key value of a hardware
//! key code from the native keymap's entries, and detecting key repeats.

use vstd::prelude::*;
use crate::input::KeyModifiers;

verus! {

/// One keymap entry for a hardware key code: the layout group and shift
/// level it belongs to, and the logical key value bound there.
#[derive(Clone, Copy, Debug, PartialEq, Eq, Structural)]
pub struct KeymapKey {
    pub group: i32,
    pub level: i32,
    pub keyval: u32,
}

/// A normalized keyboard event, immutable once constructed.
#[derive(Clone, Copy, Debug, PartialEq, Eq, Structural)]
pub struct KeyEvent {
    pub key_code: u32,
    pub is_repeat: bool,
    pub mods: KeyModifiers,
    pub text: Option<char>,
    pub unmodified_text: Option<char>,
}

/// Whether a keymap entry is the unshifted, primary-layout binding.
pub open spec fn is_primary(k: KeymapKey) -> bool {
    k.group == 0 && k.level == 0
}

/// The key value of the first unshifted, primary-layout entry, if any.
pub open spec fn first_primary_keyval(keys: Seq<KeymapKey>) -> Option<u32>
    decreases keys.len(),
{
    if keys.len() == 0 {
        None
    } else if is_primary(keys[0]) {
        Some(keys[0].keyval)
    } else {
        first_primary_keyval(keys.drop_first())
    }
}

/// Resolves a hardware key code to a logical key value by selecting, among
/// the keymap's entries for that code, the first one with group zero and
/// level zero; absent such an entry, resolution fails.
pub fn hardware_keycode_to_keyval(keys: &Vec<KeymapKey>) -> (r: Option<u32>)
    ensures
        r == first_primary_keyval(keys@),
{
    let mut i: usize = 0;
    proof {
        assert(keys@.skip(0) =~= keys@);
    }
    while i < keys.len()
        invariant
            i <= keys.len(),
            first_primary_keyval(keys@) == first_primary_keyval(keys@.skip(i as int)),
        decreases keys.len() - i,
    {
        let k = keys[i];
        proof {
            assert(keys@.skip(i as int)[0] == keys@[i as int]);
            assert(keys@.skip(i as int).drop_first() =~= keys@.skip(i as int + 1));
        }
        if k.group == 0 && k.level == 0 {
            return Some(k.keyval);
        }
        i = i + 1;
    }
    proof {
        assert(keys@.skip(keys@.len() as int) =~= Seq::<KeymapKey>::empty());
    }
    None
}

/// The logical key value a key event carries: the resolved primary binding
/// of the hardware code, falling back to the toolkit-reported value.
pub open spec fn resolved_keyval(keys: Seq<KeymapKey>, fallback: u32) -> u32 {
    match first_primary_keyval(keys) {
        Some(v) => v,
        None => fallback,
    }
}

/// Builds the normalized key event for a native key event: the key code is
/// the primary-layout binding of the hardware code if the keymap has one,
/// else the toolkit-reported key value; the text fields both carry the
/// character the key value denotes, if any.
pub fn make_key_event(
    keyval: u32,
    keys: &Vec<KeymapKey>,
    repeat: bool,
    mods: KeyModifiers,
    text: Option<char>,
) -> (r: KeyEvent)
    ensures
        r == (KeyEvent {
            key_code: resolved_keyval(keys@, keyval),
            is_repeat: repeat,
            mods,
            text,
            unmodified_text: text,
        }),
{
    let key_code = match hardware_keycode_to_keyval(keys) {
        Some(v) => v,
        None => keyval,
    };
    KeyEvent { key_code, is_repeat: repeat, mods, text, unmodified_text: text }
}

/// Whether a key-down with this key value is a repeat: it is one exactly
/// when the value recorded from the immediately preceding unreleased
/// key-down equals it.  Returns the repeat flag and the new recorded value.
pub fn key_press_repeat(current_keyval: Option<u32>, keyval: u32) -> (r: (bool, Option<u32>))
    ensures
        r.0 == (current_keyval == Some(keyval)),
        r.1 == Some(keyval),
{
    let repeat = match current_keyval {
        Some(v) => v == keyval,
        None => false,
    };
    (repeat, Some(keyval))
}

} // verus!
