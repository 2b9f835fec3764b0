//! Key codes, normalization, and the actuation policy.
//!
//! A key code is carried as the plain `u16` used by the Linux input event
//! interface. Right-side modifier keys are collapsed onto their left-side
//! counterparts before any decision is made; every other code is a fixed
//! point of that normalization.

use vstd::prelude::*;

verus! {

/// Escape.
pub const KEY_ESC: u16 = 1;
/// Left Ctrl, the canonical form of both Ctrl keys.
pub const KEY_LEFTCTRL: u16 = 29;
/// The letter S.
pub const KEY_S: u16 = 31;
/// Left Shift, the canonical form of both Shift keys.
pub const KEY_LEFTSHIFT: u16 = 42;
/// Right Shift.
pub const KEY_RIGHTSHIFT: u16 = 54;
/// Left Alt, the canonical form of both Alt keys.
pub const KEY_LEFTALT: u16 = 56;
/// Right Ctrl.
pub const KEY_RIGHTCTRL: u16 = 97;
/// Right Alt.
pub const KEY_RIGHTALT: u16 = 100;
/// Left Meta, the canonical form of both Meta keys.
pub const KEY_LEFTMETA: u16 = 125;
/// Right Meta.
pub const KEY_RIGHTMETA: u16 = 126;

/// The result of collapsing a right-side modifier onto its left-side
/// counterpart; every code that is not a right-side modifier is unchanged.
pub open spec fn spec_normalize(code: u16) -> u16 {
    if code == KEY_RIGHTCTRL {
        KEY_LEFTCTRL
    } else if code == KEY_RIGHTALT {
        KEY_LEFTALT
    } else if code == KEY_RIGHTMETA {
        KEY_LEFTMETA
    } else if code == KEY_RIGHTSHIFT {
        KEY_LEFTSHIFT
    } else {
        code
    }
}

/// Collapse a right-side modifier onto its left-side counterpart.
pub fn normalize_modifier(code: u16) -> (r: u16)
    ensures
        r == spec_normalize(code),
{
    match code {
        KEY_RIGHTCTRL => KEY_LEFTCTRL,
        KEY_RIGHTALT => KEY_LEFTALT,
        KEY_RIGHTMETA => KEY_LEFTMETA,
        KEY_RIGHTSHIFT => KEY_LEFTSHIFT,
        other => other,
    }
}

/// Whether a code is a right-side modifier, the only codes that
/// normalization moves.
pub open spec fn is_right_modifier(code: u16) -> bool {
    code == KEY_RIGHTCTRL || code == KEY_RIGHTALT || code == KEY_RIGHTMETA || code
        == KEY_RIGHTSHIFT
}

/// Normalization is idempotent: right-side modifiers map to their left-side
/// counterparts, which are fixed points, and every other code is already a
/// fixed point.
pub proof fn lemma_normalize_properties(code: u16)
    ensures
        spec_normalize(spec_normalize(code)) == spec_normalize(code),
        is_right_modifier(code) ==> spec_normalize(code) != code,
        !is_right_modifier(code) ==> spec_normalize(code) == code,
{
}

/// Whether a code belongs to the fixed set of non-keyboard codes (pointer
/// buttons, joystick, gamepad, tablet-tool, wheel, directional-pad and
/// multi-button-device buttons). These never actuate, under any
/// configuration.
pub open spec fn is_non_keyboard(code: u16) -> bool {
    ||| 0x100 <= code <= 0x109  // misc buttons
    ||| 0x110 <= code <= 0x117  // pointer buttons
    ||| 0x120 <= code <= 0x12b  // joystick buttons
    ||| code == 0x12f  // joystick "dead" button
    ||| 0x130 <= code <= 0x13e  // gamepad buttons
    ||| 0x140 <= code <= 0x148  // tablet-tool buttons
    ||| 0x14a <= code <= 0x151  // touch, stylus and wheel buttons
    ||| 0x220 <= code <= 0x223  // directional-pad buttons
    ||| 0x2c0 <= code <= 0x2e7  // extra buttons of multi-button devices
}

/// Whether a code belongs to the dead set: Escape and the four left-side
/// (canonical) modifiers. These actuate only when dead-key filtering is
/// switched off at startup.
pub open spec fn is_dead_key(code: u16) -> bool {
    ||| code == KEY_ESC
    ||| code == KEY_LEFTCTRL
    ||| code == KEY_LEFTALT
    ||| code == KEY_LEFTMETA
    ||| code == KEY_LEFTSHIFT
}

/// The stateless key-classification policy: which key codes may trigger a
/// pulse. Fixed for the lifetime of the process once constructed.
pub struct KeyClasses {
    /// When true, the dead-key exclusion is switched off and only the
    /// non-keyboard exclusion remains.
    pub no_dead_keys: bool,
}

impl KeyClasses {
    /// Whether a code triggers a pulse under this policy: never for a
    /// non-keyboard code; for a dead key only when filtering is off; always
    /// for every other code. The decision looks at the normalized form.
    pub open spec fn spec_is_plopping(self, code: u16) -> bool {
        &&& !is_non_keyboard(spec_normalize(code))
        &&& (self.no_dead_keys || !is_dead_key(spec_normalize(code)))
    }

    /// Build the policy; `no_dead_keys` switches the dead-key exclusion off.
    pub fn new(no_dead_keys: bool) -> (r: KeyClasses)
        ensures
            r.no_dead_keys == no_dead_keys,
    {
        KeyClasses { no_dead_keys }
    }

    /// Decide whether a pulse may fire for `code`.
    pub fn is_plopping(&self, code: u16) -> (r: bool)
        ensures
            r == self.spec_is_plopping(code),
    {
        let normalized_code = normalize_modifier(code);
        let non_keyboard = (0x100 <= normalized_code && normalized_code <= 0x109)
            || (0x110 <= normalized_code && normalized_code <= 0x117)
            || (0x120 <= normalized_code && normalized_code <= 0x12b)
            || normalized_code == 0x12f
            || (0x130 <= normalized_code && normalized_code <= 0x13e)
            || (0x140 <= normalized_code && normalized_code <= 0x148)
            || (0x14a <= normalized_code && normalized_code <= 0x151)
            || (0x220 <= normalized_code && normalized_code <= 0x223)
            || (0x2c0 <= normalized_code && normalized_code <= 0x2e7);
        let dead = normalized_code == KEY_ESC || normalized_code == KEY_LEFTCTRL
            || normalized_code == KEY_LEFTALT || normalized_code == KEY_LEFTMETA
            || normalized_code == KEY_LEFTSHIFT;
        !non_keyboard && (self.no_dead_keys || !dead)
    }
}

/// The activation combination, as a sequence of normalized codes.
pub open spec fn activation_combo_seq() -> Seq<u16> {
    seq![KEY_LEFTCTRL, KEY_LEFTALT, KEY_LEFTMETA, KEY_S]
}

/// The activation combination: the set of normalized codes whose exact
/// release toggles actuation.
pub open spec fn activation_combo_set() -> Set<u16> {
    activation_combo_seq().to_set()
}

/// Linear membership test on a vector of key codes.
fn contains_code(v: &Vec<u16>, code: u16) -> (r: bool)
    ensures
        r == v@.contains(code),
{
    let mut i: usize = 0;
    while i < v.len()
        invariant
            i <= v@.len(),
            forall|j: int| 0 <= j < i ==> v@[j] != code,
        decreases v@.len() - i,
    {
        if v[i] == code {
            assert(v@.contains(code)) by {
                assert(v@[i as int] == code);
            }
            return true;
        }
        i += 1;
    }
    false
}

/// Removing position `i` from a duplicate-free sequence removes exactly the
/// value at `i` from its set of elements, and keeps the sequence
/// duplicate-free.
proof fn lemma_remove_index_to_set(s: Seq<u16>, i: int)
    requires
        0 <= i < s.len(),
        s.no_duplicates(),
    ensures
        s.remove(i).no_duplicates(),
        s.remove(i).to_set() =~= s.to_set().remove(s[i]),
{
    s.remove_ensures(i);
    let t = s.remove(i);
    assert forall|p: int, q: int|
        (0 <= p < t.len() && 0 <= q < t.len() && p != q) implies t[p] != t[q] by {
        let p0 = if p < i { p } else { p + 1 };
        let q0 = if q < i { q } else { q + 1 };
        assert(t[p] == s[p0]);
        assert(t[q] == s[q0]);
    }
    assert forall|x: u16| t.to_set().contains(x) implies s.to_set().remove(s[i]).contains(
        x,
    ) by {
        let j = choose|j: int| 0 <= j < t.len() && t[j] == x;
        if j < i {
            assert(s[j] == x);
        } else {
            assert(s[j + 1] == x);
        }
    }
    assert forall|x: u16| s.to_set().remove(s[i]).contains(x) implies t.to_set().contains(
        x,
    ) by {
        let j = choose|j: int| 0 <= j < s.len() && s[j] == x;
        if j < i {
            assert(t[j] == x);
        } else {
            assert(t[j - 1] == x);
        }
    }
}

/// The mutable set of currently held keys, together with the fixed
/// activation combination it is compared against. All physical sources feed
/// this one set; there is no per-device key state.
pub struct KeyState {
    /// The held keys, normalized, without duplicates.
    pub held: Vec<u16>,
    /// The activation combination, fixed at construction.
    pub activation_combo: Vec<u16>,
}

impl KeyState {
    /// The held keys as a set of normalized codes.
    pub open spec fn held_keys(self) -> Set<u16> {
        self.held@.to_set()
    }

    /// Well-formedness: the held vector carries each normalized code at most
    /// once, and the combination is the fixed activation combination.
    pub open spec fn wf(self) -> bool {
        &&& self.held@.no_duplicates()
        &&& forall|i: int|
            0 <= i < self.held@.len() ==> spec_normalize(#[trigger] self.held@[i])
                == self.held@[i]
        &&& self.activation_combo@ == activation_combo_seq()
    }

    /// Start with no key held.
    pub fn new() -> (r: KeyState)
        ensures
            r.wf(),
            r.held_keys() == Set::<u16>::empty(),
    {
        let mut combo: Vec<u16> = Vec::new();
        combo.push(KEY_LEFTCTRL);
        combo.push(KEY_LEFTALT);
        combo.push(KEY_LEFTMETA);
        combo.push(KEY_S);
        let r = KeyState { held: Vec::new(), activation_combo: combo };
        proof {
            assert(r.activation_combo@ =~= activation_combo_seq());
            assert(r.held@.to_set() =~= Set::<u16>::empty());
        }
        r
    }

    /// Record a key as held: its normalized form joins the held set.
    pub fn insert(&mut self, code: u16)
        requires
            old(self).wf(),
        ensures
            final(self).wf(),
            final(self).held_keys() == old(self).held_keys().insert(spec_normalize(code)),
            final(self).activation_combo@ == old(self).activation_combo@,
    {
        let n = normalize_modifier(code);
        proof {
            lemma_normalize_properties(code);
        }
        if !contains_code(&self.held, n) {
            proof {
                old(self).held@.lemma_push_to_set_commute(n);
            }
            let ghost prev = self.held@;
            self.held.push(n);
            proof {
                assert forall|p: int, q: int|
                    (0 <= p < self.held@.len() && 0 <= q < self.held@.len() && p != q)
                        implies self.held@[p] != self.held@[q] by {
                    if q == prev.len() {
                        assert(self.held@[p] == prev[p]);
                        assert(!prev.contains(n));
                    } else if p == prev.len() {
                        assert(self.held@[q] == prev[q]);
                        assert(!prev.contains(n));
                    } else {
                        assert(self.held@[p] == prev[p]);
                        assert(self.held@[q] == prev[q]);
                    }
                }
            }
        } else {
            proof {
                assert(old(self).held_keys().contains(n));
                assert(old(self).held_keys().insert(n) =~= old(self).held_keys());
            }
        }
    }

    /// Record a key as released: its normalized form leaves the held set.
    pub fn remove(&mut self, code: u16)
        requires
            old(self).wf(),
        ensures
            final(self).wf(),
            final(self).held_keys() == old(self).held_keys().remove(spec_normalize(code)),
            final(self).activation_combo@ == old(self).activation_combo@,
    {
        let normalized_code = normalize_modifier(code);
        let mut i: usize = 0;
        while i < self.held.len()
            invariant
                i <= self.held@.len(),
                forall|j: int| 0 <= j < i ==> self.held@[j] != normalized_code,
                *self == *old(self),
                old(self).wf(),
                normalized_code == spec_normalize(code),
            decreases self.held@.len() - i,
        {
            if self.held[i] == normalized_code {
                proof {
                    lemma_remove_index_to_set(self.held@, i as int);
                    self.held@.remove_ensures(i as int);
                }
                let ghost prev = self.held@;
                self.held.remove(i);
                proof {
                    assert forall|j: int|
                        0 <= j < self.held@.len() implies spec_normalize(
                        #[trigger] self.held@[j],
                    ) == self.held@[j] by {
                        if j < i {
                            assert(self.held@[j] == prev[j]);
                        } else {
                            assert(self.held@[j] == prev[j + 1]);
                        }
                    }
                }
                return ;
            }
            i += 1;
        }
        proof {
            assert(!old(self).held_keys().contains(normalized_code));
            assert(old(self).held_keys().remove(normalized_code) =~= old(self).held_keys());
        }
    }

    /// Whether the key with the given (raw) code is currently held.
    pub fn is_held(&self, code: u16) -> (r: bool)
        ensures
            r == self.held_keys().contains(spec_normalize(code)),
    {
        let n = normalize_modifier(code);
        contains_code(&self.held, n)
    }

    /// How many distinct keys are currently held.
    pub fn held_count(&self) -> (r: usize)
        requires
            self.wf(),
        ensures
            r == self.held_keys().len(),
    {
        proof {
            self.held@.unique_seq_to_set();
        }
        self.held.len()
    }

    /// Whether the held set equals the activation combination exactly:
    /// neither a key short, nor any extra key held.
    pub fn is_activation_combo(&self) -> (r: bool)
        requires
            self.wf(),
        ensures
            r == (self.held_keys() == activation_combo_set()),
    {
        proof {
            lemma_activation_combo_set_facts();
        }
        let r = self.held.len() == 4 && contains_code(&self.held, KEY_LEFTCTRL)
            && contains_code(&self.held, KEY_LEFTALT) && contains_code(&self.held, KEY_LEFTMETA)
            && contains_code(&self.held, KEY_S);
        proof {
            self.held@.unique_seq_to_set();
            if r {
                assert(activation_combo_set().subset_of(self.held_keys())) by {
                    assert forall|x: u16|
                        activation_combo_set().contains(x) implies self.held_keys().contains(
                        x,
                    ) by {
                        let j = choose|j: int|
                            0 <= j < activation_combo_seq().len() && activation_combo_seq()[j]
                                == x;
                    }
                }
                assert forall|x: u16|
                    self.held_keys().contains(x) implies activation_combo_set().contains(x) by {
                    if !activation_combo_set().contains(x) {
                        activation_combo_set().lemma_subset_not_in_lt(self.held_keys(), x);
                    }
                }
                assert(self.held_keys() =~= activation_combo_set());
            } else {
                if self.held_keys() == activation_combo_set() {
                    assert(self.held@.len() == 4);
                    assert(self.held@.contains(KEY_LEFTCTRL)) by {
                        assert(activation_combo_set().contains(KEY_LEFTCTRL));
                    }
                    assert(self.held@.contains(KEY_LEFTALT)) by {
                        assert(activation_combo_set().contains(KEY_LEFTALT));
                    }
                    assert(self.held@.contains(KEY_LEFTMETA)) by {
                        assert(activation_combo_set().contains(KEY_LEFTMETA));
                    }
                    assert(self.held@.contains(KEY_S)) by {
                        assert(activation_combo_set().contains(KEY_S));
                    }
                }
            }
        }
        r
    }
}

/// The activation combination holds exactly its four distinct codes, and
/// each of them is in the set.
proof fn lemma_activation_combo_set_facts()
    ensures
        activation_combo_set().finite(),
        activation_combo_set().len() == 4,
        activation_combo_set().contains(KEY_LEFTCTRL),
        activation_combo_set().contains(KEY_LEFTALT),
        activation_combo_set().contains(KEY_LEFTMETA),
        activation_combo_set().contains(KEY_S),
        forall|x: u16|
            #[trigger] activation_combo_set().contains(x) ==> activation_combo_seq().contains(x),
{
    let s = activation_combo_seq();
    assert(s.no_duplicates());
    s.unique_seq_to_set();
    vstd::seq_lib::seq_to_set_is_finite(s);
    assert(s.contains(KEY_LEFTCTRL)) by {
        assert(s[0] == KEY_LEFTCTRL);
    }
    assert(s.contains(KEY_LEFTALT)) by {
        assert(s[1] == KEY_LEFTALT);
    }
    assert(s.contains(KEY_LEFTMETA)) by {
        assert(s[2] == KEY_LEFTMETA);
    }
    assert(s.contains(KEY_S)) by {
        assert(s[3] == KEY_S);
    }
}

} // verus!
