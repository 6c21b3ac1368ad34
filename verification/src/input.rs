//! Input mapping: the fixed bijection between the 16 logical key codes
//! and 16 physical keys, and the two query modes built on it.
//!
//! A physical key is carried as a plain identifier in `0..16`, numbered
//! in keyboard layout order: the top row `1 2 3 4` is `0..4`, then
//! `Q W E R` is `4..8`, `A S D F` is `8..12` and `Z X C V` is `12..16`.
//! The shell samples the keyboard device and hands the held keys in as
//! a vector of these identifiers.

use vstd::prelude::*;

verus! {

#[verifier::external_type_specification]
#[verifier::external_body]
#[verifier::reject_recursive_types(L)]
#[verifier::reject_recursive_types(R)]
#[verifier::reject_recursive_types(LS)]
#[verifier::reject_recursive_types(RS)]
pub struct ExBiHashMap<L, R, LS, RS>(bimap::BiHashMap<L, R, LS, RS>);

/// The bidirectional table's storage: a bimap over plain key values.
pub type KeyPairs = bimap::BiHashMap<u8, u8>;

/// The pairs a bimap holds, as the map from left values to right values.
pub uninterp spec fn bimap_pairs(m: KeyPairs) -> Map<u8, u8>;

/// Relies on bimap::BiHashMap::new: a fresh bimap holds no pairs.
#[verifier::external_body]
fn bimap_new() -> (r: KeyPairs)
    ensures
        forall|l: u8| !bimap_pairs(r).dom().contains(l),
{
    bimap::BiHashMap::new()
}

/// Relies on bimap::BiHashMap::insert_no_overwrite: the pair is added
/// exactly when neither its left nor its right value is already stored;
/// otherwise the bimap is left unchanged.
#[verifier::external_body]
fn bimap_insert_no_overwrite(m: &mut KeyPairs, left: u8, right: u8) -> (r: bool)
    ensures
        r == (!bimap_pairs(*old(m)).dom().contains(left) && !(exists|l: u8|
            bimap_pairs(*old(m)).dom().contains(l) && bimap_pairs(*old(m))[l] == right)),
        r ==> bimap_pairs(*final(m)) == bimap_pairs(*old(m)).insert(left, right),
        !r ==> bimap_pairs(*final(m)) == bimap_pairs(*old(m)),
{
    m.insert_no_overwrite(left, right).is_ok()
}

/// Relies on bimap::BiHashMap::get_by_left: the right value of the pair
/// with this left value, if one is stored.
#[verifier::external_body]
fn bimap_get_by_left(m: &KeyPairs, left: u8) -> (r: Option<u8>)
    ensures
        r == if bimap_pairs(*m).dom().contains(left) {
            Some(bimap_pairs(*m)[left])
        } else {
            None::<u8>
        },
{
    m.get_by_left(&left).copied()
}

/// Relies on bimap::BiHashMap::get_by_right: the left value of a stored
/// pair with this right value, or nothing when no pair has it.
#[verifier::external_body]
fn bimap_get_by_right(m: &KeyPairs, right: u8) -> (r: Option<u8>)
    ensures
        r matches Some(l) ==> bimap_pairs(*m).dom().contains(l) && bimap_pairs(*m)[l] == right,
        r is None ==> forall|l: u8|
            bimap_pairs(*m).dom().contains(l) ==> bimap_pairs(*m)[l] != right,
{
    m.get_by_right(&right).copied()
}

/// The logical code bound to a physical key, for the 16 mapped keys.
pub open spec fn code_of_key_spec(key: u8) -> u8 {
    if key == 0 { 1 }
    else if key == 1 { 2 }
    else if key == 2 { 3 }
    else if key == 3 { 0xC }
    else if key == 4 { 4 }
    else if key == 5 { 5 }
    else if key == 6 { 6 }
    else if key == 7 { 0xD }
    else if key == 8 { 7 }
    else if key == 9 { 8 }
    else if key == 10 { 9 }
    else if key == 11 { 0xE }
    else if key == 12 { 0xA }
    else if key == 13 { 0 }
    else if key == 14 { 0xB }
    else { 0xF }
}

/// The physical key bound to a logical code, for codes below 16.
pub open spec fn key_of_code_spec(code: u8) -> u8 {
    if code == 1 { 0 }
    else if code == 2 { 1 }
    else if code == 3 { 2 }
    else if code == 0xC { 3 }
    else if code == 4 { 4 }
    else if code == 5 { 5 }
    else if code == 6 { 6 }
    else if code == 0xD { 7 }
    else if code == 7 { 8 }
    else if code == 8 { 9 }
    else if code == 9 { 10 }
    else if code == 0xE { 11 }
    else if code == 0xA { 12 }
    else if code == 0 { 13 }
    else if code == 0xB { 14 }
    else { 15 }
}

/// The full key mapping, from physical key to logical code.
pub open spec fn keymap_table() -> Map<u8, u8> {
    Map::new(|k: u8| k < 16, |k: u8| code_of_key_spec(k))
}

/// The key mapping is a bijection: each of the 16 codes is bound to a
/// key among the 16 physical keys, distinct codes are bound to distinct
/// keys, and the two lookup directions are mutual inverses.
pub proof fn lemma_keymap_bijection()
    ensures
        forall|c: u8| c < 16 ==> #[trigger] key_of_code_spec(c) < 16,
        forall|c: u8| c < 16 ==> code_of_key_spec(#[trigger] key_of_code_spec(c)) == c,
        forall|k: u8| k < 16 ==> key_of_code_spec(#[trigger] code_of_key_spec(k)) == k,
        forall|c1: u8, c2: u8|
            c1 < 16 && c2 < 16 && c1 != c2 ==> #[trigger] key_of_code_spec(c1)
                != #[trigger] key_of_code_spec(c2),
{
}

/// The fixed bidirectional table between logical key codes and physical
/// keys, built once at process start.
pub struct KeyMap {
    map: KeyPairs,
}

impl KeyMap {
    /// Well-formedness: the stored pairs are exactly the key mapping.
    pub closed spec fn wf(&self) -> bool {
        bimap_pairs(self.map) == keymap_table()
    }

    /// Builds the 16-entry mapping. Every insertion is collision free.
    pub fn new() -> (r: KeyMap)
        ensures
            r.wf(),
    {
        let mut m = bimap_new();
        bimap_insert_no_overwrite(&mut m, 0, 1);
        bimap_insert_no_overwrite(&mut m, 1, 2);
        bimap_insert_no_overwrite(&mut m, 2, 3);
        bimap_insert_no_overwrite(&mut m, 3, 0xC);
        bimap_insert_no_overwrite(&mut m, 4, 4);
        bimap_insert_no_overwrite(&mut m, 5, 5);
        bimap_insert_no_overwrite(&mut m, 6, 6);
        bimap_insert_no_overwrite(&mut m, 7, 0xD);
        bimap_insert_no_overwrite(&mut m, 8, 7);
        bimap_insert_no_overwrite(&mut m, 9, 8);
        bimap_insert_no_overwrite(&mut m, 10, 9);
        bimap_insert_no_overwrite(&mut m, 11, 0xE);
        bimap_insert_no_overwrite(&mut m, 12, 0xA);
        bimap_insert_no_overwrite(&mut m, 13, 0);
        bimap_insert_no_overwrite(&mut m, 14, 0xB);
        bimap_insert_no_overwrite(&mut m, 15, 0xF);
        proof {
            assert(bimap_pairs(m) =~= keymap_table());
        }
        KeyMap { map: m }
    }

    /// The physical key bound to a logical code.
    pub fn key_for_code(&self, code: u8) -> (r: u8)
        requires
            self.wf(),
            code < 16,
        ensures
            r == key_of_code_spec(code),
            r < 16,
            code_of_key_spec(r) == code,
    {
        let found = bimap_get_by_right(&self.map, code);
        match found {
            Some(k) => k,
            None => {
                proof {
                    let k = key_of_code_spec(code);
                    lemma_keymap_bijection();
                    assert(keymap_table().dom().contains(k));
                    assert(keymap_table()[k] == code);
                    assert(false);
                }
                0
            },
        }
    }

    /// The logical code bound to a physical key, if the key is mapped.
    pub fn code_for_key(&self, key: u8) -> (r: Option<u8>)
        requires
            self.wf(),
        ensures
            r == if key < 16 {
                Some(code_of_key_spec(key))
            } else {
                None::<u8>
            },
    {
        bimap_get_by_left(&self.map, key)
    }

    /// Whether the physical key bound to `code` is in the currently held
    /// set. Non-blocking: it only inspects the sampled set.
    pub fn is_pressed(&self, code: u8, pressed: &Vec<u8>) -> (r: bool)
        requires
            self.wf(),
            code < 16,
        ensures
            r == pressed@.contains(key_of_code_spec(code)),
    {
        let key = self.key_for_code(code);
        let mut i: usize = 0;
        while i < pressed.len()
            invariant
                i <= pressed@.len(),
                key == key_of_code_spec(code),
                forall|j: int| 0 <= j < i ==> pressed@[j] != key,
            decreases pressed@.len() - i,
        {
            if pressed[i] == key {
                assert(pressed@.contains(key_of_code_spec(code)));
                return true;
            }
            i = i + 1;
        }
        assert(!pressed@.contains(key_of_code_spec(code)));
        false
    }

    /// The logical code of the first mapped key of a sampled held set,
    /// or nothing when no held key is mapped. A blocking key wait calls
    /// this on each fresh sample and keeps waiting on `None`, so it can
    /// only ever deliver a code below 16 and never returns for presses
    /// of unmapped keys.
    pub fn first_mapped_code(&self, pressed: &Vec<u8>) -> (r: Option<u8>)
        requires
            self.wf(),
        ensures
            r is None ==> forall|j: int| 0 <= j < pressed@.len() ==> pressed@[j] >= 16,
            r matches Some(c) ==> c < 16 && exists|j: int|
                0 <= j < pressed@.len() && pressed@[j] < 16 && c == code_of_key_spec(pressed@[j])
                    && (forall|jj: int| 0 <= jj < j ==> pressed@[jj] >= 16),
    {
        let mut i: usize = 0;
        while i < pressed.len()
            invariant
                i <= pressed@.len(),
                self.wf(),
                forall|j: int| 0 <= j < i ==> pressed@[j] >= 16,
            decreases pressed@.len() - i,
        {
            let code = self.code_for_key(pressed[i]);
            if let Some(c) = code {
                assert(c < 16) by {
                    assert(c == code_of_key_spec(pressed@[i as int]));
                }
                return Some(c);
            }
            i = i + 1;
        }
        None
    }
}

} // verus!
