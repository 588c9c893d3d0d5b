use vstd::prelude::*;

use std::collections::HashMap;

use crate::keys::{
    code_of, col_keys, col_position, key_code, key_of_code, lemma_col_keys, lemma_key_code_injective, lemma_row_keys,
    row_keys, row_position, Key,
};

verus! {

/// A lookup table from keys to indices: a hash map keyed by the keys'
/// numbers (`key_code`).
pub struct KeyIndex {
    entries: HashMap<u64, usize>,
}

impl View for KeyIndex {
    type V = Map<Key, usize>;

    closed spec fn view(&self) -> Map<Key, usize> {
        Map::new(
            |k: Key| self.entries@.contains_key(key_code(k)),
            |k: Key| self.entries@[key_code(k)],
        )
    }
}

impl KeyIndex {
    /// An empty table.
    pub fn new() -> (m: KeyIndex)
        ensures
            m@ == Map::<Key, usize>::empty(),
    {
        let m = KeyIndex { entries: HashMap::new() };
        assert(m@ =~= Map::<Key, usize>::empty());
        m
    }

    /// Sets the index of a key, replacing the one it had.
    pub fn insert(&mut self, key: Key, index: usize)
        ensures
            final(self)@ == old(self)@.insert(key, index),
    {
        broadcast use vstd::std_specs::hash::group_hash_axioms;

        let ghost before = self@;
        self.entries.insert(code_of(key), index);
        proof {
            lemma_key_code_injective();
            assert forall|k: Key| k != key implies key_code(k) != key_code(key) by {
                assert(key_of_code(key_code(k)) == k);
            }
            assert(self@ =~= before.insert(key, index));
        }
    }

    /// The index of a key, if the table holds it.
    pub fn get(&self, key: Key) -> (r: Option<usize>)
        ensures
            r == (if self@.contains_key(key) { Some(self@[key]) } else { None::<usize> }),
    {
        broadcast use vstd::std_specs::hash::group_hash_axioms;

        let code = code_of(key);
        match self.entries.get(&code) {
            Some(i) => Some(*i),
            None => None,
        }
    }
}

/// The table from each column key to its column.
pub open spec fn col_index_map() -> Map<Key, usize> {
    Map::new(|k: Key| col_position(k) is Some, |k: Key| col_position(k).unwrap() as usize)
}

/// The table from each row key to its row.
pub open spec fn row_index_map() -> Map<Key, usize> {
    Map::new(|k: Key| row_position(k) is Some, |k: Key| row_position(k).unwrap() as usize)
}

/// Builds the table from each column key to its column, by inserting the
/// column keys in order with their positions.
pub fn col_map() -> (m: KeyIndex)
    ensures
        m@ == col_index_map(),
{
    let keys: Vec<Key> = vec![
        Key::KeyA, Key::KeyS, Key::KeyD, Key::KeyF, Key::KeyG,
        Key::KeyH, Key::KeyJ, Key::KeyK, Key::KeyL, Key::SemiColon,
    ];
    proof {
        lemma_col_keys();
        assert(keys@ =~= col_keys());
    }
    let mut m = KeyIndex::new();
    for i in 0..keys.len()
        invariant
            keys@ == col_keys(),
            m@ == Map::new(
                |k: Key| col_position(k) matches Some(p) && p < i,
                |k: Key| col_position(k).unwrap() as usize,
            ),
    {
        m.insert(keys[i], i);
        proof {
            assert(col_position(keys@[i as int]) == Some(i as int));
            assert(m@ =~= Map::new(
                |k: Key| col_position(k) matches Some(p) && p < i + 1,
                |k: Key| col_position(k).unwrap() as usize,
            ));
        }
    }
    proof {
        assert(m@ =~= col_index_map());
    }
    m
}

/// Builds the table from each row key to its row, by inserting the row keys
/// in order with their positions.
pub fn row_map() -> (m: KeyIndex)
    ensures
        m@ == row_index_map(),
{
    let keys: Vec<Key> = vec![
        Key::KeyQ, Key::KeyW, Key::KeyE, Key::KeyR, Key::KeyT,
        Key::KeyY, Key::KeyU, Key::KeyI, Key::KeyO, Key::KeyP,
        Key::KeyA, Key::KeyS, Key::KeyD, Key::KeyF, Key::KeyG,
        Key::KeyH, Key::KeyJ, Key::KeyK, Key::KeyL, Key::SemiColon,
        Key::KeyZ, Key::KeyX, Key::KeyC, Key::KeyV, Key::KeyB,
        Key::KeyN, Key::KeyM, Key::Comma, Key::Dot, Key::Slash,
    ];
    proof {
        lemma_row_keys();
        assert(keys@ =~= row_keys());
    }
    let mut m = KeyIndex::new();
    for i in 0..keys.len()
        invariant
            keys@ == row_keys(),
            m@ == Map::new(
                |k: Key| row_position(k) matches Some(p) && p < i,
                |k: Key| row_position(k).unwrap() as usize,
            ),
    {
        m.insert(keys[i], i);
        proof {
            assert(row_position(keys@[i as int]) == Some(i as int));
            assert(m@ =~= Map::new(
                |k: Key| row_position(k) matches Some(p) && p < i + 1,
                |k: Key| row_position(k).unwrap() as usize,
            ));
        }
    }
    proof {
        assert(m@ =~= row_index_map());
    }
    m
}

} // verus!
