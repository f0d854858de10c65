//! The map of extended metadata of a file: strings to strings, kept in the
//! order in which the keys were first inserted.

use vstd::prelude::*;
use vstd::utf8::encode_utf8;
use crate::codec::{
    agrees, decode_string, decode_u64, encode_string, encode_u64, lemma_decode_string,
    lemma_decode_u64, lemma_stands_at_split, spec_decode_string, spec_decode_u64,
    spec_encode_string, spec_encode_u64, stands_at,
};
use crate::error::{ZffError, ZffErrorKind};

verus! {

/// No key occurs twice.
pub open spec fn spec_keys_distinct(s: Seq<(Seq<char>, Seq<char>)>) -> bool {
    forall|i: int, j: int| 0 <= i < j < s.len() ==> (#[trigger] s[i]).0 != (#[trigger] s[j]).0
}

/// Whether an entry of the key is there.
pub open spec fn spec_has_key(s: Seq<(Seq<char>, Seq<char>)>, key: Seq<char>) -> bool {
    exists|i: int| 0 <= i < s.len() && (#[trigger] s[i]).0 == key
}

/// The place of an entry of the key.
pub open spec fn spec_key_index(s: Seq<(Seq<char>, Seq<char>)>, key: Seq<char>) -> int {
    choose|i: int| 0 <= i < s.len() && (#[trigger] s[i]).0 == key
}

/// The entries after an insertion: the value of a key that is there is
/// replaced in its place, a new key goes to the end.
pub open spec fn spec_insert(
    s: Seq<(Seq<char>, Seq<char>)>,
    key: Seq<char>,
    value: Seq<char>,
) -> Seq<(Seq<char>, Seq<char>)> {
    if spec_has_key(s, key) {
        s.update(spec_key_index(s, key), (key, value))
    } else {
        s.push((key, value))
    }
}

/// The value of a key, if the key is there.
pub open spec fn spec_get(s: Seq<(Seq<char>, Seq<char>)>, key: Seq<char>) -> Option<Seq<char>> {
    if spec_has_key(s, key) {
        Some(s[spec_key_index(s, key)].1)
    } else {
        None
    }
}

/// Every key and value can be encoded: its UTF-8 form has a length that
/// eight bytes can hold, and so has the number of entries.
pub open spec fn spec_entries_encodable(s: Seq<(Seq<char>, Seq<char>)>) -> bool {
    s.len() <= u64::MAX && forall|i: int|
        0 <= i < s.len() ==> encode_utf8((#[trigger] s[i]).0).len() <= u64::MAX && encode_utf8(
            s[i].1,
        ).len() <= u64::MAX
}

/// The bytes of one entry: the key, then the value.
pub open spec fn spec_encode_entry(e: (Seq<char>, Seq<char>)) -> Seq<u8> {
    spec_encode_string(e.0) + spec_encode_string(e.1)
}

/// The bytes of the entries, one after the other.
pub open spec fn spec_encode_entries(s: Seq<(Seq<char>, Seq<char>)>) -> Seq<u8>
    decreases s.len(),
{
    if s.len() == 0 {
        Seq::empty()
    } else {
        spec_encode_entry(s[0]) + spec_encode_entries(s.drop_first())
    }
}

/// The bytes of a map: the number of entries, then the entries in order.
pub open spec fn spec_encode_map(s: Seq<(Seq<char>, Seq<char>)>) -> Seq<u8> {
    spec_encode_u64(s.len() as u64) + spec_encode_entries(s)
}

/// The entries that come of inserting `count` entries read from `pos` into
/// `acc`, and where the last of them ends.
pub open spec fn spec_decode_entries_into(
    data: Seq<u8>,
    pos: int,
    count: nat,
    acc: Seq<(Seq<char>, Seq<char>)>,
) -> Result<(Seq<(Seq<char>, Seq<char>)>, int), ZffErrorKind>
    decreases count,
{
    if count == 0 {
        Ok((acc, pos))
    } else {
        match spec_decode_string(data, pos) {
            Ok((key, pos1)) => match spec_decode_string(data, pos1) {
                Ok((value, pos2)) => spec_decode_entries_into(
                    data,
                    pos2,
                    (count - 1) as nat,
                    spec_insert(acc, key, value),
                ),
                Err(kind) => Err(kind),
            },
            Err(kind) => Err(kind),
        }
    }
}

/// The map at `pos`: a count and that many entries, inserted in order.
pub open spec fn spec_decode_map(data: Seq<u8>, pos: int) -> Result<
    (Seq<(Seq<char>, Seq<char>)>, int),
    ZffErrorKind,
> {
    match spec_decode_u64(data, pos) {
        Ok((count, start)) => spec_decode_entries_into(data, start, count as nat, Seq::empty()),
        Err(kind) => Err(kind),
    }
}

/// The bytes of entries with one more entry behind them are the bytes of the
/// entries with the bytes of that entry behind them.
pub proof fn lemma_encode_entries_push(s: Seq<(Seq<char>, Seq<char>)>, e: (Seq<char>, Seq<char>))
    ensures
        spec_encode_entries(s.push(e)) == spec_encode_entries(s) + spec_encode_entry(e),
    decreases s.len(),
{
    if s.len() == 0 {
        assert(s.push(e).drop_first() =~= s);
        assert(spec_encode_entries(s.push(e)) =~= spec_encode_entries(s) + spec_encode_entry(e));
    } else {
        lemma_encode_entries_push(s.drop_first(), e);
        assert(s.push(e).drop_first() =~= s.drop_first().push(e));
        assert(spec_encode_entries(s.push(e)) =~= spec_encode_entries(s) + spec_encode_entry(e));
    }
}

/// Inserting a key that is not there appends the entry and keeps the keys
/// distinct.
pub proof fn lemma_insert_new_key(
    s: Seq<(Seq<char>, Seq<char>)>,
    key: Seq<char>,
    value: Seq<char>,
)
    requires
        spec_keys_distinct(s),
        !spec_has_key(s, key),
    ensures
        spec_insert(s, key, value) == s.push((key, value)),
        spec_keys_distinct(s.push((key, value))),
{
    let t = s.push((key, value));
    assert forall|i: int, j: int| 0 <= i < j < t.len() implies (#[trigger] t[i]).0 != (
    #[trigger] t[j]).0 by {
        if j == s.len() {
            assert(s[i].0 != key);
        } else {
            assert(s[i].0 != s[j].0);
        }
    }
}

/// Entries that stand at `pos` with keys that are new to `acc` and to each
/// other are read back in their order.
pub proof fn lemma_decode_entries(
    data: Seq<u8>,
    pos: int,
    rest: Seq<(Seq<char>, Seq<char>)>,
    acc: Seq<(Seq<char>, Seq<char>)>,
)
    requires
        spec_entries_encodable(rest),
        spec_keys_distinct(acc + rest),
        stands_at(data, pos, spec_encode_entries(rest)),
    ensures
        spec_decode_entries_into(data, pos, rest.len(), acc) == Ok::<_, ZffErrorKind>(
            (acc + rest, pos + spec_encode_entries(rest).len()),
        ),
    decreases rest.len(),
{
    let all = acc + rest;
    if rest.len() == 0 {
        assert(acc + rest =~= acc);
    } else {
        let e = rest[0];
        let tail = rest.drop_first();
        let key_bytes = spec_encode_string(e.0);
        let value_bytes = spec_encode_string(e.1);
        lemma_stands_at_split(data, pos, spec_encode_entry(e), spec_encode_entries(tail));
        lemma_stands_at_split(data, pos, key_bytes, value_bytes);
        lemma_decode_string(data, pos, e.0);
        lemma_decode_string(data, pos + key_bytes.len(), e.1);
        assert(spec_keys_distinct(acc)) by {
            assert forall|i: int, j: int| 0 <= i < j < acc.len() implies (#[trigger] acc[i]).0 != (
            #[trigger] acc[j]).0 by {
                assert(all[i].0 != all[j].0);
            }
        }
        assert(!spec_has_key(acc, e.0)) by {
            assert forall|i: int| 0 <= i < acc.len() implies (#[trigger] acc[i]).0 != e.0 by {
                assert(all[i].0 != all[acc.len() as int].0);
            }
        }
        lemma_insert_new_key(acc, e.0, e.1);
        let next = acc.push(e);
        assert(next + tail =~= all);
        assert(spec_entries_encodable(tail)) by {
            assert forall|i: int| 0 <= i < tail.len() implies encode_utf8(
                (#[trigger] tail[i]).0,
            ).len() <= u64::MAX && encode_utf8(tail[i].1).len() <= u64::MAX by {
                assert(tail[i] == rest[i + 1]);
            }
        }
        lemma_decode_entries(data, pos + spec_encode_entry(e).len(), tail, next);
    }
}

/// A map with distinct keys that stands at `pos` is read back as it is.
pub proof fn lemma_decode_map(data: Seq<u8>, pos: int, s: Seq<(Seq<char>, Seq<char>)>)
    requires
        spec_entries_encodable(s),
        spec_keys_distinct(s),
        stands_at(data, pos, spec_encode_map(s)),
    ensures
        spec_decode_map(data, pos) == Ok::<_, ZffErrorKind>(
            (s, pos + spec_encode_map(s).len()),
        ),
{
    vstd::bytes::lemma_auto_spec_u64_to_from_le_bytes();
    lemma_stands_at_split(data, pos, spec_encode_u64(s.len() as u64), spec_encode_entries(s));
    lemma_decode_u64(data, pos, s.len() as u64);
    assert(Seq::<(Seq<char>, Seq<char>)>::empty() + s =~= s);
    lemma_decode_entries(data, pos + 8, s, Seq::empty());
}

/// A map from strings to strings that keeps its keys in the order of their
/// first insertion. No key occurs twice.
#[derive(Debug, PartialEq, Eq)]
pub struct MetadataMap {
    entries: Vec<(String, String)>,
}

/// The entries as pairs of character sequences.
pub open spec fn spec_pairs(entries: Seq<(String, String)>) -> Seq<(Seq<char>, Seq<char>)> {
    Seq::new(entries.len(), |i: int| (entries[i].0@, entries[i].1@))
}

/// The place of the entry of `key` among entries with distinct keys, if the
/// key is there.
fn position(entries: &Vec<(String, String)>, key: &String) -> (found: Option<usize>)
    requires
        spec_keys_distinct(spec_pairs(entries@)),
    ensures
        match found {
            Some(i) => i < entries@.len() && spec_pairs(entries@)[i as int].0 == key@
                && spec_has_key(spec_pairs(entries@), key@) && spec_key_index(
                spec_pairs(entries@),
                key@,
            ) == i,
            None => !spec_has_key(spec_pairs(entries@), key@),
        },
{
    let ghost s = spec_pairs(entries@);
    let mut i: usize = 0;
    while i < entries.len()
        invariant
            i <= entries@.len(),
            s == spec_pairs(entries@),
            spec_keys_distinct(s),
            forall|j: int| 0 <= j < i ==> (#[trigger] s[j]).0 != key@,
        decreases entries.len() - i,
    {
        if entries[i].0.eq(key) {
            proof {
                assert(s[i as int].0 == key@);
                let chosen = spec_key_index(s, key@);
                assert(0 <= chosen < s.len() && s[chosen].0 == key@);
                if chosen < i {
                    assert(s[chosen].0 != s[i as int].0);
                } else if chosen > i {
                    assert(s[i as int].0 != s[chosen].0);
                }
            }
            return Some(i);
        }
        i += 1;
    }
    None
}

impl View for MetadataMap {
    type V = Seq<(Seq<char>, Seq<char>)>;

    closed spec fn view(&self) -> Seq<(Seq<char>, Seq<char>)> {
        spec_pairs(self.entries@)
    }
}

impl Clone for MetadataMap {
    /// A map with the same entries in the same order.
    fn clone(&self) -> (copy: MetadataMap)
        ensures
            copy@ == self@,
    {
        proof {
            use_type_invariant(self);
        }
        let ghost s = self@;
        let mut copy = MetadataMap::new();
        let mut i: usize = 0;
        while i < self.entries.len()
            invariant
                i <= self.entries@.len(),
                s == spec_pairs(self.entries@),
                spec_keys_distinct(s),
                copy@ == s.take(i as int),
            decreases self.entries.len() - i,
        {
            let key = self.entries[i].0.clone();
            let value = self.entries[i].1.clone();
            proof {
                let seen = s.take(i as int);
                assert(!spec_has_key(seen, key@)) by {
                    assert forall|j: int| 0 <= j < seen.len() implies (#[trigger] seen[j]).0
                        != key@ by {
                        assert(s[j].0 != s[i as int].0);
                    }
                }
                assert(spec_keys_distinct(seen)) by {
                    assert forall|a: int, b: int| 0 <= a < b < seen.len() implies (
                    #[trigger] seen[a]).0 != (#[trigger] seen[b]).0 by {
                        assert(s[a].0 != s[b].0);
                    }
                }
                lemma_insert_new_key(seen, key@, value@);
                assert(seen.push((key@, value@)) =~= s.take(i + 1));
            }
            copy.insert(key, value);
            i += 1;
        }
        proof {
            assert(s.take(i as int) =~= s);
        }
        copy
    }
}

impl MetadataMap {
    #[verifier::type_invariant]
    spec fn keys_distinct(self) -> bool {
        spec_keys_distinct(self@)
    }

    /// A map without entries.
    pub fn new() -> (map: MetadataMap)
        ensures
            map@ == Seq::<(Seq<char>, Seq<char>)>::empty(),
    {
        let map = MetadataMap { entries: Vec::new() };
        assert(map@ =~= Seq::<(Seq<char>, Seq<char>)>::empty());
        map
    }

    /// The number of entries.
    pub fn len(&self) -> (n: usize)
        ensures
            n == self@.len(),
            spec_keys_distinct(self@),
    {
        proof {
            use_type_invariant(self);
        }
        self.entries.len()
    }

    /// Sets the value of `key`. The value of a key that is there is replaced
    /// in its place; a new key goes to the end.
    pub fn insert(&mut self, key: String, value: String)
        ensures
            final(self)@ == spec_insert(old(self)@, key@, value@),
    {
        proof {
            use_type_invariant(&*self);
        }
        let ghost before = self@;
        let mut entries: Vec<(String, String)> = Vec::new();
        assert(spec_pairs(entries@) =~= Seq::<(Seq<char>, Seq<char>)>::empty());
        core::mem::swap(&mut self.entries, &mut entries);
        match position(&entries, &key) {
            Some(i) => {
                entries.set(i, (key, value));
                proof {
                    let after = spec_pairs(entries@);
                    assert(after =~= before.update(i as int, (key@, value@)));
                    assert forall|a: int, b: int| 0 <= a < b < after.len() implies (
                    #[trigger] after[a]).0 != (#[trigger] after[b]).0 by {
                        assert(before[a].0 != before[b].0);
                    }
                }
            },
            None => {
                entries.push((key, value));
                proof {
                    let after = spec_pairs(entries@);
                    assert(after =~= before.push((key@, value@)));
                    lemma_insert_new_key(before, key@, value@);
                }
            },
        }
        core::mem::swap(&mut self.entries, &mut entries);
    }

    /// The value of `key`, if the key is there.
    pub fn get(&self, key: &String) -> (value: Option<&String>)
        ensures
            match spec_get(self@, key@) {
                Some(v) => value matches Some(found) && found@ == v,
                None => value is None,
            },
    {
        proof {
            use_type_invariant(self);
        }
        match position(&self.entries, key) {
            Some(i) => Some(&self.entries[i].1),
            None => None,
        }
    }

    /// The `i`-th entry in the order of insertion, if there are that many.
    pub fn entry(&self, i: usize) -> (e: Option<(&String, &String)>)
        ensures
            match e {
                Some((key, value)) => i < self@.len() && (key@, value@) == self@[i as int],
                None => i >= self@.len(),
            },
    {
        if i < self.entries.len() {
            Some((&self.entries[i].0, &self.entries[i].1))
        } else {
            None
        }
    }

    /// The bytes of the map: the number of entries, then key and value of
    /// each entry in the order of insertion.
    pub fn encode_directly(&self) -> (out: Vec<u8>)
        ensures
            out@ == spec_encode_map(self@),
            spec_keys_distinct(self@),
            spec_entries_encodable(self@),
    {
        proof {
            use_type_invariant(self);
        }
        let mut out = encode_u64(self.entries.len() as u64);
        let mut i: usize = 0;
        while i < self.entries.len()
            invariant
                i <= self.entries@.len(),
                self@.len() == self.entries@.len(),
                out@ == spec_encode_u64(self@.len() as u64) + spec_encode_entries(
                    self@.take(i as int),
                ),
                forall|j: int|
                    0 <= j < i ==> encode_utf8((#[trigger] self@[j]).0).len() <= u64::MAX
                        && encode_utf8(self@[j].1).len() <= u64::MAX,
            decreases self.entries.len() - i,
        {
            let mut key = encode_string(self.entries[i].0.as_str());
            let mut value = encode_string(self.entries[i].1.as_str());
            out.append(&mut key);
            out.append(&mut value);
            proof {
                let s = self@;
                lemma_encode_entries_push(s.take(i as int), s[i as int]);
                assert(s.take(i as int).push(s[i as int]) =~= s.take(i + 1));
                assert(out@ =~= spec_encode_u64(s.len() as u64) + spec_encode_entries(
                    s.take(i + 1),
                ));
            }
            i += 1;
        }
        proof {
            assert(self@.take(i as int) =~= self@);
        }
        out
    }

    /// Decodes the map at `pos` of `data`: a count and that many entries,
    /// inserted in their order. Gives the position behind the last entry.
    pub fn decode_at(data: &[u8], pos: usize) -> (res: Result<(MetadataMap, usize), ZffError>)
        ensures
            agrees(res, spec_decode_map(data@, pos as int)),
    {
        let (count, start) = decode_u64(data, pos)?;
        let mut map = MetadataMap::new();
        let mut at: usize = start;
        let mut i: u64 = 0;
        while i < count
            invariant
                i <= count,
                spec_decode_map(data@, pos as int) == spec_decode_entries_into(
                    data@,
                    at as int,
                    (count - i) as nat,
                    map@,
                ),
            decreases count - i,
        {
            let (key, pos1) = decode_string(data, at)?;
            let (value, pos2) = decode_string(data, pos1)?;
            map.insert(key, value);
            at = pos2;
            i += 1;
        }
        Ok((map, at))
    }
}

} // verus!
