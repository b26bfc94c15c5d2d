//! Where settings are kept when there is no database.

pub mod save_key;

use crate::schema::SaveKey;
use crate::text;
use vstd::prelude::*;

verus! {

/// Gives the name under which a setting is kept.
pub trait SaveKeyExt {
    /// The name of this setting.
    spec fn name(&self) -> Seq<char>;

    fn as_str(&self) -> (s: &'static str)
        ensures
            s@ == self.name(),
    ;
}

impl SaveKeyExt for SaveKey {
    open spec fn name(&self) -> Seq<char> {
        match self {
            SaveKey::ServerConnectInfo => "ServerConnectInfo"@,
            SaveKey::ValidClient => "ValidClient"@,
            SaveKey::ClientId => "ClientId"@,
        }
    }

    fn as_str(&self) -> (s: &'static str) {
        match self {
            SaveKey::ServerConnectInfo => save_key::SERVER_CONNECT_INFO,
            SaveKey::ValidClient => save_key::VALID_CLIENT,
            SaveKey::ClientId => save_key::CLIENT_ID,
        }
    }
}

/// Settings in memory, by name. They are lost when the process ends.
#[derive(Debug)]
pub struct InMemoryStorage {
    data: Vec<(String, Vec<u8>)>,
}

/// Whether the setting at `i` goes by this name.
pub open spec fn named(data: Seq<(String, Vec<u8>)>, i: int, key: Seq<char>) -> bool {
    0 <= i < data.len() && data[i].0@ == key
}

/// Whether no two settings go by the same name.
pub open spec fn names_differ(data: Seq<(String, Vec<u8>)>) -> bool {
    forall|i: int, j: int|
        0 <= i < j < data.len() ==> (#[trigger] data[i]).0@ != (#[trigger] data[j]).0@
}

/// The settings by name.
pub open spec fn by_name(data: Seq<(String, Vec<u8>)>) -> Map<Seq<char>, Seq<u8>> {
    Map::new(
        |key: Seq<char>| exists|i: int| named(data, i, key),
        |key: Seq<char>| data[choose|i: int| named(data, i, key)].1@,
    )
}

impl View for InMemoryStorage {
    type V = Map<Seq<char>, Seq<u8>>;

    closed spec fn view(&self) -> Map<Seq<char>, Seq<u8>> {
        by_name(self.data@)
    }
}

impl InMemoryStorage {
    #[verifier::type_invariant]
    spec fn names_are_unique(&self) -> bool {
        names_differ(self.data@)
    }

    /// An empty storage.
    pub fn new() -> (storage: Self)
        ensures
            storage@ == Map::<Seq<char>, Seq<u8>>::empty(),
    {
        let storage = InMemoryStorage { data: Vec::new() };
        assert(storage@ =~= Map::<Seq<char>, Seq<u8>>::empty());
        storage
    }

    /// Where the setting with this name stands.
    fn position(&self, key: &str) -> (place: Option<usize>)
        ensures
            place matches Some(i) ==> named(self.data@, i as int, key@),
            place is None ==> forall|i: int| !named(self.data@, i, key@),
    {
        let mut i: usize = 0;
        while i < self.data.len()
            invariant
                i <= self.data@.len(),
                forall|j: int| 0 <= j < i ==> !named(self.data@, j, key@),
            decreases self.data@.len() - i,
        {
            if text::same(self.data[i].0.as_str(), key) {
                assert(named(self.data@, i as int, key@));
                return Some(i);
            }
            i = i + 1;
        }
        None
    }

    /// The setting with this name, if there is one.
    pub fn get(&self, key: &str) -> (value: Option<&Vec<u8>>)
        ensures
            value is Some <==> self@.contains_key(key@),
            value matches Some(bytes) ==> bytes@ == self@[key@],
    {
        proof {
            use_type_invariant(self);
        }
        match self.position(key) {
            Some(i) => Some(&self.data[i].1),
            None => None,
        }
    }

    /// Keeps a setting under this name, in place of the one before.
    pub fn insert(&mut self, key: String, value: Vec<u8>)
        ensures
            final(self)@ == old(self)@.insert(key@, value@),
    {
        proof {
            use_type_invariant(&*self);
        }
        let ghost before = self.data@;
        let place = self.position(key.as_str());
        let mut data: Vec<(String, Vec<u8>)> = Vec::new();
        std::mem::swap(&mut data, &mut self.data);
        match place {
            Some(i) => {
                data.set(i, (key, value));
                proof {
                    lemma_replaced(before, i as int, data@[i as int]);
                }
            },
            None => {
                data.push((key, value));
                proof {
                    lemma_added(before, data@.last());
                }
            },
        }
        self.data = data;
    }

    /// Drops the setting with this name and returns it, if there is one.
    pub fn remove(&mut self, key: &str) -> (value: Option<Vec<u8>>)
        ensures
            value is Some <==> old(self)@.contains_key(key@),
            value matches Some(bytes) ==> bytes@ == old(self)@[key@],
            final(self)@ == old(self)@.remove(key@),
    {
        proof {
            use_type_invariant(&*self);
        }
        let ghost before = self.data@;
        match self.position(key) {
            Some(i) => {
                let mut data: Vec<(String, Vec<u8>)> = Vec::new();
                std::mem::swap(&mut data, &mut self.data);
                let entry = data.remove(i);
                proof {
                    lemma_found(before, i as int, key@);
                    lemma_dropped(before, i as int);
                }
                self.data = data;
                Some(entry.1)
            },
            None => {
                assert(by_name(before).remove(key@) =~= by_name(before));
                None
            },
        }
    }
}

/// The setting at `i` is the one found under its name.
proof fn lemma_found(data: Seq<(String, Vec<u8>)>, i: int, key: Seq<char>)
    requires
        names_differ(data),
        named(data, i, key),
    ensures
        by_name(data).contains_key(key),
        by_name(data)[key] == data[i].1@,
{
    let j = choose|j: int| named(data, j, key);
    assert(named(data, j, key));
    assert(i == j);
}

/// Putting another value at `i` under the same name changes that name alone.
proof fn lemma_replaced(data: Seq<(String, Vec<u8>)>, i: int, entry: (String, Vec<u8>))
    requires
        names_differ(data),
        named(data, i, entry.0@),
    ensures
        names_differ(data.update(i, entry)),
        by_name(data.update(i, entry)) == by_name(data).insert(entry.0@, entry.1@),
{
    let after = data.update(i, entry);
    let wanted = by_name(data).insert(entry.0@, entry.1@);
    assert forall|k: Seq<char>| #[trigger] wanted.contains_key(k) implies by_name(
        after,
    ).contains_key(k) && by_name(after)[k] == wanted[k] by {
        if k == entry.0@ {
            lemma_found(after, i, k);
        } else {
            let j = choose|j: int| named(data, j, k);
            lemma_found(data, j, k);
            lemma_found(after, j, k);
        }
    }
    assert forall|k: Seq<char>| #[trigger] by_name(after).contains_key(k) implies wanted.contains_key(
        k,
    ) by {
        let j = choose|j: int| named(after, j, k);
        assert(named(data, j, k));
    }
    assert(by_name(after) =~= wanted);
}

/// Adding a setting under a new name adds that name alone.
proof fn lemma_added(data: Seq<(String, Vec<u8>)>, entry: (String, Vec<u8>))
    requires
        names_differ(data),
        forall|i: int| !named(data, i, entry.0@),
    ensures
        names_differ(data.push(entry)),
        by_name(data.push(entry)) == by_name(data).insert(entry.0@, entry.1@),
{
    let after = data.push(entry);
    let last = data.len() as int;
    let wanted = by_name(data).insert(entry.0@, entry.1@);
    assert forall|i: int, j: int| 0 <= i < j < after.len() implies (#[trigger] after[i]).0@ != (
    #[trigger] after[j]).0@ by {
        if j == last {
            assert(!named(data, i, entry.0@));
        }
    }
    assert forall|k: Seq<char>| #[trigger] wanted.contains_key(k) implies by_name(
        after,
    ).contains_key(k) && by_name(after)[k] == wanted[k] by {
        if k == entry.0@ {
            lemma_found(after, last, k);
        } else {
            let j = choose|j: int| named(data, j, k);
            lemma_found(data, j, k);
            lemma_found(after, j, k);
        }
    }
    assert forall|k: Seq<char>| #[trigger] by_name(after).contains_key(k) implies wanted.contains_key(
        k,
    ) by {
        let j = choose|j: int| named(after, j, k);
        if j != last {
            assert(named(data, j, k));
        }
    }
    assert(by_name(after) =~= wanted);
}

/// Taking the setting at `i` out drops its name alone.
proof fn lemma_dropped(data: Seq<(String, Vec<u8>)>, i: int)
    requires
        names_differ(data),
        0 <= i < data.len(),
    ensures
        names_differ(data.remove(i)),
        by_name(data.remove(i)) == by_name(data).remove(data[i].0@),
{
    let after = data.remove(i);
    let key = data[i].0@;
    let wanted = by_name(data).remove(key);
    assert forall|k: Seq<char>| #[trigger] wanted.contains_key(k) implies by_name(
        after,
    ).contains_key(k) && by_name(after)[k] == wanted[k] by {
        let j = choose|j: int| named(data, j, k);
        lemma_found(data, j, k);
        assert(j != i);
        lemma_found(
            after,
            if j < i {
                j
            } else {
                j - 1
            },
            k,
        );
    }
    assert forall|k: Seq<char>| #[trigger] by_name(after).contains_key(k) implies wanted.contains_key(
        k,
    ) by {
        let j = choose|j: int| named(after, j, k);
        assert(named(
            data,
            if j < i {
                j
            } else {
                j + 1
            },
            k,
        ));
    }
    assert(by_name(after) =~= wanted);
}

impl Default for InMemoryStorage {
    fn default() -> (storage: Self)
        ensures
            storage@ == Map::<Seq<char>, Seq<u8>>::empty(),
    {
        InMemoryStorage::new()
    }
}

} // verus!
