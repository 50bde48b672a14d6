//! The actors that are running, each under the name of its device.

use vstd::prelude::*;

verus! {

/// One running actor. `T` is the sending end of its command channel.
#[derive(Debug, PartialEq, Eq)]
struct Entry<T> {
    name: String,
    sender: T,
}

/// The running actors, each under the name of its device.
#[derive(Debug, PartialEq, Eq)]
pub struct DeviceMap<T> {
    entries: Vec<Entry<T>>,
}

impl<T> DeviceMap<T> {
    /// Whether no two entries have the same name.
    pub closed spec fn wf(self) -> bool {
        forall|i: int, j: int|
            0 <= i < j < self.entries@.len() ==> (#[trigger] self.entries@[i]).name@ != (
            #[trigger] self.entries@[j]).name@
    }

    /// Whether an entry has the name.
    spec fn has(self, name: Seq<char>) -> bool {
        exists|i: int| 0 <= i < self.entries@.len() && (#[trigger] self.entries@[i]).name@ == name
    }

    /// The position of the entry with the name.
    spec fn position(self, name: Seq<char>) -> int {
        choose|i: int| 0 <= i < self.entries@.len() && (#[trigger] self.entries@[i]).name@ == name
    }

    /// The names in the order in which the entries are visited.
    pub closed spec fn order(self) -> Seq<Seq<char>> {
        Seq::new(self.entries@.len(), |i: int| self.entries@[i].name@)
    }
}

impl<T> View for DeviceMap<T> {
    type V = Map<Seq<char>, T>;

    closed spec fn view(&self) -> Map<Seq<char>, T> {
        Map::new(
            |name: Seq<char>| self.has(name),
            |name: Seq<char>| self.entries@[self.position(name)].sender,
        )
    }
}

/// The visiting order names every entry once.
pub proof fn lemma_order<T>(map: DeviceMap<T>)
    requires
        map.wf(),
    ensures
        map.order().no_duplicates(),
        map.order().to_set() == map@.dom(),
        map@.dom().finite(),
        map@.len() == map.order().len(),
{
    assert forall|name: Seq<char>| map.order().to_set().contains(name) == map@.dom().contains(
        name,
    ) by {
        if map.has(name) {
            let i = map.position(name);
            assert(map.order()[i] == name);
        }
        if map.order().contains(name) {
            let i = choose|i: int| 0 <= i < map.order().len() && map.order()[i] == name;
            assert(map.entries@[i].name@ == name);
        }
    }
    assert(map.order().to_set() =~= map@.dom());
    map.order().unique_seq_to_set();
    vstd::seq_lib::seq_to_set_is_finite(map.order());
}

impl<T> DeviceMap<T> {
    /// A map without entries.
    pub fn new() -> (map: Self)
        ensures
            map.wf(),
            map@ == Map::<Seq<char>, T>::empty(),
            map.order() == Seq::<Seq<char>>::empty(),
    {
        let map = DeviceMap { entries: Vec::new() };
        assert(map@ =~= Map::<Seq<char>, T>::empty());
        assert(map.order() =~= Seq::<Seq<char>>::empty());
        map
    }

    proof fn lemma_entry(self, i: int)
        requires
            self.wf(),
            0 <= i < self.entries@.len(),
        ensures
            self@.contains_key(self.entries@[i].name@),
            self@[self.entries@[i].name@] == self.entries@[i].sender,
            self.order()[i] == self.entries@[i].name@,
    {
        let name = self.entries@[i].name@;
        assert(self.has(name));
        let p = self.position(name);
        assert(p == i) by {
            if p < i {
                assert(self.entries@[p].name@ != self.entries@[i].name@);
            }
            if i < p {
                assert(self.entries@[i].name@ != self.entries@[p].name@);
            }
        }
    }

    /// The position of the entry with the name.
    fn find(&self, name: &String) -> (found: Option<usize>)
        requires
            self.wf(),
        ensures
            match found {
                Some(i) => i < self.entries@.len() && self.entries@[i as int].name@ == name@
                    && self@.contains_key(name@) && self@[name@]
                    == self.entries@[i as int].sender,
                None => !self@.contains_key(name@),
            },
    {
        let mut i: usize = 0;
        while i < self.entries.len()
            invariant
                self.wf(),
                i <= self.entries@.len(),
                forall|j: int| 0 <= j < i ==> (#[trigger] self.entries@[j]).name@ != name@,
            decreases self.entries@.len() - i,
        {
            if self.entries[i].name == *name {
                proof {
                    self.lemma_entry(i as int);
                }
                return Some(i);
            }
            i = i + 1;
        }
        None
    }

    /// The sending end of the actor with the name.
    pub fn get(&self, name: &String) -> (sender: Option<&T>)
        requires
            self.wf(),
        ensures
            match sender {
                Some(s) => self@.contains_key(name@) && *s == self@[name@],
                None => !self@.contains_key(name@),
            },
    {
        match self.find(name) {
            Some(i) => Some(&self.entries[i].sender),
            None => None,
        }
    }

    /// Enters an actor under the name, in place of the one that was there.
    pub fn insert(&mut self, name: String, sender: T) -> (replaced: Option<T>)
        requires
            old(self).wf(),
        ensures
            final(self).wf(),
            final(self)@ == old(self)@.insert(name@, sender),
            match replaced {
                Some(s) => old(self)@.contains_key(name@) && s == old(self)@[name@],
                None => !old(self)@.contains_key(name@),
            },
    {
        let replaced = self.remove(&name);
        let ghost before = *self;
        let entry = Entry { name, sender };
        self.entries.push(entry);
        proof {
            let added = self.entries@.len() - 1;
            assert forall|i: int, j: int| 0 <= i < j < self.entries@.len() implies (
            #[trigger] self.entries@[i]).name@ != (#[trigger] self.entries@[j]).name@ by {
                if j == added {
                    assert(before.entries@[i] == self.entries@[i]);
                    before.lemma_entry(i);
                } else {
                    assert(before.entries@[i].name@ != before.entries@[j].name@);
                }
            }
            assert(self.wf());
            self.lemma_entry(added);
            assert(self.entries@[added].sender == sender && self.entries@[added].name == name);
            assert forall|n: Seq<char>| n != name@ implies (
            #[trigger] self@.dom().contains(n)) == before@.dom().contains(n) && (
            self@.dom().contains(n) ==> self@[n] == before@[n]) by {
                if before.has(n) {
                    let i = before.position(n);
                    assert(self.entries@[i].name@ == n);
                    self.lemma_entry(i);
                    before.lemma_entry(i);
                }
                if self.has(n) {
                    let i = self.position(n);
                    assert(before.entries@[i].name@ == n);
                }
            }
            assert(self@ =~= before@.insert(name@, sender));
            assert(self@ =~= old(self)@.insert(name@, sender));
        }
        replaced
    }

    /// Takes the actor with the name out.
    pub fn remove(&mut self, name: &String) -> (removed: Option<T>)
        requires
            old(self).wf(),
        ensures
            final(self).wf(),
            final(self)@ == old(self)@.remove(name@),
            match removed {
                Some(s) => old(self)@.contains_key(name@) && s == old(self)@[name@],
                None => !old(self)@.contains_key(name@),
            },
    {
        let ghost before = *self;
        match self.find(name) {
            Some(i) => {
                let entry = self.entries.remove(i);
                proof {
                    assert forall|j: int| 0 <= j < self.entries@.len() implies (
                    #[trigger] self.entries@[j]) == before.entries@[if j < i {
                        j
                    } else {
                        j + 1
                    }] by {}
                    assert(self.wf());
                    before.lemma_entry(i as int);
                    assert forall|n: Seq<char>|
                        self.has(n) == (before.has(n) && n != name@) && (self.has(n) ==> self@[n]
                            == before@[n]) by {
                        if self.has(n) {
                            let j = self.position(n);
                            let k = if j < i {
                                j
                            } else {
                                j + 1
                            };
                            assert(before.entries@[k].name@ == n);
                            self.lemma_entry(j);
                            before.lemma_entry(k);
                            assert(before.entries@[k].name@ != before.entries@[i as int].name@);
                        }
                        if before.has(n) && n != name@ {
                            let k = before.position(n);
                            let j = if k < i {
                                k
                            } else {
                                k - 1
                            };
                            assert(self.entries@[j].name@ == n);
                        }
                    }
                    assert(self@ =~= before@.remove(name@));
                }
                Some(entry.sender)
            },
            None => {
                assert(self@ =~= before@.remove(name@));
                None
            },
        }
    }

    /// Whether there is no actor.
    pub fn is_empty(&self) -> (empty: bool)
        requires
            self.wf(),
        ensures
            empty == self@.dom().is_empty(),
            empty == (self@.len() == 0),
    {
        proof {
            lemma_order(*self);
        }
        self.entries.len() == 0
    }

    /// The number of actors.
    pub fn len(&self) -> (count: usize)
        requires
            self.wf(),
        ensures
            count == self@.len(),
            count == self.order().len(),
    {
        proof {
            lemma_order(*self);
        }
        self.entries.len()
    }

    /// The sending end of the actor that is visited as number `index`.
    pub fn visit(&self, index: usize) -> (sender: &T)
        requires
            self.wf(),
            index < self.order().len(),
        ensures
            *sender == self@[self.order()[index as int]],
            self@.contains_key(self.order()[index as int]),
    {
        proof {
            self.lemma_entry(index as int);
        }
        &self.entries[index].sender
    }
}

/// A new map knows no name, and is empty.
pub proof fn lemma_new_is_empty<T>(
    map: DeviceMap<T>,
    name: &String,
    found: Option<&T>,
    count: usize,
    empty: bool,
)
    requires
        call_ensures(DeviceMap::<T>::new, (), map),
        call_ensures(DeviceMap::<T>::get, (&map, name), found),
        call_ensures(DeviceMap::<T>::len, (&map,), count),
        call_ensures(DeviceMap::<T>::is_empty, (&map,), empty),
    ensures
        call_requires(DeviceMap::<T>::new, ()),
        map.wf(),
        found is None,
        count == 0,
        empty,
{
}

/// After an actor was entered under a name, the name leads to it, and every other
/// name to what it led to before. What was given back is what the name led to
/// before.
pub proof fn lemma_insert_then_get<T>(
    map: &mut DeviceMap<T>,
    name: String,
    sender: T,
    replaced: Option<T>,
    asked: &String,
    earlier: Option<&T>,
    found: Option<&T>,
)
    requires
        old(map).wf(),
        call_ensures(DeviceMap::<T>::get, (&*old(map), asked), earlier),
        call_ensures(DeviceMap::<T>::insert, (map, name, sender), replaced),
        call_ensures(DeviceMap::<T>::get, (&*final(map), asked), found),
    ensures
        call_requires(DeviceMap::<T>::get, (&*old(map), asked)),
        call_requires(DeviceMap::<T>::insert, (map, name, sender)),
        final(map).wf(),
        asked@ == name@ ==> found == Some(&sender),
        asked@ == name@ ==> (match replaced {
            Some(s) => earlier == Some(&s),
            None => earlier is None,
        }),
        asked@ != name@ ==> found == earlier,
{
}

/// After a name was taken out, it leads to nothing, and every other name to what
/// it led to before. What was given back is what the name led to before.
pub proof fn lemma_remove_then_get<T>(
    map: &mut DeviceMap<T>,
    name: &String,
    removed: Option<T>,
    asked: &String,
    earlier: Option<&T>,
    found: Option<&T>,
)
    requires
        old(map).wf(),
        call_ensures(DeviceMap::<T>::get, (&*old(map), asked), earlier),
        call_ensures(DeviceMap::<T>::remove, (map, name), removed),
        call_ensures(DeviceMap::<T>::get, (&*final(map), asked), found),
    ensures
        call_requires(DeviceMap::<T>::remove, (map, name)),
        final(map).wf(),
        asked@ == name@ ==> found is None,
        asked@ == name@ ==> (match removed {
            Some(s) => earlier == Some(&s),
            None => earlier is None,
        }),
        asked@ != name@ ==> found == earlier,
{
}

/// Entering an actor makes the map larger by one where the name led to nothing,
/// and keeps its size where it led to an actor.
pub proof fn lemma_len_after_insert<T>(
    map: &mut DeviceMap<T>,
    name: String,
    sender: T,
    replaced: Option<T>,
    before: usize,
    after: usize,
)
    requires
        old(map).wf(),
        call_ensures(DeviceMap::<T>::len, (&*old(map),), before),
        call_ensures(DeviceMap::<T>::insert, (map, name, sender), replaced),
        call_ensures(DeviceMap::<T>::len, (&*final(map),), after),
    ensures
        after == before + if replaced is None {
            1int
        } else {
            0
        },
{
    lemma_order(*old(map));
    lemma_order(*final(map));
    assert(final(map)@.dom() =~= old(map)@.dom().insert(name@));
}

/// Taking a name out makes the map smaller by one where the name led to an actor,
/// and keeps its size where it led to nothing.
pub proof fn lemma_len_after_remove<T>(
    map: &mut DeviceMap<T>,
    name: &String,
    removed: Option<T>,
    before: usize,
    after: usize,
)
    requires
        old(map).wf(),
        call_ensures(DeviceMap::<T>::len, (&*old(map),), before),
        call_ensures(DeviceMap::<T>::remove, (map, name), removed),
        call_ensures(DeviceMap::<T>::len, (&*final(map),), after),
    ensures
        before == after + if removed is Some {
            1int
        } else {
            0
        },
{
    lemma_order(*old(map));
    lemma_order(*final(map));
    assert(final(map)@.dom() =~= old(map)@.dom().remove(name@));
}

/// A map is empty exactly when its length is zero.
pub proof fn lemma_empty_iff_no_len<T>(map: &DeviceMap<T>, count: usize, empty: bool)
    requires
        map.wf(),
        call_ensures(DeviceMap::<T>::len, (map,), count),
        call_ensures(DeviceMap::<T>::is_empty, (map,), empty),
    ensures
        call_requires(DeviceMap::<T>::len, (map,)),
        call_requires(DeviceMap::<T>::is_empty, (map,)),
        empty <==> count == 0,
{
}

/// Visiting every number below the length comes by every actor once: each number
/// stands for a name that leads to the actor that is visited, no two numbers for
/// the same name, and every name that leads to an actor has a number.
pub proof fn lemma_visits<T>(
    map: &DeviceMap<T>,
    count: usize,
    index: usize,
    visited: &T,
    name: &String,
    found: Option<&T>,
)
    requires
        map.wf(),
        call_ensures(DeviceMap::<T>::len, (map,), count),
        call_ensures(DeviceMap::<T>::visit, (map, index), visited),
        call_ensures(DeviceMap::<T>::get, (map, name), found),
        index < count,
    ensures
        call_requires(DeviceMap::<T>::visit, (map, index)),
        name@ == map.order()[index as int] ==> found == Some(visited),
        found is Some <==> exists|i: int| 0 <= i < count && #[trigger] map.order()[i] == name@,
        forall|i: int, j: int|
            0 <= i < j < count ==> #[trigger] map.order()[i] != #[trigger] map.order()[j],
{
    lemma_order(*map);
    assert(map.order().to_set().contains(name@) == map@.dom().contains(name@));
}

} // verus!
