//! Usage counters.  Instead of ambient global state, counting is a small
//! capability: a mapping from a name to how often it was used, passed to
//! whoever needs to count.  One instance counts command invocations, a
//! second counts recognised links.

use vstd::map::*;
use vstd::prelude::*;

verus! {

/// How often each name was counted.  The view is the mathematical map
/// from name to count; a name never counted is absent.
pub struct CounterMap {
    entries: Vec<(String, u64)>,
}

impl CounterMap {
    /// The counts as a mathematical map.
    pub closed spec fn counts(&self) -> Map<Seq<char>, u64> {
        Map::new(
            |name: Seq<char>|
                exists|i: int|
                    0 <= i < self.entries@.len() && (#[trigger] self.entries@[i]).0@ == name,
            |name: Seq<char>|
                {
                    let i = choose|i: int|
                        0 <= i < self.entries@.len() && (#[trigger] self.entries@[i]).0@
                            == name;
                    self.entries@[i].1
                },
        )
    }

    /// Each name appears at most once.
    pub closed spec fn wf(&self) -> bool {
        forall|i: int, j: int|
            0 <= i < j < self.entries@.len() ==> (#[trigger] self.entries@[i]).0@ != (
            #[trigger] self.entries@[j]).0@
    }

    /// An empty counter map.
    pub fn new() -> (m: CounterMap)
        ensures
            m.wf(),
            m.counts() == Map::<Seq<char>, u64>::empty(),
    {
        let m = CounterMap { entries: Vec::new() };
        proof {
            assert(m.counts() =~= Map::<Seq<char>, u64>::empty());
        }
        m
    }

    /// The count recorded under `name`, or zero if it was never counted.
    pub fn get(&self, name: &String) -> (c: u64)
        requires
            self.wf(),
        ensures
            c == if self.counts().dom().contains(name@) {
                self.counts()[name@]
            } else {
                0
            },
    {
        let n = self.entries.len();
        let mut i: usize = 0;
        while i < n
            invariant
                0 <= i <= n,
                n == self.entries@.len(),
                self.wf(),
                forall|j: int| 0 <= j < i ==> (#[trigger] self.entries@[j]).0@ != name@,
            decreases n - i,
        {
            if string_eq(&self.entries[i].0, name) {
                proof {
                    assert(self.counts().dom().contains(name@));
                    let w = choose|w: int|
                        0 <= w < self.entries@.len() && (#[trigger] self.entries@[w]).0@
                            == name@;
                    assert(w == i);
                }
                return self.entries[i].1;
            }
            i = i + 1;
        }
        proof {
            assert(!self.counts().dom().contains(name@));
        }
        0
    }

    /// Counts `name` once more; the count saturates rather than wraps.
    pub fn increment(&mut self, name: &String)
        requires
            old(self).wf(),
        ensures
            final(self).wf(),
            final(self).counts() == old(self).counts().insert(
                name@,
                if old(self).counts().dom().contains(name@) {
                    if old(self).counts()[name@] < u64::MAX {
                        (old(self).counts()[name@] + 1) as u64
                    } else {
                        u64::MAX
                    }
                } else {
                    1
                },
            ),
    {
        let n = self.entries.len();
        let mut i: usize = 0;
        while i < n
            invariant
                0 <= i <= n,
                n == self.entries@.len(),
                self == old(self),
                self.wf(),
                forall|j: int| 0 <= j < i ==> (#[trigger] self.entries@[j]).0@ != name@,
            decreases n - i,
        {
            if string_eq(&self.entries[i].0, name) {
                let current = self.entries[i].1;
                let bumped = if current < u64::MAX {
                    current + 1
                } else {
                    u64::MAX
                };
                let key = self.entries[i].0.clone();
                self.entries.set(i, (key, bumped));
                proof {
                    let w = choose|w: int|
                        0 <= w < old(self).entries@.len() && (#[trigger] old(
                            self,
                        ).entries@[w]).0@ == name@;
                    assert(w == i);
                    assert(old(self).counts().dom().contains(name@));
                    assert(old(self).counts()[name@] == current);
                    let lhs = self.counts();
                    let rhs = old(self).counts().insert(name@, bumped);
                    assert_maps_equal!(lhs, rhs, m => {
                            if m == name@ {
                                assert(self.entries@[i as int].0@ == m);
                                let w2 = choose|w2: int|
                                    0 <= w2 < self.entries@.len()
                                        && (#[trigger] self.entries@[w2]).0@ == m;
                                assert(w2 == i);
                            } else {
                                assert forall|x: int|
                                    0 <= x < self.entries@.len()
                                        && (#[trigger] self.entries@[x]).0@ == m implies 0 <= x
                                    < old(self).entries@.len() && old(self).entries@[x].0@ == m
                                    && self.entries@[x] == old(self).entries@[x] by {
                                    assert(x != i);
                                }
                                assert forall|x: int|
                                    0 <= x < old(self).entries@.len()
                                        && (#[trigger] old(self).entries@[x]).0@
                                        == m implies self.entries@[x].0@ == m by {
                                    assert(x != i);
                                }
                            }
                        }
                    );
                }
                return ;
            }
            i = i + 1;
        }
        let key = name.clone();
        self.entries.push((key, 1));
        proof {
            assert(self.entries@[n as int].0@ == name@);
            let lhs = self.counts();
            let rhs = old(self).counts().insert(name@, 1u64);
            assert_maps_equal!(lhs, rhs, m => {
                    if m == name@ {
                        let w2 = choose|w2: int|
                            0 <= w2 < self.entries@.len()
                                && (#[trigger] self.entries@[w2]).0@ == m;
                        assert(w2 == n);
                    } else {
                        assert forall|x: int|
                            0 <= x < self.entries@.len()
                                && (#[trigger] self.entries@[x]).0@ == m implies 0 <= x < old(
                            self,
                        ).entries@.len() && old(self).entries@[x].0@ == m by {
                            assert(x != n);
                        }
                        assert(forall|x: int|
                            0 <= x < old(self).entries@.len() && (#[trigger] old(
                                self,
                            ).entries@[x]).0@ == m ==> self.entries@[x].0@ == m);
                    }
                }
            );
        }
    }
}

/// Are the two strings the same text?
fn string_eq(a: &String, b: &String) -> (r: bool)
    ensures
        r == (a@ == b@),
{
    a.eq(b)
}

/// Counts how often each command was invoked.
pub struct CommandCounter {
    pub counts: CounterMap,
}

impl CommandCounter {
    /// A fresh counter with nothing counted.
    pub fn new() -> (c: CommandCounter)
        ensures
            c.counts.wf(),
            c.counts.counts() == Map::<Seq<char>, u64>::empty(),
    {
        CommandCounter { counts: CounterMap::new() }
    }
}

/// Counts how often each recognised link kind was handled.
pub struct UrlCounter {
    pub counts: CounterMap,
}

impl UrlCounter {
    /// A fresh counter with nothing counted.
    pub fn new() -> (c: UrlCounter)
        ensures
            c.counts.wf(),
            c.counts.counts() == Map::<Seq<char>, u64>::empty(),
    {
        UrlCounter { counts: CounterMap::new() }
    }
}

} // verus!
