//! A model of the backend-side uniform bank of one program.
//!
//! The backend answers a uniform-name lookup with a location; a name
//! that is not an active uniform of the program gets the not-found
//! sentinel, and a write at that sentinel is a silent no-op — shader
//! authors iterate against programs whose unused uniforms were
//! optimised out, so no error is raised. The bank records the integer
//! writes the verified setters make, and its view is the map in which
//! the last write at each location wins.

use vstd::prelude::*;

verus! {

/// The location the backend reports for a name that is not an active
/// uniform of the program.
pub const UNIFORM_NOT_FOUND: i32 = -1;

/// What one write does to a bank: a write at the not-found sentinel
/// (any negative location) changes nothing; a write at a real location
/// sets that location and no other.
pub open spec fn uniform_write(bank: Map<i32, i32>, location: i32, value: i32) -> Map<
    i32,
    i32,
> {
    if location < 0 {
        bank
    } else {
        bank.insert(location, value)
    }
}

/// A write at the not-found location leaves the bank exactly as it
/// was, and no write ever touches the value at any other location:
/// setting a uniform by an absent name raises no error and alters no
/// other uniform.
pub proof fn lemma_uniform_write_isolated(
    bank: Map<i32, i32>,
    location: i32,
    value: i32,
    other: i32,
)
    ensures
        location < 0 ==> uniform_write(bank, location, value) == bank,
        other != location ==> uniform_write(bank, location, value).dom().contains(other)
            == bank.dom().contains(other),
        other != location && bank.dom().contains(other) ==> uniform_write(
            bank,
            location,
            value,
        )[other] == bank[other],
{
}

/// The recorded writes, folded into the map where the last write at
/// each location wins.
pub closed spec fn writes_map(writes: Seq<(i32, i32)>) -> Map<i32, i32>
    decreases writes.len(),
{
    if writes.len() == 0 {
        Map::empty()
    } else {
        writes_map(writes.drop_last()).insert(writes.last().0, writes.last().1)
    }
}

/// The uniform bank of one program: every integer value written so
/// far, by location.
pub struct UniformStore {
    writes: Vec<(i32, i32)>,
}

impl View for UniformStore {
    type V = Map<i32, i32>;

    closed spec fn view(&self) -> Map<i32, i32> {
        writes_map(self.writes@)
    }
}

impl UniformStore {
    /// A fresh bank: nothing written yet.
    pub fn new() -> (bank: Self)
        ensures
            bank@ == Map::<i32, i32>::empty(),
    {
        UniformStore { writes: Vec::new() }
    }

    /// Record one write, exactly as [`uniform_write`] says: dropped at
    /// a negative location, last-write-wins otherwise.
    pub(crate) fn set(&mut self, location: i32, value: i32)
        ensures
            final(self)@ == uniform_write(old(self)@, location, value),
    {
        if location >= 0 {
            self.writes.push((location, value));
            proof {
                assert(self.writes@.drop_last() =~= old(self).writes@);
                assert(self@ == uniform_write(old(self)@, location, value));
            }
        }
    }

    /// The value at a location: the last write there, if any.
    pub fn get(&self, location: i32) -> (value: Option<i32>)
        ensures
            value == if self@.dom().contains(location) {
                Some(self@[location])
            } else {
                None::<i32>
            },
    {
        let n = self.writes.len();
        let mut found: Option<i32> = None;
        let mut i: usize = 0;
        while i < n
            invariant
                i <= n,
                n == self.writes.len(),
                found == if writes_map(self.writes@.take(i as int)).dom().contains(location) {
                    Some(writes_map(self.writes@.take(i as int))[location])
                } else {
                    None::<i32>
                },
            decreases n - i,
        {
            let entry = self.writes[i];
            proof {
                assert(self.writes@.take(i + 1 as int).drop_last() =~= self.writes@.take(
                    i as int,
                ));
                assert(self.writes@.take(i + 1 as int).last() == self.writes@[i as int]);
            }
            if entry.0 == location {
                found = Some(entry.1);
            }
            i = i + 1;
        }
        proof {
            assert(self.writes@.take(n as int) =~= self.writes@);
        }
        found
    }
}

} // verus!
