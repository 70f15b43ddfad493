//! The population of a building: it grows up to a maximum, shrinks back to
//! it when above, sends half of itself on a move order and loses one
//! inhabitant per point of damage taken.
use vstd::prelude::*;

verus! {

/// How many inhabitants a building has and how many it grows to.
pub struct Inhabitants {
    current: i32,
    max: i32,
}

pub struct InhabitantsView {
    pub current: int,
    pub max: int,
}

impl View for Inhabitants {
    type V = InhabitantsView;

    closed spec fn view(&self) -> InhabitantsView {
        InhabitantsView { current: self.current as int, max: self.max as int }
    }
}

/// The larger half of `count`, as `count / 2 + count % 2` computes it on
/// `i32` (division and remainder truncate towards zero).
pub open spec fn larger_half(count: int) -> int {
    if count >= 0 {
        (count + 1) / 2
    } else {
        -((-count + 1) / 2)
    }
}

/// The population after taking away `amount`, never below zero.
pub open spec fn after_take(current: int, amount: int) -> int {
    if current - amount > 0 {
        current - amount
    } else {
        0
    }
}

/// Population and whether the building falls, after `hits` points of damage
/// are taken one by one: each point costs an inhabitant, and a point that
/// finds the building empty makes it fall.
pub open spec fn after_hits(current: int, hits: int) -> (int, bool) {
    if hits <= 0 {
        (current, false)
    } else if current < 0 {
        (0, hits >= 2)
    } else {
        (after_take(current, hits), hits > current)
    }
}

/// How many ants a move order sends from a building of `count`
/// inhabitants: the larger half.
pub fn move_order_size(count: i32) -> (size: i32)
    ensures
        size == larger_half(count as int),
{
    count / 2 + count % 2
}

impl Inhabitants {
    /// The population and the maximum of a building are `i32` values.
    pub proof fn lemma_view_fits_i32(&self)
        ensures
            i32::MIN <= self@.current <= i32::MAX,
            i32::MIN <= self@.max <= i32::MAX,
    {
    }

    pub fn new(inhabitants: i32, max_inhabitants: i32) -> (new: Inhabitants)
        ensures
            new@.current == inhabitants,
            new@.max == max_inhabitants,
    {
        Inhabitants { current: inhabitants, max: max_inhabitants }
    }

    pub fn current(&self) -> (current: i32)
        ensures
            current == self@.current,
    {
        self.current
    }

    pub fn max_inhabitants(&self) -> (max: i32)
        ensures
            max == self@.max,
    {
        self.max
    }

    pub fn set(&mut self, current: i32)
        ensures
            final(self)@.current == current,
            final(self)@.max == old(self)@.max,
    {
        self.current = current;
    }

    /// Takes `amount` inhabitants away; the population does not go below zero.
    pub fn take(&mut self, amount: i32)
        requires
            i32::MIN <= old(self)@.current - amount <= i32::MAX,
        ensures
            final(self)@.current == after_take(old(self)@.current, amount as int),
            final(self)@.max == old(self)@.max,
    {
        let remaining = self.current - amount;
        self.current = if remaining > 0 { remaining } else { 0 };
    }

    pub fn add(&mut self, amount: i32)
        requires
            i32::MIN <= old(self)@.current + amount <= i32::MAX,
        ensures
            final(self)@.current == old(self)@.current + amount,
            final(self)@.max == old(self)@.max,
    {
        self.current = self.current + amount;
    }

    /// Below its maximum, a building grows.
    pub fn can_grow(&self) -> (can_grow: bool)
        ensures
            can_grow == (self@.current < self@.max),
    {
        self.current < self.max
    }

    /// One more inhabitant, when the grow timer of a building below its
    /// maximum fires.
    pub fn grow(&mut self)
        requires
            old(self)@.current < old(self)@.max,
        ensures
            final(self)@.current == old(self)@.current + 1,
            final(self)@.max == old(self)@.max,
    {
        self.current = self.current + 1;
    }

    /// Above its maximum, a building shrinks.
    pub fn overpopulated(&self) -> (overpopulated: bool)
        ensures
            overpopulated == (self@.current > self@.max),
    {
        self.current > self.max
    }

    /// One inhabitant less, when the shrink timer of a building above its
    /// maximum fires.
    pub fn shrink(&mut self)
        requires
            old(self)@.current > old(self)@.max,
        ensures
            final(self)@.current == old(self)@.current - 1,
            final(self)@.max == old(self)@.max,
    {
        self.current = self.current - 1;
    }

    /// A move order sends the larger half of the population: returns how
    /// many ants leave and takes them away (nothing happens when that is 0).
    pub fn send_half(&mut self) -> (sent: i32)
        ensures
            sent == larger_half(old(self)@.current),
            sent == 0 ==> final(self)@ == old(self)@,
            sent != 0 ==> final(self)@.current == after_take(old(self)@.current, sent as int),
            final(self)@.max == old(self)@.max,
    {
        let sent = move_order_size(self.current);
        if sent == 0 {
            return 0;
        }
        self.take(sent);
        sent
    }

    /// Takes `hits` whole points of damage one by one; returns whether a
    /// point found the building empty, which makes it fall to the attacker.
    pub fn absorb_hits(&mut self, hits: u32) -> (overtaken: bool)
        requires
            hits > 0 ==> old(self)@.current > i32::MIN,
        ensures
            final(self)@.current == after_hits(old(self)@.current, hits as int).0,
            overtaken == after_hits(old(self)@.current, hits as int).1,
            final(self)@.max == old(self)@.max,
    {
        let ghost start = self@.current;
        let mut taken: u32 = 0;
        let mut overtaken = false;
        while taken < hits
            invariant
                taken <= hits,
                hits > 0 ==> start > i32::MIN,
                self@.max == old(self)@.max,
                start == old(self)@.current,
                self@.current == after_hits(start, taken as int).0,
                overtaken == after_hits(start, taken as int).1,
            decreases hits - taken,
        {
            if self.current == 0 {
                overtaken = true;
            } else {
                self.take(1);
            }
            taken = taken + 1;
        }
        overtaken
    }
}

/// Growth never takes a building past its maximum: growing happens only
/// below it, by one inhabitant.
pub proof fn lemma_growth_stays_within_max(current: int, max: int)
    requires
        current < max,
    ensures
        current + 1 <= max,
{
}

/// Shrinking never takes a building below its maximum: it happens only
/// above it, by one inhabitant.
pub proof fn lemma_shrinking_stays_at_or_above_max(current: int, max: int)
    requires
        current > max,
    ensures
        current - 1 >= max,
{
}

/// Taking inhabitants never leaves a negative population.
pub proof fn lemma_take_never_negative(current: int, amount: int)
    ensures
        after_take(current, amount) >= 0,
{
}

/// A move order loses no ant: what leaves and what stays add up to the
/// population before the order.
pub proof fn lemma_send_half_conserves(current: int)
    requires
        current >= 0,
    ensures
        larger_half(current) >= 0,
        larger_half(current) == 0 ==> current == 0,
        larger_half(current) + after_take(current, larger_half(current)) == current,
        after_take(current, larger_half(current)) == current / 2,
{
}

/// A building with `current` inhabitants falls exactly when more points of
/// damage reach it than it has inhabitants; otherwise it keeps the rest.
pub proof fn lemma_hits_overtake_exactly_when_outnumbered(current: int, hits: int)
    requires
        current >= 0,
        hits >= 0,
    ensures
        after_hits(current, hits).1 <==> hits > current,
        !after_hits(current, hits).1 ==> after_hits(current, hits).0 == current - hits,
        after_hits(current, hits).1 ==> after_hits(current, hits).0 == 0,
{
}

} // verus!
