//! The resource vector, its mathematical model and the operations on it.

use vstd::prelude::*;

verus! {

/// The mathematical model of a resource vector: one natural number per
/// resource kind, without any machine bound.
pub struct Amounts {
    pub coins: nat,
    pub wood: nat,
    pub stone: nat,
    pub ore: nat,
    pub clay: nat,
    pub glass: nat,
    pub loom: nat,
    pub papyrus: nat,
}

impl Amounts {
    /// The vector that holds nothing of any kind.
    pub open spec fn zero() -> Amounts {
        Amounts { coins: 0, wood: 0, stone: 0, ore: 0, clay: 0, glass: 0, loom: 0, papyrus: 0 }
    }

    /// `self` holds at least as much of every kind as `cost` asks for.
    pub open spec fn covers(self, cost: Amounts) -> bool {
        &&& self.coins >= cost.coins
        &&& self.wood >= cost.wood
        &&& self.stone >= cost.stone
        &&& self.ore >= cost.ore
        &&& self.clay >= cost.clay
        &&& self.glass >= cost.glass
        &&& self.loom >= cost.loom
        &&& self.papyrus >= cost.papyrus
    }

    /// The sum of two vectors, kind by kind.
    pub open spec fn plus(self, other: Amounts) -> Amounts {
        Amounts {
            coins: self.coins + other.coins,
            wood: self.wood + other.wood,
            stone: self.stone + other.stone,
            ore: self.ore + other.ore,
            clay: self.clay + other.clay,
            glass: self.glass + other.glass,
            loom: self.loom + other.loom,
            papyrus: self.papyrus + other.papyrus,
        }
    }

    /// Every count can be held in a `u32`.
    pub open spec fn representable(self) -> bool {
        &&& self.coins <= u32::MAX
        &&& self.wood <= u32::MAX
        &&& self.stone <= u32::MAX
        &&& self.ore <= u32::MAX
        &&& self.clay <= u32::MAX
        &&& self.glass <= u32::MAX
        &&& self.loom <= u32::MAX
        &&& self.papyrus <= u32::MAX
    }
}

/// Why an accumulation was not carried out.
#[derive(Debug, Clone, Copy, PartialEq, Eq, Structural)]
pub enum ResourcesError {
    /// The sum of some kind does not fit in a `u32`.
    Overflow,
}

/// A quantity of each of the eight resource kinds, held by a player or asked
/// for by a card.
#[derive(Debug, PartialEq, Eq, Structural)]
pub struct Resources {
    pub coins: u32,
    pub wood: u32,
    pub stone: u32,
    pub ore: u32,
    pub clay: u32,
    pub glass: u32,
    pub loom: u32,
    pub papyrus: u32,
}

impl View for Resources {
    type V = Amounts;

    open spec fn view(&self) -> Amounts {
        Amounts {
            coins: self.coins as nat,
            wood: self.wood as nat,
            stone: self.stone as nat,
            ore: self.ore as nat,
            clay: self.clay as nat,
            glass: self.glass as nat,
            loom: self.loom as nat,
            papyrus: self.papyrus as nat,
        }
    }
}

impl Default for Resources {
    fn default() -> (res: Resources)
        ensures
            res@ == Amounts::zero(),
    {
        Resources { coins: 0, wood: 0, stone: 0, ore: 0, clay: 0, glass: 0, loom: 0, papyrus: 0 }
    }
}

impl Clone for Resources {
    fn clone(&self) -> (res: Resources)
        ensures
            res == *self,
    {
        Resources {
            coins: self.coins,
            wood: self.wood,
            stone: self.stone,
            ore: self.ore,
            clay: self.clay,
            glass: self.glass,
            loom: self.loom,
            papyrus: self.papyrus,
        }
    }
}

impl Resources {
    /// Nothing of any kind: what a card without a cost asks for.
    pub fn free() -> (res: Resources)
        ensures
            res@ == Amounts::zero(),
    {
        Resources { ..Default::default() }
    }

    /// `num` coins and nothing else.
    pub fn coins(num: u32) -> (res: Resources)
        ensures
            res@ == (Amounts { coins: num as nat, ..Amounts::zero() }),
    {
        Resources { coins: num, ..Default::default() }
    }

    /// `num` of wood and nothing else.
    pub fn wood(num: u32) -> (res: Resources)
        ensures
            res@ == (Amounts { wood: num as nat, ..Amounts::zero() }),
    {
        Resources { wood: num, ..Default::default() }
    }

    /// `num` of stone and nothing else.
    pub fn stone(num: u32) -> (res: Resources)
        ensures
            res@ == (Amounts { stone: num as nat, ..Amounts::zero() }),
    {
        Resources { stone: num, ..Default::default() }
    }

    /// `num` of ore and nothing else.
    pub fn ore(num: u32) -> (res: Resources)
        ensures
            res@ == (Amounts { ore: num as nat, ..Amounts::zero() }),
    {
        Resources { ore: num, ..Default::default() }
    }

    /// `num` of clay and nothing else.
    pub fn clay(num: u32) -> (res: Resources)
        ensures
            res@ == (Amounts { clay: num as nat, ..Amounts::zero() }),
    {
        Resources { clay: num, ..Default::default() }
    }

    /// `num` of glass and nothing else.
    pub fn glass(num: u32) -> (res: Resources)
        ensures
            res@ == (Amounts { glass: num as nat, ..Amounts::zero() }),
    {
        Resources { glass: num, ..Default::default() }
    }

    /// `num` of loom and nothing else.
    pub fn loom(num: u32) -> (res: Resources)
        ensures
            res@ == (Amounts { loom: num as nat, ..Amounts::zero() }),
    {
        Resources { loom: num, ..Default::default() }
    }

    /// `num` of papyrus and nothing else.
    pub fn papyrus(num: u32) -> (res: Resources)
        ensures
            res@ == (Amounts { papyrus: num as nat, ..Amounts::zero() }),
    {
        Resources { papyrus: num, ..Default::default() }
    }

    /// Whether a player who holds `self` can pay `other`: true exactly when
    /// `self` has at least as much of every kind as `other`.
    pub fn can_afford(&self, other: &Self) -> (res: bool)
        ensures
            res == self@.covers(other@),
    {
        self.coins >= other.coins && self.wood >= other.wood && self.stone >= other.stone
            && self.ore >= other.ore && self.clay >= other.clay && self.glass >= other.glass
            && self.loom >= other.loom && self.papyrus >= other.papyrus
    }

    /// Adds `other` to `self`, kind by kind. Where the sum of any kind does
    /// not fit in a `u32`, nothing is added and the overflow is reported.
    pub fn add_assign(&mut self, other: &Self) -> (res: Result<(), ResourcesError>)
        ensures
            res is Ok <==> old(self)@.plus(other@).representable(),
            res is Ok ==> final(self)@ == old(self)@.plus(other@),
            res is Err ==> *final(self) == *old(self),
            res is Err ==> res == Err::<(), ResourcesError>(ResourcesError::Overflow),
    {
        let fits: bool = other.coins <= u32::MAX - self.coins && other.wood <= u32::MAX - self.wood
            && other.stone <= u32::MAX - self.stone && other.ore <= u32::MAX - self.ore
            && other.clay <= u32::MAX - self.clay && other.glass <= u32::MAX - self.glass
            && other.loom <= u32::MAX - self.loom && other.papyrus <= u32::MAX - self.papyrus;
        if !fits {
            return Err(ResourcesError::Overflow);
        }
        *self = Resources {
            coins: self.coins + other.coins,
            wood: self.wood + other.wood,
            stone: self.stone + other.stone,
            ore: self.ore + other.ore,
            clay: self.clay + other.clay,
            glass: self.glass + other.glass,
            loom: self.loom + other.loom,
            papyrus: self.papyrus + other.papyrus,
        };
        Ok(())
    }
}

/// What a card or a building yields: one fixed vector, or one vector that
/// its owner picks among several.
pub enum ProducedResources {
    /// Exactly this.
    Single(Resources),
    /// One of these, in the order in which they are offered.
    Choice(Vec<Resources>),
}

impl ProducedResources {
    /// A choice offers at least one vector.
    pub open spec fn well_formed(&self) -> bool {
        match self {
            ProducedResources::Single(_) => true,
            ProducedResources::Choice(options) => options@.len() > 0,
        }
    }

    /// The vectors of which one is yielded, in order.
    pub open spec fn alternatives(&self) -> Seq<Amounts> {
        match self {
            ProducedResources::Single(only) => seq![only@],
            ProducedResources::Choice(options) => options@.map_values(|r: Resources| r@),
        }
    }
}

} // verus!
