//! Cargo: the kinds that are traded, and what a player's hold contains.

use vstd::prelude::*;
use crate::models::amounts::{amount_in, AmountMap};
use crate::search::{first_where, lemma_first_where_at, lemma_first_where_none};

verus! {

/// A kind of cargo. Volatility is counted in thousandths.
#[derive(Debug)]
pub struct CargoType {
    pub id: String,
    pub name: String,
    pub base_price: u32,
    pub weight_per_unit: u32,
    pub volatility: u32,
}

impl CargoType {
    pub fn new(id: &str, name: &str, base_price: u32, weight_per_unit: u32, volatility: u32) -> (r:
        Self)
        ensures
            r.id@ == id@,
            r.name@ == name@,
            r.base_price == base_price,
            r.weight_per_unit == weight_per_unit,
            r.volatility == volatility,
    {
        CargoType {
            id: id.to_string(),
            name: name.to_string(),
            base_price,
            weight_per_unit,
            volatility,
        }
    }
}

impl Clone for CargoType {
    fn clone(&self) -> (r: Self)
        ensures
            r == *self,
    {
        CargoType {
            id: self.id.clone(),
            name: self.name.clone(),
            base_price: self.base_price,
            weight_per_unit: self.weight_per_unit,
            volatility: self.volatility,
        }
    }
}

/// The position of the first kind of a catalog with a given id, or -1.
pub open spec fn cargo_type_index(catalog: Seq<CargoType>, id: Seq<char>) -> int {
    first_where(catalog, |c: CargoType| c.id@ == id)
}

/// Finds a kind of cargo in a catalog by its id.
pub fn find_cargo_type<'a>(catalog: &'a Vec<CargoType>, id: &str) -> (r: Option<&'a CargoType>)
    ensures
        match r {
            Some(c) => cargo_type_index(catalog@, id@) >= 0 && *c == catalog[cargo_type_index(
                catalog@,
                id@,
            )],
            None => cargo_type_index(catalog@, id@) < 0,
        },
{
    let wanted = id.to_owned();
    let mut i: usize = 0;
    while i < catalog.len()
        invariant
            i <= catalog.len(),
            wanted@ == id@,
            forall|j: int| 0 <= j < i ==> catalog[j].id@ != id@,
        decreases catalog.len() - i,
    {
        if catalog[i].id == wanted {
            proof {
                lemma_first_where_at(catalog@, |c: CargoType| c.id@ == id@, i as int);
            }
            return Some(&catalog[i]);
        }
        i += 1;
    }
    proof {
        lemma_first_where_none(catalog@, |c: CargoType| c.id@ == id@);
    }
    None
}

/// The weight of a hold: for each kind of the catalog, its weight per unit
/// times the units held.
pub open spec fn cargo_weight(held: Map<Seq<char>, u32>, catalog: Seq<CargoType>) -> nat
    decreases catalog.len(),
{
    if catalog.len() == 0 {
        0
    } else {
        cargo_weight(held, catalog.drop_last()) + (catalog.last().weight_per_unit * amount_in(
            held,
            catalog.last().id@,
        )) as nat
    }
}

/// The sum of two amounts, kept at the largest amount where it would pass it.
pub open spec fn capped_sum(a: u32, b: u32) -> u32 {
    if a + b > u32::MAX {
        u32::MAX
    } else {
        (a + b) as u32
    }
}

/// A weight as a 32-bit amount, kept at the largest amount where it would
/// pass it.
pub open spec fn capped(n: nat) -> u32 {
    if n > u32::MAX {
        u32::MAX
    } else {
        n as u32
    }
}

/// The product of two amounts, which 64 bits always hold.
pub fn times(a: u32, b: u32) -> (r: u64)
    ensures
        r == a * b,
{
    assert(a * b <= 0xffff_ffff * 0xffff_ffff) by (nonlinear_arith)
        requires
            a <= 0xffff_ffff,
            b <= 0xffff_ffff,
    ;
    a as u64 * b as u64
}

/// Adds two amounts and stops at the largest amount.
pub fn add_capped(a: u32, b: u32) -> (r: u32)
    ensures
        r == capped_sum(a, b),
{
    if a > u32::MAX - b {
        u32::MAX
    } else {
        a + b
    }
}

/// What a player's hold contains: units by kind of cargo.
#[derive(Debug)]
pub struct CargoInventory {
    inventory: AmountMap,
}

impl View for CargoInventory {
    type V = Map<Seq<char>, u32>;

    closed spec fn view(&self) -> Map<Seq<char>, u32> {
        self.inventory@
    }
}

impl Clone for CargoInventory {
    fn clone(&self) -> (r: Self)
        ensures
            r@ == self@,
    {
        CargoInventory { inventory: self.inventory.clone() }
    }
}

impl CargoInventory {
    /// The empty hold.
    pub fn new() -> (r: Self)
        ensures
            r@ == Map::<Seq<char>, u32>::empty(),
    {
        CargoInventory { inventory: AmountMap::new() }
    }

    /// The units held of a kind; zero for a kind that is not held.
    pub fn get_quantity(&self, cargo_id: &str) -> (r: u32)
        ensures
            r == amount_in(self@, cargo_id@),
    {
        self.inventory.amount(cargo_id)
    }

    /// Adds units of a kind to the hold. The count of a kind stops at the
    /// largest amount.
    pub fn add_cargo(&mut self, cargo_id: &str, quantity: u32)
        ensures
            final(self)@ == old(self)@.insert(
                cargo_id@,
                capped_sum(amount_in(old(self)@, cargo_id@), quantity),
            ),
    {
        let held = self.inventory.amount(cargo_id);
        self.inventory.insert(cargo_id, add_capped(held, quantity));
    }

    /// Takes units of a kind out of the hold, if that many are held; a kind
    /// of which none is left leaves the hold. Says whether it did.
    pub fn remove_cargo(&mut self, cargo_id: &str, quantity: u32) -> (r: bool)
        ensures
            r == (old(self)@.contains_key(cargo_id@) && old(self)@[cargo_id@] >= quantity),
            r ==> final(self)@ == after_removal(old(self)@, cargo_id@, quantity),
            !r ==> final(self)@ == old(self)@,
    {
        let current = match self.inventory.get(cargo_id) {
            Some(c) => *c,
            None => {
                return false;
            },
        };
        if current >= quantity {
            if current - quantity == 0 {
                self.inventory.remove(cargo_id);
            } else {
                self.inventory.insert(cargo_id, current - quantity);
            }
            true
        } else {
            false
        }
    }

    /// The weight of the hold, kind by kind of the catalog.
    pub fn exact_weight(&self, cargo_types: &Vec<CargoType>) -> (r: u128)
        ensures
            r == cargo_weight(self@, cargo_types@),
    {
        let mut total: u128 = 0;
        let mut i: usize = 0;
        while i < cargo_types.len()
            invariant
                i <= cargo_types.len(),
                total == cargo_weight(self@, cargo_types@.subrange(0, i as int)),
                total <= i * 0x1_0000_0000_0000_0000,
            decreases cargo_types.len() - i,
        {
            let held = self.inventory.amount(cargo_types[i].id.as_str());
            let unit = cargo_types[i].weight_per_unit;
            assert(unit * held <= 0xffff_ffff * 0xffff_ffff) by (nonlinear_arith)
                requires
                    unit <= 0xffff_ffff,
                    held <= 0xffff_ffff,
            ;
            let term: u128 = unit as u128 * held as u128;
            proof {
                let upto = cargo_types@.subrange(0, i + 1);
                assert(upto.drop_last() =~= cargo_types@.subrange(0, i as int));
                assert(upto.last() == cargo_types[i as int]);
            }
            total = total + term;
            i += 1;
        }
        proof {
            assert(cargo_types@.subrange(0, i as int) =~= cargo_types@);
        }
        total
    }

    /// The weight of the hold, kept at the largest amount where it would
    /// pass it.
    pub fn total_weight(&self, cargo_types: &Vec<CargoType>) -> (r: u32)
        ensures
            r == capped(cargo_weight(self@, cargo_types@)),
    {
        let exact = self.exact_weight(cargo_types);
        if exact > u32::MAX as u128 {
            u32::MAX
        } else {
            exact as u32
        }
    }

    /// A hold that contains what a table says, kind by kind.
    pub fn from_amounts(amounts: &AmountMap) -> (r: Self)
        ensures
            r@ == amounts@,
    {
        CargoInventory { inventory: amounts.clone() }
    }

    /// Whether two holds contain the same.
    pub fn same_as(&self, other: &CargoInventory) -> (r: bool)
        ensures
            r == (self@ == other@),
    {
        self.inventory.same_as(&other.inventory)
    }

    /// The whole hold, as a table from kinds to units.
    pub fn get_all_cargo(&self) -> (r: &AmountMap)
        ensures
            r@ == self@,
    {
        &self.inventory
    }

    /// Whether the hold is empty.
    pub fn is_empty(&self) -> (r: bool)
        ensures
            r == (self@ == Map::<Seq<char>, u32>::empty()),
    {
        self.inventory.is_empty()
    }
}

/// A hold after `quantity` units of a kind have left it.
pub open spec fn after_removal(held: Map<Seq<char>, u32>, cargo_id: Seq<char>, quantity: u32) -> Map<
    Seq<char>,
    u32,
> {
    if held[cargo_id] == quantity {
        held.remove(cargo_id)
    } else {
        held.insert(cargo_id, (held[cargo_id] - quantity) as u32)
    }
}

} // verus!
