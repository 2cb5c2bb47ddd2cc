//! A vending machine: shelves of named products and a pot of coins.
//!
//! Products live on shelves of fixed capacity, identified by name. A
//! purchase checks the shelf, the stock, the inserted coins and the machine's
//! ability to give change, then takes one unit, banks the inserted coins and
//! pays the change out of the pot greedily, largest denomination first.

use vstd::math::min;
use vstd::prelude::*;

verus! {

/// A denomination of coin accepted by the machine.
#[derive(Clone, Copy, Debug, PartialEq, Eq, Hash, PartialOrd, Ord, Structural)]
pub enum Coin {
    One,
    Two,
    Five,
    Ten,
    Twenty,
    Fifty,
}

/// The pot slot a denomination is counted in: slots go from the largest
/// denomination (slot 0, fifty) down to the smallest (slot 5, one).
pub open spec fn spec_slot(c: Coin) -> int {
    match c {
        Coin::Fifty => 0,
        Coin::Twenty => 1,
        Coin::Ten => 2,
        Coin::Five => 3,
        Coin::Two => 4,
        Coin::One => 5,
    }
}

/// The value of the denomination counted in a pot slot.
pub open spec fn slot_value(i: int) -> int {
    if i == 0 {
        50
    } else if i == 1 {
        20
    } else if i == 2 {
        10
    } else if i == 3 {
        5
    } else if i == 4 {
        2
    } else {
        1
    }
}

impl Coin {
    /// The monetary value of the coin, in the smallest currency unit.
    pub open spec fn spec_value(&self) -> u32 {
        match self {
            Coin::One => 1,
            Coin::Two => 2,
            Coin::Five => 5,
            Coin::Ten => 10,
            Coin::Twenty => 20,
            Coin::Fifty => 50,
        }
    }

    /// The monetary value of the coin, in the smallest currency unit.
    pub fn value(&self) -> (v: u32)
        ensures
            v == self.spec_value(),
            v == slot_value(spec_slot(*self)),
            1 <= v <= 50,
    {
        match self {
            Coin::One => 1,
            Coin::Two => 2,
            Coin::Five => 5,
            Coin::Ten => 10,
            Coin::Twenty => 20,
            Coin::Fifty => 50,
        }
    }

    /// The pot slot this denomination is counted in.
    fn slot(&self) -> (s: usize)
        ensures
            s == spec_slot(*self),
            s < 6,
    {
        match self {
            Coin::Fifty => 0,
            Coin::Twenty => 1,
            Coin::Ten => 2,
            Coin::Five => 3,
            Coin::Two => 4,
            Coin::One => 5,
        }
    }
}

/// How many of the coins in `s` are counted in pot slot `slot`.
pub open spec fn occurrences(s: Seq<Coin>, slot: int) -> nat
    decreases s.len(),
{
    if s.len() == 0 {
        0
    } else {
        occurrences(s.drop_last(), slot) + if spec_slot(s.last()) == slot {
            1nat
        } else {
            0nat
        }
    }
}

/// The total monetary value of the coins in `s`.
pub open spec fn coins_total(s: Seq<Coin>) -> int
    decreases s.len(),
{
    if s.len() == 0 {
        0
    } else {
        coins_total(s.drop_last()) + s.last().spec_value()
    }
}

/// The pot after banking every coin of `ins` (counts are expected to fit).
pub open spec fn counts_with(counts: Seq<u32>, ins: Seq<Coin>) -> Seq<u32> {
    Seq::new(counts.len(), |i: int| (counts[i] + occurrences(ins, i)) as u32)
}

/// The change still owed after greedily spending the denominations of slots
/// `[0, j)`, largest first: each slot pays out as many coins as it has and
/// the owed amount still covers.
pub open spec fn greedy_change_left(counts: Seq<u32>, j: int, change: int) -> int
    decreases j,
{
    if j <= 0 {
        change
    } else {
        let before = greedy_change_left(counts, j - 1, change);
        before - min(counts[j - 1] as int, before / slot_value(j - 1)) * slot_value(j - 1)
    }
}

/// How many coins slot `i` pays out during the greedy change walk.
pub open spec fn greedy_spent_at(counts: Seq<u32>, change: int, i: int) -> int {
    min(counts[i] as int, greedy_change_left(counts, i, change) / slot_value(i))
}

/// The pot after the greedy change walk over all six slots.
pub open spec fn greedy_counts_after(counts: Seq<u32>, change: int) -> Seq<u32> {
    Seq::new(counts.len(), |i: int| (counts[i] - greedy_spent_at(counts, change, i)) as u32)
}

/// A named product with a price in the smallest currency unit.
#[derive(Clone, Debug)]
pub struct Product {
    pub name: String,
    pub price: u32,
}

/// A shelf: a capacity bound and the stocked products, each with its current
/// stock. No two entries share a name.
#[derive(Debug)]
pub struct Shelf {
    pub capacity: usize,
    pub products: Vec<(Product, usize)>,
}

/// Whether some entry of `ps` is named `name`.
pub open spec fn shelf_has(ps: Seq<(Product, usize)>, name: Seq<char>) -> bool {
    exists|i: int| 0 <= i < ps.len() && ps[i].0.name@ == name
}

/// The entry of `ps` named `name` (unique on a well-formed shelf).
pub open spec fn shelf_slot(ps: Seq<(Product, usize)>, name: Seq<char>) -> int {
    choose|i: int| 0 <= i < ps.len() && ps[i].0.name@ == name
}

impl Shelf {
    /// Entries carry pairwise distinct names.
    pub open spec fn wf(&self) -> bool {
        forall|i: int, j: int|
            0 <= i < j < self.products@.len() ==> self.products@[i].0.name@ != self.products@[j].0.name@
    }

    /// The position of the entry named `name`, if one exists.
    pub fn find(&self, name: &String) -> (r: Option<usize>)
        requires
            self.wf(),
        ensures
            r matches Some(j) ==> shelf_has(self.products@, name@) && j == shelf_slot(
                self.products@,
                name@,
            ) && j < self.products@.len() && self.products@[j as int].0.name@ == name@,
            r is None ==> !shelf_has(self.products@, name@),
    {
        let mut k: usize = 0;
        while k < self.products.len()
            invariant
                self.wf(),
                k <= self.products@.len(),
                forall|i: int| 0 <= i < k ==> self.products@[i].0.name@ != name@,
            decreases self.products@.len() - k,
        {
            if self.products[k].0.name == *name {
                proof {
                    assert(self.products@[k as int].0.name@ == name@);
                }
                return Some(k);
            }
            k = k + 1;
        }
        None
    }

    /// The current stock of the product named `name`, if it is shelved.
    pub fn stock_of(&self, name: &str) -> (r: Option<usize>)
        requires
            self.wf(),
        ensures
            r matches Some(n) ==> shelf_has(self.products@, name@) && n == self.products@[
                shelf_slot(self.products@, name@)].1,
            r is None ==> !shelf_has(self.products@, name@),
    {
        let owned = name.to_owned();
        match self.find(&owned) {
            Some(j) => Some(self.products[j].1),
            None => None,
        }
    }

    /// Stocks `quantity` more units of `product`, provided the entry stays
    /// within the shelf capacity; a product not yet shelved gets a fresh
    /// entry.
    fn add(&mut self, product: Product, quantity: usize) -> (r: Result<(), String>)
        requires
            old(self).wf(),
        ensures
            final(self).wf(),
            final(self).capacity == old(self).capacity,
            ({
                let ps = old(self).products@;
                let name = product.name@;
                if shelf_has(ps, name) {
                    let j = shelf_slot(ps, name);
                    if ps[j].1 + quantity <= old(self).capacity {
                        r is Ok && final(self).products@ == ps.update(
                            j,
                            (ps[j].0, (ps[j].1 + quantity) as usize),
                        )
                    } else {
                        (r matches Err(e) && e@ == "Exceeds shelf capacity"@) && final(self).products@ == ps
                    }
                } else {
                    if quantity <= old(self).capacity {
                        r is Ok && final(self).products@ == ps.push((product, quantity))
                    } else {
                        (r matches Err(e) && e@ == "Exceeds shelf capacity"@) && final(self).products@ == ps
                    }
                }
            }),
    {
        match self.find(&product.name) {
            Some(j) => {
                let current: usize = self.products[j].1;
                if quantity <= self.capacity && current <= self.capacity - quantity {
                    let mut entry = (product, 0usize);
                    self.products.set_and_swap(j, &mut entry);
                    let updated: usize = entry.1 + quantity;
                    self.products.set(j, (entry.0, updated));
                    Ok(())
                } else {
                    Err("Exceeds shelf capacity".to_owned())
                }
            },
            None => {
                if quantity <= self.capacity {
                    self.products.push((product, quantity));
                    Ok(())
                } else {
                    Err("Exceeds shelf capacity".to_owned())
                }
            },
        }
    }

    /// Takes one unit of the entry at position `j`.
    fn take_one(&mut self, j: usize) -> (taken: bool)
        requires
            old(self).wf(),
            j < old(self).products@.len(),
        ensures
            final(self).wf(),
            final(self).capacity == old(self).capacity,
            ({
                let ps = old(self).products@;
                if ps[j as int].1 > 0 {
                    taken && final(self).products@ == ps.update(
                        j as int,
                        (ps[j as int].0, (ps[j as int].1 - 1) as usize),
                    )
                } else {
                    !taken && final(self).products@ == ps
                }
            }),
    {
        let current: usize = self.products[j].1;
        if current > 0 {
            let mut entry = (Product { name: String::new(), price: 0 }, 0usize);
            self.products.set_and_swap(j, &mut entry);
            self.products.set(j, (entry.0, current - 1));
            true
        } else {
            false
        }
    }
}

/// The machine: shelves of products and a pot of coins, one counter per
/// denomination.
#[derive(Debug)]
pub struct VendingMachine {
    shelves: Vec<Shelf>,
    coins: Vec<u32>,
}

impl VendingMachine {
    /// The shelves, for specification purposes.
    pub closed spec fn shelves_view(&self) -> Seq<Shelf> {
        self.shelves@
    }

    /// The pot, one counter per slot, largest denomination first.
    pub closed spec fn coins_view(&self) -> Seq<u32> {
        self.coins@
    }

    /// The pot counter for one denomination.
    pub open spec fn spec_coin_count(&self, coin: Coin) -> u32 {
        self.coins_view()[spec_slot(coin)]
    }

    /// Six pot slots, and every shelf well-formed.
    pub open spec fn wf(&self) -> bool {
        &&& self.coins_view().len() == 6
        &&& forall|s: int|
            0 <= s < self.shelves_view().len() ==> (#[trigger] self.shelves_view()[s]).wf()
    }

    /// A machine with `shelf_count` empty shelves of capacity
    /// `shelf_capacity` and an empty pot.
    pub fn new(shelf_count: usize, shelf_capacity: usize) -> (vm: Self)
        ensures
            vm.wf(),
            vm.shelves_view().len() == shelf_count,
            forall|s: int|
                0 <= s < shelf_count ==> (#[trigger] vm.shelves_view()[s]).capacity
                    == shelf_capacity && vm.shelves_view()[s].products@.len() == 0,
            forall|i: int| 0 <= i < 6 ==> vm.coins_view()[i] == 0,
    {
        let mut shelves: Vec<Shelf> = Vec::new();
        let mut k: usize = 0;
        while k < shelf_count
            invariant
                k <= shelf_count,
                shelves@.len() == k,
                forall|s: int|
                    0 <= s < k ==> (#[trigger] shelves@[s]).capacity == shelf_capacity
                        && shelves@[s].products@.len() == 0,
            decreases shelf_count - k,
        {
            shelves.push(Shelf { capacity: shelf_capacity, products: Vec::new() });
            k = k + 1;
        }
        let coins: Vec<u32> = vec![0u32, 0u32, 0u32, 0u32, 0u32, 0u32];
        VendingMachine { shelves, coins }
    }

    /// The number of shelves.
    pub fn shelf_count(&self) -> (n: usize)
        ensures
            n == self.shelves_view().len(),
    {
        self.shelves.len()
    }

    /// The current stock of `name` on shelf `shelf_index`, if shelved.
    pub fn stock_of(&self, shelf_index: usize, name: &str) -> (r: Option<usize>)
        requires
            self.wf(),
        ensures
            shelf_index >= self.shelves_view().len() ==> r is None,
            shelf_index < self.shelves_view().len() ==> {
                let ps = self.shelves_view()[shelf_index as int].products@;
                &&& (r matches Some(n) ==> shelf_has(ps, name@) && n == ps[shelf_slot(
                    ps,
                    name@,
                )].1)
                &&& (r is None ==> !shelf_has(ps, name@))
            },
    {
        if shelf_index >= self.shelves.len() {
            return None;
        }
        proof {
            assert(self.shelves_view()[shelf_index as int].wf());
        }
        self.shelves[shelf_index].stock_of(name)
    }

    /// The pot counter for one denomination.
    pub fn coin_count(&self, coin: Coin) -> (n: u32)
        requires
            self.wf(),
        ensures
            n == self.spec_coin_count(coin),
    {
        let slot = coin.slot();
        self.coins[slot]
    }

    /// Stocks `quantity` more units of `product` on shelf `shelf_index`.
    pub fn add_product(&mut self, shelf_index: usize, product: Product, quantity: usize) -> (r:
        Result<(), String>)
        requires
            old(self).wf(),
        ensures
            final(self).wf(),
            final(self).coins_view() == old(self).coins_view(),
            final(self).shelves_view().len() == old(self).shelves_view().len(),
            shelf_index >= old(self).shelves_view().len() ==> (r matches Err(e) && e@
                == "Invalid shelf index"@) && final(self).shelves_view() == old(self).shelves_view(),
            shelf_index < old(self).shelves_view().len() ==> {
                let sh = old(self).shelves_view()[shelf_index as int];
                let ps = sh.products@;
                let name = product.name@;
                let sh2 = final(self).shelves_view()[shelf_index as int];
                &&& forall|s: int|
                    0 <= s < old(self).shelves_view().len() && s != shelf_index ==> final(self).shelves_view()[s] == old(self).shelves_view()[s]
                &&& sh2.capacity == sh.capacity
                &&& if shelf_has(ps, name) {
                    let j = shelf_slot(ps, name);
                    if ps[j].1 + quantity <= sh.capacity {
                        r is Ok && sh2.products@ == ps.update(
                            j,
                            (ps[j].0, (ps[j].1 + quantity) as usize),
                        )
                    } else {
                        (r matches Err(e) && e@ == "Exceeds shelf capacity"@) && sh2.products@
                            == ps
                    }
                } else {
                    if quantity <= sh.capacity {
                        r is Ok && sh2.products@ == ps.push((product, quantity))
                    } else {
                        (r matches Err(e) && e@ == "Exceeds shelf capacity"@) && sh2.products@
                            == ps
                    }
                }
            },
    {
        if shelf_index >= self.shelves.len() {
            return Err("Invalid shelf index".to_owned());
        }
        let mut taken = Shelf { capacity: 0, products: Vec::new() };
        self.shelves.set_and_swap(shelf_index, &mut taken);
        let r = taken.add(product, quantity);
        self.shelves.set_and_swap(shelf_index, &mut taken);
        r
    }

    /// Banks `count` more coins of one denomination.
    pub fn add_coins(&mut self, coin: Coin, count: u32)
        requires
            old(self).wf(),
            old(self).spec_coin_count(coin) + count <= u32::MAX,
        ensures
            final(self).wf(),
            final(self).shelves_view() == old(self).shelves_view(),
            final(self).spec_coin_count(coin) == old(self).spec_coin_count(coin) + count,
            forall|i: int|
                0 <= i < 6 && i != spec_slot(coin) ==> final(self).coins_view()[i] == old(self).coins_view()[i],
    {
        let slot = coin.slot();
        let current = self.coins[slot];
        self.coins.set(slot, current + count);
        proof {
            assert(self.shelves_view() == old(self).shelves_view());
        }
    }

    /// Whether the pot can pay out exactly `change`, walking the
    /// denominations from the largest down and spending from each slot as
    /// many coins as it has and the owed amount still covers. The pot is
    /// untouched.
    pub fn can_give_change(&self, change: u32) -> (r: bool)
        requires
            self.wf(),
        ensures
            r == (greedy_change_left(self.coins_view(), 6, change as int) == 0),
    {
        let mut remaining: u32 = change;
        let mut j: usize = 0;
        while j < 6
            invariant
                self.wf(),
                j <= 6,
                remaining == greedy_change_left(self.coins_view(), j as int, change as int),
            decreases 6 - j,
        {
            let v: u32 = if j == 0 {
                50
            } else if j == 1 {
                20
            } else if j == 2 {
                10
            } else if j == 3 {
                5
            } else if j == 4 {
                2
            } else {
                1
            };
            let avail: u32 = self.coins[j];
            let quot: u32 = remaining / v;
            let k: u32 = if avail < quot {
                avail
            } else {
                quot
            };
            proof {
                lemma_greedy_take_fits(avail as int, remaining as int, v as int);
                assert(k as int == min(avail as int, remaining as int / v as int));
            }
            remaining = remaining - k * v;
            j = j + 1;
        }
        remaining == 0
    }

    /// Banks every inserted coin, then pays `change` out of the pot
    /// greedily, largest denomination first; a slot pays as many coins as it
    /// has and the owed amount still covers. Whatever the greedy walk cannot
    /// pay stays in the pot.
    fn update_coins(&mut self, inserted_coins: &[Coin], change: u32)
        requires
            old(self).wf(),
            forall|i: int|
                0 <= i < 6 ==> old(self).coins_view()[i] + occurrences(inserted_coins@, i)
                    <= u32::MAX,
        ensures
            final(self).wf(),
            final(self).shelves_view() == old(self).shelves_view(),
            final(self).coins_view() == greedy_counts_after(
                counts_with(old(self).coins_view(), inserted_coins@),
                change as int,
            ),
    {
        let ghost orig = self.coins_view();
        let ghost ins = inserted_coins@;
        let mut k: usize = 0;
        while k < inserted_coins.len()
            invariant
                self.wf(),
                self.shelves_view() == old(self).shelves_view(),
                k <= ins.len(),
                inserted_coins@ == ins,
                forall|i: int|
                    0 <= i < 6 ==> #[trigger] self.coins_view()[i] == orig[i] + occurrences(
                        ins.take(k as int),
                        i,
                    ),
                forall|i: int| 0 <= i < 6 ==> orig[i] + occurrences(ins, i) <= u32::MAX,
            decreases ins.len() - k,
        {
            let slot = inserted_coins[k].slot();
            proof {
                lemma_occurrences_take_le(ins, k as int + 1, slot as int);
                lemma_occurrences_take_step(ins, k as int, slot as int);
                assert forall|i: int| 0 <= i < 6 && i != slot implies occurrences(
                    ins.take(k as int + 1),
                    i,
                ) == occurrences(ins.take(k as int), i) by {
                    lemma_occurrences_take_step(ins, k as int, i);
                }
            }
            let current = self.coins[slot];
            self.coins.set(slot, current + 1);
            k = k + 1;
        }
        proof {
            assert(ins.take(ins.len() as int) =~= ins);
            assert(self.coins_view() =~= counts_with(orig, ins));
        }
        let ghost banked = self.coins_view();
        let mut remaining: u32 = change;
        let mut j: usize = 0;
        while j < 6
            invariant
                self.shelves_view() == old(self).shelves_view(),
                self.coins_view().len() == 6,
                j <= 6,
                remaining == greedy_change_left(banked, j as int, change as int),
                forall|i: int|
                    j <= i < 6 ==> #[trigger] self.coins_view()[i] == banked[i],
                forall|i: int|
                    0 <= i < j ==> #[trigger] self.coins_view()[i] == banked[i] - greedy_spent_at(
                        banked,
                        change as int,
                        i,
                    ),
            decreases 6 - j,
        {
            let v: u32 = if j == 0 {
                50
            } else if j == 1 {
                20
            } else if j == 2 {
                10
            } else if j == 3 {
                5
            } else if j == 4 {
                2
            } else {
                1
            };
            let avail: u32 = self.coins[j];
            let quot: u32 = remaining / v;
            let k2: u32 = if avail < quot {
                avail
            } else {
                quot
            };
            proof {
                lemma_greedy_take_fits(avail as int, remaining as int, v as int);
                assert(k2 as int == min(avail as int, remaining as int / v as int));
                assert(k2 as int == greedy_spent_at(banked, change as int, j as int));
            }
            self.coins.set(j, avail - k2);
            remaining = remaining - k2 * v;
            j = j + 1;
        }
        proof {
            assert(self.coins_view() =~= greedy_counts_after(banked, change as int));
        }
    }

    /// Sells one unit of the product named `product_name` from shelf
    /// `shelf_index` against `inserted_coins`, provided the shelf exists, the
    /// product is shelved and in stock, the coins cover the price, and the
    /// pot can pay the change; on success the inserted coins are banked, the
    /// change is paid greedily out of the banked pot, and the change amount
    /// is returned.
    pub fn purchase_product(
        &mut self,
        shelf_index: usize,
        product_name: &str,
        inserted_coins: &[Coin],
    ) -> (r: Result<u32, String>)
        requires
            old(self).wf(),
            coins_total(inserted_coins@) <= u32::MAX,
            forall|i: int|
                0 <= i < 6 ==> old(self).coins_view()[i] + occurrences(inserted_coins@, i)
                    <= u32::MAX,
        ensures
            final(self).wf(),
            final(self).shelves_view().len() == old(self).shelves_view().len(),
            shelf_index >= old(self).shelves_view().len() ==> (r matches Err(e) && e@
                == "Invalid shelf index"@) && *final(self) == *old(self),
            shelf_index < old(self).shelves_view().len() ==> ({
                let sh = old(self).shelves_view()[shelf_index as int];
                let ps = sh.products@;
                if !shelf_has(ps, product_name@) {
                    (r matches Err(e) && e@ == "Product not found on shelf"@) && *final(self)
                        == *old(self)
                } else {
                    let j = shelf_slot(ps, product_name@);
                    let stock = ps[j].1;
                    let price = ps[j].0.price;
                    let total = coins_total(inserted_coins@);
                    if stock == 0 {
                        (r matches Err(e) && e@ == "Product is out of stock"@) && *final(self)
                            == *old(self)
                    } else if total < price {
                        (r matches Err(e) && e@ == "Not enough coins inserted"@) && *final(self)
                            == *old(self)
                    } else if total - price > 0 && greedy_change_left(
                        old(self).coins_view(),
                        6,
                        total - price,
                    ) != 0 {
                        (r matches Err(e) && e@ == "Cannot provide exact change."@) && *final(self)
                            == *old(self)
                    } else {
                        let sh2 = final(self).shelves_view()[shelf_index as int];
                        &&& r == Ok::<u32, String>((total - price) as u32)
                        &&& sh2.capacity == sh.capacity
                        &&& sh2.products@ == ps.update(j, (ps[j].0, (stock - 1) as usize))
                        &&& forall|s: int|
                            0 <= s < old(self).shelves_view().len() && s != shelf_index
                                ==> final(self).shelves_view()[s] == old(self).shelves_view()[s]
                        &&& final(self).coins_view() == greedy_counts_after(
                            counts_with(old(self).coins_view(), inserted_coins@),
                            total - price,
                        )
                    }
                }
            }),
    {
        if shelf_index >= self.shelves.len() {
            return Err("Invalid shelf index".to_owned());
        }
        proof {
            assert(self.shelves_view()[shelf_index as int].wf());
        }
        let owned_name = product_name.to_owned();
        let found = self.shelves[shelf_index].find(&owned_name);
        let j = match found {
            None => {
                return Err("Product not found on shelf".to_owned());
            },
            Some(j) => j,
        };
        let stock: usize = self.shelves[shelf_index].products[j].1;
        if stock == 0 {
            return Err("Product is out of stock".to_owned());
        }
        let price: u32 = self.shelves[shelf_index].products[j].0.price;
        let total: u32 = total_value(inserted_coins);
        if total < price {
            return Err("Not enough coins inserted".to_owned());
        }
        let change: u32 = total - price;
        if change > 0 && !self.can_give_change(change) {
            return Err("Cannot provide exact change.".to_owned());
        }
        let mut taken = Shelf { capacity: 0, products: Vec::new() };
        self.shelves.set_and_swap(shelf_index, &mut taken);
        let took = taken.take_one(j);
        self.shelves.set_and_swap(shelf_index, &mut taken);
        proof {
            assert(took);
        }
        self.update_coins(inserted_coins, change);
        Ok(change)
    }
}

/// The greedy take at one slot never overshoots the change still owed.
proof fn lemma_greedy_take_fits(avail: int, rem: int, v: int)
    requires
        0 <= avail,
        0 <= rem,
        1 <= v,
    ensures
        0 <= min(avail, rem / v) * v <= rem,
{
    let k = min(avail, rem / v);
    vstd::arithmetic::div_mod::lemma_div_pos_is_pos(rem, v);
    vstd::arithmetic::mul::lemma_mul_nonnegative(k, v);
    vstd::arithmetic::mul::lemma_mul_inequality(k, rem / v, v);
    vstd::arithmetic::div_mod::lemma_fundamental_div_mod(rem, v);
    vstd::arithmetic::div_mod::lemma_mod_bound(rem, v);
    vstd::arithmetic::mul::lemma_mul_is_commutative(rem / v, v);
}

/// A prefix of the coin sequence has no more coins of any slot than the
/// whole.
proof fn lemma_occurrences_take_le(s: Seq<Coin>, k: int, slot: int)
    requires
        0 <= k <= s.len(),
    ensures
        occurrences(s.take(k), slot) <= occurrences(s, slot),
    decreases s.len() - k,
{
    if k == s.len() {
        assert(s.take(k) =~= s);
    } else {
        lemma_occurrences_take_le(s, k + 1, slot);
        assert(s.take(k + 1).drop_last() =~= s.take(k));
        assert(s.take(k + 1).last() == s[k]);
    }
}

/// Extending a prefix of the coin sequence by its next coin raises exactly
/// that coin's slot count by one.
proof fn lemma_occurrences_take_step(s: Seq<Coin>, k: int, slot: int)
    requires
        0 <= k < s.len(),
    ensures
        occurrences(s.take(k + 1), slot) == occurrences(s.take(k), slot) + if spec_slot(s[k])
            == slot {
            1int
        } else {
            0int
        },
{
    assert(s.take(k + 1).drop_last() =~= s.take(k));
    assert(s.take(k + 1).last() == s[k]);
}

/// No sequence of coins is worth a negative amount.
proof fn lemma_coins_total_nonneg(s: Seq<Coin>)
    ensures
        coins_total(s) >= 0,
    decreases s.len(),
{
    if s.len() > 0 {
        lemma_coins_total_nonneg(s.drop_last());
    }
}

/// A prefix of the coin sequence is worth no more than the whole, and no
/// prefix is worth a negative amount.
proof fn lemma_coins_total_take(s: Seq<Coin>, k: int)
    requires
        0 <= k <= s.len(),
    ensures
        0 <= coins_total(s.take(k)) <= coins_total(s),
    decreases s.len() - k,
{
    lemma_coins_total_nonneg(s.take(k));
    if k == s.len() {
        assert(s.take(k) =~= s);
    } else {
        lemma_coins_total_take(s, k + 1);
        assert(s.take(k + 1).drop_last() =~= s.take(k));
        assert(s.take(k + 1).last() == s[k]);
    }
}

/// The total monetary value of a slice of coins.
pub fn total_value(coins: &[Coin]) -> (total: u32)
    requires
        coins_total(coins@) <= u32::MAX,
    ensures
        total == coins_total(coins@),
{
    let mut total: u32 = 0;
    let mut k: usize = 0;
    while k < coins.len()
        invariant
            coins_total(coins@) <= u32::MAX,
            k <= coins@.len(),
            total == coins_total(coins@.take(k as int)),
        decreases coins@.len() - k,
    {
        proof {
            lemma_coins_total_take(coins@, k + 1);
            assert(coins@.take(k as int + 1).drop_last() =~= coins@.take(k as int));
            assert(coins@.take(k as int + 1).last() == coins@[k as int]);
        }
        total = total + coins[k].value();
        k = k + 1;
    }
    proof {
        assert(coins@.take(coins@.len() as int) =~= coins@);
    }
    total
}

} // verus!
