//! A table from names to amounts: prices by cargo type, or units held by
//! cargo type.

use vstd::prelude::*;

verus! {

/// One row of a table: a name and the amount that belongs to it.
#[derive(Debug, Clone)]
pub struct AmountEntry {
    pub key: String,
    pub amount: u32,
}

/// The map that a sequence of rows stands for; of two rows with one name
/// the later one counts.
pub open spec fn rows_map(rows: Seq<AmountEntry>) -> Map<Seq<char>, u32>
    decreases rows.len(),
{
    if rows.len() == 0 {
        Map::empty()
    } else {
        rows_map(rows.drop_last()).insert(rows.last().key@, rows.last().amount)
    }
}

/// No two rows carry the same name.
pub open spec fn distinct_rows(rows: Seq<AmountEntry>) -> bool {
    forall|i: int, j: int| 0 <= i < j < rows.len() ==> rows[i].key@ != rows[j].key@
}

/// The position of the last row with a given name, or -1.
pub open spec fn row_of(rows: Seq<AmountEntry>, key: Seq<char>) -> int
    decreases rows.len(),
{
    if rows.len() == 0 {
        -1
    } else if rows.last().key@ == key {
        rows.len() - 1
    } else {
        row_of(rows.drop_last(), key)
    }
}

/// What `row_of` finds, and how the map follows from it.
pub proof fn lemma_row_of(rows: Seq<AmountEntry>, key: Seq<char>)
    ensures
        -1 <= row_of(rows, key) < rows.len(),
        row_of(rows, key) >= 0 ==> rows[row_of(rows, key)].key@ == key,
        row_of(rows, key) < 0 ==> forall|i: int| 0 <= i < rows.len() ==> rows[i].key@ != key,
        rows_map(rows).contains_key(key) <==> row_of(rows, key) >= 0,
        row_of(rows, key) >= 0 ==> rows_map(rows)[key] == rows[row_of(rows, key)].amount,
    decreases rows.len(),
{
    if rows.len() > 0 {
        lemma_row_of(rows.drop_last(), key);
        if rows.last().key@ != key {
            assert forall|i: int| 0 <= i < rows.len() && row_of(rows, key) < 0 implies rows[i].key@
                != key by {
                if i < rows.len() - 1 {
                    assert(rows.drop_last()[i].key@ != key);
                }
            }
        }
    }
}

/// Among distinct rows, the row with a name is the one `row_of` finds.
pub proof fn lemma_row_of_distinct(rows: Seq<AmountEntry>, i: int)
    requires
        distinct_rows(rows),
        0 <= i < rows.len(),
    ensures
        row_of(rows, rows[i].key@) == i,
{
    lemma_row_of(rows, rows[i].key@);
}

/// Distinct rows stand for a finite map with one name for each row.
pub proof fn lemma_rows_len(rows: Seq<AmountEntry>)
    requires
        distinct_rows(rows),
    ensures
        rows_map(rows).dom().finite(),
        rows_map(rows).len() == rows.len(),
    decreases rows.len(),
{
    if rows.len() > 0 {
        let init = rows.drop_last();
        lemma_rows_len(init);
        lemma_row_of(init, rows.last().key@);
        if row_of(init, rows.last().key@) >= 0 {
            let i = row_of(init, rows.last().key@);
            assert(rows[i].key@ == rows[rows.len() - 1].key@);
        }
    }
}

/// A table from names to amounts in which every name occurs once.
#[derive(Debug)]
pub struct AmountMap {
    rows: Vec<AmountEntry>,
}

impl View for AmountMap {
    type V = Map<Seq<char>, u32>;

    closed spec fn view(&self) -> Map<Seq<char>, u32> {
        rows_map(self.rows@)
    }
}

impl AmountMap {
    #[verifier::type_invariant]
    spec fn well_formed(self) -> bool {
        distinct_rows(self.rows@)
    }

    /// The empty table.
    pub fn new() -> (r: Self)
        ensures
            r@ == Map::<Seq<char>, u32>::empty(),
    {
        AmountMap { rows: Vec::new() }
    }

    /// How many names the table holds.
    pub fn len(&self) -> (r: usize)
        ensures
            self@.dom().finite(),
            r == self@.len(),
    {
        proof {
            use_type_invariant(self);
            lemma_rows_len(self.rows@);
        }
        self.rows.len()
    }

    /// Whether the table holds no name.
    pub fn is_empty(&self) -> (r: bool)
        ensures
            r == (self@ == Map::<Seq<char>, u32>::empty()),
    {
        proof {
            use_type_invariant(self);
            lemma_rows_len(self.rows@);
            if self.rows.len() == 0 {
                assert(self@ =~= Map::<Seq<char>, u32>::empty());
            }
        }
        self.rows.len() == 0
    }

    fn position(&self, key: &str) -> (r: Option<usize>)
        ensures
            match r {
                Some(i) => i < self.rows.len() && self.rows[i as int].key@ == key@ && i == row_of(
                    self.rows@,
                    key@,
                ),
                None => row_of(self.rows@, key@) < 0,
            },
    {
        let wanted = key.to_owned();
        let mut i: usize = 0;
        while i < self.rows.len()
            invariant
                i <= self.rows.len(),
                wanted@ == key@,
                forall|j: int| 0 <= j < i ==> self.rows[j].key@ != key@,
            decreases self.rows.len() - i,
        {
            if self.rows[i].key == wanted {
                proof {
                    use_type_invariant(self);
                    lemma_row_of_distinct(self.rows@, i as int);
                }
                return Some(i);
            }
            i += 1;
        }
        proof {
            lemma_row_of(self.rows@, key@);
        }
        None
    }

    /// Whether an amount is entered under a name.
    pub fn contains_key(&self, key: &str) -> (r: bool)
        ensures
            r == self@.contains_key(key@),
    {
        proof {
            lemma_row_of(self.rows@, key@);
        }
        self.position(key).is_some()
    }

    /// The amount entered under a name.
    pub fn get(&self, key: &str) -> (r: Option<&u32>)
        ensures
            match r {
                Some(a) => self@.contains_key(key@) && *a == self@[key@],
                None => !self@.contains_key(key@),
            },
    {
        proof {
            lemma_row_of(self.rows@, key@);
        }
        match self.position(key) {
            Some(i) => Some(&self.rows[i].amount),
            None => None,
        }
    }

    /// The amount entered under a name, or zero where there is none.
    pub fn amount(&self, key: &str) -> (r: u32)
        ensures
            r == amount_in(self@, key@),
    {
        match self.get(key) {
            Some(a) => *a,
            None => 0,
        }
    }

    /// Whether two tables hold the same names with the same amounts.
    #[verifier::loop_isolation(false)]
    pub fn same_as(&self, other: &AmountMap) -> (r: bool)
        ensures
            r == (self@ == other@),
    {
        proof {
            use_type_invariant(self);
            use_type_invariant(other);
            lemma_rows_len(self.rows@);
            lemma_rows_len(other.rows@);
        }
        if self.rows.len() != other.rows.len() {
            return false;
        }
        let mut i: usize = 0;
        while i < self.rows.len()
            invariant
                i <= self.rows.len(),
                forall|j: int|
                    0 <= j < i ==> other@.contains_key(#[trigger] self.rows[j].key@) && other@[self.rows[j].key@]
                        == self.rows[j].amount,
            decreases self.rows.len() - i,
        {
            match other.get(self.rows[i].key.as_str()) {
                Some(amount) => {
                    if *amount != self.rows[i].amount {
                        proof {
                            lemma_row_of_distinct(self.rows@, i as int);
                            lemma_row_of(self.rows@, self.rows[i as int].key@);
                        }
                        return false;
                    }
                },
                None => {
                    proof {
                        lemma_row_of_distinct(self.rows@, i as int);
                        lemma_row_of(self.rows@, self.rows[i as int].key@);
                    }
                    return false;
                },
            }
            i += 1;
        }
        proof {
            assert forall|k: Seq<char>| self@.contains_key(k) implies other@.contains_key(k)
                && other@[k] == self@[k] by {
                lemma_row_of(self.rows@, k);
                let j = row_of(self.rows@, k);
                assert(self.rows[j].key@ == k);
            }
            assert forall|k: Seq<char>| self@.dom().contains(k) implies other@.dom().contains(
                k,
            ) by {
                lemma_row_of(self.rows@, k);
                let j = row_of(self.rows@, k);
                assert(self.rows[j].key@ == k);
            }
            assert(self@.dom().subset_of(other@.dom()));
            vstd::set_lib::lemma_subset_equality(self@.dom(), other@.dom());
            assert(self@ =~= other@);
        }
        true
    }

    /// The rows of the table, one for each name, in the order in which
    /// the names were first entered.
    pub fn entries(&self) -> (r: Vec<AmountEntry>)
        ensures
            rows_map(r@) == self@,
            distinct_rows(r@),
    {
        proof {
            use_type_invariant(self);
        }
        let mut rows: Vec<AmountEntry> = Vec::new();
        let mut i: usize = 0;
        while i < self.rows.len()
            invariant
                i <= self.rows.len(),
                rows.len() == i,
                forall|j: int|
                    0 <= j < i ==> rows[j].key@ == self.rows[j].key@ && rows[j].amount
                        == self.rows[j].amount,
            decreases self.rows.len() - i,
        {
            rows.push(AmountEntry { key: self.rows[i].key.clone(), amount: self.rows[i].amount });
            i += 1;
        }
        proof {
            lemma_same_rows(rows@, self.rows@);
        }
        rows
    }

    /// Enters an amount under a name, in place of any amount entered there
    /// before.
    pub fn insert(&mut self, key: &str, amount: u32)
        ensures
            final(self)@ == old(self)@.insert(key@, amount),
    {
        proof {
            use_type_invariant(&*self);
        }
        let found = self.position(key);
        let mut rows = Vec::new();
        std::mem::swap(&mut rows, &mut self.rows);
        let ghost before = rows@;
        match found {
            Some(i) => {
                rows[i].amount = amount;
            },
            None => {
                rows.push(AmountEntry { key: key.to_owned(), amount });
            },
        }
        proof {
            lemma_row_of(before, key@);
            assert(distinct_rows(rows@));
            let target = rows_map(before).insert(key@, amount);
            assert forall|k: Seq<char>|
                (#[trigger] rows_map(rows@).contains_key(k)) == target.contains_key(k) && (
                rows_map(rows@).contains_key(k) ==> rows_map(rows@)[k] == target[k]) by {
                lemma_row_of(before, k);
                lemma_row_of(rows@, k);
                if row_of(before, k) >= 0 {
                    lemma_row_of_distinct(rows@, row_of(before, k));
                }
                if row_of(rows@, k) >= 0 && row_of(rows@, k) < before.len() {
                    lemma_row_of_distinct(before, row_of(rows@, k));
                }
            }
            assert(rows_map(rows@) =~= target);
        }
        self.rows = rows;
    }

    /// Takes a name and its amount out of the table.
    pub fn remove(&mut self, key: &str)
        ensures
            final(self)@ == old(self)@.remove(key@),
    {
        proof {
            use_type_invariant(&*self);
        }
        let found = self.position(key);
        let mut rows = Vec::new();
        std::mem::swap(&mut rows, &mut self.rows);
        let ghost before = rows@;
        match found {
            Some(i) => {
                rows.remove(i);
                proof {
                    assert forall|a: int, b: int| 0 <= a < b < rows.len() implies rows[a].key@
                        != rows[b].key@ by {
                        let a0 = if a < i { a } else { a + 1 };
                        let b0 = if b < i { b } else { b + 1 };
                        assert(before[a0].key@ != before[b0].key@);
                    }
                    let target = rows_map(before).remove(key@);
                    assert forall|k: Seq<char>|
                        (#[trigger] rows_map(rows@).contains_key(k)) == target.contains_key(k) && (
                        rows_map(rows@).contains_key(k) ==> rows_map(rows@)[k] == target[k]) by {
                        lemma_row_of(before, k);
                        lemma_row_of(rows@, k);
                        lemma_row_of(before, key@);
                        if row_of(before, k) >= 0 && k != key@ {
                            let j = row_of(before, k);
                            let j1 = if j < i { j } else { j - 1 };
                            assert(rows[j1].key@ == k);
                            lemma_row_of_distinct(rows@, j1);
                        }
                        if row_of(rows@, k) >= 0 {
                            let j = row_of(rows@, k);
                            let j0 = if j < i { j } else { j + 1 };
                            assert(before[j0].key@ == k);
                            lemma_row_of_distinct(before, j0);
                        }
                    }
                    assert(rows_map(rows@) =~= target);
                }
            },
            None => {
                proof {
                    lemma_row_of(before, key@);
                    assert(rows_map(before) =~= rows_map(before).remove(key@));
                }
            },
        }
        self.rows = rows;
    }
}

impl Clone for AmountMap {
    fn clone(&self) -> (r: Self)
        ensures
            r@ == self@,
    {
        proof {
            use_type_invariant(self);
        }
        let mut rows: Vec<AmountEntry> = Vec::new();
        let mut i: usize = 0;
        while i < self.rows.len()
            invariant
                i <= self.rows.len(),
                rows.len() == i,
                forall|j: int|
                    0 <= j < i ==> rows[j].key@ == self.rows[j].key@ && rows[j].amount
                        == self.rows[j].amount,
            decreases self.rows.len() - i,
        {
            rows.push(AmountEntry { key: self.rows[i].key.clone(), amount: self.rows[i].amount });
            i += 1;
        }
        proof {
            lemma_same_rows(rows@, self.rows@);
        }
        AmountMap { rows }
    }
}

/// Rows that agree name by name and amount by amount stand for one map.
pub proof fn lemma_same_rows(a: Seq<AmountEntry>, b: Seq<AmountEntry>)
    requires
        a.len() == b.len(),
        forall|j: int| 0 <= j < a.len() ==> a[j].key@ == b[j].key@ && a[j].amount == b[j].amount,
    ensures
        rows_map(a) == rows_map(b),
        distinct_rows(b) ==> distinct_rows(a),
    decreases a.len(),
{
    if a.len() > 0 {
        lemma_same_rows(a.drop_last(), b.drop_last());
    }
}

/// The amount that a map holds for a name, zero where it holds none.
pub open spec fn amount_in(m: Map<Seq<char>, u32>, key: Seq<char>) -> u32 {
    if m.contains_key(key) {
        m[key]
    } else {
        0
    }
}

} // verus!
