//! The whole-number side of Perlin noise: three shuffled tables, and the
//! place in the table of gradients that a corner of the lattice is sent to.

use vstd::prelude::*;

verus! {

/// The number of gradients, and the length of each table.
pub const PERLIN_POINT_COUNT: i32 = 256;

/// The three tables that scatter the corners of the lattice over the gradients.
#[derive(Debug)]
pub struct Perlin {
    pub perm_x: Vec<i32>,
    pub perm_y: Vec<i32>,
    pub perm_z: Vec<i32>,
}

/// The numbers from 0 up to `n`, in their order.
pub open spec fn spec_identity(n: nat) -> Seq<i32> {
    Seq::new(n, |i: int| i as i32)
}

/// A table holds each of the numbers from 0 up to 256 once, in some order.
pub open spec fn spec_is_perm(table: Seq<i32>) -> bool {
    table.len() == 256 && table.to_multiset() == spec_identity(256).to_multiset()
}

/// The cell of the lattice on one axis, wrapped into the table: the
/// coordinate counted in 256s, with what is left over kept.
pub open spec fn spec_wrap(coordinate: int) -> int {
    coordinate % 256
}

/// The exclusive or of three numbers below 256.
pub open spec fn spec_mix(a: i32, b: i32, c: i32) -> int {
    ((a as u32) ^ (b as u32) ^ (c as u32)) as int
}

/// Calls `shuffle` of `rand::seq::SliceRandom` with the generator of the
/// calling thread. The crate's source shows that it does nothing to the
/// slice but swap its elements; which order comes out is left to chance.
#[verifier::external_body]
fn shuffle(table: &mut Vec<i32>)
    ensures
        final(table)@.to_multiset() == old(table)@.to_multiset(),
        final(table)@.len() == old(table)@.len(),
{
    rand::seq::SliceRandom::shuffle(table.as_mut_slice(), &mut rand::thread_rng());
}

/// The numbers from 0 up to 256 in an order drawn at random.
pub fn generate_perm() -> (table: Vec<i32>)
    ensures
        spec_is_perm(table@),
{
    let mut table: Vec<i32> = Vec::new();
    let mut i: i32 = 0;
    while i < PERLIN_POINT_COUNT
        invariant
            0 <= i <= 256,
            table@ == spec_identity(i as nat),
        decreases 256 - i,
    {
        table.push(i);
        assert(table@ =~= spec_identity((i + 1) as nat));
        i = i + 1;
    }
    shuffle(&mut table);
    table
}

/// Every entry of a table is a place in a table.
pub proof fn lemma_perm_entries_in_range(table: Seq<i32>, k: int)
    requires
        spec_is_perm(table),
        0 <= k < 256,
    ensures
        0 <= table[k] < 256,
{
    let v = table[k];
    assert(table.contains(v));
    vstd::seq_lib::to_multiset_contains(table, v);
    vstd::seq_lib::to_multiset_contains(spec_identity(256), v);
    let at = choose|at: int| 0 <= at < 256 && spec_identity(256)[at] == v;
    assert(spec_identity(256)[at] == at as i32);
}

/// Every number from 0 up to 256 is an entry of a table.
pub proof fn lemma_perm_holds_all(table: Seq<i32>, v: i32)
    requires
        spec_is_perm(table),
        0 <= v < 256,
    ensures
        table.contains(v),
{
    assert(spec_identity(256)[v as int] == v);
    assert(spec_identity(256).contains(v));
    vstd::seq_lib::to_multiset_contains(table, v);
    vstd::seq_lib::to_multiset_contains(spec_identity(256), v);
}

fn wrap(cell: i32, step: i32) -> (place: usize)
    ensures
        place == spec_wrap(cell + step),
        place < 256,
{
    let sum: i64 = cell as i64 + step as i64;
    if sum >= 0 {
        (sum % 256) as usize
    } else {
        let below: i64 = -sum - 1;
        (255 - (below % 256)) as usize
    }
}

/// A table has 256 entries, and each of them is a place in a table.
pub open spec fn spec_is_table(table: Seq<i32>) -> bool {
    table.len() == 256 && forall|k: int| 0 <= k < 256 ==> 0 <= #[trigger] table[k] < 256
}

fn is_table(table: &Vec<i32>) -> (usable: bool)
    ensures
        usable == spec_is_table(table@),
{
    if table.len() != 256 {
        return false;
    }
    let mut k: usize = 0;
    while k < 256
        invariant
            k <= 256,
            table.len() == 256,
            forall|a: int| 0 <= a < k ==> 0 <= #[trigger] table[a] < 256,
        decreases 256 - k,
    {
        if table[k] < 0 || table[k] >= 256 {
            return false;
        }
        k = k + 1;
    }
    true
}

impl Perlin {
    /// Each of the three tables is a shuffle of the numbers from 0 up to 256.
    pub open spec fn wf(self) -> bool {
        spec_is_perm(self.perm_x@) && spec_is_perm(self.perm_y@) && spec_is_perm(self.perm_z@)
    }

    /// Each of the three tables can be looked up in.
    pub open spec fn spec_usable(self) -> bool {
        spec_is_table(self.perm_x@) && spec_is_table(self.perm_y@) && spec_is_table(self.perm_z@)
    }

    pub fn usable(&self) -> (usable: bool)
        ensures
            usable == self.spec_usable(),
    {
        is_table(&self.perm_x) && is_table(&self.perm_y) && is_table(&self.perm_z)
    }

    /// Three tables, each shuffled on its own.
    pub fn new() -> (perlin: Perlin)
        ensures
            perlin.wf(),
            perlin.spec_usable(),
    {
        let perm_x = generate_perm();
        let perm_y = generate_perm();
        let perm_z = generate_perm();
        proof {
            lemma_perm_is_table(perm_x@);
            lemma_perm_is_table(perm_y@);
            lemma_perm_is_table(perm_z@);
        }
        Perlin { perm_x, perm_y, perm_z }
    }

    /// The place in the table of gradients of one corner of the cell
    /// `(i, j, k)`: the corner that lies `di`, `dj` and `dk` further along the
    /// three axes. Each coordinate is wrapped into its table, and the three
    /// entries are mixed by exclusive or.
    pub fn lattice(&self, i: i32, j: i32, k: i32, di: i32, dj: i32, dk: i32) -> (place: usize)
        requires
            self.spec_usable(),
        ensures
            place < 256,
            place == spec_mix(
                self.perm_x@[spec_wrap(i + di)],
                self.perm_y@[spec_wrap(j + dj)],
                self.perm_z@[spec_wrap(k + dk)],
            ),
    {
        let at_x = wrap(i, di);
        let at_y = wrap(j, dj);
        let at_z = wrap(k, dk);
        let a: u32 = self.perm_x[at_x] as u32;
        let b: u32 = self.perm_y[at_y] as u32;
        let c: u32 = self.perm_z[at_z] as u32;
        assert(a ^ b ^ c < 256) by (bit_vector)
            requires
                a < 256,
                b < 256,
                c < 256,
        ;
        (a ^ b ^ c) as usize
    }
}

/// A shuffled table can be looked up in.
pub proof fn lemma_perm_is_table(table: Seq<i32>)
    requires
        spec_is_perm(table),
    ensures
        spec_is_table(table),
{
    assert forall|k: int| 0 <= k < 256 implies 0 <= #[trigger] table[k] < 256 by {
        lemma_perm_entries_in_range(table, k);
    }
}

/// Whether a point lies in an even cube of a checker pattern: `x`, `y` and
/// `z` are the cube's place along the three axes, and cubes alternate.
pub fn checker_is_even(x: i32, y: i32, z: i32) -> (even: bool)
    ensures
        even == ((x + y + z) % 2 == 0),
{
    let sum: i64 = x as i64 + y as i64 + z as i64;
    if sum >= 0 {
        sum % 2 == 0
    } else {
        (-sum) % 2 == 0
    }
}

/// Next to an even cube lies an odd one, along every axis.
pub proof fn lemma_checker_alternates(x: int, y: int, z: int)
    ensures
        ((x + 1 + y + z) % 2 == 0) != ((x + y + z) % 2 == 0),
        ((x + y + 1 + z) % 2 == 0) != ((x + y + z) % 2 == 0),
        ((x + y + z + 1) % 2 == 0) != ((x + y + z) % 2 == 0),
{
}

} // verus!
