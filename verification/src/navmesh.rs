use std::collections::hash_map::Entry;
use std::collections::HashMap;
use vstd::prelude::*;
use vstd::std_specs::cmp::PartialEqSpec;

verus! {

broadcast use vstd::std_specs::hash::group_hash_axioms;

/// One cell of the navigation mesh: a tile byte and the height of the
/// ground there, kept as the bit pattern of an `f32`.
#[derive(Clone, Copy, Debug)]
pub struct Navtile(pub u8, pub u32);

/// Whether the `f32` with bit pattern `bits` is a NaN: all exponent bits set
/// and a mantissa other than zero.
pub open spec fn is_nan_bits(bits: u32) -> bool {
    bits & 0x7fff_ffffu32 > 0x7f80_0000u32
}

/// Whether the `f32`s with bit patterns `a` and `b` compare equal under
/// IEEE-754 rules: never when either is a NaN, and `+0.0` equals `-0.0`;
/// any other two values are equal exactly when their bits are.
pub open spec fn f32_bits_eq(a: u32, b: u32) -> bool {
    &&& !is_nan_bits(a)
    &&& !is_nan_bits(b)
    &&& (a == b || (a | b) & 0x7fff_ffffu32 == 0u32)
}

impl PartialEq for Navtile {
    /// Tiles are equal when their bytes are equal and their heights compare
    /// equal as `f32`s.
    fn eq(&self, other: &Self) -> (r: bool) {
        let a = self.1;
        let b = other.1;
        self.0 == other.0 && a & 0x7fff_ffffu32 <= 0x7f80_0000u32 && b & 0x7fff_ffffu32
            <= 0x7f80_0000u32 && (a == b || (a | b) & 0x7fff_ffffu32 == 0u32)
    }
}

impl vstd::std_specs::cmp::PartialEqSpecImpl for Navtile {
    open spec fn obeys_eq_spec() -> bool {
        true
    }

    open spec fn eq_spec(&self, other: &Self) -> bool {
        self.0 == other.0 && f32_bits_eq(self.1, other.1)
    }
}

impl Navtile {
    /// The height of the tile, as the bit pattern of an `f32`.
    pub fn height(&self) -> (h: u32)
        ensures
            h == self.1,
    {
        self.1
    }
}

/// A sparse grid of tiles, stored as rows (`x`) of columns (`y`).
pub struct Navmesh(HashMap<u32, HashMap<u32, Navtile>>);

/// Whether the rows `rows` hold a tile at `(x, y)`.
pub open spec fn rows_hold(rows: Map<u32, HashMap<u32, Navtile>>, x: u32, y: u32) -> bool {
    rows.contains_key(x) && rows[x]@.contains_key(y)
}

/// The tiles that the rows `rows` hold, keyed by their coordinates.
pub open spec fn rows_tiles(rows: Map<u32, HashMap<u32, Navtile>>) -> Map<(u32, u32), Navtile> {
    Map::new(|p: (u32, u32)| rows_hold(rows, p.0, p.1), |p: (u32, u32)| rows[p.0]@[p.1])
}

/// What a lookup at `(x, y)` finds in the tiles `tiles`.
pub open spec fn tile_at(tiles: Map<(u32, u32), Navtile>, x: u32, y: u32) -> Option<Navtile> {
    if tiles.contains_key((x, y)) {
        Some(tiles[(x, y)])
    } else {
        None
    }
}

impl View for Navmesh {
    type V = Map<(u32, u32), Navtile>;

    closed spec fn view(&self) -> Map<(u32, u32), Navtile> {
        rows_tiles(self.0@)
    }
}

impl Default for Navmesh {
    /// An empty mesh.
    fn default() -> (m: Self)
        ensures
            m@ == Map::<(u32, u32), Navtile>::empty(),
    {
        let m = Navmesh(HashMap::new());
        assert(m@ =~= Map::<(u32, u32), Navtile>::empty());
        m
    }
}

impl Navmesh {
    /// The tile at `(x, y)`, if one was set there.
    pub fn get_tile_at(&self, x: u32, y: u32) -> (r: Option<&Navtile>)
        ensures
            match r {
                Some(t) => tile_at(self@, x, y) == Some(*t),
                None => tile_at(self@, x, y) is None,
            },
    {
        match self.0.get(&x) {
            Some(row) => row.get(&y),
            None => None,
        }
    }

    /// The tile at `(x, y)` for writing, if one was set there.
    pub fn get_tile_at_mut(&mut self, x: u32, y: u32) -> (r: Option<&mut Navtile>)
        ensures
            match r {
                Some(t) => {
                    &&& tile_at(old(self)@, x, y) == Some(*t)
                    &&& final(self)@ == old(self)@.insert((x, y), *final(t))
                },
                None => {
                    &&& tile_at(old(self)@, x, y) is None
                    &&& final(self)@ == old(self)@
                },
            },
    {
        match self.0.entry(x) {
            Entry::Occupied(row_entry) => {
                let row = row_entry.into_mut();
                match row.entry(y) {
                    Entry::Occupied(tile_entry) => Some(tile_entry.into_mut()),
                    Entry::Vacant(tile_entry) => {
                        tile_entry.into_key();
                        None
                    },
                }
            },
            Entry::Vacant(row_entry) => {
                row_entry.into_key();
                None
            },
        }
    }

    /// Sets the tile at `(x, y)`, replacing the one there if any.
    pub fn set_at(&mut self, x: u32, y: u32, tile: Navtile)
        ensures
            final(self)@ == old(self)@.insert((x, y), tile),
    {
        self.0.entry(x).or_insert(HashMap::new()).insert(y, tile);
    }
}

/// `==` on tiles computes exactly the comparison that `eq_spec` describes.
pub proof fn lemma_tile_eq_follows_spec()
    ensures
        Navtile::obeys_eq_spec(),
{
}

/// Tiles whose heights are ordinary numbers (not NaN) and not both zeros are
/// equal exactly when their bytes are equal and their height bit patterns are
/// identical: distinct `f32` values other than `+0.0`/`-0.0` never compare equal.
pub proof fn lemma_tile_eq_is_bitwise_away_from_zero(a: Navtile, b: Navtile)
    requires
        a.1 & 0x7fff_ffffu32 <= 0x7f80_0000u32,
        b.1 & 0x7fff_ffffu32 <= 0x7f80_0000u32,
        a.1 & 0x7fff_ffffu32 != 0u32 || b.1 & 0x7fff_ffffu32 != 0u32,
    ensures
        a.eq_spec(&b) <==> (a.0 == b.0 && a.1 == b.1),
{
    let x = a.1;
    let y = b.1;
    assert((x | y) & 0x7fff_ffffu32 == 0u32 ==> x & 0x7fff_ffffu32 == 0u32 && y & 0x7fff_ffffu32
        == 0u32) by (bit_vector);
}

/// A tile at height `h` (a number other than zero) never equals the tile
/// with the same byte at height `-h`, the same bits with the sign flipped.
pub proof fn lemma_tile_ne_negated_height(kind: u8, h: u32)
    requires
        h & 0x7fff_ffffu32 <= 0x7f80_0000u32,
        h & 0x7fff_ffffu32 != 0u32,
    ensures
        !Navtile(kind, h).eq_spec(&Navtile(kind, h ^ 0x8000_0000u32)),
{
    let g = h ^ 0x8000_0000u32;
    assert(g & 0x7fff_ffffu32 == h & 0x7fff_ffffu32 && g != h) by (bit_vector)
        requires
            g == h ^ 0x8000_0000u32,
    ;
    lemma_tile_eq_is_bitwise_away_from_zero(Navtile(kind, h), Navtile(kind, g));
}

/// Two tiles whose heights are both zeros (`+0.0` or `-0.0`) are equal
/// exactly when their bytes are.
pub proof fn lemma_tile_eq_signed_zeros(a: Navtile, b: Navtile)
    requires
        a.1 & 0x7fff_ffffu32 == 0u32,
        b.1 & 0x7fff_ffffu32 == 0u32,
    ensures
        a.eq_spec(&b) <==> a.0 == b.0,
{
    let x = a.1;
    let y = b.1;
    assert((x | y) & 0x7fff_ffffu32 == 0u32 && x & 0x7fff_ffffu32 <= 0x7f80_0000u32
        && y & 0x7fff_ffffu32 <= 0x7f80_0000u32) by (bit_vector)
        requires
            x & 0x7fff_ffffu32 == 0u32,
            y & 0x7fff_ffffu32 == 0u32,
    ;
}

/// A tile whose height is a NaN equals no tile, not even itself.
pub proof fn lemma_tile_with_nan_height_equals_nothing(a: Navtile, b: Navtile)
    requires
        a.1 & 0x7fff_ffffu32 > 0x7f80_0000u32,
    ensures
        !a.eq_spec(&b),
        !b.eq_spec(&a),
{
}

/// A tile whose height is not a NaN equals itself.
pub proof fn lemma_tile_eq_reflexive(a: Navtile)
    requires
        a.1 & 0x7fff_ffffu32 <= 0x7f80_0000u32,
    ensures
        a.eq_spec(&a),
{
}

/// A lookup at the place just set finds the tile that was set there
/// (`set_at` followed by `get_tile_at` at the same place).
pub proof fn lemma_get_after_set(mesh: Navmesh, x: u32, y: u32, tile: Navtile)
    ensures
        tile_at(mesh@.insert((x, y), tile), x, y) == Some(tile),
{
}

/// Setting a tile leaves what a lookup finds at every other place as it was.
pub proof fn lemma_set_leaves_others(
    mesh: Navmesh,
    x: u32,
    y: u32,
    tile: Navtile,
    x2: u32,
    y2: u32,
)
    requires
        (x2, y2) != (x, y),
    ensures
        tile_at(mesh@.insert((x, y), tile), x2, y2) == tile_at(mesh@, x2, y2),
{
}

/// Setting a place twice leaves the mesh as setting it once to the
/// second tile: the existing tile is overwritten.
pub proof fn lemma_set_overwrites(mesh: Navmesh, x: u32, y: u32, first: Navtile, second: Navtile)
    ensures
        mesh@.insert((x, y), first).insert((x, y), second) == mesh@.insert((x, y), second),
{
    assert(mesh@.insert((x, y), first).insert((x, y), second) =~= mesh@.insert((x, y), second));
}

/// Setting two different places gives the same mesh in either order.
pub proof fn lemma_set_commutes(
    mesh: Navmesh,
    x: u32,
    y: u32,
    a: Navtile,
    x2: u32,
    y2: u32,
    b: Navtile,
)
    requires
        (x2, y2) != (x, y),
    ensures
        mesh@.insert((x, y), a).insert((x2, y2), b) == mesh@.insert((x2, y2), b).insert((x, y), a),
{
    assert(mesh@.insert((x, y), a).insert((x2, y2), b) =~= mesh@.insert((x2, y2), b).insert(
        (x, y),
        a,
    ));
}

/// Borrowing a tile with `get_tile_at_mut` and leaving it as it was leaves
/// the whole mesh as it was.
pub proof fn lemma_unchanged_borrow_keeps_mesh(mesh: Navmesh, x: u32, y: u32, tile: Navtile)
    requires
        tile_at(mesh@, x, y) == Some(tile),
    ensures
        mesh@.insert((x, y), tile) == mesh@,
{
    assert(mesh@.insert((x, y), tile) =~= mesh@);
}

/// A new mesh holds no tile anywhere.
pub proof fn lemma_empty_holds_nothing(x: u32, y: u32)
    ensures
        tile_at(Map::<(u32, u32), Navtile>::empty(), x, y) is None,
{
}

} // verus!
