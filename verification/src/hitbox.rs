//! Hitboxes: rectangles that sense the pointer, and the table a frame keeps of them.

use vstd::prelude::*;

verus! {

/// A rectangle that senses the pointer.
#[derive(Copy, Clone, Debug, PartialEq, Eq, Structural)]
pub struct Hitbox {
    pub x: i32,
    pub y: i32,
    pub height: i32,
    pub width: i32,
}

impl Hitbox {
    pub fn new(x: i32, y: i32, width: i32, height: i32) -> (hitbox: Self)
        ensures
            hitbox == (Hitbox { x, y, height, width }),
    {
        Self { x, y, height, width }
    }

    /// Whether the point lies inside the rectangle. All four edges belong to
    /// it, so two rectangles that touch share the points of their common edge.
    pub open spec fn contains(self, x: i32, y: i32) -> bool {
        &&& self.x <= x <= self.x + self.width
        &&& self.y <= y <= self.y + self.height
    }

    pub fn contains_pos(&self, x: i32, y: i32) -> (inside: bool)
        ensures
            inside == self.contains(x, y),
    {
        let left: i64 = self.x as i64;
        let right: i64 = left + self.width as i64;
        let top: i64 = self.y as i64;
        let bottom: i64 = top + self.height as i64;
        let px: i64 = x as i64;
        let py: i64 = y as i64;
        (left <= px && px <= right) && (top <= py && py <= bottom)
    }
}

/// Whether some entry of the table is filed under `id`.
pub open spec fn table_has(table: Seq<(u32, Hitbox)>, id: u32) -> bool {
    exists|i: int| 0 <= i < table.len() && (#[trigger] table[i]).0 == id
}

/// The table after filing `hitbox` under `id`: an entry already filed under
/// `id` is replaced where it stands, otherwise the new entry goes to the end.
pub open spec fn table_insert(table: Seq<(u32, Hitbox)>, id: u32, hitbox: Hitbox) -> Seq<
    (u32, Hitbox),
>
    decreases table.len(),
{
    if table.len() == 0 {
        seq![(id, hitbox)]
    } else if table[0].0 == id {
        table.update(0, (id, hitbox))
    } else {
        seq![table[0]] + table_insert(table.subrange(1, table.len() as int), id, hitbox)
    }
}

/// The identifier of the first entry, in filing order, whose rectangle contains
/// the point.
pub open spec fn first_hit(table: Seq<(u32, Hitbox)>, x: i32, y: i32) -> Option<u32>
    decreases table.len(),
{
    if table.len() == 0 {
        None
    } else if table[0].1.contains(x, y) {
        Some(table[0].0)
    } else {
        first_hit(table.subrange(1, table.len() as int), x, y)
    }
}

/// The rectangle filed under `id`: that of the first entry with this
/// identifier.
pub open spec fn table_get(table: Seq<(u32, Hitbox)>, id: u32) -> Option<Hitbox>
    decreases table.len(),
{
    if table.len() == 0 {
        None
    } else if table[0].0 == id {
        Some(table[0].1)
    } else {
        table_get(table.subrange(1, table.len() as int), id)
    }
}

/// Whether no two entries share an identifier.
pub open spec fn distinct_ids(table: Seq<(u32, Hitbox)>) -> bool {
    forall|i: int, j: int|
        0 <= i < j < table.len() ==> (#[trigger] table[i]).0 != (#[trigger] table[j]).0
}

/// Filing a hitbox keeps every identifier single, makes the hitbox the one
/// found under its identifier, and leaves what is found under every other
/// identifier as it was.
pub proof fn lemma_table_insert(table: Seq<(u32, Hitbox)>, id: u32, hitbox: Hitbox, other: u32)
    ensures
        table_get(table_insert(table, id, hitbox), id) == Some(hitbox),
        other != id ==> table_get(table_insert(table, id, hitbox), other) == table_get(table, other),
        table_has(table_insert(table, id, hitbox), other) <==> other == id || table_has(table, other),
        table_insert(table, id, hitbox).len() == if table_has(table, id) {
            table.len()
        } else {
            table.len() + 1
        },
        distinct_ids(table) ==> distinct_ids(table_insert(table, id, hitbox)),
    decreases table.len(),
{
    let after = table_insert(table, id, hitbox);
    if table.len() == 0 {
        assert(after[0].0 == id);
        assert(after.subrange(1, 1) =~= Seq::empty());
        assert(table_get(after.subrange(1, 1), other).is_none());
    } else if table[0].0 == id {
        assert(after.subrange(1, after.len() as int) =~= table.subrange(1, table.len() as int));
        assert(table_has(table, id));
        if table_has(after, other) {
            let i = choose|i: int| 0 <= i < after.len() && (#[trigger] after[i]).0 == other;
            assert(table[i].0 == other);
        }
        if table_has(table, other) {
            let i = choose|i: int| 0 <= i < table.len() && (#[trigger] table[i]).0 == other;
            assert(after[i].0 == other);
        }
        assert forall|i: int, j: int| distinct_ids(table) && 0 <= i < j < after.len() implies (
        #[trigger] after[i]).0 != (#[trigger] after[j]).0 by {
            assert(table[i].0 == after[i].0 && table[j].0 == after[j].0);
        }
    } else {
        let rest = table.subrange(1, table.len() as int);
        let rest_after = table_insert(rest, id, hitbox);
        lemma_table_insert(rest, id, hitbox, other);
        assert(after.subrange(1, after.len() as int) =~= rest_after);
        assert(after[0] == table[0]);
        assert forall|i: int| 0 <= i < rest.len() implies rest[i] == table[i + 1] by {}
        assert forall|i: int| 0 <= i < rest_after.len() implies rest_after[i] == after[i + 1] by {}
        if table_has(table, id) {
            let i = choose|i: int| 0 <= i < table.len() && (#[trigger] table[i]).0 == id;
            assert(rest[i - 1].0 == id);
        }
        if table_has(rest, id) {
            let i = choose|i: int| 0 <= i < rest.len() && (#[trigger] rest[i]).0 == id;
            assert(table[i + 1].0 == id);
        }
        if table_has(after, other) {
            let i = choose|i: int| 0 <= i < after.len() && (#[trigger] after[i]).0 == other;
            if i > 0 {
                assert(rest_after[i - 1].0 == other);
                if other != id {
                    let j = choose|j: int| 0 <= j < rest.len() && (#[trigger] rest[j]).0 == other;
                    assert(table[j + 1].0 == other);
                }
            } else {
                assert(table[0].0 == other);
            }
        }
        if other == id || table_has(table, other) {
            if other == id {
                let i = choose|i: int|
                    0 <= i < rest_after.len() && (#[trigger] rest_after[i]).0 == other;
                assert(after[i + 1].0 == other);
            } else {
                let i = choose|i: int| 0 <= i < table.len() && (#[trigger] table[i]).0 == other;
                if i == 0 {
                    assert(after[0].0 == other);
                } else {
                    assert(rest[i - 1].0 == other);
                    let j = choose|j: int|
                        0 <= j < rest_after.len() && (#[trigger] rest_after[j]).0 == other;
                    assert(after[j + 1].0 == other);
                }
            }
        }
        if distinct_ids(table) {
            assert forall|i: int, j: int| 0 <= i < j < rest.len() implies (#[trigger] rest[i]).0 != (
            #[trigger] rest[j]).0 by {
                assert(table[i + 1].0 != table[j + 1].0);
            }
            assert forall|i: int, j: int| 0 <= i < j < after.len() implies (#[trigger] after[i]).0
                != (#[trigger] after[j]).0 by {
                if i == 0 {
                    if after[j].0 == table[0].0 {
                        assert(rest_after[j - 1].0 == table[0].0);
                        lemma_table_insert(rest, id, hitbox, table[0].0);
                        let k = choose|k: int|
                            0 <= k < rest.len() && (#[trigger] rest[k]).0 == table[0].0;
                        assert(table[k + 1].0 == table[0].0);
                    }
                } else {
                    assert(rest_after[i - 1].0 != rest_after[j - 1].0);
                }
            }
        }
    }
}

} // verus!
