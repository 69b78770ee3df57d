use vstd::prelude::*;
use crate::handlers::created;
use crate::item::ItemModel;
use crate::store::{
    has_id, ids_unique, index_of, lemma_index_of_unique, lemma_lookup_updated, lookup, with_update,
    without,
};

verus! {

/// `a` comes strictly before `b` in character-code order.
pub open spec fn text_lt(a: Seq<char>, b: Seq<char>) -> bool
    decreases a.len(),
{
    if b.len() == 0 {
        false
    } else if a.len() == 0 {
        true
    } else if a[0] != b[0] {
        (a[0] as u32) < (b[0] as u32)
    } else {
        text_lt(a.drop_first(), b.drop_first())
    }
}

/// `a` is `b` or comes before it in character-code order.
pub open spec fn text_le(a: Seq<char>, b: Seq<char>) -> bool {
    a == b || text_lt(a, b)
}

/// The identifiers of `items`, in order.
pub open spec fn ids_of(items: Seq<ItemModel>) -> Seq<Seq<char>> {
    items.map_values(|t: ItemModel| t.id)
}

/// Creating a record under a fresh identifier and then fetching that
/// identifier gives back the record as created: the same title and
/// quantity, the given creation time, and no update time.
pub proof fn law_create_then_fetch(
    items: Seq<ItemModel>,
    id: Seq<char>,
    title: Seq<char>,
    quantity: u32,
    created_at: Seq<char>,
)
    requires
        ids_unique(items),
        !has_id(items, id),
    ensures
        ids_unique(items.push(created(id, title, quantity, created_at))),
        lookup(items.push(created(id, title, quantity, created_at)), id) == Some(
            created(id, title, quantity, created_at),
        ),
{
    let t = created(id, title, quantity, created_at);
    let after = items.push(t);
    assert forall|a: int, b: int|
        0 <= a < after.len() && 0 <= b < after.len() && a != b implies #[trigger] after[a].id
            != #[trigger] after[b].id by {
        if a == items.len() as int {
            assert(items[b].id != id);
        } else if b == items.len() as int {
            assert(items[a].id != id);
        } else {
            assert(items[a].id != items[b].id);
        }
    }
    lemma_index_of_unique(after, id, items.len() as int);
}

/// Deleting a stored identifier succeeds once; afterwards the identifier is
/// absent, so a second delete finds nothing and changes nothing.
pub proof fn law_delete_twice(items: Seq<ItemModel>, id: Seq<char>)
    requires
        ids_unique(items),
        has_id(items, id),
    ensures
        !has_id(without(items, id), id),
        without(without(items, id), id) == without(items, id),
        lookup(without(items, id), id) is None,
{
    let i = index_of(items, id);
    let after = without(items, id);
    assert(after == items.remove(i));
    assert forall|k: int| 0 <= k < after.len() implies #[trigger] after[k].id != id by {
        let k2 = if k < i { k } else { k + 1 };
        assert(after[k] == items[k2]);
        assert(items[k2].id != items[i].id);
    }
}

/// An update stamps the record with its time and keeps its creation time:
/// with a stamp not earlier than the creation time, the update time is not
/// earlier either; a second update with a later stamp leaves an update time
/// strictly later than the first.
pub proof fn law_update_stamps(
    items: Seq<ItemModel>,
    id: Seq<char>,
    title1: Seq<char>,
    quantity1: u32,
    stamp1: Seq<char>,
    title2: Seq<char>,
    quantity2: u32,
    stamp2: Seq<char>,
)
    requires
        ids_unique(items),
        has_id(items, id),
        text_le(lookup(items, id)->0.created_at, stamp1),
        text_lt(stamp1, stamp2),
    ensures
        ({
            let once = with_update(items, id, title1, quantity1, stamp1);
            let twice = with_update(once, id, title2, quantity2, stamp2);
            &&& lookup(once, id) is Some
            &&& lookup(once, id)->0.created_at == lookup(items, id)->0.created_at
            &&& lookup(once, id)->0.updated_at == Some(stamp1)
            &&& text_le(lookup(once, id)->0.created_at, stamp1)
            &&& lookup(twice, id) is Some
            &&& lookup(twice, id)->0.created_at == lookup(items, id)->0.created_at
            &&& lookup(twice, id)->0.updated_at == Some(stamp2)
            &&& text_lt(lookup(once, id)->0.updated_at->0, lookup(twice, id)->0.updated_at->0)
        }),
{
    let once = with_update(items, id, title1, quantity1, stamp1);
    lemma_lookup_updated(items, id, title1, quantity1, stamp1);
    lemma_index_of_unique(once, id, index_of(items, id));
    lemma_lookup_updated(once, id, title2, quantity2, stamp2);
}

/// A store holds as many distinct identifiers as records, and an
/// identifier that no record carries is never found.
pub proof fn law_ids_distinct(items: Seq<ItemModel>, unused: Seq<char>)
    requires
        ids_unique(items),
        !has_id(items, unused),
    ensures
        ids_of(items).to_set().len() == items.len(),
        lookup(items, unused) is None,
{
    let s = ids_of(items);
    assert forall|i: int, j: int| 0 <= i < s.len() && 0 <= j < s.len() && i != j implies s[i] != s[j] by {
        assert(items[i].id != items[j].id);
    }
    s.unique_seq_to_set();
}

/// Records created one after another, each under an identifier that the
/// store did not hold at its creation, carry pairwise distinct identifiers,
/// and the store keeps its identifiers unique.
pub proof fn law_created_ids_distinct(start: Seq<ItemModel>, added: Seq<ItemModel>)
    requires
        ids_unique(start),
        forall|k: int| 0 <= k < added.len() ==> !has_id(#[trigger] (start + added.subrange(0, k)), added[k].id),
    ensures
        forall|a: int, b: int| 0 <= a < b < added.len() ==> #[trigger] added[a].id != #[trigger] added[b].id,
        ids_unique(start + added),
{
    assert forall|a: int, b: int| 0 <= a < b < added.len() implies #[trigger] added[a].id
        != #[trigger] added[b].id by {
        let prefix = start + added.subrange(0, b);
        assert(!has_id(prefix, added[b].id));
        assert(prefix[start.len() + a] == added[a]);
    }
    let all = start + added;
    assert forall|a: int, b: int|
        0 <= a < all.len() && 0 <= b < all.len() && a != b implies #[trigger] all[a].id
            != #[trigger] all[b].id by {
        if a < start.len() && b < start.len() {
            assert(start[a].id != start[b].id);
        } else if a >= start.len() && b >= start.len() {
            let (x, y) = if a < b { (a - start.len(), b - start.len()) } else { (b - start.len(), a - start.len()) };
            assert(added[x].id != added[y].id);
        } else {
            let (s, n) = if a < start.len() { (a, b - start.len()) } else { (b, a - start.len()) };
            let prefix = start + added.subrange(0, n);
            assert(!has_id(prefix, added[n].id));
            assert(prefix[s] == start[s]);
        }
    }
}

/// Creating three records with distinct identifiers and deleting the second
/// leaves exactly the first and the third, in that order.
pub proof fn law_list_after_delete(a: ItemModel, b: ItemModel, c: ItemModel)
    requires
        a.id != b.id,
        b.id != c.id,
        a.id != c.id,
    ensures
        without(Seq::<ItemModel>::empty().push(a).push(b).push(c), b.id) == seq![a, c],
{
    let items = Seq::<ItemModel>::empty().push(a).push(b).push(c);
    assert(items[1].id == b.id);
    lemma_index_of_unique(items, b.id, 1);
    assert(items.remove(1) =~= seq![a, c]);
}

} // verus!
