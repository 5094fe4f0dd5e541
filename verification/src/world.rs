//! What holds of the inventory and the level together: an item is in the
//! player's hands or in the world, never both and never twice, as long as
//! the game moves items the way it means to.

use crate::dialogue::converted;
use crate::inventory::{without_each, Item};
use crate::level::initial_level;
use vstd::multiset::Multiset;
use vstd::prelude::*;

verus! {

/// All the items there are, held or lying in the world, each as often as it
/// occurs.
pub open spec fn all_items(inventory: Seq<Item>, level: Seq<Item>) -> Multiset<Item> {
    (inventory + level).to_multiset()
}

/// No item is both held and lying in the world, and none is there twice.
pub open spec fn each_item_once(inventory: Seq<Item>, level: Seq<Item>) -> bool {
    (inventory + level).no_duplicates()
}

/// Taking the first occurrence of an item out of a list takes one occurrence
/// out of its multiset.
pub(crate) proof fn lemma_remove_value(items: Seq<Item>, item: Item)
    requires
        items.contains(item),
    ensures
        items.remove_value(item).to_multiset() == items.to_multiset().remove(item),
        items.to_multiset().count(item) > 0,
{
    broadcast use vstd::seq_lib::group_to_multiset_ensures;

    items.index_of_first_ensures(item);
}

/// Items are there once exactly if no item counts twice.
pub(crate) proof fn lemma_once_by_count(inventory: Seq<Item>, level: Seq<Item>)
    ensures
        each_item_once(inventory, level) <==> forall|item: Item|
            all_items(inventory, level).count(item) <= 1,
{
    broadcast use vstd::multiset::group_multiset_axioms;

    let all = inventory + level;
    let items = all_items(inventory, level);
    if each_item_once(inventory, level) {
        all.lemma_multiset_has_no_duplicates();
        assert forall|item: Item| items.count(item) <= 1 by {
            if items.count(item) > 0 {
                assert(items.contains(item));
            }
        }
    }
    if forall|item: Item| items.count(item) <= 1 {
        assert forall|item: Item| items.contains(item) implies items.count(item) == 1 by {
            assert(items.count(item) <= 1);
        }
        all.lemma_multiset_has_no_duplicates_conv();
        assert(each_item_once(inventory, level));
    }
}

/// The items of two lists together are those of the one and those of the
/// other.
pub(crate) proof fn lemma_all_items(inventory: Seq<Item>, level: Seq<Item>)
    ensures
        all_items(inventory, level) == inventory.to_multiset().add(level.to_multiset()),
{
    vstd::seq_lib::lemma_multiset_commutative(inventory, level);
}

/// When play begins every item is there once.
pub proof fn lemma_once_at_start()
    ensures
        each_item_once(Seq::empty(), initial_level()),
{
    assert(Seq::<Item>::empty() + initial_level() =~= initial_level());
}

/// An item that moves from the one list to the end of the other is neither
/// lost nor doubled. Dropping moves an item from the inventory to the level
/// in this way, and picking one up moves it back.
pub proof fn lemma_move_keeps_items(from: Seq<Item>, to: Seq<Item>, item: Item)
    requires
        from.contains(item),
    ensures
        all_items(from.remove_value(item), to.push(item)) == all_items(from, to),
        all_items(to.push(item), from.remove_value(item)) == all_items(to, from),
        each_item_once(from, to) ==> each_item_once(from.remove_value(item), to.push(item)),
        each_item_once(to, from) ==> each_item_once(to.push(item), from.remove_value(item)),
{
    broadcast use vstd::seq_lib::group_to_multiset_ensures;

    lemma_remove_value(from, item);
    lemma_all_items(from, to);
    lemma_all_items(to, from);
    lemma_all_items(from.remove_value(item), to.push(item));
    lemma_all_items(to.push(item), from.remove_value(item));
    assert(all_items(from.remove_value(item), to.push(item)) =~= all_items(from, to));
    assert(all_items(to.push(item), from.remove_value(item)) =~= all_items(to, from));
    lemma_once_by_count(from, to);
    lemma_once_by_count(to, from);
    lemma_once_by_count(from.remove_value(item), to.push(item));
    lemma_once_by_count(to.push(item), from.remove_value(item));
}

/// Picking up items that lie in the world, each of them once, moves them
/// into the inventory: nothing is lost or doubled, and every item is still
/// there once.
pub proof fn lemma_pick_up_keeps_items(inventory: Seq<Item>, level: Seq<Item>, touched: Seq<Item>)
    requires
        touched.no_duplicates(),
        forall|i: int| 0 <= i < touched.len() ==> level.contains(#[trigger] touched[i]),
    ensures
        all_items(inventory + touched, without_each(level, touched)) == all_items(
            inventory,
            level,
        ),
        each_item_once(inventory, level) ==> each_item_once(
            inventory + touched,
            without_each(level, touched),
        ),
        forall|item: Item|
            level.contains(item) && !touched.contains(item) ==> without_each(
                level,
                touched,
            ).contains(item),
    decreases touched.len(),
{
    if touched.len() == 0 {
        assert(inventory + touched =~= inventory);
    } else {
        let earlier = touched.drop_last();
        let item = touched.last();
        let rest = without_each(level, earlier);
        lemma_pick_up_keeps_items(inventory, level, earlier);
        assert(!earlier.contains(item)) by {
            if earlier.contains(item) {
                let i = choose|i: int| 0 <= i < earlier.len() && earlier[i] == item;
                assert(touched[i] == touched[touched.len() - 1]);
            }
        }
        assert(level.contains(touched[touched.len() - 1]));
        assert(rest.contains(item));
        lemma_move_keeps_items(rest, inventory + earlier, item);
        assert((inventory + earlier).push(item) =~= inventory + touched);
        assert forall|other: Item|
            level.contains(other) && !touched.contains(other) implies rest.remove_value(
            item,
        ).contains(other) by {
            assert(!earlier.contains(other)) by {
                if earlier.contains(other) {
                    let i = choose|i: int| 0 <= i < earlier.len() && earlier[i] == other;
                    assert(touched[i] == other);
                }
            }
            assert(other != item) by {
                assert(touched[touched.len() - 1] == item);
            }
            lemma_remove_value(rest, item);
            lemma_counts(rest, other);
            lemma_counts(rest.remove_value(item), other);
        }
    }
}

/// A list contains what its multiset counts.
pub(crate) proof fn lemma_counts(items: Seq<Item>, item: Item)
    ensures
        items.contains(item) <==> items.to_multiset().count(item) > 0,
{
    broadcast use vstd::seq_lib::group_to_multiset_ensures;

}

/// Turning an item into one that is nowhere yet leaves every item there
/// once.
pub proof fn lemma_convert_keeps_once(items: Seq<Item>, others: Seq<Item>, from: Item, to: Item)
    requires
        items.contains(from),
        !items.contains(to),
        !others.contains(to),
    ensures
        each_item_once(items, others) ==> each_item_once(converted(items, from, to), others),
        each_item_once(others, items) ==> each_item_once(others, converted(items, from, to)),
{
    broadcast use vstd::seq_lib::group_to_multiset_ensures;

    lemma_remove_value(items, from);
    lemma_all_items(items, others);
    lemma_all_items(others, items);
    lemma_all_items(converted(items, from, to), others);
    lemma_all_items(others, converted(items, from, to));
    lemma_once_by_count(items, others);
    lemma_once_by_count(others, items);
    lemma_once_by_count(converted(items, from, to), others);
    lemma_once_by_count(others, converted(items, from, to));
    lemma_counts(items, to);
    lemma_counts(others, to);
    let gone = items.remove_value(from);
    assert(gone.push(to).to_multiset() =~= gone.to_multiset().insert(to));
    if each_item_once(items, others) {
        assert forall|item: Item|
            all_items(converted(items, from, to), others).count(item) <= 1 by {
            assert(all_items(items, others).count(item) <= 1);
        }
    }
    if each_item_once(others, items) {
        assert forall|item: Item|
            all_items(others, converted(items, from, to)).count(item) <= 1 by {
            assert(all_items(others, items).count(item) <= 1);
        }
    }
}

} // verus!
