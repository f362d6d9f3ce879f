use vstd::prelude::*;

verus! {

/// One selectable entry of a choice control: the raw value the device knows
/// it by, and the text shown for it.
#[derive(Debug, PartialEq, Eq)]
pub struct ItemData {
    pub id: u32,
    pub label: String,
}

/// What an [`ItemData`] stands for.
pub struct ItemView {
    pub id: u32,
    pub label: Seq<char>,
}

impl View for ItemData {
    type V = ItemView;

    open spec fn view(&self) -> ItemView {
        ItemView { id: self.id, label: self.label@ }
    }
}

impl Default for ItemData {
    /// The entry with raw value 0 and an empty label.
    fn default() -> (item: ItemData)
        ensures
            item@ == (ItemView { id: 0, label: Seq::<char>::empty() }),
    {
        ItemData { id: 0, label: String::new() }
    }
}

impl Clone for ItemData {
    fn clone(&self) -> (item: ItemData)
        ensures
            item@ == self@,
    {
        ItemData { id: self.id, label: self.label.clone() }
    }
}

/// The entries of `items`, each as what it stands for.
pub open spec fn items_view(items: Seq<ItemData>) -> Seq<ItemView> {
    Seq::new(items.len(), |i: int| items[i]@)
}

/// A copy of `items`, entry for entry.
pub fn clone_items(items: &Vec<ItemData>) -> (copy: Vec<ItemData>)
    ensures
        items_view(copy@) == items_view(items@),
{
    let mut copy: Vec<ItemData> = Vec::new();
    let mut i: usize = 0;
    while i < items.len()
        invariant
            i <= items@.len(),
            copy@.len() == i,
            forall|j: int| 0 <= j < i ==> copy@[j]@ == items@[j]@,
        decreases items@.len() - i,
    {
        copy.push(items[i].clone());
        i = i + 1;
    }
    assert(items_view(copy@) =~= items_view(items@));
    copy
}

} // verus!
