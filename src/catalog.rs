use vstd::prelude::*;

verus! {

/// Whether a catalog item is a single asset or a bundle.
#[derive(Clone, Copy, Debug, Default, PartialEq, Eq, PartialOrd, Ord, Hash)]
pub enum ItemType {
    #[default]
    Asset,
    Bundle,
}

/// An item to look up in the catalog.
#[derive(Clone, Copy, Debug, Default, PartialEq, Eq, PartialOrd, Ord, Hash)]
pub struct ItemArgs {
    pub item_type: ItemType,
    pub id: u64,
}

/// One entry of a catalog item-details request body.
#[derive(Clone, Copy, Debug, PartialEq, Eq)]
pub struct ItemArgsReq {
    pub item_type: ItemType,
    pub id: u64,
}

impl From<ItemArgs> for ItemArgsReq {
    fn from(item: ItemArgs) -> (r: ItemArgsReq) {
        ItemArgsReq { item_type: item.item_type, id: item.id }
    }
}

impl vstd::std_specs::convert::FromSpecImpl<ItemArgs> for ItemArgsReq {
    open spec fn obeys_from_spec() -> bool {
        true
    }

    open spec fn from_spec(item: ItemArgs) -> ItemArgsReq {
        ItemArgsReq { item_type: item.item_type, id: item.id }
    }
}

/// The body of a catalog item-details request.
#[derive(Clone, Debug, PartialEq, Eq)]
pub struct ItemDetailsReqBody {
    pub items: Vec<ItemArgsReq>,
}

impl ItemDetailsReqBody {
    /// The body that asks for the given items, in order.
    pub fn new(items: &Vec<ItemArgs>) -> (r: ItemDetailsReqBody)
        ensures
            r.items@.len() == items@.len(),
            forall|i: int|
                0 <= i < items@.len() ==> r.items@[i] == (ItemArgsReq {
                    item_type: #[trigger] items@[i].item_type,
                    id: items@[i].id,
                }),
    {
        let mut reqs: Vec<ItemArgsReq> = Vec::new();
        let mut i: usize = 0;
        while i < items.len()
            invariant
                i <= items@.len(),
                reqs@.len() == i,
                forall|j: int|
                    0 <= j < i ==> reqs@[j] == (ItemArgsReq {
                        item_type: #[trigger] items@[j].item_type,
                        id: items@[j].id,
                    }),
            decreases items@.len() - i,
        {
            reqs.push(ItemArgsReq::from(items[i]));
            i = i + 1;
        }
        ItemDetailsReqBody { items: reqs }
    }
}

} // verus!
