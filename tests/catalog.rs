use roboat::catalog::{ItemArgs, ItemArgsReq, ItemDetailsReqBody, ItemType};

#[test]
fn item_args_convert() {
    let req = ItemArgsReq::from(ItemArgs { item_type: ItemType::Bundle, id: 192 });
    assert_eq!(req, ItemArgsReq { item_type: ItemType::Bundle, id: 192 });
}

#[test]
fn details_body_keeps_order() {
    let items = vec![
        ItemArgs { item_type: ItemType::Asset, id: 1 },
        ItemArgs { item_type: ItemType::Bundle, id: 2 },
    ];
    let body = ItemDetailsReqBody::new(&items);
    assert_eq!(
        body.items,
        vec![
            ItemArgsReq { item_type: ItemType::Asset, id: 1 },
            ItemArgsReq { item_type: ItemType::Bundle, id: 2 },
        ]
    );
    assert!(ItemDetailsReqBody::new(&vec![]).items.is_empty());
}
