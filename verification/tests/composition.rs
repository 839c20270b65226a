use widget_state::composition::{list_items, parent_element, static_labels, ListItem, ParentElement};

#[test]
fn static_list_shows_its_three_labels_in_order() {
    assert_eq!(static_labels(), vec!["Foo", "Bar", "Baz"]);
    assert_eq!(
        list_items(static_labels()),
        vec![
            ListItem { content: "Foo" },
            ListItem { content: "Bar" },
            ListItem { content: "Baz" },
        ]
    );
}

#[test]
fn each_child_gets_a_list_item_of_its_own() {
    let children = vec![
        "This is a child 1".to_string(),
        "This is a child 2".to_string(),
        "This is a child 3".to_string(),
        "This is a child 4".to_string(),
    ];
    let items = list_items(children.clone());
    assert_eq!(items.len(), 4);
    for (item, child) in items.iter().zip(children.iter()) {
        assert_eq!(&item.content, child);
    }
}

#[test]
fn no_children_give_no_items() {
    let items: Vec<ListItem<u8>> = list_items(Vec::new());
    assert!(items.is_empty());
}

#[test]
fn parent_element_puts_the_rendered_header_above_the_items() {
    let element = parent_element(|| "This is from the render prop", vec![1u8, 2, 3]);
    assert_eq!(
        element,
        ParentElement {
            header: "This is from the render prop",
            items: vec![
                ListItem { content: 1 },
                ListItem { content: 2 },
                ListItem { content: 3 },
            ],
        }
    );
}

#[test]
fn render_prop_is_called_once() {
    let mut calls = 0;
    let element = parent_element(
        || {
            calls += 1;
            calls
        },
        vec!['a'],
    );
    assert_eq!(element.header, 1);
    assert_eq!(calls, 1);
}
