use cast_ui::components::menu::MenuItem;
use cast_ui::foundation::Size;
use cast_ui::navigation::{
    pagination_items, select_clicked, Breadcrumb, NavList, Pagination, PaginationClick,
    PaginationItem, SegmentedControl, SidebarItem, Tabs,
};

#[test]
fn tabs_store_labels_and_default_size() {
    let mut selected = 0;
    let tabs = Tabs::new(&mut selected, &["One", "Two"]);

    assert_eq!(*tabs.labels(), ["One", "Two"]);
    assert_eq!(tabs.get_size(), Size::Medium);
}

#[test]
fn segmented_control_can_be_sized() {
    let mut selected = 0;
    let segmented = SegmentedControl::new(&mut selected, &["Light", "Dark"]).size(Size::Small);

    assert_eq!(segmented.get_size(), Size::Small);
}

#[test]
fn nav_list_stores_labels() {
    let mut selected = 0;
    let nav = NavList::new(&mut selected, &["Workbench", "Components"]);

    assert_eq!(*nav.labels(), ["Workbench", "Components"]);
}

#[test]
fn breadcrumb_collects_items() {
    let breadcrumb = Breadcrumb::new(&["Workspace", "Reports"]);

    assert_eq!(*breadcrumb.items(), ["Workspace", "Reports"]);
    assert_eq!(breadcrumb.get_size(), Size::Medium);
}

#[test]
fn pagination_items_keep_edges_for_long_ranges() {
    let items = pagination_items(5, 12);

    assert!(matches!(items.first(), Some(PaginationItem::Page(0))));
    assert!(matches!(items.last(), Some(PaginationItem::Page(11))));
    assert!(items
        .iter()
        .any(|item| matches!(item, PaginationItem::Ellipsis)));
}

#[test]
fn pagination_items_exact_layouts() {
    let page = PaginationItem::Page;
    let ellipsis = PaginationItem::Ellipsis;
    assert_eq!(pagination_items(2, 4), vec![page(0), page(1), page(2), page(3)]);
    assert_eq!(pagination_items(0, 0), vec![]);
    assert_eq!(
        pagination_items(5, 12),
        vec![page(0), ellipsis, page(4), page(5), page(6), ellipsis, page(11)]
    );
    assert_eq!(
        pagination_items(0, 9),
        vec![page(0), page(1), ellipsis, page(8)]
    );
    assert_eq!(
        pagination_items(8, 9),
        vec![page(0), ellipsis, page(7), page(8)]
    );
    for count in 8..30 {
        for current in 0..count {
            let items = pagination_items(current, count);
            assert!(items.len() <= 7);
            assert!(items.contains(&page(current)));
        }
    }
}

#[test]
fn tab_clicks_change_the_selection_once() {
    let mut selected = 0;
    let mut tabs = Tabs::new(&mut selected, &["One", "Two"]);
    assert!(tabs.click(1));
    assert!(!tabs.click(1));
    drop(tabs);
    assert_eq!(selected, 1);
    let mut index = 3;
    assert!(!select_clicked(&mut index, 1, false));
    assert_eq!(index, 3);
    assert!(select_clicked(&mut index, 1, true));
    assert_eq!(index, 1);
}

#[test]
fn breadcrumb_marks_the_last_item_current() {
    let breadcrumb = Breadcrumb::new(&["Workspace", "Reports"]);
    assert!(!breadcrumb.is_current(0));
    assert!(breadcrumb.is_current(1));
}

#[test]
fn pagination_clicks_stay_in_range() {
    let mut page = 0;
    let mut pagination = Pagination::new(&mut page, 3);
    pagination.click(PaginationClick::Previous);
    assert_eq!(pagination.current(), 0);
    pagination.click(PaginationClick::Next);
    pagination.click(PaginationClick::Next);
    pagination.click(PaginationClick::Next);
    assert_eq!(pagination.current(), 2);
    pagination.click(PaginationClick::Page(1));
    assert_eq!(pagination.current(), 1);
    drop(pagination);
    assert_eq!(page, 1);
}

#[test]
fn sidebar_item_carries_a_badge() {
    let item = SidebarItem::new("Reports").badge("12");
    assert_eq!(item.get_label(), "Reports");
    assert_eq!(item.get_badge(), Some("12"));
    assert_eq!(SidebarItem::new("Home").get_badge(), None);
    let _ = MenuItem::new("Open");
}
