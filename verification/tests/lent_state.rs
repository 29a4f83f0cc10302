use cast_ui::components::agent::{AgentComposer, ComposerInput};
use cast_ui::components::carousel::Carousel;
use cast_ui::components::checkbox::Checkbox;
use cast_ui::components::menu::{Combobox, Dropdown};
use cast_ui::components::switch::Switch;
use cast_ui::navigation::{Pagination, PaginationClick, Tabs};

#[test]
fn composer_trims_the_callers_text_on_enter() {
    let enter = ComposerInput {
        focused: true,
        plain_enter: true,
        send_clicked: false,
        stop_clicked: false,
        attachment_clicked: false,
        tool_clicked: false,
        model_changed: false,
    };
    let mut text = String::from("Deploy\n");
    let mut model = 1;
    let response = AgentComposer::new(&mut text)
        .send_label("Go")
        .model_selector(&mut model, &["Small", "Large"])
        .respond(enter);
    assert!(response.submitted);
    assert_eq!(text, "Deploy");
    assert_eq!(model, 1);
}

#[test]
fn carousel_moves_the_callers_index() {
    let mut index = 0;
    Carousel::new(&mut index, 3).label("Slides").navigate(true, false);
    assert_eq!(index, 1);
}

#[test]
fn tabs_and_pagination_write_the_callers_index() {
    let mut tab = 0;
    let mut tabs = Tabs::new(&mut tab, &["One", "Two"]);
    assert!(tabs.click(1));
    drop(tabs);
    assert_eq!(tab, 1);

    let mut page = 0;
    let mut pagination = Pagination::new(&mut page, 4);
    pagination.click(PaginationClick::Next);
    drop(pagination);
    assert_eq!(page, 1);
}

#[test]
fn toggles_write_the_callers_flag() {
    let mut checked = false;
    assert!(Checkbox::new(&mut checked, "Done").click());
    assert!(checked);

    let mut on = true;
    assert!(Switch::new(&mut on).click());
    assert!(!on);
}

#[test]
fn disabled_menus_keep_the_selection() {
    let mut selected = 0;
    assert!(!Dropdown::new(&mut selected, &["One", "Two"]).disabled().pick(1));
    assert_eq!(selected, 0);

    let mut chosen = 0;
    let mut query = String::from("tw");
    assert!(!Combobox::new(&mut chosen, &mut query, &["One", "Two"]).disabled().pick(1));
    assert_eq!(chosen, 0);
    assert_eq!(query, "tw");

    let mut query = String::from("tw");
    assert!(Combobox::new(&mut chosen, &mut query, &["One", "Two"]).pick(1));
    assert_eq!(chosen, 1);
    assert_eq!(query, "");
}
