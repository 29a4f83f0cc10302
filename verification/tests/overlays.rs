use cast_ui::calendar::{Calendar, CalendarDate, CalendarMonth};
use cast_ui::components::card::SurfaceSectionStyle;
use cast_ui::components::carousel::Carousel;
use cast_ui::components::dialog::{
    confirm_dialog_result, ConfirmDialog, ConfirmDialogResponse, Dialog, DialogController, Sheet,
    SheetController,
};
use cast_ui::components::form::FormField;
use cast_ui::components::popover::{shows_header, HoverCard, Popover};
use cast_ui::components::separator::Separator;
use cast_ui::components::skeleton::Skeleton;
use cast_ui::foundation::{Intent, Orientation, Placement, Size};
use cast_ui::markdown::{Markdown, MarkdownBlock};
use cast_ui::navigation::{Sidebar, SidebarItem};

#[test]
fn dialog_defaults_to_closable_with_no_header_text() {
    let mut open = true;
    let dialog = Dialog::new(&mut open);

    assert!(dialog.closable);
    assert!(dialog.title.is_none());
    assert!(dialog.description.is_none());
    assert_eq!(dialog.sections, SurfaceSectionStyle::flat());
}

#[test]
fn dialog_can_opt_into_muted_sections() {
    let mut open = true;
    let dialog = Dialog::new(&mut open).muted_sections();

    assert_eq!(dialog.sections, SurfaceSectionStyle::muted());
}

#[test]
fn dialog_closes_on_dismiss_or_request() {
    let mut open = true;
    let quiet = DialogController::default();
    Dialog::new(&mut open).finish_frame(false, &quiet);
    assert!(open);
    let mut asked = DialogController::default();
    asked.close();
    Dialog::new(&mut open).finish_frame(false, &asked);
    assert!(!open);
    let mut again = true;
    Dialog::new(&mut again).closable(false).finish_frame(true, &quiet);
    assert!(!again);
}

#[test]
fn confirm_dialog_defaults_to_danger_confirmation() {
    let mut open = true;
    let dialog = ConfirmDialog::new(&mut open);

    assert_eq!(dialog.intent, Intent::Danger);
    assert_eq!(dialog.confirm_label, "Confirm");
    assert_eq!(dialog.cancel_label, "Cancel");
}

#[test]
fn confirm_dialog_answers_and_closes() {
    assert_eq!(confirm_dialog_result(true, false), Some(ConfirmDialogResponse::Confirmed));
    assert_eq!(confirm_dialog_result(false, true), Some(ConfirmDialogResponse::Cancelled));
    assert_eq!(confirm_dialog_result(true, true), Some(ConfirmDialogResponse::Cancelled));
    assert_eq!(confirm_dialog_result(false, false), None);
    let mut open = true;
    assert_eq!(ConfirmDialog::new(&mut open).respond(false, false, false), None);
    assert!(open);
    assert_eq!(
        ConfirmDialog::new(&mut open).respond(true, false, false),
        Some(ConfirmDialogResponse::Confirmed)
    );
    assert!(!open);
}

#[test]
fn sheet_defaults_to_right_side_and_closable() {
    let mut open = true;
    let sheet = Sheet::new(&mut open);

    assert_eq!(sheet.placement, Placement::Right);
    assert!(sheet.closable);
    assert!(sheet.title.is_none());
    assert_eq!(sheet.sections, SurfaceSectionStyle::flat());
}

#[test]
fn sheet_can_opt_into_muted_sections() {
    let mut open = true;
    let sheet = Sheet::new(&mut open).muted_sections();

    assert_eq!(sheet.sections, SurfaceSectionStyle::muted());
}

#[test]
fn only_closable_sheets_close_on_the_backdrop() {
    let controller = SheetController::default();
    let mut open = true;
    Sheet::new(&mut open).closable(false).finish_frame(true, &controller);
    assert!(open);
    Sheet::new(&mut open).finish_frame(true, &controller);
    assert!(!open);
}

#[test]
fn popover_defaults_to_bottom_placement() {
    let popover = Popover::new();

    assert_eq!(popover.placement, Placement::Bottom);
    assert!(popover.title.is_none());
    assert!(popover.body.is_none());
    assert_eq!(popover.sections, SurfaceSectionStyle::flat());
}

#[test]
fn popover_can_use_muted_sections() {
    let popover = Popover::new().muted_sections();

    assert_eq!(popover.sections, SurfaceSectionStyle::muted());
}

#[test]
fn hover_card_defaults_to_right_placement() {
    let card = HoverCard::new();

    assert_eq!(card.placement, Placement::Right);
    assert_eq!(card.sections, SurfaceSectionStyle::flat());
    assert!(card.title.is_none());
}

#[test]
fn overlay_headers_show_with_text() {
    let popover = Popover::new().title("Title");
    assert!(shows_header(&popover.title, &popover.body));
    let empty = HoverCard::new().placement(Placement::Left);
    assert!(!shows_header(&empty.title, &empty.body));
    assert_eq!(empty.placement, Placement::Left);
}

#[test]
fn form_field_defaults_to_plain_label() {
    let field = FormField::new("Project name");

    assert_eq!(field.label, "Project name");
    assert!(!field.required);
    assert!(field.description.is_none());
    assert!(field.message.is_none());
}

#[test]
fn form_field_status_helpers_set_message_intent() {
    let field = FormField::new("Handle").required(true).error("Required");

    assert!(field.required);
    let message = field.message.unwrap();
    assert_eq!(message.intent, Intent::Danger);
    assert_eq!(message.text, "Required");
    let ok = FormField::new("Handle").success("Free");
    assert_eq!(ok.message.unwrap().intent, Intent::Success);
    let careful = FormField::new("Handle").warning("Taken soon");
    assert_eq!(careful.message.unwrap().intent, Intent::Warning);
}

#[test]
fn carousel_has_at_least_one_slide() {
    let mut index = 8;
    let carousel = Carousel::new(&mut index, 0);

    assert_eq!(carousel.slide_count, 1);
    let response = carousel.navigate(true, false);
    assert_eq!(response.index, 0);
    assert_eq!(index, 0);
}

#[test]
fn sidebar_items_can_carry_badges() {
    let item = SidebarItem::new("Reports").badge("12");
    let mut selected = 0;
    let sidebar = Sidebar::new(&mut selected, vec![item.clone()])
        .title("Project")
        .subtitle("Workspace");

    assert_eq!(item.get_badge(), Some("12"));
    assert_eq!(sidebar.items.len(), 1);
    assert_eq!(sidebar.title.as_deref(), Some("Project"));
}

#[test]
fn sidebar_click_selects_the_entry() {
    let mut selected = 0;
    let items = vec![SidebarItem::new("Home"), SidebarItem::new("Reports")];
    assert!(Sidebar::new(&mut selected, items.clone()).click(1));
    assert!(!Sidebar::new(&mut selected, items).click(1));
    assert_eq!(selected, 1);
}

#[test]
fn separators_and_skeletons() {
    assert_eq!(Separator::new().orientation, Orientation::Horizontal);
    assert_eq!(Separator::vertical().orientation, Orientation::Vertical);
    let skeleton = Skeleton::new().size(Size::Small).animated(false);
    assert_eq!(skeleton.size, Size::Small);
    assert!(!skeleton.animated);
}

#[test]
fn calendar_picker_moves_months_and_selects_days() {
    let mut selected = CalendarDate::new(2026, 1, 15);
    let mut month = CalendarMonth::new(2026, 1);
    Calendar::new(&mut selected, &mut month).previous_month();
    assert_eq!(month, CalendarMonth::new(2025, 12));
    Calendar::new(&mut selected, &mut month).next_month();
    Calendar::new(&mut selected, &mut month).next_month();
    assert_eq!(month, CalendarMonth::new(2026, 2));
    assert!(Calendar::new(&mut selected, &mut month).click_day(30));
    assert_eq!(selected, CalendarDate::new(2026, 2, 28));
    assert!(!Calendar::new(&mut selected, &mut month).click_day(28));
}

#[test]
fn markdown_widget_parses_its_source() {
    let markdown = Markdown::new("# Title").selectable(false);
    assert!(!markdown.selectable);
    assert_eq!(
        markdown.blocks(),
        vec![MarkdownBlock::Heading { level: 1, text: "Title".to_owned() }]
    );
}
