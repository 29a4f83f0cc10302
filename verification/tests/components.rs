use cast_ui::components::agent::{
    chat_role_intent, chat_role_label, compact_number, plan_status_intent, plan_status_label,
    run_phase_label, tool_call_intent, tool_call_status_label, tool_output_intent,
    tool_output_kind_label, trim_submitted_newline, AgentComposer, ApprovalPanel, ArtifactCard,
    ChatMessage, ChatRole, ComposerInput, ContextItem, ContextPanel, PatchFile, PatchReviewPanel,
    PlanList, PlanStep, PlanStepStatus, RunPhase, ToolCallBlock, ToolCallStatus, ToolOutputKind,
};
use cast_ui::components::avatar::avatar_initials;
use cast_ui::components::badge::{badge_color_rule, default_badge_variant, BadgeColorRule};
use cast_ui::components::button::Button;
use cast_ui::components::card::{Card, SurfaceChrome, SurfaceSectionStyle};
use cast_ui::components::carousel::{carousel_navigate, CarouselResponse};
use cast_ui::components::checkbox::{Checkbox, Radio, RadioGroup};
use cast_ui::components::dialog::{dialog_open_after, DialogController};
use cast_ui::components::disclosure::{next_accordion_open, Accordion, AccordionItem, Disclosure};
use cast_ui::components::empty_state::EmptyState;
use cast_ui::components::filter_bar::FilterBar;
use cast_ui::components::kbd::Kbd;
use cast_ui::components::list::DataTable;
use cast_ui::components::menu::{combobox_matches, Combobox, Dropdown, MenuItem};
use cast_ui::components::panel::Panel;
use cast_ui::components::report::{MetricCard, ReportSection};
use cast_ui::components::progress::{pixel_snake_path, Spinner, SpinnerStyle};
use cast_ui::components::switch::Switch;
use cast_ui::foundation::{Intent, Orientation, Size, ThemeMode, Variant};

#[test]
fn tool_call_status_maps_to_intent_and_label() {
    assert_eq!(tool_call_intent(ToolCallStatus::Running), Intent::Info);
    assert_eq!(tool_call_intent(ToolCallStatus::Failed), Intent::Danger);
    assert_eq!(tool_call_status_label(ToolCallStatus::Succeeded), "Done");
}

#[test]
fn tool_output_kind_sets_intent_and_label() {
    assert_eq!(tool_output_intent(ToolOutputKind::Json), Intent::Info);
    assert_eq!(tool_output_intent(ToolOutputKind::Error), Intent::Danger);
    assert_eq!(tool_output_kind_label(ToolOutputKind::Code), "Code");
}

#[test]
fn submitted_newline_is_trimmed_for_enter_send() {
    let mut text = String::from("Run tests\n");

    trim_submitted_newline(&mut text);

    assert_eq!(text, "Run tests");
}

#[test]
fn submitted_newline_trims_one_crlf_only() {
    let mut crlf = String::from("Go\r\n");
    trim_submitted_newline(&mut crlf);
    assert_eq!(crlf, "Go");
    let mut two = String::from("Go\n\n");
    trim_submitted_newline(&mut two);
    assert_eq!(two, "Go\n");
    let mut plain = String::from("Go");
    trim_submitted_newline(&mut plain);
    assert_eq!(plain, "Go");
    let mut lone_cr = String::from("\r");
    trim_submitted_newline(&mut lone_cr);
    assert_eq!(lone_cr, "\r");
}

#[test]
fn chat_message_defaults_follow_role() {
    let message = ChatMessage::user("Run the checks");

    assert_eq!(message.role, ChatRole::User);
    assert_eq!(message.title, "You");
    assert_eq!(message.intent, Intent::Primary);
    assert!(!message.streaming);
}

#[test]
fn streaming_message_records_state() {
    let message = ChatMessage::assistant("Working").streaming(true);

    assert!(message.streaming);
}

#[test]
fn role_labels_and_intents() {
    assert_eq!(chat_role_label(ChatRole::Assistant), "Assistant");
    assert_eq!(chat_role_label(ChatRole::Tool), "Tool");
    assert_eq!(chat_role_intent(ChatRole::Assistant), Intent::Secondary);
    assert_eq!(chat_role_intent(ChatRole::System), Intent::Neutral);
    assert_eq!(ChatMessage::tool("x").intent, Intent::Info);
    assert_eq!(run_phase_label(RunPhase::FinalResponse), "Final");
    assert_eq!(plan_status_label(PlanStepStatus::Blocked), "Blocked");
    assert_eq!(plan_status_intent(PlanStepStatus::Active), Intent::Info);
    assert_eq!(ChatRole::default(), ChatRole::Assistant);
    assert_eq!(ToolCallStatus::default(), ToolCallStatus::Succeeded);
}

#[test]
fn composer_requires_text_to_submit() {
    let mut text = String::from("  ");
    let mut selected_model = 0;
    let composer = AgentComposer::new(&mut text)
        .send_label("Run")
        .stop_label("Cancel")
        .attachment_label("Attach")
        .tool_label("Tools")
        .model_selector(&mut selected_model, &["Small", "Large"])
        .loading(true)
        .rows(1);

    assert_eq!(composer.send_label, "Run");
    assert_eq!(composer.stop_label, "Cancel");
    assert_eq!(composer.tool_label.as_deref(), Some("Tools"));
    assert_eq!(composer.model_options, ["Small", "Large"]);
    assert!(composer.loading);
    assert_eq!(composer.rows, 2);
    assert!(composer.text.trim().is_empty());
}

#[test]
fn composer_enter_sends_and_trims() {
    let enter = ComposerInput {
        focused: true,
        plain_enter: true,
        send_clicked: false,
        stop_clicked: false,
        attachment_clicked: false,
        tool_clicked: false,
        model_changed: false,
    };
    let mut text = String::from("Run tests\n");
    let response = AgentComposer::new(&mut text).respond(enter);
    assert!(response.submitted);
    assert!(!response.stopped);
    assert_eq!(text, "Run tests");

    let mut blank = String::from("   \n");
    let response = AgentComposer::new(&mut blank).respond(enter);
    assert!(!response.submitted);
    assert_eq!(blank, "   \n");

    let mut busy = String::from("go\n");
    let stop = ComposerInput { stop_clicked: true, ..enter };
    let response = AgentComposer::new(&mut busy).loading(true).respond(stop);
    assert!(!response.submitted);
    assert!(response.stopped);
    assert_eq!(busy, "go\n");
}

#[test]
fn artifact_and_approval_defaults_are_workflow_oriented() {
    let artifact = ArtifactCard::new("Report").kind("Markdown");
    let approval = ApprovalPanel::new("Run command", "Executes cargo test")
        .risk("May take a few seconds")
        .intent(Intent::Warning);

    assert_eq!(artifact.kind, "Markdown");
    assert_eq!(approval.primary_label, "Approve");
    assert_eq!(approval.intent, Intent::Warning);
    assert!(approval.risk.is_some());
}

#[test]
fn review_components_store_workflow_state() {
    let context = ContextPanel::new(86_000, 200_000)
        .window_count(3)
        .auto_compact_at(6)
        .item(ContextItem::new("File", "src/main.rs").tokens(480));
    let plan = PlanList::new("Plan")
        .summary("Review before patching")
        .step(PlanStep::new("Inspect").status(PlanStepStatus::Done))
        .step(PlanStep::new("Patch").status(PlanStepStatus::Active).depth(1));
    let patch = PatchReviewPanel::new("Patch", "Two files changed")
        .file(PatchFile::new("src/main.rs", 12, 4))
        .tests("checks passed")
        .risk("Shared route touched");

    assert_eq!(context.used, 86_000);
    assert_eq!(context.items.len(), 1);
    assert_eq!(plan.steps[1].status, PlanStepStatus::Active);
    assert_eq!(plan.steps[1].depth, 1);
    assert_eq!(patch.files[0].additions, 12);
    assert_eq!(patch.risk.as_deref(), Some("Shared route touched"));
}

#[test]
fn context_and_plan_limits() {
    assert_eq!(ContextPanel::new(5, 0).capacity, 1);
    assert_eq!(PlanStep::new("Deep").depth(9).depth, 3);
    assert_eq!(compact_number(999), "999");
    assert_eq!(compact_number(86_000), "86k");
    assert_eq!(compact_number(1_999), "1k");
    assert_eq!(compact_number(2_500_000), "2m");
    assert_eq!(compact_number(0), "0");
    assert_eq!(ContextPanel::new(86_000, 200_000).usage_label(), "86k / 200k");
    let patch = PatchReviewPanel::new("Patch", "x").file(PatchFile::new("a", 1, 2));
    assert_eq!(patch.files_label(), "1 files");
}

#[test]
fn tool_call_block_toggles_its_preview() {
    let mut open = false;
    let block = ToolCallBlock::new("cargo test", &mut open).preview("running");
    assert_eq!(block.caret(), ">");
    assert!(!block.shows_preview());
    block.click_header();
    assert!(open);
    let block = ToolCallBlock::new("cargo test", &mut open).preview("running");
    assert_eq!(block.caret(), "v");
    assert!(block.shows_preview());
}

#[test]
fn avatar_initials_use_first_two_words() {
    assert_eq!(avatar_initials("Sarah Parker"), "SP");
    assert_eq!(avatar_initials("Cast"), "C");
    assert_eq!(avatar_initials(""), "?");
}

#[test]
fn avatar_initials_take_two_words_and_upper_case() {
    assert_eq!(avatar_initials("  ada   lovelace byron "), "AL");
    assert_eq!(avatar_initials("   "), "?");
}

#[test]
fn button_display_label_includes_loading_and_icon_slots() {
    let label = Button::new("Save")
        .leading_icon("[+]")
        .trailing_icon("[>]")
        .loading(true)
        .display_label();

    assert_eq!(label, "... [+] Save [>]");
}

#[test]
fn button_label_and_interaction() {
    assert_eq!(Button::new("Save").display_label(), "Save");
    assert_eq!(Button::new("Go").trailing_icon(">").display_label(), "Go >");
    assert!(Button::new("Go").is_interactive());
    assert!(!Button::new("Go").loading(true).is_interactive());
    assert!(!Button::new("Go").disabled().is_interactive());
}

#[test]
fn badge_variants_and_colour_rules() {
    assert_eq!(default_badge_variant(Intent::Primary), Variant::Solid);
    assert_eq!(default_badge_variant(Intent::Success), Variant::Subtle);
    assert_eq!(
        badge_color_rule(ThemeMode::Dark, Intent::Primary, None),
        BadgeColorRule::DarkPrimarySolid
    );
    assert_eq!(
        badge_color_rule(ThemeMode::Light, Intent::Primary, None),
        BadgeColorRule::Standard(Variant::Solid)
    );
    assert_eq!(
        badge_color_rule(ThemeMode::Light, Intent::Success, None),
        BadgeColorRule::SemanticSubtle
    );
    assert_eq!(
        badge_color_rule(ThemeMode::Light, Intent::Warning, Some(Variant::Outline)),
        BadgeColorRule::SemanticOutline
    );
}

#[test]
fn card_defaults_to_flat_sections() {
    let card = Card::new();

    assert_eq!(card.sections, SurfaceSectionStyle::flat());
}

#[test]
fn muted_section_style_uses_chrome_and_dividers() {
    let style = SurfaceSectionStyle::muted();

    assert_eq!(style.header, SurfaceChrome::Muted);
    assert_eq!(style.footer, SurfaceChrome::Muted);
    assert!(style.dividers);
}

#[test]
fn panel_can_opt_into_muted_sections() {
    let panel = Panel::new().muted_sections();

    assert_eq!(panel.sections, SurfaceSectionStyle::muted());
}

#[test]
fn carousel_response_records_navigation_flags() {
    let response = CarouselResponse {
        index: 2,
        previous_clicked: true,
        next_clicked: false,
    };

    assert_eq!(response.index, 2);
    assert!(response.previous_clicked);
    assert!(!response.next_clicked);
}

#[test]
fn carousel_navigation_stays_on_the_slides() {
    let mut index = 7;
    let response = carousel_navigate(&mut index, 3, true, false);
    assert_eq!(index, 2);
    assert!(!response.next_clicked);
    let response = carousel_navigate(&mut index, 3, false, true);
    assert_eq!(index, 1);
    assert!(response.previous_clicked);
    let mut only = 0;
    carousel_navigate(&mut only, 0, true, true);
    assert_eq!(only, 0);
}

#[test]
fn radio_group_collects_options_and_defaults_horizontal() {
    let mut selected = 0;
    let group = RadioGroup::new(
        &mut selected,
        vec![(0, "Compact".to_owned()), (1, "Comfortable".to_owned())],
    );

    assert_eq!(group.options.len(), 2);
    assert_eq!(group.size, Size::Medium);
    assert_eq!(group.orientation, Orientation::Horizontal);
    assert!(group.enabled);
}

#[test]
fn radio_group_can_be_vertical_and_disabled() {
    let mut selected = 0;
    let group = RadioGroup::new(&mut selected, vec![(0, "A".to_owned()), (1, "B".to_owned())])
        .vertical()
        .disabled()
        .size(Size::Small);

    assert_eq!(group.orientation, Orientation::Vertical);
    assert_eq!(group.size, Size::Small);
    assert!(!group.enabled);
}

#[test]
fn checkbox_and_switch_clicks() {
    let mut checked = false;
    assert!(Checkbox::new(&mut checked, "Agree").click());
    assert!(checked);
    assert!(Checkbox::new(&mut checked, "Agree").indeterminate(true).click());
    assert!(checked);
    assert!(!Checkbox::new(&mut checked, "Agree").disabled().click());
    assert!(checked);
    let mut on = true;
    assert!(Switch::new(&mut on).click());
    assert!(!on);
}

#[test]
fn dialog_controller_tracks_close_request() {
    let mut controller = DialogController::default();

    assert!(!controller.close_requested());
    controller.close();
    assert!(controller.close_requested());
}

#[test]
fn dialog_stays_open_until_dismissed() {
    assert!(dialog_open_after(true, false, false));
    assert!(!dialog_open_after(true, true, false));
    assert!(!dialog_open_after(true, false, true));
    assert!(!dialog_open_after(false, false, false));
}

#[test]
fn accordion_item_can_be_built_from_string() {
    let item = AccordionItem::from("Activity");

    assert_eq!(item.title, "Activity");
    assert!(item.subtitle.is_none());
    assert!(item.enabled);
}

#[test]
fn accordion_open_state_toggles_clicked_item() {
    assert_eq!(next_accordion_open(None, 1), Some(1));
    assert_eq!(next_accordion_open(Some(0), 1), Some(1));
    assert_eq!(next_accordion_open(Some(1), 1), None);
}

#[test]
fn accordion_and_disclosure_clicks() {
    let mut open = None;
    Accordion::new(&mut open, vec![AccordionItem::new("A"), AccordionItem::new("B")]).click(1);
    assert_eq!(open, Some(1));
    Accordion::new(&mut open, vec![AccordionItem::new("A"), AccordionItem::new("B")]).click(1);
    assert_eq!(open, None);
    let mut shown = false;
    Disclosure::new(&mut shown, "More").click();
    assert!(shown);
    Disclosure::new(&mut shown, "More").click();
    assert!(!shown);
}

#[test]
fn empty_state_defaults_to_neutral_without_body_or_icon() {
    let state = EmptyState::new("No results");

    assert_eq!(state.intent, Intent::Neutral);
    assert!(state.body.is_none());
    assert!(state.icon.is_none());
}

#[test]
fn filter_bar_defaults_to_small_controls() {
    let bar = FilterBar::new();

    assert_eq!(bar.size, Size::Small);
}

#[test]
fn filter_bar_size_can_be_overridden() {
    let bar = FilterBar::new().size(Size::Medium);

    assert_eq!(bar.size, Size::Medium);
}

#[test]
fn kbd_defaults_to_single_medium_key() {
    let kbd = Kbd::new("K");

    assert_eq!(kbd.keys, ["K"]);
    assert_eq!(kbd.size, Size::Medium);
}

#[test]
fn kbd_shortcut_collects_keys() {
    let kbd = Kbd::shortcut(&["Ctrl", "K"]).size(Size::Small);

    assert_eq!(kbd.keys, ["Ctrl", "K"]);
    assert_eq!(kbd.size, Size::Small);
}

#[test]
fn combobox_matching_is_case_insensitive_and_trimmed() {
    let labels = vec![
        "Agent Workspace".to_owned(),
        "Theme Lab".to_owned(),
        "Diagnostics".to_owned(),
    ];

    assert_eq!(combobox_matches(&labels, ""), vec![0, 1, 2]);
    assert_eq!(combobox_matches(&labels, " lab "), vec![1]);
    assert_eq!(combobox_matches(&labels, "AGENT"), vec![0]);
}

#[test]
fn dropdown_stores_labels_and_default_placeholder() {
    let mut selected = 0;
    let dropdown = Dropdown::new(&mut selected, &["One", "Two"]);

    assert_eq!(dropdown.labels, ["One", "Two"]);
    assert_eq!(dropdown.placeholder, "Select");
    assert_eq!(dropdown.size, None);
}

#[test]
fn dropdown_and_combobox_choices() {
    let mut selected = 5;
    assert_eq!(Dropdown::new(&mut selected, &["One", "Two"]).trigger_label(), "Select");
    assert!(Dropdown::new(&mut selected, &["One", "Two"]).pick(1));
    assert_eq!(Dropdown::new(&mut selected, &["One", "Two"]).trigger_label(), "Two");
    assert!(!Dropdown::new(&mut selected, &["One", "Two"]).pick(1));

    let mut choice = 0;
    let mut query = String::from("dark");
    let combo = Combobox::new(&mut choice, &mut query, &["Light", "Dark"]);
    assert_eq!(combo.visible_options(), vec![1]);
    assert!(combo.pick(1));
    assert_eq!(choice, 1);
    assert_eq!(query, "");
    let mut kept = String::from("li");
    assert!(Combobox::new(&mut choice, &mut kept, &["Light", "Dark"])
        .clear_query_on_select(false)
        .pick(0));
    assert_eq!(kept, "li");
    let item = MenuItem::new("Delete").intent(Intent::Danger).selected(true);
    assert!(item.selected && item.enabled);
}

#[test]
fn spinner_defaults_to_tick_style() {
    assert_eq!(Spinner::new().style, SpinnerStyle::Ticks);
}

#[test]
fn spinner_style_can_be_changed() {
    assert_eq!(
        Spinner::new().style(SpinnerStyle::PixelSnake).style,
        SpinnerStyle::PixelSnake
    );
}

#[test]
fn pixel_snake_path_traces_square_perimeter() {
    let cells = pixel_snake_path(3);
    assert_eq!(
        cells,
        vec![(0, 0), (1, 0), (2, 0), (2, 1), (2, 2), (1, 2), (0, 2), (0, 1)]
    );
    assert_eq!(pixel_snake_path(1).len(), 8);
    let five = pixel_snake_path(5);
    assert_eq!(five.len(), 16);
    for k in 0..five.len() {
        let (a, b) = (five[k], five[(k + 1) % five.len()]);
        let dx = a.0.abs_diff(b.0);
        let dy = a.1.abs_diff(b.1);
        assert_eq!(dx + dy, 1);
    }
}

#[test]
fn kbd_draws_a_blank_keycap_without_keys() {
    assert_eq!(Kbd::shortcut(&[]).keycaps(), vec![String::new()]);
    assert_eq!(Kbd::shortcut(&["Ctrl", "K"]).keycaps(), vec!["Ctrl", "K"]);
}

#[test]
fn context_and_patch_labels() {
    let panel = ContextPanel::new(10, 20).window_count(3).auto_compact_at(6);
    assert_eq!(panel.window_label().as_deref(), Some("3 in window"));
    assert_eq!(panel.auto_compact_label().as_deref(), Some("Auto-compacts at 6"));
    assert_eq!(ContextPanel::new(1, 2).window_label(), None);
    let file = PatchFile::new("src/main.rs", 12, 4);
    assert_eq!(file.additions_label(), "+12");
    assert_eq!(file.deletions_label(), "-4");
}

#[test]
fn radios_select_their_value() {
    let mut density = 0usize;
    assert!(Radio::new(&mut density, 2, "Roomy").click());
    assert_eq!(density, 2);
    assert!(!Radio::new(&mut density, 2, "Roomy").click());
    assert!(!Radio::new(&mut density, 1, "Cosy").disabled().click());
    assert_eq!(density, 2);
    let options = vec![(0usize, "A".to_owned()), (1, "B".to_owned())];
    assert!(RadioGroup::new(&mut density, options.clone()).click(1));
    assert_eq!(density, 1);
    assert!(!RadioGroup::new(&mut density, options).disabled().click(0));
    assert_eq!(density, 1);
}

#[test]
fn accordion_item_from_owned_string() {
    let item = AccordionItem::from(String::from("Checks"));
    assert_eq!(item.title, "Checks");
    assert!(item.enabled);
}

#[test]
fn data_table_collects_columns_and_rows() {
    let mut selected = 0;
    let rows = vec![
        vec!["Build".to_owned(), "Done".to_owned()],
        vec!["Review".to_owned(), "Pending".to_owned()],
    ];
    let table = DataTable::new(&mut selected, &["Name", "State"], rows);

    assert_eq!(table.columns, ["Name", "State"]);
    assert_eq!(table.rows.len(), 2);
}

#[test]
fn data_table_rows_and_alignment() {
    let mut selected = 0;
    let rows = vec![vec!["Cast".to_owned(), "42".to_owned()]];
    let table = DataTable::new(&mut selected, &["Name", "Value"], rows)
        .right_aligned_columns(vec![1])
        .size(Size::Small);
    assert_eq!(table.size, Size::Small);
    assert!(table.is_right_aligned(1));
    assert!(!table.is_right_aligned(0));
    assert!(table.click_row(1));
    assert_eq!(selected, 1);
}

#[test]
fn metric_cards_and_sections() {
    let card = MetricCard::new("Runs", "42").delta("+3", Intent::Success).detail("this week");
    assert_eq!(card.value, "42");
    assert_eq!(card.delta.as_deref(), Some("+3"));
    assert_eq!(card.intent, Intent::Success);
    assert_eq!(card.detail.as_deref(), Some("this week"));
    let section = ReportSection::new("Usage").description("Last 30 days");
    assert_eq!(section.title, "Usage");
    assert_eq!(section.description.as_deref(), Some("Last 30 days"));
}
