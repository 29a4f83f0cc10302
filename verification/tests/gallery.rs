use cast_ui::foundation::Intent;
use cast_ui::gallery::command_palette::{
    clamp_selected, commands, filtered_command_indices, handle_palette_keys, CommandPaletteState,
    PaletteKeys, COMMAND_COUNT,
};
use cast_ui::gallery::entity_table::{
    entity_interest_intent, entity_status_intent, payment_intent, rows_per_page_limit, table_page,
    EntityTableState,
};
use cast_ui::gallery::leads::{filtered_leads, lead_matches_choice, leads, LEAD_COUNT};
use cast_ui::gallery::shell::{
    child_route_selected, click_nav_entry, component_doc_route, component_nav_items,
    nav_entry_state, AppShellConfig, ComponentDocRoute, NavEntryState,
};

#[test]
fn lead_filters_apply_status_and_payment() {
    let filtered = filtered_leads("", 0, 0, 1, 1);

    assert!(!filtered.is_empty());
    assert!(filtered.iter().all(|lead| lead.status == "Won"));
    assert!(filtered.iter().all(|lead| lead.payment == "Paid"));
}

#[test]
fn lead_search_matches_visible_table_fields() {
    let filtered = filtered_leads("alex", 0, 0, 0, 0);

    assert!(!filtered.is_empty());
    assert!(filtered.iter().all(|lead| lead.assigned_to == "Alex W."));
}

#[test]
fn last_twenty_four_hours_filter_uses_recent_rows() {
    let filtered = filtered_leads("", 2, 0, 0, 0);

    assert!(!filtered.is_empty());
    assert!(filtered.iter().all(|lead| lead.days_ago == 0));
}

#[test]
fn main_rows_per_page_limit_is_state_backed() {
    assert_eq!(cast_ui::gallery::entity_table::rows_per_page_limit(0), 5);
    assert_eq!(cast_ui::gallery::entity_table::rows_per_page_limit(1), 10);
    assert_eq!(cast_ui::gallery::entity_table::rows_per_page_limit(2), 25);
}

#[test]
fn entity_table_with_details_rows_per_page_limit_is_state_backed() {
    assert_eq!(rows_per_page_limit(0), 5);
    assert_eq!(rows_per_page_limit(1), 10);
    assert_eq!(rows_per_page_limit(2), 25);
}

#[test]
fn entity_badge_intents_follow_record_semantics() {
    assert_eq!(entity_status_intent("Won"), Intent::Success);
    assert_eq!(entity_status_intent("No show"), Intent::Danger);
    assert_eq!(entity_interest_intent("Broke"), Intent::Warning);
    assert_eq!(payment_intent("Paid"), Intent::Success);
    assert_eq!(payment_intent("Pending"), Intent::Warning);
}

#[test]
fn entity_badge_intents_cover_every_status() {
    assert_eq!(entity_status_intent("Qualified"), Intent::Success);
    assert_eq!(entity_status_intent("Call booked"), Intent::Info);
    assert_eq!(entity_status_intent("Lost"), Intent::Danger);
    assert_eq!(entity_status_intent("Unqualified"), Intent::Danger);
    assert_eq!(entity_status_intent("Pending"), Intent::Neutral);
    assert_eq!(entity_interest_intent("Interested"), Intent::Primary);
    assert_eq!(entity_interest_intent("Achiever"), Intent::Success);
    assert_eq!(entity_interest_intent("N/A"), Intent::Neutral);
    assert_eq!(payment_intent("No value"), Intent::Neutral);
    assert_eq!(rows_per_page_limit(7), 5);
}

#[test]
fn command_filter_matches_title_and_detail() {
    assert_eq!(filtered_command_indices("theme"), vec![2, 3, 6]);
    assert_eq!(filtered_command_indices("diagnostics"), vec![5]);
}

#[test]
fn command_filter_returns_all_commands_for_empty_query() {
    assert_eq!(filtered_command_indices("").len(), commands().len());
}

#[test]
fn selected_index_clamps_to_available_matches() {
    let mut selected = 10;

    clamp_selected(&mut selected, 3);
    assert_eq!(selected, 2);

    clamp_selected(&mut selected, 0);
    assert_eq!(selected, 0);
}

#[test]
fn command_filter_trims_and_ignores_case() {
    assert_eq!(filtered_command_indices("  EXPORT "), vec![4]);
    assert_eq!(filtered_command_indices("no such command"), Vec::<usize>::new());
    assert_eq!(commands().len(), COMMAND_COUNT);
    assert_eq!(commands()[6].id, "reset-theme");
}

#[test]
fn palette_keys_move_and_run_the_highlighted_command() {
    let matches = vec![2, 3, 6];
    let mut selected = 0;
    let mut action = None;
    let down = PaletteKeys { down: true, up: false, enter: false };
    handle_palette_keys(&mut selected, &matches, down, &mut action);
    handle_palette_keys(&mut selected, &matches, down, &mut action);
    handle_palette_keys(&mut selected, &matches, down, &mut action);
    assert_eq!(selected, 2);
    assert_eq!(action, None);
    let up_enter = PaletteKeys { down: false, up: true, enter: true };
    handle_palette_keys(&mut selected, &matches, up_enter, &mut action);
    assert_eq!(selected, 1);
    assert_eq!(action, Some("toggle-mode"));
    let mut top = 0;
    handle_palette_keys(&mut top, &matches, PaletteKeys { down: false, up: true, enter: false }, &mut action);
    assert_eq!(top, 0);
    let mut none = 4;
    let mut untouched = None;
    handle_palette_keys(&mut none, &[], PaletteKeys { down: true, up: false, enter: true }, &mut untouched);
    assert_eq!(none, 0);
    assert_eq!(untouched, None);
}

#[test]
fn palette_row_click_records_and_closes() {
    let mut state = CommandPaletteState::default();
    state.open = true;
    let id = state.click_row(1, 5);
    assert_eq!(id, "review-diagnostics");
    assert_eq!(state.selected, 1);
    assert_eq!(state.last_action, Some("review-diagnostics"));
    assert!(!state.open);
    state.open = true;
    state.record_action(None);
    assert!(state.open);
}

#[test]
fn app_shell_config_defaults_match_gallery_shell() {
    let config = AppShellConfig::default();

    assert_eq!(config.title, "Cast");
    assert_eq!(config.nav_items[3], "Agent components");
    assert_eq!(config.nav_items.len(), 5);
}

#[test]
fn component_routes_open_their_pages() {
    assert_eq!(component_doc_route(2), Some(ComponentDocRoute::Overview));
    assert_eq!(component_doc_route(20), Some(ComponentDocRoute::Buttons));
    assert_eq!(component_doc_route(25), Some(ComponentDocRoute::Surfaces));
    assert_eq!(component_doc_route(0), None);
    assert_eq!(component_doc_route(26), None);
    let children = component_nav_items();
    assert_eq!(children.len(), 6);
    for child in &children {
        assert!(component_doc_route(child.route).is_some());
        assert_ne!(component_doc_route(child.route), Some(ComponentDocRoute::Overview));
    }
}

#[test]
fn sidebar_tree_highlights_parent_of_selected_page() {
    let children = component_nav_items();
    assert!(child_route_selected(&children, 22));
    assert!(!child_route_selected(&children, 3));
    assert_eq!(
        nav_entry_state(2, 22, false, true),
        NavEntryState { highlighted: true, children_shown: true }
    );
    assert_eq!(
        nav_entry_state(1, 22, true, true),
        NavEntryState { highlighted: false, children_shown: false }
    );
    let mut selected = 22;
    let mut open = false;
    click_nav_entry(2, &mut selected, &mut open);
    assert_eq!((selected, open), (2, true));
    click_nav_entry(2, &mut selected, &mut open);
    assert_eq!((selected, open), (2, false));
    click_nav_entry(4, &mut selected, &mut open);
    assert_eq!((selected, open), (4, false));
}

#[test]
fn lead_data_and_choice_filters() {
    assert_eq!(leads().len(), LEAD_COUNT);
    assert!(lead_matches_choice("Won", &["Any", "Won"], 0));
    assert!(lead_matches_choice("Won", &["Any", "Won"], 1));
    assert!(!lead_matches_choice("Lost", &["Any", "Won"], 1));
    assert!(!lead_matches_choice("Won", &["Any", "Won"], 9));
    assert_eq!(filtered_leads("", 0, 0, 0, 0).len(), LEAD_COUNT);
    let week = filtered_leads("", 1, 0, 0, 0);
    assert!(week.iter().all(|lead| lead.days_ago <= 7));
    assert_eq!(week.len(), 20);
    assert_eq!(filtered_leads("  SARAH ", 0, 0, 0, 0).len(), 4);
    assert!(filtered_leads("", 0, 9, 0, 0).is_empty());
}

#[test]
fn table_pages_stay_in_range() {
    let mut page = 9;
    let t = table_page(24, 0, &mut page);
    assert_eq!(page, 4);
    assert_eq!(t.page_count, 5);
    assert_eq!(t.row_offset, 20);
    assert_eq!(t.visible_count, 4);
    assert_eq!((t.visible_start, t.visible_end), (21, 24));
    assert!(!t.can_next);
    assert!(t.can_previous);

    let mut first = 0;
    let t = table_page(24, 2, &mut first);
    assert_eq!((t.page_count, t.visible_count, t.visible_start, t.visible_end), (1, 24, 1, 24));

    let mut empty = 3;
    let t = table_page(0, 1, &mut empty);
    assert_eq!(empty, 0);
    assert_eq!((t.page_count, t.visible_count, t.visible_start, t.visible_end), (1, 0, 0, 0));
    assert!(!t.can_next && !t.can_previous);
}

#[test]
fn table_state_pages_ticks_and_exports() {
    let mut state = EntityTableState::new(12);
    let t = state.layout(12);
    assert!(t.can_next);
    state.next_page(&t);
    assert_eq!(state.page, 1);
    state.toggle_expanded(6);
    state.toggle_selected(7);
    state.toggle_selected(40);
    let t = state.layout(12);
    assert_eq!(state.expanded_rows(&t), vec![1]);
    assert_eq!(state.selected_rows(&t), vec![2]);
    state.previous_page(&t);
    assert_eq!(state.page, 0);
    state.page = 2;
    state.set_rows_per_page(1);
    assert_eq!(state.page, 0);
    state.export(12);
    assert_eq!(state.exported_count, Some(12));
}

use cast_ui::foundation::ThemeMode;
use cast_ui::gallery::app_state::{
    count_selected, dismiss_toasts, scroll_route, take_scroll_reset, GalleryNavState, ThemeChange,
};
use cast_ui::gallery::related_activity::activity_events;

fn nav_state() -> GalleryNavState {
    GalleryNavState {
        sidebar_section: 0,
        components_nav_open: false,
        lead_exported_count: None,
        mode: ThemeMode::Light,
        follows_system_theme: true,
    }
}

#[test]
fn palette_actions_change_the_gallery_state() {
    let mut state = nav_state();
    assert_eq!(state.apply_command_palette_action("show-components", &[]), ThemeChange::Unchanged);
    assert_eq!(state.sidebar_section, 2);
    assert!(state.components_nav_open);
    state.apply_command_palette_action("theme-lab", &[]);
    assert_eq!(state.sidebar_section, 4);
    state.apply_command_palette_action("review-diagnostics", &[]);
    assert_eq!(state.sidebar_section, 1);
    state.apply_command_palette_action("agent-components", &[]);
    assert_eq!(state.sidebar_section, 3);
    state.apply_command_palette_action("open-workspace", &[]);
    assert_eq!(state.sidebar_section, 0);
    state.apply_command_palette_action("export-table", &[true, false, true, true]);
    assert_eq!(state.lead_exported_count, Some(3));
    assert_eq!(state.apply_command_palette_action("toggle-mode", &[]), ThemeChange::ModeToggled);
    assert_eq!(state.mode, ThemeMode::Dark);
    assert!(!state.follows_system_theme);
    assert_eq!(state.apply_command_palette_action("reset-theme", &[]), ThemeChange::Reset);
    assert_eq!(state.mode, ThemeMode::Dark);
    let before = state;
    assert_eq!(state.apply_command_palette_action("unknown", &[]), ThemeChange::Unchanged);
    assert_eq!(state, before);
}

#[test]
fn system_mode_is_followed_only_while_following() {
    let mut state = nav_state();
    assert!(state.follow_system_mode(ThemeMode::Dark));
    assert_eq!(state.mode, ThemeMode::Dark);
    assert!(!state.follow_system_mode(ThemeMode::Dark));
    state.follows_system_theme = false;
    assert!(!state.follow_system_mode(ThemeMode::Light));
    assert_eq!(state.mode, ThemeMode::Dark);
}

#[test]
fn page_scrolls_back_on_a_new_route() {
    assert_eq!(scroll_route(2, 3), (2, 3));
    assert_eq!(scroll_route(4, 3), (4, 0));
    let mut last = None;
    assert!(take_scroll_reset(&mut last, (0, 0)));
    assert!(!take_scroll_reset(&mut last, (0, 0)));
    assert!(take_scroll_reset(&mut last, (2, 1)));
    assert_eq!(last, Some((2, 1)));
}

#[test]
fn dismissed_toasts_leave_the_stack() {
    let mut toasts = vec!["a", "b", "c", "d"];
    assert!(dismiss_toasts(&mut toasts, &[0, 2]));
    assert_eq!(toasts, vec!["b", "d"]);
    assert!(!dismiss_toasts(&mut toasts, &[0, 1]));
    assert!(toasts.is_empty());
    let mut kept = vec![1, 2];
    assert!(dismiss_toasts(&mut kept, &[]));
    assert_eq!(count_selected(&[false, true]), 1);
}

#[test]
fn related_activity_groups() {
    assert_eq!(activity_events(0)[0].title, "Model planning");
    assert_eq!(activity_events(1)[2].detail, "Selection cells centered");
    assert_eq!(activity_events(7)[1].title, "Gallery build");
    assert_eq!(activity_events(2)[0].intent, Intent::Success);
}

#[test]
fn blank_query_with_a_status_filter_keeps_every_matching_status() {
    let won_and_paid = filtered_leads("   ", 0, 0, 1, 1);
    let with_empty_query = filtered_leads("", 0, 0, 1, 1);
    assert!(!won_and_paid.is_empty());
    assert_eq!(won_and_paid.len(), with_empty_query.len());
    assert_eq!(
        won_and_paid.len(),
        leads().iter().filter(|l| l.status == "Won" && l.payment == "Paid").count()
    );
}

#[test]
fn search_queries_are_trimmed_and_lower_cased() {
    assert_eq!(cast_ui::text::normalize_query("  HeLLo  "), "hello");
    assert_eq!(cast_ui::text::normalize_query(" \t "), "");
}
