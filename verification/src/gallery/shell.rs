//! The gallery shell: its sidebar configuration, the routes of its
//! sections and the rules of its navigation tree.
use vstd::prelude::*;

verus! {

/// The text of the shell's sidebar and its top-level navigation entries.
#[derive(Clone, Copy, Debug)]
pub struct AppShellConfig<'a> {
    pub title: &'a str,
    pub subtitle: &'a str,
    pub switcher_title: &'a str,
    pub switcher_meta: &'a str,
    pub nav_group: &'a str,
    pub nav_items: &'a [&'a str],
}

/// The gallery's top-level sections, in sidebar order.
pub open spec fn gallery_nav_items() -> Seq<Seq<char>> {
    seq!["Workbench"@, "Foundations"@, "Components"@, "Agent components"@, "Theme lab"@]
}

impl Default for AppShellConfig<'static> {
    fn default() -> (r: Self)
        ensures
            r.title@ == "Cast"@,
            r.subtitle@ == "Themeable egui components"@,
            r.switcher_title@ == "Cast UI"@,
            r.switcher_meta@ == "v0.1"@,
            r.nav_group@ == "Workspace"@,
            r.nav_items@.map_values(|s: &str| s@) == gallery_nav_items(),
    {
        let items: &'static [&'static str] = &["Workbench", "Foundations", "Components", "Agent components", "Theme lab"];
        assert(items@.map_values(|s: &str| s@) =~= gallery_nav_items());
        AppShellConfig {
            title: "Cast",
            subtitle: "Themeable egui components",
            switcher_title: "Cast UI",
            switcher_meta: "v0.1",
            nav_group: "Workspace",
            nav_items: items,
        }
    }
}

/// A second-level navigation entry and the section it opens.
#[derive(Clone, Copy, Debug)]
pub struct SidebarChildRoute<'a> {
    pub route: usize,
    pub label: &'a str,
}

pub const SECTION_WORKBENCH: usize = 0;
pub const SECTION_FOUNDATIONS: usize = 1;
pub const SECTION_COMPONENTS: usize = 2;
pub const SECTION_AGENT_COMPONENTS: usize = 3;
pub const SECTION_THEME_LAB: usize = 4;
pub const SECTION_COMPONENT_BUTTONS: usize = 20;
pub const SECTION_COMPONENT_INPUTS: usize = 21;
pub const SECTION_COMPONENT_TABLES: usize = 22;
pub const SECTION_COMPONENT_OVERLAYS: usize = 23;
pub const SECTION_COMPONENT_FEEDBACK: usize = 24;
pub const SECTION_COMPONENT_SURFACES: usize = 25;

/// The component documentation pages under "Components", in order.
pub open spec fn component_nav_spec() -> Seq<(usize, Seq<char>)> {
    seq![
        (SECTION_COMPONENT_BUTTONS, "Buttons"@),
        (SECTION_COMPONENT_INPUTS, "Inputs"@),
        (SECTION_COMPONENT_TABLES, "Tables"@),
        (SECTION_COMPONENT_OVERLAYS, "Overlays"@),
        (SECTION_COMPONENT_FEEDBACK, "Feedback"@),
        (SECTION_COMPONENT_SURFACES, "Surfaces"@),
    ]
}

pub fn component_nav_items() -> (r: Vec<SidebarChildRoute<'static>>)
    ensures
        r@.map_values(|c: SidebarChildRoute<'static>| (c.route, c.label@)) == component_nav_spec(),
{
    let v = vec![
        SidebarChildRoute { route: SECTION_COMPONENT_BUTTONS, label: "Buttons" },
        SidebarChildRoute { route: SECTION_COMPONENT_INPUTS, label: "Inputs" },
        SidebarChildRoute { route: SECTION_COMPONENT_TABLES, label: "Tables" },
        SidebarChildRoute { route: SECTION_COMPONENT_OVERLAYS, label: "Overlays" },
        SidebarChildRoute { route: SECTION_COMPONENT_FEEDBACK, label: "Feedback" },
        SidebarChildRoute { route: SECTION_COMPONENT_SURFACES, label: "Surfaces" },
    ];
    assert(v@.map_values(|c: SidebarChildRoute<'static>| (c.route, c.label@)) =~= component_nav_spec());
    v
}

/// The page of the component documentation that a section shows.
#[derive(Clone, Copy, Debug, PartialEq, Eq, Structural)]
pub enum ComponentDocRoute {
    Overview,
    Buttons,
    Inputs,
    Tables,
    Overlays,
    Feedback,
    Surfaces,
}

pub open spec fn component_doc_route_spec(section: usize) -> Option<ComponentDocRoute> {
    if section == SECTION_COMPONENTS {
        Some(ComponentDocRoute::Overview)
    } else if section == SECTION_COMPONENT_BUTTONS {
        Some(ComponentDocRoute::Buttons)
    } else if section == SECTION_COMPONENT_INPUTS {
        Some(ComponentDocRoute::Inputs)
    } else if section == SECTION_COMPONENT_TABLES {
        Some(ComponentDocRoute::Tables)
    } else if section == SECTION_COMPONENT_OVERLAYS {
        Some(ComponentDocRoute::Overlays)
    } else if section == SECTION_COMPONENT_FEEDBACK {
        Some(ComponentDocRoute::Feedback)
    } else if section == SECTION_COMPONENT_SURFACES {
        Some(ComponentDocRoute::Surfaces)
    } else {
        None
    }
}

/// The documentation page of a section; sections outside the component
/// documentation have none.
pub fn component_doc_route(section: usize) -> (r: Option<ComponentDocRoute>)
    ensures
        r == component_doc_route_spec(section),
{
    match section {
        SECTION_COMPONENTS => Some(ComponentDocRoute::Overview),
        SECTION_COMPONENT_BUTTONS => Some(ComponentDocRoute::Buttons),
        SECTION_COMPONENT_INPUTS => Some(ComponentDocRoute::Inputs),
        SECTION_COMPONENT_TABLES => Some(ComponentDocRoute::Tables),
        SECTION_COMPONENT_OVERLAYS => Some(ComponentDocRoute::Overlays),
        SECTION_COMPONENT_FEEDBACK => Some(ComponentDocRoute::Feedback),
        SECTION_COMPONENT_SURFACES => Some(ComponentDocRoute::Surfaces),
        _ => None,
    }
}

/// Every page of the component navigation opens its own documentation
/// page, and no two open the same one.
pub proof fn lemma_component_routes_have_pages(i: int, j: int)
    requires
        0 <= i < component_nav_spec().len(),
        0 <= j < component_nav_spec().len(),
    ensures
        component_doc_route_spec(component_nav_spec()[i].0) is Some,
        component_doc_route_spec(component_nav_spec()[i].0) != Some(ComponentDocRoute::Overview),
        i != j ==> component_doc_route_spec(component_nav_spec()[i].0) != component_doc_route_spec(
            component_nav_spec()[j].0,
        ),
{
}

/// The name of a documentation page, as its heading reads.
pub open spec fn doc_page_name(route: ComponentDocRoute) -> Seq<char> {
    match route {
        ComponentDocRoute::Overview => "Overview"@,
        ComponentDocRoute::Buttons => "Buttons"@,
        ComponentDocRoute::Inputs => "Inputs"@,
        ComponentDocRoute::Tables => "Tables"@,
        ComponentDocRoute::Overlays => "Overlays"@,
        ComponentDocRoute::Feedback => "Feedback"@,
        ComponentDocRoute::Surfaces => "Surfaces"@,
    }
}

/// Each entry of the component navigation opens the documentation page
/// named by its label: "Inputs" opens the Inputs page, "Tables" the
/// Tables page, and so on.
pub proof fn lemma_component_entries_open_their_page(i: int)
    requires
        0 <= i < component_nav_spec().len(),
    ensures
        component_doc_route_spec(component_nav_spec()[i].0) matches Some(page)
            && doc_page_name(page) == component_nav_spec()[i].1,
{
    reveal_strlit("Buttons");
    reveal_strlit("Inputs");
    reveal_strlit("Tables");
    reveal_strlit("Overlays");
    reveal_strlit("Feedback");
    reveal_strlit("Surfaces");
}

/// The index, among the top-level entries, of the one that holds the
/// component pages.
pub const COMPONENTS_NAV_INDEX: usize = 2;

pub open spec fn child_selected_spec(routes: Seq<usize>, selected: usize) -> bool {
    exists|i: int| 0 <= i < routes.len() && routes[i] == selected
}

/// One of the child pages is the selected section.
pub fn child_route_selected(children: &[SidebarChildRoute], selected: usize) -> (r: bool)
    ensures
        r == child_selected_spec(children@.map_values(|c: SidebarChildRoute| c.route), selected),
{
    let ghost routes = children@.map_values(|c: SidebarChildRoute| c.route);
    let mut i: usize = 0;
    while i < children.len()
        invariant
            i <= children.len(),
            routes == children@.map_values(|c: SidebarChildRoute| c.route),
            forall|j: int| 0 <= j < i ==> routes[j] != selected,
        decreases children.len() - i,
    {
        if children[i].route == selected {
            assert(routes[i as int] == selected);
            return true;
        }
        i = i + 1;
    }
    false
}

/// How the sidebar tree draws a top-level entry.
#[derive(Clone, Copy, Debug, PartialEq, Eq, Structural)]
pub struct NavEntryState {
    /// Drawn as the current section.
    pub highlighted: bool,
    /// Its child pages are listed below it.
    pub children_shown: bool,
}

/// The top-level entry at `index`: the components entry is highlighted
/// when it or one of its pages is selected, and lists its pages when open
/// or when one of them is selected; any other entry is highlighted when
/// selected and has no pages.
pub fn nav_entry_state(index: usize, selected: usize, components_open: bool, child_selected: bool) -> (r: NavEntryState)
    ensures
        index == COMPONENTS_NAV_INDEX ==> r == (NavEntryState {
            highlighted: selected == index || child_selected,
            children_shown: components_open || child_selected,
        }),
        index != COMPONENTS_NAV_INDEX ==> r == (NavEntryState { highlighted: selected == index, children_shown: false }),
{
    if index == COMPONENTS_NAV_INDEX {
        NavEntryState { highlighted: selected == index || child_selected, children_shown: components_open || child_selected }
    } else {
        NavEntryState { highlighted: selected == index, children_shown: false }
    }
}

/// A click on the top-level entry at `index`: it becomes the section, and
/// a click on the components entry also opens or closes its pages.
pub fn click_nav_entry(index: usize, selected: &mut usize, components_open: &mut bool)
    ensures
        *final(selected) == index,
        *final(components_open) == if index == COMPONENTS_NAV_INDEX { !*old(components_open) } else { *old(components_open) },
{
    if index == COMPONENTS_NAV_INDEX {
        *components_open = !*components_open;
    }
    *selected = index;
}

/// A click on a child page: its section becomes the selected one.
pub fn click_child(child: &SidebarChildRoute, selected: &mut usize)
    ensures
        *final(selected) == child.route,
{
    *selected = child.route;
}

} // verus!
