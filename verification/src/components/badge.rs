//! Badges: short labels tinted by intent, optionally with a status dot.
use vstd::prelude::*;
use crate::foundation::{Intent, Size, ThemeMode, Variant};

verus! {

/// A small label tinted by intent.
#[derive(Clone, Debug)]
pub struct Badge {
    pub label: String,
    pub intent: Intent,
    /// The variant asked for; `None` leaves it to the intent.
    pub variant: Option<Variant>,
    pub size: Size,
    pub status_dot: bool,
}

impl Badge {
    pub fn new(label: &str) -> (r: Self)
        ensures
            r.label@ == label@,
            r.intent == Intent::Neutral,
            r.variant is None,
            r.size == Size::Small,
            !r.status_dot,
    {
        Badge { label: String::from_str(label), intent: Intent::Neutral, variant: None, size: Size::Small, status_dot: false }
    }

    pub fn intent(self, intent: Intent) -> (r: Self)
        ensures
            r == (Badge { intent, ..self }),
    {
        Badge { intent, ..self }
    }

    pub fn variant(self, variant: Variant) -> (r: Self)
        ensures
            r == (Badge { variant: Some(variant), ..self }),
    {
        Badge { variant: Some(variant), ..self }
    }

    pub fn size(self, size: Size) -> (r: Self)
        ensures
            r == (Badge { size, ..self }),
    {
        Badge { size, ..self }
    }

    /// Shows a status dot before the label; the badge becomes an outline.
    pub fn status_dot(self) -> (r: Self)
        ensures
            r == (Badge { status_dot: true, variant: Some(Variant::Outline), ..self }),
    {
        Badge { status_dot: true, variant: Some(Variant::Outline), ..self }
    }
}

/// The variant of a badge whose variant is not given: solid for the brand
/// intents, subtle for the others.
pub open spec fn default_variant(intent: Intent) -> Variant {
    match intent {
        Intent::Primary | Intent::Secondary => Variant::Solid,
        _ => Variant::Subtle,
    }
}

pub fn default_badge_variant(intent: Intent) -> (r: Variant)
    ensures
        r == default_variant(intent),
{
    match intent {
        Intent::Primary | Intent::Secondary => Variant::Solid,
        Intent::Neutral | Intent::Success | Intent::Warning | Intent::Danger | Intent::Info => Variant::Subtle,
    }
}

/// Which colour rule a badge is painted with.
#[derive(Clone, Copy, Debug, PartialEq, Eq, Structural)]
pub enum BadgeColorRule {
    /// Light pill with a contrast-adjusted primary label (dark theme).
    DarkPrimarySolid,
    /// Transparent fill, emphasis label, faint semantic border.
    SemanticOutline,
    /// Faint semantic fill and border with an emphasis label.
    SemanticSubtle,
    /// The shared intent colours of the variant.
    Standard(Variant),
}

/// The colour rule of a badge: solid primary badges on dark themes get a
/// light pill, outline and subtle badges of a semantic intent get tinted
/// colours, everything else uses the shared intent colours.
pub open spec fn badge_rule(mode: ThemeMode, intent: Intent, explicit_variant: Option<Variant>) -> BadgeColorRule {
    let variant = match explicit_variant {
        Some(v) => v,
        None => default_variant(intent),
    };
    if mode == ThemeMode::Dark && intent == Intent::Primary && variant == Variant::Solid {
        BadgeColorRule::DarkPrimarySolid
    } else if variant == Variant::Outline && intent != Intent::Neutral {
        BadgeColorRule::SemanticOutline
    } else if variant != Variant::Subtle || intent == Intent::Neutral {
        BadgeColorRule::Standard(variant)
    } else {
        BadgeColorRule::SemanticSubtle
    }
}

pub fn badge_color_rule(mode: ThemeMode, intent: Intent, explicit_variant: Option<Variant>) -> (r: BadgeColorRule)
    ensures
        r == badge_rule(mode, intent, explicit_variant),
{
    let variant = match explicit_variant {
        Some(v) => v,
        None => default_badge_variant(intent),
    };
    if mode == ThemeMode::Dark && intent == Intent::Primary && variant == Variant::Solid {
        BadgeColorRule::DarkPrimarySolid
    } else if variant == Variant::Outline && intent != Intent::Neutral {
        BadgeColorRule::SemanticOutline
    } else if variant != Variant::Subtle || intent == Intent::Neutral {
        BadgeColorRule::Standard(variant)
    } else {
        BadgeColorRule::SemanticSubtle
    }
}

} // verus!
