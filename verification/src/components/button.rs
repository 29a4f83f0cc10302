//! Buttons: a label with optional icons, an intent, a variant, a size and
//! enabled / loading states.
use vstd::prelude::*;
use crate::foundation::{Intent, Size, Variant};
use crate::text::push_char;

verus! {

#[derive(Clone, Debug)]
pub struct Button {
    pub label: String,
    pub leading_icon: Option<String>,
    pub trailing_icon: Option<String>,
    pub intent: Intent,
    pub variant: Variant,
    pub size: Size,
    pub enabled: bool,
    pub loading: bool,
}

/// `parts` joined by single spaces (`[&str]::join(" ")`).
pub open spec fn join_spaced(parts: Seq<Seq<char>>) -> Seq<char>
    decreases parts.len(),
{
    if parts.len() == 0 {
        Seq::empty()
    } else if parts.len() == 1 {
        parts[0]
    } else {
        join_spaced(parts.drop_last()) + seq![' '] + parts.last()
    }
}

/// The pieces of a button's text: a loading ellipsis, the leading icon,
/// the label and the trailing icon, each when present.
pub open spec fn label_parts(b: Button) -> Seq<Seq<char>> {
    (if b.loading { seq!["..."@] } else { Seq::empty() }) + (match b.leading_icon {
        Some(i) => seq![i@],
        None => Seq::empty(),
    }) + seq![b.label@] + (match b.trailing_icon {
        Some(i) => seq![i@],
        None => Seq::empty(),
    })
}

fn push_part(out: &mut String, part: &str, first: bool, parts: Ghost<Seq<Seq<char>>>)
    requires
        old(out)@ == join_spaced(parts@),
        first == (parts@.len() == 0),
    ensures
        final(out)@ == join_spaced(parts@.push(part@)),
{
    if !first {
        push_char(out, ' ');
    }
    out.append(part);
    assert(parts@.push(part@).drop_last() =~= parts@);
    if first {
        assert(old(out)@ =~= Seq::<char>::empty());
        assert(final(out)@ =~= part@);
    }
}

impl Button {
    pub fn new(label: &str) -> (r: Self)
        ensures
            r.label@ == label@,
            r.leading_icon is None,
            r.trailing_icon is None,
            r.intent == Intent::Primary,
            r.variant == Variant::Solid,
            r.size == Size::Medium,
            r.enabled,
            !r.loading,
    {
        Button {
            label: String::from_str(label),
            leading_icon: None,
            trailing_icon: None,
            intent: Intent::Primary,
            variant: Variant::Solid,
            size: Size::Medium,
            enabled: true,
            loading: false,
        }
    }

    pub fn leading_icon(self, icon: &str) -> (r: Self)
        ensures
            r.leading_icon matches Some(i) && i@ == icon@,
            r == (Button { leading_icon: r.leading_icon, ..self }),
    {
        Button { leading_icon: Some(String::from_str(icon)), ..self }
    }

    pub fn trailing_icon(self, icon: &str) -> (r: Self)
        ensures
            r.trailing_icon matches Some(i) && i@ == icon@,
            r == (Button { trailing_icon: r.trailing_icon, ..self }),
    {
        Button { trailing_icon: Some(String::from_str(icon)), ..self }
    }

    pub fn intent(self, intent: Intent) -> (r: Self)
        ensures
            r == (Button { intent, ..self }),
    {
        Button { intent, ..self }
    }

    pub fn variant(self, variant: Variant) -> (r: Self)
        ensures
            r == (Button { variant, ..self }),
    {
        Button { variant, ..self }
    }

    pub fn size(self, size: Size) -> (r: Self)
        ensures
            r == (Button { size, ..self }),
    {
        Button { size, ..self }
    }

    pub fn enabled(self, enabled: bool) -> (r: Self)
        ensures
            r == (Button { enabled, ..self }),
    {
        Button { enabled, ..self }
    }

    pub fn disabled(self) -> (r: Self)
        ensures
            r == (Button { enabled: false, ..self }),
    {
        Button { enabled: false, ..self }
    }

    pub fn loading(self, loading: bool) -> (r: Self)
        ensures
            r == (Button { loading, ..self }),
    {
        Button { loading, ..self }
    }

    /// The text the button shows, such as "... [+] Save [>]".
    pub fn display_label(&self) -> (r: String)
        ensures
            r@ == join_spaced(label_parts(*self)),
    {
        let mut out = String::new();
        let ghost mut parts: Seq<Seq<char>> = Seq::empty();
        if self.loading {
            push_part(&mut out, "...", true, Ghost(parts));
            proof {
                parts = parts.push("..."@);
            }
        }
        match &self.leading_icon {
            Some(icon) => {
                push_part(&mut out, icon.as_str(), !self.loading, Ghost(parts));
                proof {
                    parts = parts.push(icon@);
                }
            },
            None => {},
        }
        let first = !self.loading && self.leading_icon.is_none();
        push_part(&mut out, self.label.as_str(), first, Ghost(parts));
        proof {
            parts = parts.push(self.label@);
        }
        match &self.trailing_icon {
            Some(icon) => {
                push_part(&mut out, icon.as_str(), false, Ghost(parts));
                proof {
                    parts = parts.push(icon@);
                }
            },
            None => {},
        }
        assert(parts =~= label_parts(*self));
        out
    }

    /// The button reacts to clicks: enabled and not loading.
    pub fn is_interactive(&self) -> (r: bool)
        ensures
            r == (self.enabled && !self.loading),
    {
        self.enabled && !self.loading
    }
}

} // verus!
