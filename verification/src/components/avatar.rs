//! Avatars: a circle with the initials of a name.
use vstd::prelude::*;
use crate::foundation::{Intent, Size};
use crate::text::{char_is_whitespace, chars_of, is_white, push_char, to_uppercase, unicode_uppercase};

verus! {

/// A round avatar showing the initials of its label.
#[derive(Clone, Debug)]
pub struct Avatar {
    pub label: String,
    pub intent: Intent,
    pub size: Size,
}

impl Avatar {
    pub fn new(label: &str) -> (r: Self)
        ensures
            r.label@ == label@,
            r.intent == Intent::Primary,
            r.size == Size::Medium,
    {
        Avatar { label: String::from_str(label), intent: Intent::Primary, size: Size::Medium }
    }

    pub fn intent(self, intent: Intent) -> (r: Self)
        ensures
            r.label == self.label,
            r.intent == intent,
            r.size == self.size,
    {
        Avatar { intent, ..self }
    }

    pub fn size(self, size: Size) -> (r: Self)
        ensures
            r.label == self.label,
            r.intent == self.intent,
            r.size == size,
    {
        Avatar { size, ..self }
    }
}

/// Position `i` of `s` starts a word: it is not white space and follows
/// white space or the start.
pub open spec fn starts_word(s: Seq<char>, i: int) -> bool {
    !is_white(s[i]) && (i == 0 || is_white(s[i - 1]))
}

/// The first character of every white-space separated word of `s`.
pub open spec fn word_initials(s: Seq<char>) -> Seq<char>
    decreases s.len(),
{
    if s.len() == 0 {
        Seq::empty()
    } else {
        let prev = word_initials(s.drop_last());
        if starts_word(s, s.len() - 1) {
            prev.push(s.last())
        } else {
            prev
        }
    }
}

/// At most the first two items of `s`.
pub open spec fn first_two(s: Seq<char>) -> Seq<char> {
    if s.len() <= 2 {
        s
    } else {
        s.take(2)
    }
}

/// The initials an avatar shows: the first letters of the first two words,
/// upper-cased, or "?" when there are none.
pub open spec fn avatar_initials_seq(label: Seq<char>) -> Seq<char> {
    let initials = first_two(word_initials(label));
    if initials.len() == 0 {
        "?"@
    } else {
        let up = unicode_uppercase(initials);
        if up.len() == 0 {
            "?"@
        } else {
            up
        }
    }
}

proof fn lemma_word_initials_prefix(s: Seq<char>, i: int)
    requires
        0 < i <= s.len(),
    ensures
        word_initials(s.take(i)) == if starts_word(s, i - 1) {
            word_initials(s.take(i - 1)).push(s[i - 1])
        } else {
            word_initials(s.take(i - 1))
        },
{
    let t = s.take(i);
    assert(t.drop_last() =~= s.take(i - 1));
    assert(t.last() == s[i - 1]);
    if i > 1 {
        assert(t[i - 2] == s[i - 2]);
    }
}

pub fn avatar_initials(label: &str) -> (r: String)
    ensures
        r@ == avatar_initials_seq(label@),
{
    let cs = chars_of(label);
    let mut raw = String::new();
    let mut count: usize = 0;
    let mut i: usize = 0;
    assert(cs@.take(0) =~= Seq::<char>::empty());
    while i < cs.len()
        invariant
            i <= cs.len(),
            cs@ == label@,
            count == if word_initials(cs@.take(i as int)).len() < 2 { word_initials(cs@.take(i as int)).len() } else { 2 },
            raw@ == first_two(word_initials(cs@.take(i as int))),
        decreases cs.len() - i,
    {
        let c = cs[i];
        let starts = !char_is_whitespace(c) && (i == 0 || char_is_whitespace(cs[i - 1]));
        proof {
            lemma_word_initials_prefix(cs@, i + 1);
        }
        if starts && count < 2 {
            push_char(&mut raw, c);
            count = count + 1;
        }
        i = i + 1;
        proof {
            let w = word_initials(cs@.take(i as int));
            let pw = word_initials(cs@.take(i - 1));
            if starts {
                assert(w == pw.push(c));
                if pw.len() >= 2 {
                    assert(first_two(w) =~= first_two(pw));
                }
            }
        }
    }
    assert(cs@.take(cs.len() as int) =~= cs@);
    let up = to_uppercase(raw.as_str());
    if up.as_str().unicode_len() == 0 {
        String::from_str("?")
    } else {
        up
    }
}

} // verus!
