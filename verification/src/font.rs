//! Font installation rules: the Google Fonts directory slug of a family,
//! weight lists, weight detection from file names, the choice and order of
//! the files to install, and the command line of the font tool.
use vstd::prelude::*;
use crate::text::{
    ascii_lower, char_ascii_lower, char_is_ascii_alnum, chars_of, is_ascii_alnum, push_char,
    string_from_chars, trim_seq, trim_vec, ascii_lower_seq, ascii_lowercase_chars, contains_chars,
    contains_seq, str_equal, str_views, string_views,
};

verus! {

/// The Google Fonts directory name of a family: its ASCII letters and
/// digits, lower-cased.
pub open spec fn slug_seq(family: Seq<char>) -> Seq<char> {
    family.filter(|c: char| is_ascii_alnum(c)).map_values(|c: char| ascii_lower(c))
}

pub fn google_fonts_slug(family: &str) -> (r: String)
    ensures
        r@ == slug_seq(family@),
{
    let cs = chars_of(family);
    let mut out = String::new();
    let mut i: usize = 0;
    while i < cs.len()
        invariant
            i <= cs.len(),
            cs@ == family@,
            out@ == slug_seq(cs@.take(i as int)),
        decreases cs.len() - i,
    {
        let c = cs[i];
        proof {
            reveal_with_fuel(Seq::<char>::filter, 1);
            assert(cs@.take(i + 1).drop_last() =~= cs@.take(i as int));
        }
        if char_is_ascii_alnum(c) {
            let l = char_ascii_lower(c);
            push_char(&mut out, l);
        }
        i = i + 1;
        proof {
            let f = |c: char| is_ascii_alnum(c);
            let g = |c: char| ascii_lower(c);
            let prev = cs@.take(i - 1).filter(f);
            if is_ascii_alnum(c) {
                assert(cs@.take(i as int).filter(f) == prev.push(c));
                assert(prev.push(c).map_values(g) =~= prev.map_values(g).push(ascii_lower(c)));
            } else {
                assert(cs@.take(i as int).filter(f) == prev);
            }
        }
    }
    assert(cs@.take(cs.len() as int) =~= cs@);
    out
}

/// Why a decimal number could not be read (`core::num::IntErrorKind`).
#[derive(Clone, Copy, Debug, PartialEq, Eq, Structural)]
pub enum IntErrorKind {
    Empty,
    InvalidDigit,
    PosOverflow,
}

pub open spec fn is_digit(c: char) -> bool {
    '0' <= c && c <= '9'
}

pub open spec fn digit_value(c: char) -> int {
    c as int - 0x30
}

/// Reads the digits `d[i..]` onto `acc`, left to right, as `u16`.
pub open spec fn scan_u16(d: Seq<char>, i: int, acc: int) -> Result<u16, IntErrorKind>
    decreases d.len() - i,
{
    if i >= d.len() {
        Ok(acc as u16)
    } else if !is_digit(d[i]) {
        Err(IntErrorKind::InvalidDigit)
    } else if acc * 10 + digit_value(d[i]) > u16::MAX {
        Err(IntErrorKind::PosOverflow)
    } else {
        scan_u16(d, i + 1, acc * 10 + digit_value(d[i]))
    }
}

/// `str::parse::<u16>`: an optional '+', then decimal digits, the value at
/// most `u16::MAX`.
pub open spec fn parse_u16_spec(t: Seq<char>) -> Result<u16, IntErrorKind> {
    if t.len() == 0 {
        Err(IntErrorKind::Empty)
    } else if t.len() == 1 && (t[0] == '+' || t[0] == '-') {
        Err(IntErrorKind::InvalidDigit)
    } else if t[0] == '+' {
        scan_u16(t, 1, 0)
    } else {
        scan_u16(t, 0, 0)
    }
}

/// Reads a decimal `u16` the way `str::parse::<u16>` does.
pub fn parse_u16(t: &Vec<char>) -> (r: Result<u16, IntErrorKind>)
    ensures
        r == parse_u16_spec(t@),
{
    if t.len() == 0 {
        return Err(IntErrorKind::Empty);
    }
    if t.len() == 1 && (t[0] == '+' || t[0] == '-') {
        return Err(IntErrorKind::InvalidDigit);
    }
    let mut i: usize = if t[0] == '+' { 1 } else { 0 };
    let ghost start = i as int;
    let mut acc: u32 = 0;
    while i < t.len()
        invariant
            start <= i <= t.len(),
            acc <= u16::MAX,
            parse_u16_spec(t@) == scan_u16(t@, i as int, acc as int),
        decreases t.len() - i,
    {
        let c = t[i];
        if !('0' <= c && c <= '9') {
            return Err(IntErrorKind::InvalidDigit);
        }
        let v = acc * 10 + ((c as u32) - 0x30);
        if v > 65535 {
            return Err(IntErrorKind::PosOverflow);
        }
        acc = v;
        i = i + 1;
    }
    Ok(acc as u16)
}

/// The pieces of `s` between commas (`str::split(',')`); the empty string
/// gives one empty piece.
pub open spec fn split_commas(s: Seq<char>) -> Seq<Seq<char>>
    decreases s.len(),
{
    if s.len() == 0 {
        seq![Seq::empty()]
    } else {
        let p = split_commas(s.drop_last());
        if s.last() == ',' {
            p.push(Seq::empty())
        } else {
            p.update(p.len() - 1, p.last().push(s.last()))
        }
    }
}

proof fn lemma_split_nonempty(s: Seq<char>)
    ensures
        split_commas(s).len() >= 1,
    decreases s.len(),
{
    if s.len() > 0 {
        lemma_split_nonempty(s.drop_last());
    }
}

/// A weight that could not be read: the comma-separated piece as written
/// and the reason.
#[derive(Clone, Debug)]
pub struct WeightError {
    pub field: String,
    pub kind: IntErrorKind,
}

/// Reads each trimmed piece in turn; the first piece that is not a `u16`
/// ends the reading with its error.
pub open spec fn parse_fields(fields: Seq<Seq<char>>) -> Result<Seq<u16>, (Seq<char>, IntErrorKind)>
    decreases fields.len(),
{
    if fields.len() == 0 {
        Ok(Seq::empty())
    } else {
        match parse_fields(fields.drop_last()) {
            Err(e) => Err(e),
            Ok(v) => match parse_u16_spec(trim_seq(fields.last())) {
                Ok(w) => Ok(v.push(w)),
                Err(k) => Err((fields.last(), k)),
            },
        }
    }
}

/// The comma-separated pieces of `s`.
pub fn split_on_commas(s: &str) -> (r: Vec<Vec<char>>)
    ensures
        r@.map_values(|f: Vec<char>| f@) == split_commas(s@),
{
    let cs = chars_of(s);
    let mut fields: Vec<Vec<char>> = Vec::new();
    let mut current: Vec<char> = Vec::new();
    let mut i: usize = 0;
    while i < cs.len()
        invariant
            i <= cs.len(),
            cs@ == s@,
            fields@.map_values(|f: Vec<char>| f@).push(current@) == split_commas(cs@.take(i as int)),
        decreases cs.len() - i,
    {
        let c = cs[i];
        proof {
            assert(cs@.take(i + 1).drop_last() =~= cs@.take(i as int));
            lemma_split_nonempty(cs@.take(i as int));
        }
        if c == ',' {
            let done = current;
            fields.push(done);
            current = Vec::new();
            proof {
                assert(fields@.map_values(|f: Vec<char>| f@).push(current@) =~= split_commas(
                    cs@.take(i as int),
                ).push(Seq::empty()));
            }
        } else {
            let ghost before = current@;
            current.push(c);
            proof {
                let p = split_commas(cs@.take(i as int));
                assert(fields@.map_values(|f: Vec<char>| f@).push(current@) =~= p.update(
                    p.len() - 1,
                    p.last().push(c),
                ));
            }
        }
        i = i + 1;
    }
    fields.push(current);
    assert(cs@.take(cs.len() as int) =~= cs@);
    fields
}

/// Reads a comma-separated weight list such as "400, 500,600".
pub fn parse_weights(weights: &str) -> (r: Result<Vec<u16>, WeightError>)
    ensures
        match (r, parse_fields(split_commas(weights@))) {
            (Ok(v), Ok(w)) => v@ == w,
            (Err(e), Err((field, kind))) => e.field@ == field && e.kind == kind,
            _ => false,
        },
{
    let fields = split_on_commas(weights);
    let ghost fs = fields@.map_values(|f: Vec<char>| f@);
    let mut out: Vec<u16> = Vec::new();
    let mut i: usize = 0;
    while i < fields.len()
        invariant
            i <= fields.len(),
            fs == fields@.map_values(|f: Vec<char>| f@),
            fs == split_commas(weights@),
            parse_fields(fs.take(i as int)) == Ok::<Seq<u16>, (Seq<char>, IntErrorKind)>(out@),
        decreases fields.len() - i,
    {
        proof {
            assert(fs.take(i + 1).drop_last() =~= fs.take(i as int));
            assert(fs.take(i + 1).last() == fields@[i as int]@);
        }
        let piece = trim_vec(&fields[i]);
        match parse_u16(&piece) {
            Ok(w) => {
                out.push(w);
            },
            Err(kind) => {
                let field = string_from_chars(&fields[i]);
                proof {
                    assert(parse_fields(fs.take(i + 1)) == Err::<Seq<u16>, (Seq<char>, IntErrorKind)>(
                        (fields@[i as int]@, kind),
                    ));
                    lemma_parse_fields_stops(fs, i as int + 1);
                }
                return Err(WeightError { field, kind });
            },
        }
        i = i + 1;
    }
    assert(fs.take(fields.len() as int) =~= fs);
    Ok(out)
}

/// Once a prefix of the pieces fails, the whole list fails the same way.
proof fn lemma_parse_fields_stops(fs: Seq<Seq<char>>, k: int)
    requires
        0 <= k <= fs.len(),
        parse_fields(fs.take(k)) is Err,
    ensures
        parse_fields(fs) == parse_fields(fs.take(k)),
    decreases fs.len() - k,
{
    if k < fs.len() {
        assert(fs.take(k + 1).drop_last() =~= fs.take(k));
        lemma_parse_fields_stops(fs, k + 1);
    } else {
        // Here the prefix is the whole list.
        assert(fs.take(k) =~= fs);
    }
}

/// `name`, ASCII lower-cased, contains `label`.
pub open spec fn name_has(name: Seq<char>, label: Seq<char>) -> bool {
    contains_seq(ascii_lower_seq(name), label)
}

/// Italic styles are marked by "italic" anywhere in the file name, in any
/// ASCII case.
pub open spec fn italic_name(name: Seq<char>) -> bool {
    name_has(name, "italic"@)
}

/// Variable-weight fonts carry the "wght" axis tag in the file name.
pub open spec fn variable_weight_name(name: Seq<char>) -> bool {
    name_has(name, "wght"@)
}

/// The weight named in a file name: the first of extrabold, semibold,
/// extralight, thin, light, regular, medium, bold and black that occurs in
/// it, in any ASCII case.
pub open spec fn weight_of_name(name: Seq<char>) -> Option<u16> {
    if name_has(name, "extrabold"@) {
        Some(800)
    } else if name_has(name, "semibold"@) {
        Some(600)
    } else if name_has(name, "extralight"@) {
        Some(200)
    } else if name_has(name, "thin"@) {
        Some(100)
    } else if name_has(name, "light"@) {
        Some(300)
    } else if name_has(name, "regular"@) {
        Some(400)
    } else if name_has(name, "medium"@) {
        Some(500)
    } else if name_has(name, "bold"@) {
        Some(700)
    } else if name_has(name, "black"@) {
        Some(900)
    } else {
        None
    }
}

fn lower_contains(lower: &Vec<char>, label: &str) -> (r: bool)
    ensures
        r == contains_seq(lower@, label@),
{
    let l = chars_of(label);
    contains_chars(lower, &l)
}

pub fn is_italic(name: &str) -> (r: bool)
    ensures
        r == italic_name(name@),
{
    let lower = ascii_lowercase_chars(name);
    lower_contains(&lower, "italic")
}

pub fn is_weight_variable(name: &str) -> (r: bool)
    ensures
        r == variable_weight_name(name@),
{
    let lower = ascii_lowercase_chars(name);
    lower_contains(&lower, "wght")
}

/// License files the tool installs next to the fonts.
pub open spec fn license_name(name: Seq<char>) -> bool {
    name == "LICENSE.txt"@ || name == "OFL.txt"@ || name == "UFL.txt"@
}

pub fn is_license_file(name: &str) -> (r: bool)
    ensures
        r == license_name(name@),
{
    str_equal(name, "LICENSE.txt") || str_equal(name, "OFL.txt") || str_equal(name, "UFL.txt")
}

pub fn font_weight(name: &str) -> (r: Option<u16>)
    ensures
        r == weight_of_name(name@),
{
    let lower = ascii_lowercase_chars(name);
    if lower_contains(&lower, "extrabold") {
        Some(800)
    } else if lower_contains(&lower, "semibold") {
        Some(600)
    } else if lower_contains(&lower, "extralight") {
        Some(200)
    } else if lower_contains(&lower, "thin") {
        Some(100)
    } else if lower_contains(&lower, "light") {
        Some(300)
    } else if lower_contains(&lower, "regular") {
        Some(400)
    } else if lower_contains(&lower, "medium") {
        Some(500)
    } else if lower_contains(&lower, "bold") {
        Some(700)
    } else if lower_contains(&lower, "black") {
        Some(900)
    } else {
        None
    }
}

/// A font file listed in the family's directory.
#[derive(Clone, Debug)]
pub struct GitHubFile {
    pub name: String,
    pub download_url: String,
}

/// The file is kept by the style filter: italics only when asked for.
pub open spec fn style_kept(f: GitHubFile, include_italics: bool) -> bool {
    include_italics || !italic_name(f.name@)
}

/// The file is kept by the weight filter: any weight when none is asked
/// for, else a named weight among those asked for.
pub open spec fn weight_kept(f: GitHubFile, weights: Seq<u16>) -> bool {
    weights.len() == 0 || (weight_of_name(f.name@) matches Some(w) && weights.contains(w))
}

/// Positions `0..n`.
pub open spec fn positions(n: nat) -> Seq<int> {
    Seq::new(n, |i: int| i)
}

/// Positions of the files of the requested styles and weights.
pub open spec fn first_choice(files: Seq<GitHubFile>, weights: Seq<u16>, include_italics: bool) -> Seq<int> {
    positions(files.len()).filter(|i: int| style_kept(files[i], include_italics) && weight_kept(files[i], weights))
}

/// Positions of the variable-weight files of the requested styles.
pub open spec fn variable_choice(files: Seq<GitHubFile>, include_italics: bool) -> Seq<int> {
    positions(files.len()).filter(|i: int| style_kept(files[i], include_italics) && variable_weight_name(files[i].name@))
}

/// The files to install: those of the requested styles and weights, or,
/// when weights were asked for and no file names one of them, the
/// variable-weight files.
pub open spec fn chosen(files: Seq<GitHubFile>, weights: Seq<u16>, include_italics: bool) -> Seq<int> {
    let first = first_choice(files, weights, include_italics);
    if first.len() == 0 && weights.len() > 0 {
        variable_choice(files, include_italics)
    } else {
        first
    }
}

/// The weight a file sorts by: its named weight, else after every weight.
pub open spec fn sort_weight(f: GitHubFile) -> int {
    match weight_of_name(f.name@) {
        Some(w) => w as int,
        None => u16::MAX as int,
    }
}

/// Strict lexicographic order of character sequences by code point, the
/// order of `String`.
pub open spec fn seq_lt(a: Seq<char>, b: Seq<char>) -> bool
    decreases a.len(),
{
    if b.len() == 0 {
        false
    } else if a.len() == 0 {
        true
    } else if a[0] != b[0] {
        a[0] < b[0]
    } else {
        seq_lt(a.drop_first(), b.drop_first())
    }
}

/// File `f` sorts strictly before file `g`: by weight, then by name.
pub open spec fn file_lt(f: GitHubFile, g: GitHubFile) -> bool {
    sort_weight(f) < sort_weight(g) || (sort_weight(f) == sort_weight(g) && seq_lt(f.name@, g.name@))
}

/// Where a stable insertion puts file position `e` into `s`: before the
/// first file that sorts strictly after it.
pub open spec fn insert_position(files: Seq<GitHubFile>, s: Seq<int>, e: int) -> int
    decreases s.len(),
{
    if s.len() == 0 {
        0
    } else if file_lt(files[e], files[s[0]]) {
        0
    } else {
        1 + insert_position(files, s.drop_first(), e)
    }
}

/// Stable sort of file positions by weight, then name.
pub open spec fn sorted_positions(files: Seq<GitHubFile>, s: Seq<int>) -> Seq<int>
    decreases s.len(),
{
    if s.len() == 0 {
        s
    } else {
        let t = sorted_positions(files, s.drop_last());
        t.insert(insert_position(files, t, s.last()), s.last())
    }
}

/// The files `select_fonts` returns, as positions in `files`.
pub open spec fn selection(files: Seq<GitHubFile>, weights: Seq<u16>, include_italics: bool) -> Seq<int> {
    sorted_positions(files, chosen(files, weights, include_italics))
}

proof fn lemma_insert_position_bound(files: Seq<GitHubFile>, s: Seq<int>, e: int)
    ensures
        0 <= insert_position(files, s, e) <= s.len(),
    decreases s.len(),
{
    if s.len() > 0 {
        lemma_insert_position_bound(files, s.drop_first(), e);
    }
}

proof fn lemma_sorted_positions_len(files: Seq<GitHubFile>, s: Seq<int>)
    ensures
        sorted_positions(files, s).len() == s.len(),
    decreases s.len(),
{
    if s.len() > 0 {
        lemma_sorted_positions_len(files, s.drop_last());
        lemma_insert_position_bound(files, sorted_positions(files, s.drop_last()), s.last());
    }
}

/// Whether the name `a` sorts strictly before the name `b`.
fn chars_lt(a: &Vec<char>, b: &Vec<char>) -> (r: bool)
    ensures
        r == seq_lt(a@, b@),
{
    let mut k: usize = 0;
    assert(a@.skip(0) =~= a@);
    assert(b@.skip(0) =~= b@);
    while k < a.len() && k < b.len() && a[k] == b[k]
        invariant
            k <= a.len(),
            k <= b.len(),
            seq_lt(a@, b@) == seq_lt(a@.skip(k as int), b@.skip(k as int)),
        decreases a.len() - k,
    {
        proof {
            assert(a@.skip(k as int).drop_first() =~= a@.skip(k + 1));
            assert(b@.skip(k as int).drop_first() =~= b@.skip(k + 1));
        }
        k = k + 1;
    }
    if k == b.len() {
        false
    } else if k == a.len() {
        true
    } else {
        a[k] < b[k]
    }
}

fn sort_weight_of(f: &GitHubFile) -> (r: u32)
    ensures
        r as int == sort_weight(*f),
{
    match font_weight(f.name.as_str()) {
        Some(w) => w as u32,
        None => 65535,
    }
}

fn file_before(f: &GitHubFile, g: &GitHubFile) -> (r: bool)
    ensures
        r == file_lt(*f, *g),
{
    let wf = sort_weight_of(f);
    let wg = sort_weight_of(g);
    if wf != wg {
        return wf < wg;
    }
    let a = chars_of(f.name.as_str());
    let b = chars_of(g.name.as_str());
    chars_lt(&a, &b)
}

/// Positions of the files the two filters keep.
fn filter_positions(files: &[GitHubFile], weights: &[u16], include_italics: bool, variable: bool) -> (r: Vec<usize>)
    ensures
        r@.map_values(|i: usize| i as int) == if variable {
            variable_choice(files@, include_italics)
        } else {
            first_choice(files@, weights@, include_italics)
        },
{
    let ghost pred = if variable {
        |i: int| style_kept(files@[i], include_italics) && variable_weight_name(files@[i].name@)
    } else {
        |i: int| style_kept(files@[i], include_italics) && weight_kept(files@[i], weights@)
    };
    let mut out: Vec<usize> = Vec::new();
    let mut i: usize = 0;
    while i < files.len()
        invariant
            i <= files.len(),
            out@.map_values(|i: usize| i as int) == positions(files@.len()).take(i as int).filter(pred),
            pred == (if variable {
                |i: int| style_kept(files@[i], include_italics) && variable_weight_name(files@[i].name@)
            } else {
                |i: int| style_kept(files@[i], include_italics) && weight_kept(files@[i], weights@)
            }),
        decreases files.len() - i,
    {
        proof {
            reveal_with_fuel(Seq::<int>::filter, 1);
            assert(positions(files@.len()).take(i + 1).drop_last() =~= positions(files@.len()).take(i as int));
        }
        let f = &files[i];
        let style = include_italics || !is_italic(f.name.as_str());
        let keep = if variable {
            style && is_weight_variable(f.name.as_str())
        } else {
            let weight_ok = if weights.len() == 0 {
                true
            } else {
                match font_weight(f.name.as_str()) {
                    Some(w) => {
                        let mut found = false;
                        let mut k: usize = 0;
                        while k < weights.len()
                            invariant
                                k <= weights.len(),
                                found == (exists|j: int| 0 <= j < k && weights@[j] == w),
                            decreases weights.len() - k,
                        {
                            if weights[k] == w {
                                found = true;
                            }
                            k = k + 1;
                        }
                        found
                    },
                    None => false,
                }
            };
            style && weight_ok
        };
        let ghost before = out@.map_values(|i: usize| i as int);
        if keep {
            out.push(i);
            proof {
                assert(out@.map_values(|i: usize| i as int) =~= before.push(i as int));
            }
        }
        proof {
            assert(pred(i as int) == keep);
            assert(positions(files@.len()).take(i + 1).last() == i as int);
        }
        i = i + 1;
    }
    proof {
        assert(positions(files@.len()).take(files.len() as int) =~= positions(files@.len()));
    }
    out
}

/// The font files to install, ordered by weight and then name: the files
/// of the requested weights (all weights when none is given), without
/// italics unless they are included; when weights were given and none
/// matched, the variable-weight files instead.
pub fn select_fonts<'a>(files: &'a [GitHubFile], weights: &[u16], include_italics: bool) -> (r: Vec<&'a GitHubFile>)
    ensures
        r@.len() == selection(files@, weights@, include_italics).len(),
        forall|k: int| 0 <= k < r@.len() ==> *r@[k] == files@[selection(files@, weights@, include_italics)[k]],
{
    let mut picked = filter_positions(files, weights, include_italics, false);
    if picked.len() == 0 && weights.len() > 0 {
        picked = filter_positions(files, weights, include_italics, true);
    }
    let ghost cand = picked@.map_values(|i: usize| i as int);
    assert(cand == chosen(files@, weights@, include_italics));
    proof {
        assert forall|j: int| 0 <= j < cand.len() implies 0 <= #[trigger] cand[j] < files@.len() by {
            lemma_chosen_in_range(files@, weights@, include_italics, j);
        }
    }
    let mut order: Vec<usize> = Vec::new();
    let mut i: usize = 0;
    while i < picked.len()
        invariant
            i <= picked.len(),
            cand == picked@.map_values(|i: usize| i as int),
            forall|j: int| 0 <= j < cand.len() ==> 0 <= #[trigger] cand[j] < files@.len(),
            order@.map_values(|i: usize| i as int) == sorted_positions(files@, cand.take(i as int)),
            forall|j: int| 0 <= j < order@.len() ==> (#[trigger] order@[j] as int) < files@.len(),
        decreases picked.len() - i,
    {
        let e = picked[i];
        let ghost t = order@.map_values(|i: usize| i as int);
        proof {
            assert(cand.take(i + 1).drop_last() =~= cand.take(i as int));
            assert(cand.take(i + 1).last() == e as int);
            assert(cand[i as int] == e as int);
        }
        let mut p: usize = 0;
        assert(t.skip(0) =~= t);
        while p < order.len() && !file_before(&files[e], &files[order[p]])
            invariant
                p <= order.len(),
                t == order@.map_values(|i: usize| i as int),
                (e as int) < files@.len(),
                forall|j: int| 0 <= j < order@.len() ==> (#[trigger] order@[j] as int) < files@.len(),
                insert_position(files@, t, e as int) == p + insert_position(files@, t.skip(p as int), e as int),
            decreases order.len() - p,
        {
            proof {
                assert(t.skip(p as int).drop_first() =~= t.skip(p + 1));
                assert(t.skip(p as int)[0] == order@[p as int] as int);
            }
            p = p + 1;
        }
        proof {
            if p < order.len() {
                assert(t.skip(p as int)[0] == order@[p as int] as int);
            }
            assert(insert_position(files@, t, e as int) == p);
        }
        order.insert(p, e);
        proof {
            assert(order@.map_values(|i: usize| i as int) =~= t.insert(p as int, e as int));
        }
        i = i + 1;
    }
    proof {
        assert(cand.take(picked.len() as int) =~= cand);
    }
    let mut out: Vec<&'a GitHubFile> = Vec::new();
    let mut k: usize = 0;
    while k < order.len()
        invariant
            k <= order.len(),
            order@.map_values(|i: usize| i as int) == selection(files@, weights@, include_italics),
            forall|j: int| 0 <= j < order@.len() ==> (#[trigger] order@[j] as int) < files@.len(),
            out@.len() == k,
            forall|j: int| 0 <= j < k ==> *out@[j] == files@[order@[j] as int],
        decreases order.len() - k,
    {
        out.push(&files[order[k]]);
        k = k + 1;
    }
    proof {
        assert forall|j: int| 0 <= j < out@.len() implies *out@[j] == files@[selection(files@, weights@, include_italics)[j]] by {
            assert(selection(files@, weights@, include_italics)[j] == order@[j] as int);
        }
    }
    out
}

proof fn lemma_filter_positions_in_range(n: nat, pred: spec_fn(int) -> bool, j: int)
    requires
        0 <= j < positions(n).filter(pred).len(),
    ensures
        0 <= positions(n).filter(pred)[j] < n,
{
    let f = positions(n).filter(pred);
    assert(f.contains(f[j]));
    positions(n).lemma_filter_contains_rev(pred, f[j]);
}

proof fn lemma_chosen_in_range(files: Seq<GitHubFile>, weights: Seq<u16>, include_italics: bool, j: int)
    requires
        0 <= j < chosen(files, weights, include_italics).len(),
    ensures
        0 <= chosen(files, weights, include_italics)[j] < files.len(),
{
    let first = first_choice(files, weights, include_italics);
    if first.len() == 0 && weights.len() > 0 {
        lemma_filter_positions_in_range(files.len(), |i: int| style_kept(files[i], include_italics) && variable_weight_name(files[i].name@), j);
    } else {
        lemma_filter_positions_in_range(files.len(), |i: int| style_kept(files[i], include_italics) && weight_kept(files[i], weights), j);
    }
}

proof fn lemma_seq_lt_irreflexive(a: Seq<char>)
    ensures
        !seq_lt(a, a),
    decreases a.len(),
{
    if a.len() > 0 {
        lemma_seq_lt_irreflexive(a.drop_first());
    }
}

proof fn lemma_seq_lt_transitive(a: Seq<char>, b: Seq<char>, c: Seq<char>)
    requires
        seq_lt(a, b),
        seq_lt(b, c),
    ensures
        seq_lt(a, c),
    decreases a.len(),
{
    if a.len() > 0 && b.len() > 0 && c.len() > 0 && a[0] == b[0] && b[0] == c[0] {
        lemma_seq_lt_transitive(a.drop_first(), b.drop_first(), c.drop_first());
    }
}

proof fn lemma_seq_lt_total(a: Seq<char>, b: Seq<char>)
    ensures
        seq_lt(a, b) || seq_lt(b, a) || a == b,
    decreases a.len(),
{
    if a.len() > 0 && b.len() > 0 && a[0] == b[0] {
        lemma_seq_lt_total(a.drop_first(), b.drop_first());
        if a.drop_first() == b.drop_first() {
            assert(a.drop_first().len() == b.drop_first().len());
            assert(a.len() == b.len());
            assert forall|i: int| 0 <= i < a.len() implies a[i] == b[i] by {
                if i > 0 {
                    assert(a[i] == a.drop_first()[i - 1]);
                    assert(b[i] == b.drop_first()[i - 1]);
                }
            }
            assert(a =~= b);
        }
    } else if a.len() == 0 && b.len() == 0 {
        assert(a =~= b);
    }
}

proof fn lemma_file_lt_order(f: GitHubFile, g: GitHubFile, h: GitHubFile)
    ensures
        !file_lt(f, f),
        file_lt(f, g) && file_lt(g, h) ==> file_lt(f, h),
        file_lt(f, g) ==> !file_lt(g, f),
        !file_lt(f, g) && !file_lt(g, f) ==> sort_weight(f) == sort_weight(g) && f.name@ == g.name@,
{
    lemma_seq_lt_irreflexive(f.name@);
    lemma_seq_lt_total(f.name@, g.name@);
    if file_lt(f, g) && file_lt(g, h) && sort_weight(f) == sort_weight(g) && sort_weight(g) == sort_weight(h) {
        lemma_seq_lt_transitive(f.name@, g.name@, h.name@);
    }
    if file_lt(f, g) && file_lt(g, f) {
        lemma_seq_lt_transitive(f.name@, g.name@, f.name@);
    }
}

/// `s` lists files in order: no file sorts strictly before an earlier one.
pub open spec fn in_file_order(files: Seq<GitHubFile>, s: Seq<int>) -> bool {
    forall|i: int, j: int| 0 <= i < j < s.len() ==> !file_lt(files[s[j]], files[s[i]])
}

proof fn lemma_insert_position_props(files: Seq<GitHubFile>, s: Seq<int>, e: int)
    ensures
        forall|k: int| 0 <= k < insert_position(files, s, e) ==> !file_lt(files[e], files[#[trigger] s[k]]),
        insert_position(files, s, e) < s.len() ==> file_lt(files[e], files[s[insert_position(files, s, e)]]),
    decreases s.len(),
{
    lemma_insert_position_bound(files, s, e);
    if s.len() > 0 && !file_lt(files[e], files[s[0]]) {
        let t = s.drop_first();
        lemma_insert_position_props(files, t, e);
        lemma_insert_position_bound(files, t, e);
        assert forall|k: int| 0 <= k < insert_position(files, s, e) implies !file_lt(files[e], files[#[trigger] s[k]]) by {
            if k > 0 {
                assert(s[k] == t[k - 1]);
            }
        }
        if insert_position(files, s, e) < s.len() {
            assert(s[insert_position(files, s, e)] == t[insert_position(files, t, e)]);
        }
    }
}

proof fn lemma_sorted_positions_ordered(files: Seq<GitHubFile>, s: Seq<int>)
    ensures
        in_file_order(files, sorted_positions(files, s)),
    decreases s.len(),
{
    if s.len() > 0 {
        let t = sorted_positions(files, s.drop_last());
        lemma_sorted_positions_ordered(files, s.drop_last());
        let e = s.last();
        let p = insert_position(files, t, e);
        lemma_insert_position_bound(files, t, e);
        lemma_insert_position_props(files, t, e);
        let u = t.insert(p, e);
        assert forall|i: int, j: int| 0 <= i < j < u.len() implies !file_lt(files[u[j]], files[u[i]]) by {
            if j < p {
                assert(u[i] == t[i] && u[j] == t[j]);
            } else if j == p {
                assert(u[i] == t[i]);
                lemma_file_lt_order(files[e], files[t[i]], files[t[i]]);
            } else if i < p {
                assert(u[i] == t[i] && u[j] == t[j - 1]);
            } else if i == p {
                assert(u[j] == t[j - 1]);
                if j - 1 > p {
                    assert(!file_lt(files[t[j - 1]], files[t[p]]));
                } else {
                    lemma_file_lt_order(files[t[p]], files[t[p]], files[t[p]]);
                }
                lemma_file_lt_order(files[t[j - 1]], files[e], files[t[p]]);
            } else {
                assert(u[i] == t[i - 1] && u[j] == t[j - 1]);
            }
        }
    }
}

proof fn lemma_sorted_positions_permutes(files: Seq<GitHubFile>, s: Seq<int>)
    ensures
        sorted_positions(files, s).to_multiset() == s.to_multiset(),
    decreases s.len(),
{
    broadcast use vstd::seq_lib::group_to_multiset_ensures;
    if s.len() > 0 {
        let t = sorted_positions(files, s.drop_last());
        lemma_sorted_positions_permutes(files, s.drop_last());
        lemma_insert_position_bound(files, t, s.last());
        vstd::seq_lib::to_multiset_insert(t, insert_position(files, t, s.last()), s.last());
        vstd::seq_lib::to_multiset_build(s.drop_last(), s.last());
        assert(s.drop_last().push(s.last()) =~= s);
    }
}

/// The selected files come in order: by weight (files that name no weight
/// last), then by name.
pub proof fn lemma_selection_in_order(files: Seq<GitHubFile>, weights: Seq<u16>, include_italics: bool)
    ensures
        in_file_order(files, selection(files, weights, include_italics)),
{
    lemma_sorted_positions_ordered(files, chosen(files, weights, include_italics));
}

/// Ordering neither adds nor drops a file: the selection holds each chosen
/// file exactly as often as the filters keep it.
pub proof fn lemma_selection_permutes_choice(files: Seq<GitHubFile>, weights: Seq<u16>, include_italics: bool)
    ensures
        selection(files, weights, include_italics).to_multiset() == chosen(files, weights, include_italics).to_multiset(),
{
    lemma_sorted_positions_permutes(files, chosen(files, weights, include_italics));
}

/// No italic file is selected unless italics are included.
pub proof fn lemma_selection_respects_style(files: Seq<GitHubFile>, weights: Seq<u16>, include_italics: bool, k: int)
    requires
        0 <= k < selection(files, weights, include_italics).len(),
    ensures
        style_kept(files[selection(files, weights, include_italics)[k]], include_italics),
{
    broadcast use vstd::seq_lib::group_to_multiset_ensures;
    let sel = selection(files, weights, include_italics);
    let ch = chosen(files, weights, include_italics);
    lemma_selection_permutes_choice(files, weights, include_italics);
    let x = sel[k];
    assert(sel.contains(x));
    assert(sel.to_multiset().count(x) > 0);
    assert(ch.contains(x));
    let j = choose|j: int| 0 <= j < ch.len() && ch[j] == x;
    let first = first_choice(files, weights, include_italics);
    if first.len() == 0 && weights.len() > 0 {
        positions(files.len()).lemma_filter_pred(|i: int| style_kept(files[i], include_italics) && variable_weight_name(files[i].name@), j);
    } else {
        positions(files.len()).lemma_filter_pred(|i: int| style_kept(files[i], include_italics) && weight_kept(files[i], weights), j);
    }
}

/// What the font tool refuses on its command line.
#[derive(Clone, Debug)]
pub enum FontToolError {
    /// The arguments do not follow the usage line.
    Usage,
    /// A weight of `--weights` is not a number.
    Weight(WeightError),
}

/// Options of the `google-font` command.
#[derive(Clone, Debug)]
pub struct GoogleFontOptions {
    pub family: String,
    pub out: String,
    pub weights: Vec<u16>,
    pub include_italics: bool,
}

/// The options read so far.
pub struct OptionsDraft {
    pub family: Option<Seq<char>>,
    pub out: Option<Seq<char>>,
    pub weights: Seq<u16>,
    pub include_italics: bool,
}

/// How reading the options ends.
pub enum OptionsOutcome {
    Parsed(OptionsDraft),
    Usage,
    BadWeight(Seq<char>, IntErrorKind),
}

pub open spec fn starts_with_dashes(a: Seq<char>) -> bool {
    a.len() >= 2 && a[0] == '-' && a[1] == '-'
}

/// Reads `args[i..]` onto `d`: `--family <name>`, `--out <dir>`,
/// `--weights <list>`, `--include-italics`, and one bare family name; a
/// missing family or output directory, or anything else, is a usage error.
pub open spec fn read_options(args: Seq<Seq<char>>, i: int, d: OptionsDraft) -> OptionsOutcome
    decreases args.len() + 1 - i,
{
    if i >= args.len() {
        if d.family is None || d.out is None {
            OptionsOutcome::Usage
        } else {
            OptionsOutcome::Parsed(d)
        }
    } else {
        let a = args[i];
        let next: Option<Seq<char>> = if i + 1 < args.len() { Some(args[i + 1]) } else { None };
        if a == "--family"@ {
            read_options(args, i + 2, OptionsDraft { family: next, ..d })
        } else if a == "--out"@ {
            read_options(args, i + 2, OptionsDraft { out: next, ..d })
        } else if a == "--weights"@ {
            match next {
                None => OptionsOutcome::Usage,
                Some(list) => match parse_fields(split_commas(list)) {
                    Err((field, kind)) => OptionsOutcome::BadWeight(field, kind),
                    Ok(w) => read_options(args, i + 2, OptionsDraft { weights: w, ..d }),
                },
            }
        } else if a == "--include-italics"@ {
            read_options(args, i + 1, OptionsDraft { include_italics: true, ..d })
        } else if !starts_with_dashes(a) && d.family is None {
            read_options(args, i + 1, OptionsDraft { family: Some(a), ..d })
        } else {
            OptionsOutcome::Usage
        }
    }
}

/// The options the arguments give, from an empty draft.
pub open spec fn options_of(args: Seq<Seq<char>>) -> OptionsOutcome {
    read_options(args, 0, OptionsDraft { family: None, out: None, weights: Seq::empty(), include_italics: false })
}

/// The result of `GoogleFontOptions::parse` matches the reading of the
/// arguments.
pub open spec fn options_result_matches(r: Result<GoogleFontOptions, FontToolError>, o: OptionsOutcome) -> bool {
    match (r, o) {
        (Ok(opts), OptionsOutcome::Parsed(d)) => Some(opts.family@) == d.family && Some(opts.out@) == d.out
            && opts.weights@ == d.weights && opts.include_italics == d.include_italics,
        (Err(FontToolError::Usage), OptionsOutcome::Usage) => true,
        (Err(FontToolError::Weight(e)), OptionsOutcome::BadWeight(field, kind)) => e.field@ == field && e.kind == kind,
        _ => false,
    }
}

/// The characters of an optional string.
pub open spec fn opt_view(o: Option<String>) -> Option<Seq<char>> {
    match o {
        Some(s) => Some(s@),
        None => None,
    }
}

fn dashed(a: &str) -> (r: bool)
    ensures
        r == starts_with_dashes(a@),
{
    let n = a.unicode_len();
    n >= 2 && a.get_char(0) == '-' && a.get_char(1) == '-'
}

fn cloned_at(args: &[String], i: usize) -> (r: Option<String>)
    ensures
        match r {
            Some(s) => i < args@.len() && s@ == args@[i as int]@,
            None => i >= args@.len(),
        },
{
    if i < args.len() {
        Some(args[i].clone())
    } else {
        None
    }
}

impl GoogleFontOptions {
    /// Reads the options of the `google-font` command.
    pub fn parse(args: &[String]) -> (r: Result<Self, FontToolError>)
        ensures
            options_result_matches(r, options_of(string_views(args@))),
    {
        let ghost av = string_views(args@);
        let mut family: Option<String> = None;
        let mut out: Option<String> = None;
        let mut weights: Vec<u16> = Vec::new();
        let mut include_italics = false;
        let mut index: usize = 0;
        while index < args.len()
            invariant
                av == string_views(args@),
                options_of(av) == read_options(av, index as int, OptionsDraft {
                    family: opt_view(family),
                    out: opt_view(out),
                    weights: weights@,
                    include_italics,
                }),
            decreases args.len() + 2 - index,
        {
            let a = args[index].as_str();
            assert(av[index as int] == a@);
            if str_equal(a, "--family") {
                family = cloned_at(args, index + 1);
                let ghost d = OptionsDraft {
                    family: opt_view(family),
                    out: opt_view(out),
                    weights: weights@,
                    include_italics,
                };
                proof {
                    if index + 1 >= args.len() {
                        assert(read_options(av, index + 2, d) == read_options(av, args.len() as int, d));
                    }
                }
                index = if index + 1 < args.len() { index + 2 } else { args.len() };
            } else if str_equal(a, "--out") {
                out = cloned_at(args, index + 1);
                let ghost d = OptionsDraft {
                    family: opt_view(family),
                    out: opt_view(out),
                    weights: weights@,
                    include_italics,
                };
                proof {
                    if index + 1 >= args.len() {
                        assert(read_options(av, index + 2, d) == read_options(av, args.len() as int, d));
                    }
                }
                index = if index + 1 < args.len() { index + 2 } else { args.len() };
            } else if str_equal(a, "--weights") {
                if index + 1 >= args.len() {
                    return Err(FontToolError::Usage);
                }
                assert(av[index + 1] == args@[index + 1]@);
                match parse_weights(args[index + 1].as_str()) {
                    Err(e) => {
                        return Err(FontToolError::Weight(e));
                    },
                    Ok(w) => {
                        weights = w;
                    },
                }
                index = index + 2;
            } else if str_equal(a, "--include-italics") {
                include_italics = true;
                index = index + 1;
            } else if !dashed(a) && family.is_none() {
                family = Some(String::from_str(a));
                index = index + 1;
            } else {
                return Err(FontToolError::Usage);
            }
        }
        match (family, out) {
            (Some(family), Some(out)) => Ok(GoogleFontOptions { family, out, weights, include_italics }),
            _ => Err(FontToolError::Usage),
        }
    }
}

/// The commands of the font tool.
#[derive(Clone, Debug)]
pub enum Command {
    GoogleFont(GoogleFontOptions),
}

impl Command {
    /// Reads the command line (without the program name): `google-font`
    /// followed by its options.
    pub fn parse(args: Vec<String>) -> (r: Result<Self, FontToolError>)
        ensures
            args@.len() == 0 || args@[0]@ != "google-font"@ ==> r matches Err(FontToolError::Usage),
            args@.len() > 0 && args@[0]@ == "google-font"@ ==> match r {
                Ok(Command::GoogleFont(o)) => options_result_matches(
                    Ok::<GoogleFontOptions, FontToolError>(o),
                    options_of(string_views(args@).skip(1)),
                ),
                Err(e) => options_result_matches(Err::<GoogleFontOptions, FontToolError>(e), options_of(string_views(args@).skip(1))),
            },
    {
        if args.len() == 0 || !str_equal(args[0].as_str(), "google-font") {
            return Err(FontToolError::Usage);
        }
        let mut rest: Vec<String> = Vec::new();
        let mut i: usize = 1;
        while i < args.len()
            invariant
                1 <= i <= args.len(),
                rest@.len() == i - 1,
                forall|j: int| 0 <= j < rest@.len() ==> #[trigger] rest@[j]@ == args@[j + 1]@,
            decreases args.len() - i,
        {
            rest.push(args[i].clone());
            i = i + 1;
        }
        assert(string_views(rest@) =~= string_views(args@).skip(1));
        match GoogleFontOptions::parse(rest.as_slice()) {
            Ok(o) => Ok(Command::GoogleFont(o)),
            Err(e) => Err(e),
        }
    }
}

/// The usage line of the font tool.
pub fn usage() -> (r: String)
    ensures
        r@ == "Usage: cargo run -p cast-font-tool -- google-font <family> --out <dir> [--weights 400,500,600] [--include-italics]"@,
{
    String::from_str(
        "Usage: cargo run -p cast-font-tool -- google-font <family> --out <dir> [--weights 400,500,600] [--include-italics]",
    )
}

/// An entry of a GitHub directory listing.
#[derive(Clone, Debug)]
pub struct GitHubContent {
    pub name: String,
    pub kind: String,
    pub url: String,
    pub download_url: Option<String>,
}

/// A family found in the Google Fonts repository: the license directory it
/// lives under, its font files and its license file.
#[derive(Clone, Debug)]
pub struct GoogleFontFamily {
    pub license_dir: String,
    pub files: Vec<GitHubFile>,
    pub license_file: Option<GitHubFile>,
}

pub open spec fn ends_with_seq(s: Seq<char>, suffix: Seq<char>) -> bool {
    s.len() >= suffix.len() && s.skip(s.len() - suffix.len()) == suffix
}

fn ends_with(s: &str, suffix: &str) -> (r: bool)
    ensures
        r == ends_with_seq(s@, suffix@),
{
    let a = chars_of(s);
    let b = chars_of(suffix);
    if a.len() < b.len() {
        return false;
    }
    let off = a.len() - b.len();
    let mut k: usize = 0;
    while k < b.len()
        invariant
            off == a.len() - b.len(),
            a@ == s@,
            b@ == suffix@,
            k <= b.len(),
            forall|j: int| 0 <= j < k ==> a@[off + j] == b@[j],
        decreases b.len() - k,
    {
        if a[off + k] != b[k] {
            assert(a@.skip(off as int)[k as int] == a@[off + k]);
            assert(a@.skip(off as int) != b@);
            return false;
        }
        k = k + 1;
    }
    assert(a@.skip(off as int) =~= b@);
    true
}

/// Files that a listing entry adds: ".ttf" files and license files with a
/// download address.
pub open spec fn entry_is_font(e: GitHubContent) -> bool {
    e.kind@ == "file"@ && ends_with_seq(e.name@, ".ttf"@)
}

pub open spec fn entry_is_license(e: GitHubContent) -> bool {
    e.kind@ == "file"@ && !ends_with_seq(e.name@, ".ttf"@) && license_name(e.name@)
}

/// Takes one listing entry into the collected fonts and license: a font
/// file is appended, a license file replaces the license, a directory is
/// handed back to be listed in turn, anything else (or a file without a
/// download address) is skipped.
pub fn collect_entry(entry: GitHubContent, files: &mut Vec<GitHubFile>, license_file: &mut Option<GitHubFile>) -> (descend: Option<String>)
    ensures
        entry.kind@ == "dir"@ ==> (descend matches Some(u) && u@ == entry.url@),
        entry.kind@ != "dir"@ ==> descend is None,
        entry_is_font(entry) && entry.download_url is Some ==> final(files)@ == old(files)@.push(
            GitHubFile { name: entry.name, download_url: entry.download_url->Some_0 },
        ),
        !(entry_is_font(entry) && entry.download_url is Some) ==> final(files)@ == old(files)@,
        entry_is_license(entry) && entry.download_url is Some ==> *final(license_file) == Some(
            GitHubFile { name: entry.name, download_url: entry.download_url->Some_0 },
        ),
        !(entry_is_license(entry) && entry.download_url is Some) ==> *final(license_file) == *old(license_file),
{
    if str_equal(entry.kind.as_str(), "dir") {
        proof {
            reveal_strlit("dir");
            reveal_strlit("file");
            assert("dir"@.len() == 3);
            assert("file"@.len() == 4);
            assert(entry.kind@ != "file"@);
        }
        return Some(entry.url);
    }
    let is_file = str_equal(entry.kind.as_str(), "file");
    if is_file && ends_with(entry.name.as_str(), ".ttf") {
        if let Some(download_url) = entry.download_url {
            files.push(GitHubFile { name: entry.name, download_url });
        }
    } else if is_file && is_license_file(entry.name.as_str()) {
        if let Some(download_url) = entry.download_url {
            *license_file = Some(GitHubFile { name: entry.name, download_url });
        }
    }
    None
}

/// The repository directories that hold families, by license, in the
/// order they are searched.
pub fn license_dirs() -> (r: Vec<&'static str>)
    ensures
        str_views(r@) == seq!["ofl"@, "apache"@, "ufl"@],
{
    let r = vec!["ofl", "apache", "ufl"];
    assert(str_views(r@) =~= seq!["ofl"@, "apache"@, "ufl"@]);
    r
}

/// The GitHub contents API address of a family directory.
pub fn contents_url(license_dir: &str, slug: &str) -> (r: String)
    ensures
        r@ == "https://api.github.com/repos/google/fonts/contents"@ + seq!['/'] + license_dir@ + seq!['/']
            + slug@ + "?ref=main"@,
{
    let mut s = String::from_str("https://api.github.com/repos/google/fonts/contents");
    push_char(&mut s, '/');
    s.append(license_dir);
    push_char(&mut s, '/');
    s.append(slug);
    s.append("?ref=main");
    s
}

} // verus!
