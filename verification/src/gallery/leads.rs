//! The gallery's lead records and the filters of its lead table: by
//! date, owner, status, payment and a free-text search.
use vstd::prelude::*;
use crate::gallery::entity_table::EntityRecord;
use crate::text::{
    chars_of, contains_chars, contains_seq, normalize_query, search_key, str_equal, string_views, to_lowercase,
    trim_seq, unicode_lowercase,
};

verus! {

/// Number of lead records in the gallery.
pub const LEAD_COUNT: usize = 24;

pub open spec fn lead_row_spec(
    name: &'static str,
    status: &'static str,
    interest: &'static str,
    source: &'static str,
    deal_value: &'static str,
    payment: &'static str,
    assigned_to: &'static str,
    interacted: &'static str,
    days_ago: u8,
) -> EntityRecord {
    EntityRecord { name, status, interest, source, deal_value, payment, assigned_to, interacted, days_ago }
}

fn lead_row(
    name: &'static str,
    status: &'static str,
    interest: &'static str,
    source: &'static str,
    deal_value: &'static str,
    payment: &'static str,
    assigned_to: &'static str,
    interacted: &'static str,
    days_ago: u8,
) -> (r: EntityRecord)
    ensures
        r == lead_row_spec(name, status, interest, source, deal_value, payment, assigned_to, interacted, days_ago),
{
    EntityRecord { name, status, interest, source, deal_value, payment, assigned_to, interacted, days_ago }
}

/// The gallery's lead records, in table order.
pub open spec fn lead_table() -> Seq<EntityRecord> {
    seq![
        lead_row_spec("Sarah Parker", "Won", "Interested", "Sponsored ad", "$ 2,500.00", "Paid", "Sarah P.", "2 days ago", 2),
        lead_row_spec("Mike Brown", "Call booked", "Broke", "Direct message", "Pending...", "Pending", "Alex W.", "3 hours ago", 0),
        lead_row_spec("Linda Chen", "Unqualified", "Achiever", "Story replies", "N/A", "No value", "Jane D.", "1 week ago", 7),
        lead_row_spec("David Lee", "Won", "Interested", "Story replies", "$ 5,000.00", "Paid", "John S.", "4 days ago", 4),
        lead_row_spec("Emily White", "No show", "Interested", "Direct message", "Pending...", "Pending", "Ali M.", "15 mins ago", 0),
        lead_row_spec("Jessica Wong", "Won", "Interested", "Sponsored ad", "$ 3,000.00", "Paid", "Sarah P.", "1 week ago", 7),
        lead_row_spec("Kevin Harris", "Qualified", "N/A", "Story replies", "Pending...", "Pending", "Jane D.", "1 day ago", 1),
        lead_row_spec("Tom Clark", "Lost", "Broke", "Direct message", "N/A", "No value", "John S.", "6 days ago", 6),
        lead_row_spec("Laura Lewis", "Qualified", "Achiever", "Story replies", "Pending...", "Pending", "Ali M.", "30 mins ago", 0),
        lead_row_spec("Brian Walker", "Call booked", "Interested", "Story replies", "Pending...", "Pending", "Alex W.", "2 days ago", 2),
        lead_row_spec("Daniel Hall", "Won", "Interested", "Direct message", "$ 1,500.00", "Paid", "John S.", "5 days ago", 5),
        lead_row_spec("Nancy Allen", "Unqualified", "Interested", "Sponsored ad", "N/A", "No value", "Jane D.", "2 weeks ago", 14),
        lead_row_spec("Paul Young", "Qualified", "N/A", "Story replies", "Pending...", "Pending", "Ali M.", "1 hour ago", 0),
        lead_row_spec("Sandra King", "Won", "Broke", "Direct message", "$ 4,200.00", "Paid", "Jane D.", "6 days ago", 6),
        lead_row_spec("Omar Diaz", "Call booked", "Interested", "Sponsored ad", "Pending...", "Pending", "Sarah P.", "20 mins ago", 0),
        lead_row_spec("Priya Nair", "Lost", "Achiever", "Story replies", "N/A", "No value", "Alex W.", "8 days ago", 8),
        lead_row_spec("Hannah Brooks", "Won", "Interested", "Direct message", "$ 6,750.00", "Paid", "John S.", "1 day ago", 1),
        lead_row_spec("Victor Stone", "No show", "Broke", "Sponsored ad", "Pending...", "Pending", "Ali M.", "12 hours ago", 0),
        lead_row_spec("Mina Patel", "Qualified", "Achiever", "Story replies", "$ 900.00", "Paid", "Jane D.", "3 days ago", 3),
        lead_row_spec("Ethan Ross", "Unqualified", "Interested", "Direct message", "N/A", "No value", "Alex W.", "2 weeks ago", 14),
        lead_row_spec("Grace Kim", "Won", "Interested", "Story replies", "$ 2,200.00", "Paid", "Sarah P.", "5 days ago", 5),
        lead_row_spec("Noah Smith", "Call booked", "N/A", "Sponsored ad", "Pending...", "Pending", "John S.", "4 hours ago", 0),
        lead_row_spec("Iris Chen", "Lost", "Broke", "Direct message", "N/A", "No value", "Ali M.", "9 days ago", 9),
        lead_row_spec("Leo Martin", "Qualified", "Interested", "Story replies", "Pending...", "Pending", "Jane D.", "7 days ago", 7),
    ]
}

/// The gallery's lead records.
pub fn leads() -> (r: Vec<EntityRecord>)
    ensures
        r@ == lead_table(),
{
    let mut v: Vec<EntityRecord> = Vec::new();
    v.push(lead_row("Sarah Parker", "Won", "Interested", "Sponsored ad", "$ 2,500.00", "Paid", "Sarah P.", "2 days ago", 2));
    v.push(lead_row("Mike Brown", "Call booked", "Broke", "Direct message", "Pending...", "Pending", "Alex W.", "3 hours ago", 0));
    v.push(lead_row("Linda Chen", "Unqualified", "Achiever", "Story replies", "N/A", "No value", "Jane D.", "1 week ago", 7));
    v.push(lead_row("David Lee", "Won", "Interested", "Story replies", "$ 5,000.00", "Paid", "John S.", "4 days ago", 4));
    v.push(lead_row("Emily White", "No show", "Interested", "Direct message", "Pending...", "Pending", "Ali M.", "15 mins ago", 0));
    v.push(lead_row("Jessica Wong", "Won", "Interested", "Sponsored ad", "$ 3,000.00", "Paid", "Sarah P.", "1 week ago", 7));
    v.push(lead_row("Kevin Harris", "Qualified", "N/A", "Story replies", "Pending...", "Pending", "Jane D.", "1 day ago", 1));
    v.push(lead_row("Tom Clark", "Lost", "Broke", "Direct message", "N/A", "No value", "John S.", "6 days ago", 6));
    v.push(lead_row("Laura Lewis", "Qualified", "Achiever", "Story replies", "Pending...", "Pending", "Ali M.", "30 mins ago", 0));
    v.push(lead_row("Brian Walker", "Call booked", "Interested", "Story replies", "Pending...", "Pending", "Alex W.", "2 days ago", 2));
    v.push(lead_row("Daniel Hall", "Won", "Interested", "Direct message", "$ 1,500.00", "Paid", "John S.", "5 days ago", 5));
    v.push(lead_row("Nancy Allen", "Unqualified", "Interested", "Sponsored ad", "N/A", "No value", "Jane D.", "2 weeks ago", 14));
    v.push(lead_row("Paul Young", "Qualified", "N/A", "Story replies", "Pending...", "Pending", "Ali M.", "1 hour ago", 0));
    v.push(lead_row("Sandra King", "Won", "Broke", "Direct message", "$ 4,200.00", "Paid", "Jane D.", "6 days ago", 6));
    v.push(lead_row("Omar Diaz", "Call booked", "Interested", "Sponsored ad", "Pending...", "Pending", "Sarah P.", "20 mins ago", 0));
    v.push(lead_row("Priya Nair", "Lost", "Achiever", "Story replies", "N/A", "No value", "Alex W.", "8 days ago", 8));
    v.push(lead_row("Hannah Brooks", "Won", "Interested", "Direct message", "$ 6,750.00", "Paid", "John S.", "1 day ago", 1));
    v.push(lead_row("Victor Stone", "No show", "Broke", "Sponsored ad", "Pending...", "Pending", "Ali M.", "12 hours ago", 0));
    v.push(lead_row("Mina Patel", "Qualified", "Achiever", "Story replies", "$ 900.00", "Paid", "Jane D.", "3 days ago", 3));
    v.push(lead_row("Ethan Ross", "Unqualified", "Interested", "Direct message", "N/A", "No value", "Alex W.", "2 weeks ago", 14));
    v.push(lead_row("Grace Kim", "Won", "Interested", "Story replies", "$ 2,200.00", "Paid", "Sarah P.", "5 days ago", 5));
    v.push(lead_row("Noah Smith", "Call booked", "N/A", "Sponsored ad", "Pending...", "Pending", "John S.", "4 hours ago", 0));
    v.push(lead_row("Iris Chen", "Lost", "Broke", "Direct message", "N/A", "No value", "Ali M.", "9 days ago", 9));
    v.push(lead_row("Leo Martin", "Qualified", "Interested", "Story replies", "Pending...", "Pending", "Jane D.", "7 days ago", 7));
    assert(v@ =~= lead_table());
    v
}

/// The owner filter's choices; the first keeps every owner.
pub open spec fn lead_user_filters() -> Seq<Seq<char>> {
    seq!["All users"@, "Sarah P."@, "Alex W."@, "Jane D."@, "John S."@, "Ali M."@]
}

/// The status filter's choices; the first keeps every status.
pub open spec fn lead_status_filters() -> Seq<Seq<char>> {
    seq!["Any status"@, "Won"@, "Call booked"@, "Qualified"@, "Unqualified"@, "Lost"@, "No show"@]
}

/// The payment filter's choices; the first keeps every payment state.
pub open spec fn lead_payment_filters() -> Seq<Seq<char>> {
    seq!["All payments"@, "Paid"@, "Pending"@, "No value"@]
}

pub fn user_filter_labels() -> (r: Vec<&'static str>)
    ensures
        r@.map_values(|s: &'static str| s@) == lead_user_filters(),
{
    let v = vec!["All users", "Sarah P.", "Alex W.", "Jane D.", "John S.", "Ali M."];
    assert(v@.map_values(|s: &'static str| s@) =~= lead_user_filters());
    v
}

pub fn status_filter_labels() -> (r: Vec<&'static str>)
    ensures
        r@.map_values(|s: &'static str| s@) == lead_status_filters(),
{
    let v = vec!["Any status", "Won", "Call booked", "Qualified", "Unqualified", "Lost", "No show"];
    assert(v@.map_values(|s: &'static str| s@) =~= lead_status_filters());
    v
}

pub fn payment_filter_labels() -> (r: Vec<&'static str>)
    ensures
        r@.map_values(|s: &'static str| s@) == lead_payment_filters(),
{
    let v = vec!["All payments", "Paid", "Pending", "No value"];
    assert(v@.map_values(|s: &'static str| s@) =~= lead_payment_filters());
    v
}

pub open spec fn date_kept(days_ago: u8, filter: usize) -> bool {
    if filter == 1 {
        days_ago <= 7
    } else if filter == 2 {
        days_ago == 0
    } else {
        true
    }
}

/// The date filter: choice 1 keeps the last week, choice 2 the last
/// day, any other choice everything.
pub fn lead_matches_date_filter(lead: &EntityRecord, filter: usize) -> (r: bool)
    ensures
        r == date_kept(lead.days_ago, filter),
{
    match filter {
        1 => lead.days_ago <= 7,
        2 => lead.days_ago == 0,
        _ => true,
    }
}

pub open spec fn choice_kept(value: Seq<char>, labels: Seq<Seq<char>>, index: int) -> bool {
    index == 0 || (index < labels.len() && labels[index] == value)
}

/// A choice filter: the first choice keeps everything, another keeps the
/// values equal to its label, and a choice past the labels keeps nothing.
pub fn lead_matches_choice(value: &str, labels: &[&str], index: usize) -> (r: bool)
    ensures
        r == choice_kept(value@, labels@.map_values(|s: &str| s@), index as int),
{
    index == 0 || (index < labels.len() && str_equal(labels[index], value))
}

/// The fields that the search looks in: the columns the table shows.
pub open spec fn lead_fields(lead: EntityRecord) -> Seq<Seq<char>> {
    seq![
        lead.name@,
        lead.status@,
        lead.interest@,
        lead.source@,
        lead.deal_value@,
        lead.assigned_to@,
        lead.interacted@,
    ]
}

/// The search keeps a lead: the query is empty or occurs in one of the
/// lower-cased fields.
pub open spec fn query_hits(lowered_fields: Seq<Seq<char>>, normalized_query: Seq<char>) -> bool {
    normalized_query.len() == 0 || exists|i: int| 0 <= i < lowered_fields.len() && contains_seq(#[trigger] lowered_fields[i], normalized_query)
}

/// Whether an already normalized query occurs in one of the lower-cased
/// fields of a lead.
pub fn lead_matches_query(lowered_fields: &[String], normalized_query: &str) -> (r: bool)
    ensures
        r == query_hits(string_views(lowered_fields@), normalized_query@),
{
    let q = chars_of(normalized_query);
    if q.len() == 0 {
        return true;
    }
    let ghost fields = string_views(lowered_fields@);
    let mut i: usize = 0;
    while i < lowered_fields.len()
        invariant
            i <= lowered_fields.len(),
            q@ == normalized_query@,
            fields == string_views(lowered_fields@),
            forall|j: int| 0 <= j < i ==> !contains_seq(#[trigger] fields[j], q@),
        decreases lowered_fields.len() - i,
    {
        let f = chars_of(lowered_fields[i].as_str());
        if contains_chars(&f, &q) {
            assert(fields[i as int] == f@);
            return true;
        }
        i = i + 1;
    }
    false
}

/// The lead passes every filter.
pub open spec fn lead_kept(
    lead: EntityRecord,
    normalized_query: Seq<char>,
    date_filter: usize,
    user_filter: usize,
    status_filter: usize,
    payment_filter: usize,
) -> bool {
    &&& date_kept(lead.days_ago, date_filter)
    &&& choice_kept(lead.assigned_to@, lead_user_filters(), user_filter as int)
    &&& choice_kept(lead.status@, lead_status_filters(), status_filter as int)
    &&& choice_kept(lead.payment@, lead_payment_filters(), payment_filter as int)
    &&& query_hits(lead_fields(lead).map_values(|f: Seq<char>| unicode_lowercase(f)), normalized_query)
}

/// The leads that pass every filter, in order.
pub open spec fn kept_leads(
    leads: Seq<EntityRecord>,
    normalized_query: Seq<char>,
    date_filter: usize,
    user_filter: usize,
    status_filter: usize,
    payment_filter: usize,
) -> Seq<EntityRecord>
    decreases leads.len(),
{
    if leads.len() == 0 {
        Seq::empty()
    } else {
        let prev = kept_leads(leads.drop_last(), normalized_query, date_filter, user_filter, status_filter, payment_filter);
        if lead_kept(leads.last(), normalized_query, date_filter, user_filter, status_filter, payment_filter) {
            prev.push(leads.last())
        } else {
            prev
        }
    }
}

fn lowered_fields(lead: &EntityRecord) -> (r: Vec<String>)
    ensures
        string_views(r@) == lead_fields(*lead).map_values(|f: Seq<char>| unicode_lowercase(f)),
{
    let mut v: Vec<String> = Vec::new();
    v.push(to_lowercase(lead.name));
    v.push(to_lowercase(lead.status));
    v.push(to_lowercase(lead.interest));
    v.push(to_lowercase(lead.source));
    v.push(to_lowercase(lead.deal_value));
    v.push(to_lowercase(lead.assigned_to));
    v.push(to_lowercase(lead.interacted));
    assert(string_views(v@) =~= lead_fields(*lead).map_values(|f: Seq<char>| unicode_lowercase(f)));
    v
}

/// The records that the table's filters keep: the date choice, the owner,
/// status and payment choices, and the search query, which is trimmed and
/// lower-cased and looked for in every lower-cased shown field.
pub fn filter_leads(
    records: &[EntityRecord],
    query: &str,
    date_filter: usize,
    user_filter: usize,
    status_filter: usize,
    payment_filter: usize,
) -> (r: Vec<EntityRecord>)
    ensures
        r@ == kept_leads(records@, search_key(query@), date_filter, user_filter, status_filter, payment_filter),
        trim_seq(query@).len() == 0
            ==> r@ == kept_leads(records@, Seq::empty(), date_filter, user_filter, status_filter, payment_filter),
        trim_seq(query@).len() == 0 && date_filter == 0 && user_filter == 0 && status_filter == 0 && payment_filter == 0
            ==> r@ == records@,
{
    let normalized = normalize_query(query);
    proof {
        if trim_seq(query@).len() == 0 {
            lemma_no_filter_keeps_all(records@);
            assert(search_key(query@) =~= Seq::<char>::empty());
        }
    }
    let users = user_filter_labels();
    let statuses = status_filter_labels();
    let payments = payment_filter_labels();
    let ghost q = search_key(query@);
    let mut out: Vec<EntityRecord> = Vec::new();
    let mut i: usize = 0;
    while i < records.len()
        invariant
            i <= records.len(),
            normalized@ == q,
            users@.map_values(|s: &'static str| s@) == lead_user_filters(),
            statuses@.map_values(|s: &'static str| s@) == lead_status_filters(),
            payments@.map_values(|s: &'static str| s@) == lead_payment_filters(),
            out@ == kept_leads(records@.take(i as int), q, date_filter, user_filter, status_filter, payment_filter),
        decreases records.len() - i,
    {
        let lead = &records[i];
        let keep = lead_matches_date_filter(lead, date_filter)
            && lead_matches_choice(lead.assigned_to, users.as_slice(), user_filter)
            && lead_matches_choice(lead.status, statuses.as_slice(), status_filter)
            && lead_matches_choice(lead.payment, payments.as_slice(), payment_filter)
            && lead_matches_query(lowered_fields(lead).as_slice(), normalized.as_str());
        proof {
            assert(records@.take(i + 1).drop_last() =~= records@.take(i as int));
            assert(records@.take(i + 1).last() == records@[i as int]);
        }
        if keep {
            out.push(*lead);
        }
        i = i + 1;
    }
    assert(records@.take(records.len() as int) =~= records@);
    out
}

/// The gallery's leads that the table's filters keep.
pub fn filtered_leads(
    query: &str,
    date_filter: usize,
    user_filter: usize,
    status_filter: usize,
    payment_filter: usize,
) -> (r: Vec<EntityRecord>)
    ensures
        r@ == kept_leads(lead_table(), search_key(query@), date_filter, user_filter, status_filter, payment_filter),
        trim_seq(query@).len() == 0
            ==> r@ == kept_leads(lead_table(), Seq::empty(), date_filter, user_filter, status_filter, payment_filter),
        trim_seq(query@).len() == 0 && date_filter == 0 && user_filter == 0 && status_filter == 0 && payment_filter == 0
            ==> r@ == lead_table(),
{
    let all = leads();
    filter_leads(all.as_slice(), query, date_filter, user_filter, status_filter, payment_filter)
}

/// The filters keep exactly the leads that pass them, in their order:
/// every lead kept passes, and every lead that passes is kept.
pub proof fn lemma_kept_leads_exact(
    leads: Seq<EntityRecord>,
    q: Seq<char>,
    date_filter: usize,
    user_filter: usize,
    status_filter: usize,
    payment_filter: usize,
)
    ensures
        forall|i: int| 0 <= i < kept_leads(leads, q, date_filter, user_filter, status_filter, payment_filter).len()
            ==> lead_kept(#[trigger] kept_leads(leads, q, date_filter, user_filter, status_filter, payment_filter)[i], q, date_filter, user_filter, status_filter, payment_filter),
        forall|k: int| 0 <= k < leads.len() && lead_kept(#[trigger] leads[k], q, date_filter, user_filter, status_filter, payment_filter)
            ==> kept_leads(leads, q, date_filter, user_filter, status_filter, payment_filter).contains(leads[k]),
        kept_leads(leads, q, date_filter, user_filter, status_filter, payment_filter).len() <= leads.len(),
    decreases leads.len(),
{
    if leads.len() > 0 {
        let prev = leads.drop_last();
        lemma_kept_leads_exact(prev, q, date_filter, user_filter, status_filter, payment_filter);
        let r = kept_leads(leads, q, date_filter, user_filter, status_filter, payment_filter);
        let pr = kept_leads(prev, q, date_filter, user_filter, status_filter, payment_filter);
        assert forall|k: int| 0 <= k < leads.len() && lead_kept(#[trigger] leads[k], q, date_filter, user_filter, status_filter, payment_filter) implies r.contains(leads[k]) by {
            if k < leads.len() - 1 {
                assert(prev[k] == leads[k]);
                let w = choose|w: int| 0 <= w < pr.len() && pr[w] == leads[k];
                assert(r[w] == leads[k]);
            } else {
                assert(r[r.len() - 1] == leads[k]);
            }
        }
    }
}

/// The search looks in every column the table shows: a lead of the table
/// is kept exactly when it passes the date, owner, status and payment
/// filters and the query is blank or occurs, lower-cased, in its name,
/// status, interest, source, deal value, owner or last-interaction text.
pub proof fn lemma_search_covers_shown_columns(
    leads: Seq<EntityRecord>,
    query: Seq<char>,
    date_filter: usize,
    user_filter: usize,
    status_filter: usize,
    payment_filter: usize,
    lead: EntityRecord,
)
    requires
        leads.contains(lead),
    ensures
        kept_leads(leads, search_key(query), date_filter, user_filter, status_filter, payment_filter).contains(lead)
            <==> {
            let key = search_key(query);
            &&& date_kept(lead.days_ago, date_filter)
            &&& choice_kept(lead.assigned_to@, lead_user_filters(), user_filter as int)
            &&& choice_kept(lead.status@, lead_status_filters(), status_filter as int)
            &&& choice_kept(lead.payment@, lead_payment_filters(), payment_filter as int)
            &&& (trim_seq(query).len() == 0 || key.len() == 0
                || contains_seq(unicode_lowercase(lead.name@), key)
                || contains_seq(unicode_lowercase(lead.status@), key)
                || contains_seq(unicode_lowercase(lead.interest@), key)
                || contains_seq(unicode_lowercase(lead.source@), key)
                || contains_seq(unicode_lowercase(lead.deal_value@), key)
                || contains_seq(unicode_lowercase(lead.assigned_to@), key)
                || contains_seq(unicode_lowercase(lead.interacted@), key))
        },
{
    let key = search_key(query);
    let kept = kept_leads(leads, key, date_filter, user_filter, status_filter, payment_filter);
    lemma_kept_leads_exact(leads, key, date_filter, user_filter, status_filter, payment_filter);
    let lowered = lead_fields(lead).map_values(|f: Seq<char>| unicode_lowercase(f));
    assert(lowered =~= seq![
        unicode_lowercase(lead.name@),
        unicode_lowercase(lead.status@),
        unicode_lowercase(lead.interest@),
        unicode_lowercase(lead.source@),
        unicode_lowercase(lead.deal_value@),
        unicode_lowercase(lead.assigned_to@),
        unicode_lowercase(lead.interacted@),
    ]);
    if kept.contains(lead) {
        let i = choose|i: int| 0 <= i < kept.len() && kept[i] == lead;
        assert(lead_kept(kept[i], key, date_filter, user_filter, status_filter, payment_filter));
        if key.len() > 0 {
            let w = choose|w: int| 0 <= w < lowered.len() && contains_seq(#[trigger] lowered[w], key);
            assert(w == 0 || w == 1 || w == 2 || w == 3 || w == 4 || w == 5 || w == 6);
        }
    }
    let k = choose|k: int| 0 <= k < leads.len() && leads[k] == lead;
    if contains_seq(unicode_lowercase(lead.name@), key) { assert(contains_seq(lowered[0], key)); }
    if contains_seq(unicode_lowercase(lead.status@), key) { assert(contains_seq(lowered[1], key)); }
    if contains_seq(unicode_lowercase(lead.interest@), key) { assert(contains_seq(lowered[2], key)); }
    if contains_seq(unicode_lowercase(lead.source@), key) { assert(contains_seq(lowered[3], key)); }
    if contains_seq(unicode_lowercase(lead.deal_value@), key) { assert(contains_seq(lowered[4], key)); }
    if contains_seq(unicode_lowercase(lead.assigned_to@), key) { assert(contains_seq(lowered[5], key)); }
    if contains_seq(unicode_lowercase(lead.interacted@), key) { assert(contains_seq(lowered[6], key)); }
    assert(leads[k] == lead);
}

/// With no search text and every filter on its first choice, every lead
/// is kept.
pub proof fn lemma_no_filter_keeps_all(leads: Seq<EntityRecord>)
    ensures
        kept_leads(leads, Seq::empty(), 0, 0, 0, 0) == leads,
    decreases leads.len(),
{
    if leads.len() > 0 {
        lemma_no_filter_keeps_all(leads.drop_last());
        assert(leads.drop_last().push(leads.last()) =~= leads);
    }
}

} // verus!
