//! The list-intake review: how category ids, profiles and chats are
//! labelled, and how stored aggregates and proposals are turned into the
//! report the review screen shows.
use vstd::prelude::*;

use crate::messages::nonempty_items;
use crate::text::{
    chars_of, lemma_text_less_irreflexive, lemma_text_less_total, lemma_text_less_transitive,
    owned, push_char, same_text, string_from_chars, text_less,
};

verus! {

/// The category id of items without a category.
pub const LIST_INTAKE_UNCATEGORIZED_CATEGORY_ID: &'static str = "uncategorized";

/// The output policy every aggregate group reports.
pub const DEFAULT_OUTPUT_POLICY: &'static str = "aggregateOnly";

// ---------------------------------------------------------------------------
// Case mapping
// ---------------------------------------------------------------------------

/// The uppercase mapping of a character (one or more characters).
pub uninterp spec fn char_upper(c: char) -> Seq<char>;

/// The lowercase mapping of a character (one or more characters).
pub uninterp spec fn char_lower(c: char) -> Seq<char>;

/// `char::to_uppercase` from std, collected: the Unicode uppercase
/// mapping of `c`; an ASCII character maps to its ASCII uppercase.
#[verifier::external_body]
fn upper_mapping(c: char) -> (r: String)
    ensures
        r@ == char_upper(c),
        (c as u32) < 128 ==> r@ == seq![crate::text::ascii_upper_char(c)],
{
    c.to_uppercase().collect()
}

/// `char::to_lowercase` from std, collected: the Unicode lowercase
/// mapping of `c`; an ASCII character maps to its ASCII lowercase.
#[verifier::external_body]
fn lower_mapping(c: char) -> (r: String)
    ensures
        r@ == char_lower(c),
        (c as u32) < 128 ==> r@ == seq![crate::text::ascii_lower_char(c)],
{
    c.to_lowercase().collect()
}

/// The lowercase mappings of every character, in order.
pub open spec fn lower_all(s: Seq<char>) -> Seq<char>
    decreases s.len(),
{
    if s.len() == 0 {
        Seq::empty()
    } else {
        lower_all(s.drop_last()) + char_lower(s.last())
    }
}

/// A word with its first character uppercased and the rest lowercased.
pub open spec fn title_cased(s: Seq<char>) -> Seq<char> {
    if s.len() == 0 {
        Seq::empty()
    } else {
        char_upper(s[0]) + lower_all(s.drop_first())
    }
}

pub fn title_case_ascii(value: &str) -> (r: String)
    ensures
        r@ == title_cased(value@),
{
    let chars = chars_of(value);
    let n = chars.len();
    if n == 0 {
        return String::new();
    }
    let mut out = upper_mapping(chars[0]);
    let ghost rest = chars@.drop_first();
    assert(rest.take(0) =~= Seq::<char>::empty());
    for i in 1..n
        invariant
            n == chars@.len(),
            n >= 1,
            rest == chars@.drop_first(),
            out@ == char_upper(chars@[0]) + lower_all(rest.take(i - 1)),
    {
        let lower = lower_mapping(chars[i]);
        assert(rest.take(i as int).drop_last() == rest.take(i - 1));
        assert(rest.take(i as int).last() == chars@[i as int]);
        out.append(lower.as_str());
        assert(out@ =~= char_upper(chars@[0]) + lower_all(rest.take(i as int)));
    }
    assert(rest.take(n - 1) == rest);
    out
}

// ---------------------------------------------------------------------------
// Category labels
// ---------------------------------------------------------------------------

/// A category id separator.
pub open spec fn is_category_separator(c: char) -> bool {
    c == '-' || c == '_'
}

/// The pieces of an id between separators (empty pieces included).
pub open spec fn category_parts(s: Seq<char>) -> Seq<Seq<char>>
    decreases s.len(),
{
    if s.len() == 0 {
        seq![Seq::empty()]
    } else {
        let prev = category_parts(s.drop_last());
        if is_category_separator(s.last()) {
            prev.push(Seq::empty())
        } else {
            prev.update(prev.len() - 1, prev.last().push(s.last()))
        }
    }
}

/// Words joined by single spaces.
pub open spec fn join_words(words: Seq<Seq<char>>) -> Seq<char>
    decreases words.len(),
{
    if words.len() == 0 {
        Seq::empty()
    } else if words.len() == 1 {
        words[0]
    } else {
        join_words(words.drop_last()) + seq![' '] + words.last()
    }
}

/// The label of a category: `Uncategorized` for the uncategorized id,
/// else the non-empty parts of the id, title-cased and joined by spaces.
pub open spec fn category_label_text(id: Seq<char>) -> Seq<char> {
    if id == LIST_INTAKE_UNCATEGORIZED_CATEGORY_ID@ {
        "Uncategorized"@
    } else {
        join_words(nonempty_items(category_parts(id)).map_values(|w: Seq<char>| title_cased(w)))
    }
}

fn split_category_id(id: &Vec<char>) -> (r: Vec<Vec<char>>)
    ensures
        r@.map_values(|p: Vec<char>| p@) == category_parts(id@),
{
    let mut done: Vec<Vec<char>> = Vec::new();
    let mut cur: Vec<char> = Vec::new();
    let n = id.len();
    assert(id@.take(0) =~= Seq::<char>::empty());
    assert(done@.map_values(|p: Vec<char>| p@).push(cur@) =~= category_parts(id@.take(0)));
    for i in 0..n
        invariant
            n == id@.len(),
            done@.map_values(|p: Vec<char>| p@).push(cur@) == category_parts(id@.take(i as int)),
    {
        let c = id[i];
        let ghost t = id@.take(i + 1);
        assert(t.drop_last() == id@.take(i as int));
        let ghost before = done@.map_values(|p: Vec<char>| p@);
        if c == '-' || c == '_' {
            let finished = cur;
            done.push(finished);
            cur = Vec::new();
            assert(done@.map_values(|p: Vec<char>| p@) =~= before.push(finished@));
            assert(done@.map_values(|p: Vec<char>| p@).push(cur@) =~= category_parts(t));
        } else {
            cur.push(c);
            assert(done@.map_values(|p: Vec<char>| p@).push(cur@) =~= category_parts(t));
        }
    }
    assert(id@.take(n as int) == id@);
    let ghost before = done@.map_values(|p: Vec<char>| p@);
    let last = cur;
    done.push(last);
    assert(done@.map_values(|p: Vec<char>| p@) =~= before.push(last@));
    done
}

pub fn category_label(category_id: &str) -> (r: String)
    ensures
        r@ == category_label_text(category_id@),
{
    if same_text(category_id, LIST_INTAKE_UNCATEGORIZED_CATEGORY_ID) {
        return owned("Uncategorized");
    }
    let parts = split_category_id(&chars_of(category_id));
    let ghost all = parts@.map_values(|p: Vec<char>| p@);
    let mut out = String::new();
    let mut started = false;
    let n = parts.len();
    assert(all.take(0) =~= Seq::<Seq<char>>::empty());
    for i in 0..n
        invariant
            n == all.len(),
            all == parts@.map_values(|p: Vec<char>| p@),
            started == (nonempty_items(all.take(i as int)).len() > 0),
            out@ == join_words(
                nonempty_items(all.take(i as int)).map_values(|w: Seq<char>| title_cased(w)),
            ),
    {
        let ghost t = all.take(i + 1);
        let ghost prev = nonempty_items(all.take(i as int));
        assert(t.drop_last() == all.take(i as int));
        assert(t.last() == parts@[i as int]@);
        if parts[i].len() > 0 {
            let word = title_case_ascii(string_from_chars(&parts[i]).as_str());
            if started {
                push_char(&mut out, ' ');
            }
            out.append(word.as_str());
            let ghost mapped_prev = prev.map_values(|w: Seq<char>| title_cased(w));
            let ghost mapped = nonempty_items(t).map_values(|w: Seq<char>| title_cased(w));
            assert(nonempty_items(t) == prev.push(t.last()));
            assert(mapped =~= mapped_prev.push(title_cased(t.last())));
            assert(mapped.drop_last() =~= mapped_prev);
            assert(out@ =~= join_words(mapped));
            started = true;
        } else {
            assert(nonempty_items(t) == prev);
        }
    }
    assert(all.take(n as int) == all);
    out
}

// ---------------------------------------------------------------------------
// Sorted sets of texts
// ---------------------------------------------------------------------------

/// The texts are in strictly increasing order (so each appears once).
pub open spec fn sorted_texts(v: Seq<Seq<char>>) -> bool {
    forall|i: int, j: int| 0 <= i < j < v.len() ==> text_less(#[trigger] v[i], #[trigger] v[j])
}

/// Adds a text to a sorted list unless it is there already.
pub(crate) fn insert_text_sorted(v: &mut Vec<String>, s: &str)
    requires
        sorted_texts(old(v).deep_view()),
    ensures
        sorted_texts(final(v).deep_view()),
        final(v).deep_view().to_set() == old(v).deep_view().to_set().insert(s@),
{
    let ghost w = v.deep_view();
    let mut k: usize = 0;
    while k < v.len() && crate::text::less_text(v[k].as_str(), s)
        invariant
            k <= v@.len(),
            w == v.deep_view(),
            forall|q: int| 0 <= q < k ==> text_less(#[trigger] w[q], s@),
        decreases v@.len() - k,
    {
        k = k + 1;
    }
    if k < v.len() && same_text(v[k].as_str(), s) {
        assert(w[k as int] == s@);
        assert(w.to_set().insert(s@) =~= w.to_set());
        return;
    }
    proof {
        lemma_text_less_irreflexive(s@);
        if k < w.len() {
            lemma_text_less_total(w[k as int], s@);
        }
    }
    v.insert(k, owned(s));
    proof {
        let w2 = v.deep_view();
        assert(w2 =~= w.insert(k as int, s@));
        assert forall|a: int, b: int| 0 <= a < b < w2.len() implies text_less(
            #[trigger] w2[a],
            #[trigger] w2[b],
        ) by {
            if b < k {
                assert(text_less(w[a], w[b]));
            } else if b == k {
                assert(text_less(w[a], s@));
            } else if a < k {
                assert(text_less(w[a], w[b - 1]));
            } else if a == k {
                if b - 1 > k {
                    assert(text_less(w[k as int], w[b - 1]));
                    lemma_text_less_transitive(s@, w[k as int], w[b - 1]);
                }
            } else {
                assert(text_less(w[a - 1], w[b - 1]));
            }
        }
        assert forall|x: Seq<char>| w2.to_set().contains(x) <==> w.to_set().insert(s@).contains(
            x,
        ) by {
            if w2.to_set().contains(x) {
                let q = choose|q: int| 0 <= q < w2.len() && w2[q] == x;
                if q < k {
                    assert(w[q] == x);
                } else if q > k {
                    assert(w[q - 1] == x);
                }
            }
            if w.to_set().contains(x) {
                let q = choose|q: int| 0 <= q < w.len() && w[q] == x;
                if q < k {
                    assert(w2[q] == x);
                } else {
                    assert(w2[q + 1] == x);
                }
            }
            if x == s@ {
                assert(w2[k as int] == x);
            }
        }
        assert(w2.to_set() =~= w.to_set().insert(s@));
    }
}

// ---------------------------------------------------------------------------
// Stored rows and report items
// ---------------------------------------------------------------------------

/// One stored aggregate: the total of an item for a profile, a day, a
/// chat, a sender and a category.
#[derive(Debug)]
pub struct ListIntakeAggregateRow {
    pub profile_id: String,
    pub window_local_date: String,
    pub chat_key: String,
    pub sender_label: String,
    pub category_id: String,
    pub item_name: String,
    pub total_quantity: i64,
    pub unit: Option<String>,
}

/// One item of a stored proposal.
#[derive(Debug)]
pub struct ListIntakeItemDraft {
    pub item_name: String,
    pub quantity: i64,
    pub unit: Option<String>,
    pub category_id: String,
}

/// A stored proposal waiting for review.
#[derive(Debug)]
pub struct ListIntakeReviewProposal {
    pub proposal_id: String,
    pub profile_id: String,
    pub chat_key: String,
    pub sender_label: String,
    pub items: Vec<ListIntakeItemDraft>,
}

#[derive(Debug)]
pub struct ListIntakeReviewItem {
    pub item_name: String,
    pub quantity: i64,
    pub unit: Option<String>,
    pub category_id: String,
    pub category_label: String,
}

/// The content of a report item.
pub struct ReviewItemView {
    pub item_name: Seq<char>,
    pub quantity: i64,
    pub unit: Option<Seq<char>>,
    pub category_id: Seq<char>,
    pub category_label: Seq<char>,
}

pub open spec fn opt_text(o: Option<String>) -> Option<Seq<char>> {
    match o {
        Some(s) => Some(s@),
        None => None,
    }
}

impl View for ListIntakeReviewItem {
    type V = ReviewItemView;

    open spec fn view(&self) -> ReviewItemView {
        ReviewItemView {
            item_name: self.item_name@,
            quantity: self.quantity,
            unit: opt_text(self.unit),
            category_id: self.category_id@,
            category_label: self.category_label@,
        }
    }
}

/// The report item of an aggregate row.
pub open spec fn row_item(row: ListIntakeAggregateRow) -> ReviewItemView {
    ReviewItemView {
        item_name: row.item_name@,
        quantity: row.total_quantity,
        unit: opt_text(row.unit),
        category_id: row.category_id@,
        category_label: category_label_text(row.category_id@),
    }
}

/// The report item of a proposal item.
pub open spec fn draft_item(item: ListIntakeItemDraft) -> ReviewItemView {
    ReviewItemView {
        item_name: item.item_name@,
        quantity: item.quantity,
        unit: opt_text(item.unit),
        category_id: item.category_id@,
        category_label: category_label_text(item.category_id@),
    }
}

fn clone_unit(unit: &Option<String>) -> (r: Option<String>)
    ensures
        opt_text(r) == opt_text(*unit),
{
    match unit {
        Some(u) => Some(u.clone()),
        None => None,
    }
}

/// The report item of an aggregate row carries the row's item over
/// unchanged: its name, its total as the quantity, its unit and its
/// category, labelled by the category's label.
pub proof fn law_row_item_carries_the_row(row: ListIntakeAggregateRow)
    ensures
        row_item(row).item_name == row.item_name@,
        row_item(row).quantity == row.total_quantity,
        row_item(row).unit == opt_text(row.unit),
        row_item(row).unit is Some <==> row.unit is Some,
        row_item(row).category_id == row.category_id@,
        row_item(row).category_label == category_label_text(row.category_id@),
{
}

/// The report item of a proposal item carries the item over unchanged:
/// its name, quantity, unit and category, labelled by the category's
/// label.
pub proof fn law_draft_item_carries_the_item(item: ListIntakeItemDraft)
    ensures
        draft_item(item).item_name == item.item_name@,
        draft_item(item).quantity == item.quantity,
        draft_item(item).unit == opt_text(item.unit),
        draft_item(item).unit is Some <==> item.unit is Some,
        draft_item(item).category_id == item.category_id@,
        draft_item(item).category_label == category_label_text(item.category_id@),
{
}

pub fn review_item_from_row(row: &ListIntakeAggregateRow) -> (r: ListIntakeReviewItem)
    ensures
        r@ == row_item(*row),
        r.item_name@ == row.item_name@,
        r.quantity == row.total_quantity,
        opt_text(r.unit) == opt_text(row.unit),
        r.category_id@ == row.category_id@,
{
    ListIntakeReviewItem {
        item_name: row.item_name.clone(),
        quantity: row.total_quantity,
        unit: clone_unit(&row.unit),
        category_id: row.category_id.clone(),
        category_label: category_label(row.category_id.as_str()),
    }
}

pub fn review_item_from_draft(item: &ListIntakeItemDraft) -> (r: ListIntakeReviewItem)
    ensures
        r@ == draft_item(*item),
        r.item_name@ == item.item_name@,
        r.quantity == item.quantity,
        opt_text(r.unit) == opt_text(item.unit),
        r.category_id@ == item.category_id@,
{
    ListIntakeReviewItem {
        item_name: item.item_name.clone(),
        quantity: item.quantity,
        unit: clone_unit(&item.unit),
        category_id: item.category_id.clone(),
        category_label: category_label(item.category_id.as_str()),
    }
}

/// The stored item of an edited report item; its label is dropped.
pub fn draft_from_review_item(item: ListIntakeReviewItem) -> (r: ListIntakeItemDraft)
    ensures
        r.item_name@ == item.item_name@,
        r.quantity == item.quantity,
        opt_text(r.unit) == opt_text(item.unit),
        r.category_id@ == item.category_id@,
{
    ListIntakeItemDraft {
        item_name: item.item_name,
        quantity: item.quantity,
        unit: item.unit,
        category_id: item.category_id,
    }
}

// ---------------------------------------------------------------------------
// Profile and chat labels
// ---------------------------------------------------------------------------

/// Ordinal labels for profiles and chats: the n-th id in sorted order is
/// labelled `Profile n` (or `Chat n`), so raw ids never reach the screen.
pub struct ReportLabels {
    profile_ids: Vec<String>,
    chat_keys: Vec<String>,
}

/// The label of `id` among sorted, distinct `ids`: the prefix and its
/// position counted from 1, or position 1 when `id` is not listed.
pub open spec fn ordinal_label(ids: Seq<Seq<char>>, id: Seq<char>, prefix: Seq<char>) -> Seq<char> {
    if ids.contains(id) {
        prefix + " "@ + crate::text::decimal((ids.index_of(id) + 1) as nat)
    } else {
        prefix + " 1"@
    }
}

/// Two different listed ids never share a label, so the ordinal labels of
/// a report tell its profiles (and its chats) apart.
pub proof fn law_ordinal_labels_distinct(
    ids: Seq<Seq<char>>,
    a: Seq<char>,
    b: Seq<char>,
    prefix: Seq<char>,
)
    requires
        ids.contains(a),
        ids.contains(b),
        a != b,
    ensures
        ordinal_label(ids, a, prefix) != ordinal_label(ids, b, prefix),
{
    let ia = ids.index_of(a);
    let ib = ids.index_of(b);
    assert(ids[ia] == a && ids[ib] == b);
    assert(ia != ib);
    let head = prefix + " "@;
    let da = crate::text::decimal((ia + 1) as nat);
    let db = crate::text::decimal((ib + 1) as nat);
    if ordinal_label(ids, a, prefix) == ordinal_label(ids, b, prefix) {
        assert(prefix + " "@ + da =~= head + da);
        assert(prefix + " "@ + db =~= head + db);
        assert((head + da).skip(head.len() as int) =~= da);
        assert((head + db).skip(head.len() as int) =~= db);
        crate::text::lemma_decimal_value((ia + 1) as nat);
        crate::text::lemma_decimal_value((ib + 1) as nat);
    }
}

/// The profile ids of the rows and proposals.
pub open spec fn profile_id_set(
    rows: Seq<ListIntakeAggregateRow>,
    proposals: Seq<ListIntakeReviewProposal>,
) -> Set<Seq<char>> {
    rows.map_values(|r: ListIntakeAggregateRow| r.profile_id@).to_set() + proposals.map_values(
        |p: ListIntakeReviewProposal| p.profile_id@,
    ).to_set()
}

/// The chat keys of the rows and proposals.
pub open spec fn chat_key_set(
    rows: Seq<ListIntakeAggregateRow>,
    proposals: Seq<ListIntakeReviewProposal>,
) -> Set<Seq<char>> {
    rows.map_values(|r: ListIntakeAggregateRow| r.chat_key@).to_set() + proposals.map_values(
        |p: ListIntakeReviewProposal| p.chat_key@,
    ).to_set()
}

/// The elements of a sequence with one more pushed.
pub proof fn lemma_push_to_set<A>(s: Seq<A>, x: A)
    ensures
        s.push(x).to_set() == s.to_set().insert(x),
{
    assert forall|a: A| s.push(x).contains(a) <==> s.to_set().insert(x).contains(a) by {
        if s.push(x).contains(a) {
            let i = choose|i: int| 0 <= i < s.push(x).len() && s.push(x)[i] == a;
            if i < s.len() {
                assert(s[i] == a);
            }
        }
        if s.contains(a) {
            let i = choose|i: int| 0 <= i < s.len() && s[i] == a;
            assert(s.push(x)[i] == a);
        }
        if a == x {
            assert(s.push(x)[s.len() as int] == a);
        }
    }
    assert(s.push(x).to_set() =~= s.to_set().insert(x));
}

/// In a sorted list, the position found by a scan is `index_of`.
proof fn lemma_sorted_index_of(v: Seq<Seq<char>>, i: int)
    requires
        sorted_texts(v),
        0 <= i < v.len(),
    ensures
        v.index_of(v[i]) == i,
{
    let x = v[i];
    assert(v.contains(x));
    let j = v.index_of(x);
    assert(0 <= j < v.len() && v[j] == x);
    if j < i {
        assert(text_less(v[j], v[i]));
        lemma_text_less_irreflexive(x);
    } else if j > i {
        assert(text_less(v[i], v[j]));
        lemma_text_less_irreflexive(x);
    }
}

fn ordinal_label_of(ids: &Vec<String>, id: &str, prefix: &str) -> (r: String)
    requires
        sorted_texts(ids.deep_view()),
    ensures
        r@ == ordinal_label(ids.deep_view(), id@, prefix@),
{
    let ghost v = ids.deep_view();
    let mut i: usize = 0;
    while i < ids.len()
        invariant
            i <= v.len(),
            v == ids.deep_view(),
            sorted_texts(v),
            forall|q: int| 0 <= q < i ==> v[q] != id@,
        decreases v.len() - i,
    {
        if same_text(ids[i].as_str(), id) {
            proof {
                assert(v[i as int] == id@);
                lemma_sorted_index_of(v, i as int);
            }
            let mut label = owned(prefix);
            label.append(" ");
            crate::text::push_decimal(&mut label, (i as u64) + 1);
            return label;
        }
        i = i + 1;
    }
    assert(!v.contains(id@));
    let mut label = owned(prefix);
    label.append(" 1");
    label
}

impl ReportLabels {
    pub closed spec fn spec_profile_ids(&self) -> Seq<Seq<char>> {
        self.profile_ids.deep_view()
    }

    pub closed spec fn spec_chat_keys(&self) -> Seq<Seq<char>> {
        self.chat_keys.deep_view()
    }

    pub closed spec fn wf(&self) -> bool {
        sorted_texts(self.profile_ids.deep_view()) && sorted_texts(self.chat_keys.deep_view())
    }

    /// The labels of every profile and chat named by the rows and the
    /// proposals.
    pub fn new(rows: &Vec<ListIntakeAggregateRow>, proposals: &Vec<ListIntakeReviewProposal>) -> (r:
        Self)
        ensures
            r.wf(),
            sorted_texts(r.spec_profile_ids()),
            sorted_texts(r.spec_chat_keys()),
            r.spec_profile_ids().to_set() == profile_id_set(rows@, proposals@),
            r.spec_chat_keys().to_set() == chat_key_set(rows@, proposals@),
    {
        let mut profile_ids: Vec<String> = Vec::new();
        let mut chat_keys: Vec<String> = Vec::new();
        let ghost row_profiles = rows@.map_values(|r: ListIntakeAggregateRow| r.profile_id@);
        let ghost row_chats = rows@.map_values(|r: ListIntakeAggregateRow| r.chat_key@);
        let ghost proposal_profiles = proposals@.map_values(
            |p: ListIntakeReviewProposal| p.profile_id@,
        );
        let ghost proposal_chats = proposals@.map_values(|p: ListIntakeReviewProposal| p.chat_key@);
        assert(profile_ids.deep_view().to_set() =~= row_profiles.take(0).to_set());
        assert(chat_keys.deep_view().to_set() =~= row_chats.take(0).to_set());
        for i in 0..rows.len()
            invariant
                row_profiles == rows@.map_values(|r: ListIntakeAggregateRow| r.profile_id@),
                row_chats == rows@.map_values(|r: ListIntakeAggregateRow| r.chat_key@),
                sorted_texts(profile_ids.deep_view()),
                sorted_texts(chat_keys.deep_view()),
                profile_ids.deep_view().to_set() == row_profiles.take(i as int).to_set(),
                chat_keys.deep_view().to_set() == row_chats.take(i as int).to_set(),
        {
            insert_text_sorted(&mut profile_ids, rows[i].profile_id.as_str());
            insert_text_sorted(&mut chat_keys, rows[i].chat_key.as_str());
            assert(row_profiles.take(i + 1) == row_profiles.take(i as int).push(
                rows@[i as int].profile_id@,
            ));
            assert(row_chats.take(i + 1) == row_chats.take(i as int).push(rows@[i as int].chat_key@));
            proof {
                lemma_push_to_set(row_profiles.take(i as int), rows@[i as int].profile_id@);
                lemma_push_to_set(row_chats.take(i as int), rows@[i as int].chat_key@);
            }
        }
        assert(row_profiles.take(rows@.len() as int) == row_profiles);
        assert(row_chats.take(rows@.len() as int) == row_chats);
        assert(proposal_profiles.take(0).to_set() =~= Set::<Seq<char>>::empty());
        assert(proposal_chats.take(0).to_set() =~= Set::<Seq<char>>::empty());
        for i in 0..proposals.len()
            invariant
                row_profiles == rows@.map_values(|r: ListIntakeAggregateRow| r.profile_id@),
                row_chats == rows@.map_values(|r: ListIntakeAggregateRow| r.chat_key@),
                proposal_profiles == proposals@.map_values(
                    |p: ListIntakeReviewProposal| p.profile_id@,
                ),
                proposal_chats == proposals@.map_values(|p: ListIntakeReviewProposal| p.chat_key@),
                sorted_texts(profile_ids.deep_view()),
                sorted_texts(chat_keys.deep_view()),
                profile_ids.deep_view().to_set() == row_profiles.to_set() + proposal_profiles.take(
                    i as int,
                ).to_set(),
                chat_keys.deep_view().to_set() == row_chats.to_set() + proposal_chats.take(
                    i as int,
                ).to_set(),
        {
            insert_text_sorted(&mut profile_ids, proposals[i].profile_id.as_str());
            insert_text_sorted(&mut chat_keys, proposals[i].chat_key.as_str());
            assert(proposal_profiles.take(i + 1) == proposal_profiles.take(i as int).push(
                proposals@[i as int].profile_id@,
            ));
            assert(proposal_chats.take(i + 1) == proposal_chats.take(i as int).push(
                proposals@[i as int].chat_key@,
            ));
            proof {
                lemma_push_to_set(
                    proposal_profiles.take(i as int),
                    proposals@[i as int].profile_id@,
                );
                lemma_push_to_set(proposal_chats.take(i as int), proposals@[i as int].chat_key@);
            }
            assert(profile_ids.deep_view().to_set() =~= row_profiles.to_set()
                + proposal_profiles.take(i + 1).to_set());
            assert(chat_keys.deep_view().to_set() =~= row_chats.to_set() + proposal_chats.take(
                i + 1,
            ).to_set());
        }
        assert(proposal_profiles.take(proposals@.len() as int) == proposal_profiles);
        assert(proposal_chats.take(proposals@.len() as int) == proposal_chats);
        ReportLabels { profile_ids, chat_keys }
    }

    /// `Profile n` for the n-th profile id in sorted order.
    pub fn profile(&self, profile_id: &str) -> (r: String)
        requires
            self.wf(),
        ensures
            r@ == ordinal_label(self.spec_profile_ids(), profile_id@, "Profile"@),
    {
        ordinal_label_of(&self.profile_ids, profile_id, "Profile")
    }

    /// `Chat n` for the n-th chat key in sorted order.
    pub fn chat(&self, chat_key: &str) -> (r: String)
        requires
            self.wf(),
        ensures
            r@ == ordinal_label(self.spec_chat_keys(), chat_key@, "Chat"@),
    {
        ordinal_label_of(&self.chat_keys, chat_key, "Chat")
    }
}

// ---------------------------------------------------------------------------
// Proposals
// ---------------------------------------------------------------------------

#[derive(Debug)]
pub struct ListIntakeReviewCategory {
    pub category_id: String,
    pub label: String,
}

#[derive(Debug)]
pub struct ListIntakeReviewProposalCommand {
    pub proposal_id: String,
    pub profile_name: String,
    pub chat_label: String,
    pub sender_label: String,
    pub items: Vec<ListIntakeReviewItem>,
    pub categories: Vec<ListIntakeReviewCategory>,
}

/// The category ids of a proposal's items.
pub open spec fn item_category_ids(items: Seq<ListIntakeItemDraft>) -> Set<Seq<char>> {
    items.map_values(|i: ListIntakeItemDraft| i.category_id@).to_set()
}

/// The categories the user may pick for a proposal's items: each
/// category of the items and the uncategorized one, once each in id
/// order, with their labels.
pub fn category_options(items: &Vec<ListIntakeItemDraft>) -> (r: Vec<ListIntakeReviewCategory>)
    ensures
        sorted_texts(r@.map_values(|c: ListIntakeReviewCategory| c.category_id@)),
        r@.map_values(|c: ListIntakeReviewCategory| c.category_id@).to_set() == item_category_ids(
            items@,
        ).insert(LIST_INTAKE_UNCATEGORIZED_CATEGORY_ID@),
        forall|i: int|
            0 <= i < r@.len() ==> (#[trigger] r@[i]).label@ == category_label_text(
                r@[i].category_id@,
            ),
{
    let mut ids: Vec<String> = Vec::new();
    let ghost all = items@.map_values(|i: ListIntakeItemDraft| i.category_id@);
    assert(ids.deep_view().to_set() =~= all.take(0).to_set());
    for i in 0..items.len()
        invariant
            all == items@.map_values(|i: ListIntakeItemDraft| i.category_id@),
            sorted_texts(ids.deep_view()),
            ids.deep_view().to_set() == all.take(i as int).to_set(),
    {
        insert_text_sorted(&mut ids, items[i].category_id.as_str());
        proof {
            assert(all.take(i + 1) == all.take(i as int).push(items@[i as int].category_id@));
            lemma_push_to_set(all.take(i as int), items@[i as int].category_id@);
        }
    }
    assert(all.take(items@.len() as int) == all);
    insert_text_sorted(&mut ids, LIST_INTAKE_UNCATEGORIZED_CATEGORY_ID);
    let mut options: Vec<ListIntakeReviewCategory> = Vec::new();
    for i in 0..ids.len()
        invariant
            options@.map_values(|c: ListIntakeReviewCategory| c.category_id@) == ids.deep_view().take(
                i as int,
            ),
            forall|k: int|
                0 <= k < options@.len() ==> (#[trigger] options@[k]).label@ == category_label_text(
                    options@[k].category_id@,
                ),
    {
        let id = ids[i].clone();
        let label = category_label(id.as_str());
        let ghost before = options@.map_values(|c: ListIntakeReviewCategory| c.category_id@);
        options.push(ListIntakeReviewCategory { category_id: id, label });
        assert(options@.map_values(|c: ListIntakeReviewCategory| c.category_id@) =~= before.push(
            ids.deep_view()[i as int],
        ));
        assert(ids.deep_view().take(i + 1) == ids.deep_view().take(i as int).push(
            ids.deep_view()[i as int],
        ));
    }
    assert(ids.deep_view().take(ids@.len() as int) == ids.deep_view());
    options
}

/// The index of the first proposal with the id, if any.
pub open spec fn first_proposal(ps: Seq<ListIntakeReviewProposal>, id: Seq<char>, from: int) -> Option<
    int,
>
    decreases ps.len() - from,
{
    if from < 0 || from >= ps.len() {
        None
    } else if ps[from].proposal_id@ == id {
        Some(from)
    } else {
        first_proposal(ps, id, from + 1)
    }
}

proof fn lemma_first_proposal(ps: Seq<ListIntakeReviewProposal>, id: Seq<char>, from: int)
    requires
        0 <= from,
    ensures
        first_proposal(ps, id, from) matches Some(i) ==> from <= i < ps.len()
            && ps[i].proposal_id@ == id,
    decreases ps.len() - from,
{
    if from < ps.len() && ps[from].proposal_id@ != id {
        lemma_first_proposal(ps, id, from + 1);
    }
}

/// The categories an approved edit may use: those of the proposal's
/// items other than the uncategorized one, once each in id order.
pub open spec fn allowed_ids(items: Seq<ListIntakeItemDraft>) -> Set<Seq<char>> {
    item_category_ids(items).remove(LIST_INTAKE_UNCATEGORIZED_CATEGORY_ID@)
}

/// The categories a proposal's review offers are exactly the categories
/// its stored approval allows, plus the uncategorized one.
pub proof fn law_offered_categories_are_allowed(items: Seq<ListIntakeItemDraft>)
    ensures
        item_category_ids(items).insert(LIST_INTAKE_UNCATEGORIZED_CATEGORY_ID@) == allowed_ids(
            items,
        ).insert(LIST_INTAKE_UNCATEGORIZED_CATEGORY_ID@),
        !allowed_ids(items).contains(LIST_INTAKE_UNCATEGORIZED_CATEGORY_ID@),
{
    assert(item_category_ids(items).insert(LIST_INTAKE_UNCATEGORIZED_CATEGORY_ID@) =~= allowed_ids(
        items,
    ).insert(LIST_INTAKE_UNCATEGORIZED_CATEGORY_ID@));
}

pub fn allowed_category_ids(proposals: &Vec<ListIntakeReviewProposal>, proposal_id: &str) -> (r:
    Result<Vec<String>, String>)
    ensures
        first_proposal(proposals@, proposal_id@, 0) is None ==> (r matches Err(e) && e@
            == "proposal_id: proposal not found"@),
        first_proposal(proposals@, proposal_id@, 0) matches Some(i) ==> (r matches Ok(ids)
            && sorted_texts(ids.deep_view()) && ids.deep_view().to_set() == allowed_ids(
            proposals@[i].items@,
        )),
{
    let mut k: usize = 0;
    while k < proposals.len()
        invariant
            k <= proposals@.len(),
            first_proposal(proposals@, proposal_id@, 0) == first_proposal(
                proposals@,
                proposal_id@,
                k as int,
            ),
        ensures
            k <= proposals@.len(),
            first_proposal(proposals@, proposal_id@, 0) == first_proposal(
                proposals@,
                proposal_id@,
                k as int,
            ),
            k < proposals@.len() ==> proposals@[k as int].proposal_id@ == proposal_id@,
        decreases proposals@.len() - k,
    {
        if same_text(proposals[k].proposal_id.as_str(), proposal_id) {
            break;
        }
        k = k + 1;
    }
    if k >= proposals.len() {
        return Err(owned("proposal_id: proposal not found"));
    }
    let items = &proposals[k].items;
    let ghost all = items@.map_values(|i: ListIntakeItemDraft| i.category_id@);
    let mut ids: Vec<String> = Vec::new();
    assert(ids.deep_view().to_set() =~= all.take(0).to_set().remove(
        LIST_INTAKE_UNCATEGORIZED_CATEGORY_ID@,
    ));
    for i in 0..items.len()
        invariant
            all == items@.map_values(|i: ListIntakeItemDraft| i.category_id@),
            sorted_texts(ids.deep_view()),
            ids.deep_view().to_set() == all.take(i as int).to_set().remove(
                LIST_INTAKE_UNCATEGORIZED_CATEGORY_ID@,
            ),
    {
        let id = items[i].category_id.as_str();
        proof {
            assert(all.take(i + 1) == all.take(i as int).push(id@));
            lemma_push_to_set(all.take(i as int), id@);
        }
        if !same_text(id, LIST_INTAKE_UNCATEGORIZED_CATEGORY_ID) {
            insert_text_sorted(&mut ids, id);
            assert(ids.deep_view().to_set() =~= all.take(i + 1).to_set().remove(
                LIST_INTAKE_UNCATEGORIZED_CATEGORY_ID@,
            ));
        } else {
            assert(ids.deep_view().to_set() =~= all.take(i + 1).to_set().remove(
                LIST_INTAKE_UNCATEGORIZED_CATEGORY_ID@,
            ));
        }
    }
    assert(all.take(items@.len() as int) == all);
    Ok(ids)
}

/// What the user decided on a proposal.
pub enum ListIntakeDecisionRequest {
    ApproveEdited { proposal_id: String, items: Vec<ListIntakeReviewItem> },
    Reject { proposal_id: String },
}

/// The decision as it is stored.
pub enum ListIntakeProposalDecision {
    ApproveEdited {
        proposal_id: String,
        items: Vec<ListIntakeItemDraft>,
        allowed_category_ids: Vec<String>,
        decided_at: i64,
    },
    Reject { proposal_id: String, decided_at: i64 },
}

/// The stored form of the user's decision: an approval carries the
/// edited items and the categories the proposal allows; a rejection
/// carries only the proposal id. Approving an unknown proposal fails.
pub fn storage_decision(
    proposals: &Vec<ListIntakeReviewProposal>,
    request: ListIntakeDecisionRequest,
    decided_at: i64,
) -> (r: Result<ListIntakeProposalDecision, String>)
    ensures
        request matches ListIntakeDecisionRequest::Reject { proposal_id } ==> (r matches Ok(
            ListIntakeProposalDecision::Reject { proposal_id: p, decided_at: d },
        ) && p@ == proposal_id@ && d == decided_at),
        request matches ListIntakeDecisionRequest::ApproveEdited { proposal_id, items } ==> (
        first_proposal(proposals@, proposal_id@, 0) is None <==> r is Err),
        request matches ListIntakeDecisionRequest::ApproveEdited { proposal_id, items } ==> (
        first_proposal(proposals@, proposal_id@, 0) is None ==> (r matches Err(e) && e@
            == "proposal_id: proposal not found"@)),
        request matches ListIntakeDecisionRequest::ApproveEdited { proposal_id, items } ==> (
        first_proposal(proposals@, proposal_id@, 0) matches Some(i) ==> (r matches Ok(
            ListIntakeProposalDecision::ApproveEdited {
                proposal_id: p,
                items: drafts,
                allowed_category_ids: allowed,
                decided_at: d,
            },
        ) && p@ == proposal_id@ && d == decided_at && drafts@.len() == items@.len() && (forall|
            k: int,
        |
            0 <= k < items@.len() ==> (#[trigger] drafts@[k]).item_name@ == items@[k].item_name@
                && drafts@[k].quantity == items@[k].quantity && opt_text(drafts@[k].unit)
                == opt_text(items@[k].unit) && drafts@[k].category_id@ == items@[k].category_id@)
            && sorted_texts(allowed.deep_view()) && allowed.deep_view().to_set() == allowed_ids(
            proposals@[i].items@,
        ))),
{
    match request {
        ListIntakeDecisionRequest::ApproveEdited { proposal_id, items } => {
            let allowed = allowed_category_ids(proposals, proposal_id.as_str())?;
            let ghost edited = items@;
            let mut drafts: Vec<ListIntakeItemDraft> = Vec::new();
            let mut rest = items;
            let n = rest.len();
            let mut i: usize = 0;
            while i < n
                invariant
                    n == edited.len(),
                    i <= n,
                    rest@ == edited.skip(i as int),
                    drafts@.len() == i,
                    forall|k: int|
                        0 <= k < i ==> (#[trigger] drafts@[k]).item_name@ == edited[k].item_name@
                            && drafts@[k].quantity == edited[k].quantity && opt_text(
                            drafts@[k].unit,
                        ) == opt_text(edited[k].unit) && drafts@[k].category_id@
                            == edited[k].category_id@,
                decreases n - i,
            {
                let item = rest.remove(0);
                assert(item == edited[i as int]);
                drafts.push(draft_from_review_item(item));
                assert(rest@ =~= edited.skip(i + 1));
                i = i + 1;
            }
            Ok(
                ListIntakeProposalDecision::ApproveEdited {
                    proposal_id,
                    items: drafts,
                    allowed_category_ids: allowed,
                    decided_at,
                },
            )
        },
        ListIntakeDecisionRequest::Reject { proposal_id } => {
            Ok(ListIntakeProposalDecision::Reject { proposal_id, decided_at })
        },
    }
}

/// The review command of each proposal: its profile and chat by label,
/// its items, and the categories the user may pick.
pub fn proposal_commands(proposals: &Vec<ListIntakeReviewProposal>, labels: &ReportLabels) -> (r:
    Vec<ListIntakeReviewProposalCommand>)
    requires
        labels.wf(),
    ensures
        r@.len() == proposals@.len(),
        forall|i: int|
            0 <= i < r@.len() ==> {
                let c = #[trigger] r@[i];
                let p = proposals@[i];
                &&& c.proposal_id@ == p.proposal_id@
                &&& c.profile_name@ == ordinal_label(
                    labels.spec_profile_ids(),
                    p.profile_id@,
                    "Profile"@,
                )
                &&& c.chat_label@ == ordinal_label(labels.spec_chat_keys(), p.chat_key@, "Chat"@)
                &&& c.sender_label@ == p.sender_label@
                &&& c.items@.map_values(|x: ListIntakeReviewItem| x@) == p.items@.map_values(
                    |d: ListIntakeItemDraft| draft_item(d),
                )
                &&& sorted_texts(c.categories@.map_values(|x: ListIntakeReviewCategory| x.category_id@))
                &&& c.categories@.map_values(|x: ListIntakeReviewCategory| x.category_id@).to_set()
                    == item_category_ids(p.items@).insert(LIST_INTAKE_UNCATEGORIZED_CATEGORY_ID@)
                &&& forall|k: int|
                    0 <= k < c.categories@.len() ==> (#[trigger] c.categories@[k]).label@
                        == category_label_text(c.categories@[k].category_id@)
            },
{
    let mut out: Vec<ListIntakeReviewProposalCommand> = Vec::new();
    for i in 0..proposals.len()
        invariant
            labels.wf(),
            out@.len() == i,
            forall|j: int|
                0 <= j < i ==> {
                    let c = #[trigger] out@[j];
                    let p = proposals@[j];
                    &&& c.proposal_id@ == p.proposal_id@
                    &&& c.profile_name@ == ordinal_label(
                        labels.spec_profile_ids(),
                        p.profile_id@,
                        "Profile"@,
                    )
                    &&& c.chat_label@ == ordinal_label(
                        labels.spec_chat_keys(),
                        p.chat_key@,
                        "Chat"@,
                    )
                    &&& c.sender_label@ == p.sender_label@
                    &&& c.items@.map_values(|x: ListIntakeReviewItem| x@) == p.items@.map_values(
                        |d: ListIntakeItemDraft| draft_item(d),
                    )
                    &&& sorted_texts(
                        c.categories@.map_values(|x: ListIntakeReviewCategory| x.category_id@),
                    )
                    &&& c.categories@.map_values(
                        |x: ListIntakeReviewCategory| x.category_id@,
                    ).to_set() == item_category_ids(p.items@).insert(
                        LIST_INTAKE_UNCATEGORIZED_CATEGORY_ID@,
                    )
                    &&& forall|k: int|
                        0 <= k < c.categories@.len() ==> (#[trigger] c.categories@[k]).label@
                            == category_label_text(c.categories@[k].category_id@)
                },
    {
        let p = &proposals[i];
        let mut items: Vec<ListIntakeReviewItem> = Vec::new();
        for k in 0..p.items.len()
            invariant
                items@.map_values(|x: ListIntakeReviewItem| x@) == p.items@.take(
                    k as int,
                ).map_values(|d: ListIntakeItemDraft| draft_item(d)),
        {
            let item = review_item_from_draft(&p.items[k]);
            let ghost before = items@.map_values(|x: ListIntakeReviewItem| x@);
            items.push(item);
            assert(items@.map_values(|x: ListIntakeReviewItem| x@) =~= before.push(item@));
            assert(p.items@.take(k + 1) == p.items@.take(k as int).push(p.items@[k as int]));
            assert(p.items@.take(k + 1).map_values(|d: ListIntakeItemDraft| draft_item(d))
                =~= p.items@.take(k as int).map_values(|d: ListIntakeItemDraft| draft_item(d)).push(
                draft_item(p.items@[k as int]),
            ));
        }
        assert(p.items@.take(p.items@.len() as int) == p.items@);
        let command = ListIntakeReviewProposalCommand {
            proposal_id: p.proposal_id.clone(),
            profile_name: labels.profile(p.profile_id.as_str()),
            chat_label: labels.chat(p.chat_key.as_str()),
            sender_label: p.sender_label.clone(),
            items,
            categories: category_options(&p.items),
        };
        out.push(command);
    }
    out
}

// ---------------------------------------------------------------------------
// Aggregate groups
// ---------------------------------------------------------------------------

#[derive(Debug)]
pub struct ListIntakeAggregateGroup {
    pub profile_id: String,
    pub profile_name: String,
    pub output_policy: String,
    pub local_date: String,
    pub chat_label: String,
    pub sender_label: String,
    pub category_label: String,
    pub items: Vec<ListIntakeReviewItem>,
}

/// The fields a row is grouped by: profile id and label, day, chat label,
/// sender and category label.
pub open spec fn row_group_key(
    row: ListIntakeAggregateRow,
    profiles: Seq<Seq<char>>,
    chats: Seq<Seq<char>>,
) -> Seq<Seq<char>> {
    seq![
        row.profile_id@,
        ordinal_label(profiles, row.profile_id@, "Profile"@),
        row.window_local_date@,
        ordinal_label(chats, row.chat_key@, "Chat"@),
        row.sender_label@,
        category_label_text(row.category_id@),
    ]
}

/// The grouping fields of a group, in the same order.
pub open spec fn group_key(g: ListIntakeAggregateGroup) -> Seq<Seq<char>> {
    seq![
        g.profile_id@,
        g.profile_name@,
        g.local_date@,
        g.chat_label@,
        g.sender_label@,
        g.category_label@,
    ]
}

/// Keys compare field by field, each field as text.
pub open spec fn key_less(a: Seq<Seq<char>>, b: Seq<Seq<char>>) -> bool
    decreases a.len(),
{
    if a.len() == 0 || b.len() == 0 {
        false
    } else if a[0] == b[0] {
        key_less(a.drop_first(), b.drop_first())
    } else {
        text_less(a[0], b[0])
    }
}

proof fn lemma_key_less_irreflexive(a: Seq<Seq<char>>)
    ensures
        !key_less(a, a),
    decreases a.len(),
{
    if a.len() > 0 {
        lemma_key_less_irreflexive(a.drop_first());
    }
}

proof fn lemma_key_less_total(a: Seq<Seq<char>>, b: Seq<Seq<char>>)
    requires
        a.len() == b.len(),
    ensures
        a == b || key_less(a, b) || key_less(b, a),
    decreases a.len(),
{
    if a.len() == 0 {
        assert(a =~= b);
    } else if a[0] == b[0] {
        lemma_key_less_total(a.drop_first(), b.drop_first());
        if a.drop_first() == b.drop_first() {
            assert forall|i: int| 0 <= i < a.len() implies a[i] == b[i] by {
                if i > 0 {
                    assert(a[i] == a.drop_first()[i - 1]);
                    assert(b[i] == b.drop_first()[i - 1]);
                }
            }
            assert(a =~= b);
        }
    } else {
        lemma_text_less_total(a[0], b[0]);
    }
}

proof fn lemma_key_less_transitive(a: Seq<Seq<char>>, b: Seq<Seq<char>>, c: Seq<Seq<char>>)
    requires
        key_less(a, b),
        key_less(b, c),
    ensures
        key_less(a, c),
    decreases a.len(),
{
    if a[0] == b[0] && b[0] == c[0] {
        lemma_key_less_transitive(a.drop_first(), b.drop_first(), c.drop_first());
    } else if a[0] != b[0] && b[0] != c[0] {
        lemma_text_less_transitive(a[0], b[0], c[0]);
        if a[0] == c[0] {
            lemma_text_less_irreflexive(a[0]);
        }
    } else if a[0] == b[0] {
    } else {
    }
}

/// The items of the rows, by grouping key, each in row order.
pub open spec fn items_by_key(
    rows: Seq<ListIntakeAggregateRow>,
    profiles: Seq<Seq<char>>,
    chats: Seq<Seq<char>>,
) -> Map<Seq<Seq<char>>, Seq<ReviewItemView>>
    decreases rows.len(),
{
    if rows.len() == 0 {
        Map::empty()
    } else {
        let m = items_by_key(rows.drop_last(), profiles, chats);
        let k = row_group_key(rows.last(), profiles, chats);
        if m.contains_key(k) {
            m.insert(k, m[k].push(row_item(rows.last())))
        } else {
            m.insert(k, seq![row_item(rows.last())])
        }
    }
}

/// Every aggregate row's item lands in the group of the row's key.
pub proof fn law_row_reaches_its_group(
    rows: Seq<ListIntakeAggregateRow>,
    profiles: Seq<Seq<char>>,
    chats: Seq<Seq<char>>,
    i: int,
)
    requires
        0 <= i < rows.len(),
    ensures
        items_by_key(rows, profiles, chats).contains_key(row_group_key(rows[i], profiles, chats)),
        items_by_key(rows, profiles, chats)[row_group_key(rows[i], profiles, chats)].contains(
            row_item(rows[i]),
        ),
    decreases rows.len(),
{
    let prev = rows.drop_last();
    let m0 = items_by_key(prev, profiles, chats);
    let last = rows.last();
    let kl = row_group_key(last, profiles, chats);
    let item = row_item(rows[i]);
    if i == rows.len() - 1 {
        if m0.contains_key(kl) {
            let pushed = m0[kl].push(row_item(last));
            assert(pushed[pushed.len() - 1] == item);
        } else {
            assert(seq![row_item(last)][0] == item);
        }
    } else {
        assert(prev[i] == rows[i]);
        law_row_reaches_its_group(prev, profiles, chats, i);
        let k = row_group_key(rows[i], profiles, chats);
        let before = m0[k];
        let j = choose|j: int| 0 <= j < before.len() && before[j] == item;
        if kl == k {
            let pushed = before.push(row_item(last));
            assert(pushed[j] == item);
        }
    }
}

/// `groups` lists the items of `m` once per key, in key order.
pub open spec fn lists_groups(
    groups: Seq<ListIntakeAggregateGroup>,
    m: Map<Seq<Seq<char>>, Seq<ReviewItemView>>,
) -> bool {
    &&& forall|i: int, j: int|
        0 <= i < j < groups.len() ==> key_less(
            group_key(#[trigger] groups[i]),
            group_key(#[trigger] groups[j]),
        )
    &&& forall|i: int|
        0 <= i < groups.len() ==> m.contains_key(group_key(#[trigger] groups[i]))
            && m[group_key(groups[i])] == groups[i].items@.map_values(|x: ListIntakeReviewItem| x@)
            && groups[i].output_policy@ == DEFAULT_OUTPUT_POLICY@
    &&& forall|k: Seq<Seq<char>>|
        #[trigger] m.contains_key(k) ==> exists|i: int|
            0 <= i < groups.len() && group_key(groups[i]) == k
}

fn fields_less(a: &Vec<String>, b: &Vec<String>) -> (r: bool)
    requires
        a@.len() == b@.len(),
    ensures
        r == key_less(a.deep_view(), b.deep_view()),
{
    let ghost x = a.deep_view();
    let ghost y = b.deep_view();
    let mut i: usize = 0;
    assert(x.skip(0) =~= x);
    assert(y.skip(0) =~= y);
    while i < a.len()
        invariant
            x == a.deep_view(),
            y == b.deep_view(),
            a@.len() == b@.len(),
            i <= a@.len(),
            key_less(x, y) == key_less(x.skip(i as int), y.skip(i as int)),
        decreases a@.len() - i,
    {
        assert(x.skip(i as int)[0] == a@[i as int]@);
        assert(y.skip(i as int)[0] == b@[i as int]@);
        assert(x.skip(i as int).drop_first() =~= x.skip(i + 1));
        assert(y.skip(i as int).drop_first() =~= y.skip(i + 1));
        if !same_text(a[i].as_str(), b[i].as_str()) {
            return crate::text::less_text(a[i].as_str(), b[i].as_str());
        }
        i = i + 1;
    }
    false
}

fn fields_equal(a: &Vec<String>, b: &Vec<String>) -> (r: bool)
    requires
        a@.len() == b@.len(),
    ensures
        r == (a.deep_view() == b.deep_view()),
{
    let mut i: usize = 0;
    while i < a.len()
        invariant
            a@.len() == b@.len(),
            i <= a@.len(),
            forall|k: int| 0 <= k < i ==> a.deep_view()[k] == b.deep_view()[k],
        decreases a@.len() - i,
    {
        if !same_text(a[i].as_str(), b[i].as_str()) {
            assert(a.deep_view()[i as int] != b.deep_view()[i as int]);
            return false;
        }
        i = i + 1;
    }
    assert(a.deep_view() =~= b.deep_view());
    true
}

/// A group under construction: its key fields and its items.
struct PendingGroup {
    key: Vec<String>,
    items: Vec<ListIntakeReviewItem>,
}

spec fn pending_key(p: PendingGroup) -> Seq<Seq<char>> {
    p.key.deep_view()
}

spec fn pending_items(p: PendingGroup) -> Seq<ReviewItemView> {
    p.items@.map_values(|x: ListIntakeReviewItem| x@)
}

/// `ps` holds the items of `m` once per key, in key order.
spec fn pending_lists(ps: Seq<PendingGroup>, m: Map<Seq<Seq<char>>, Seq<ReviewItemView>>) -> bool {
    &&& forall|i: int| 0 <= i < ps.len() ==> (#[trigger] ps[i]).key@.len() == 6
    &&& forall|i: int, j: int|
        0 <= i < j < ps.len() ==> key_less(
            pending_key(#[trigger] ps[i]),
            pending_key(#[trigger] ps[j]),
        )
    &&& forall|i: int|
        0 <= i < ps.len() ==> m.contains_key(pending_key(#[trigger] ps[i])) && m[pending_key(
            ps[i],
        )] == pending_items(ps[i])
    &&& forall|k: Seq<Seq<char>>|
        #[trigger] m.contains_key(k) ==> exists|i: int| 0 <= i < ps.len() && pending_key(ps[i]) == k
}

fn add_to_groups(
    groups: &mut Vec<PendingGroup>,
    key: Vec<String>,
    item: ListIntakeReviewItem,
    Ghost(m): Ghost<Map<Seq<Seq<char>>, Seq<ReviewItemView>>>,
)
    requires
        pending_lists(old(groups)@, m),
        key@.len() == 6,
    ensures
        pending_lists(
            final(groups)@,
            if m.contains_key(key.deep_view()) {
                m.insert(key.deep_view(), m[key.deep_view()].push(item@))
            } else {
                m.insert(key.deep_view(), seq![item@])
            },
        ),
{
    let ghost v = groups@;
    let ghost g = key.deep_view();
    let ghost m2 = if m.contains_key(g) {
        m.insert(g, m[g].push(item@))
    } else {
        m.insert(g, seq![item@])
    };
    let mut k: usize = 0;
    while k < groups.len() && fields_less(&groups[k].key, &key)
        invariant
            k <= v.len(),
            v == groups@,
            g == key.deep_view(),
            key@.len() == 6,
            pending_lists(v, m),
            forall|q: int| 0 <= q < k ==> key_less(pending_key(#[trigger] v[q]), g),
        decreases v.len() - k,
    {
        k = k + 1;
    }
    if k < groups.len() && fields_equal(&groups[k].key, &key) {
        assert(pending_key(v[k as int]) == g);
        let mut p = groups.remove(k);
        let ghost before = p.items@.map_values(|x: ListIntakeReviewItem| x@);
        p.items.push(item);
        assert(p.items@.map_values(|x: ListIntakeReviewItem| x@) =~= before.push(item@));
        groups.insert(k, p);
        proof {
            let v2 = groups@;
            assert(v2 =~= v.update(k as int, p));
            assert forall|q: int| 0 <= q < v.len() && q != k implies pending_key(#[trigger] v[q])
                != g by {
                lemma_key_less_irreflexive(g);
                if q < k {
                    assert(key_less(pending_key(v[q]), pending_key(v[k as int])));
                } else {
                    assert(key_less(pending_key(v[k as int]), pending_key(v[q])));
                }
            }
            assert forall|a: int, b: int| 0 <= a < b < v2.len() implies key_less(
                pending_key(#[trigger] v2[a]),
                pending_key(#[trigger] v2[b]),
            ) by {
                assert(key_less(pending_key(v[a]), pending_key(v[b])));
            }
            assert forall|q: int| 0 <= q < v2.len() implies m2.contains_key(
                pending_key(#[trigger] v2[q]),
            ) && m2[pending_key(v2[q])] == pending_items(v2[q]) by {
                if q != k {
                    assert(v2[q] == v[q]);
                }
            }
            assert forall|kk: Seq<Seq<char>>| #[trigger] m2.contains_key(kk) implies exists|q: int|
                0 <= q < v2.len() && pending_key(v2[q]) == kk by {
                let q = choose|q: int| 0 <= q < v.len() && pending_key(v[q]) == kk;
                assert(pending_key(v2[q]) == kk);
            }
        }
    } else {
        proof {
            assert forall|q: int| 0 <= q < v.len() implies pending_key(#[trigger] v[q]) != g by {
                lemma_key_less_irreflexive(g);
                if q >= k {
                    lemma_key_less_total(pending_key(v[k as int]), g);
                    if q > k {
                        assert(key_less(pending_key(v[k as int]), pending_key(v[q])));
                        if pending_key(v[q]) == g {
                            assert(key_less(pending_key(v[k as int]), g));
                        }
                    }
                }
            }
            assert(!m.contains_key(g));
            if k < v.len() {
                lemma_key_less_total(pending_key(v[k as int]), g);
                assert(key_less(g, pending_key(v[k as int])));
            }
        }
        let mut items: Vec<ListIntakeReviewItem> = Vec::new();
        items.push(item);
        let p = PendingGroup { key, items };
        assert(pending_items(p) =~= seq![item@]);
        groups.insert(k, p);
        proof {
            let v2 = groups@;
            assert(v2 =~= v.insert(k as int, p));
            assert forall|a: int, b: int| 0 <= a < b < v2.len() implies key_less(
                pending_key(#[trigger] v2[a]),
                pending_key(#[trigger] v2[b]),
            ) by {
                if b < k {
                    assert(key_less(pending_key(v[a]), pending_key(v[b])));
                } else if b == k {
                    assert(key_less(pending_key(v[a]), g));
                } else if a < k {
                    assert(key_less(pending_key(v[a]), pending_key(v[b - 1])));
                } else if a == k {
                    if b - 1 > k {
                        assert(key_less(pending_key(v[k as int]), pending_key(v[b - 1])));
                        lemma_key_less_transitive(g, pending_key(v[k as int]), pending_key(v[b - 1]));
                    }
                } else {
                    assert(key_less(pending_key(v[a - 1]), pending_key(v[b - 1])));
                }
            }
            assert forall|q: int| 0 <= q < v2.len() implies (#[trigger] v2[q]).key@.len() == 6 by {
                if q < k {
                    assert(v2[q] == v[q]);
                } else if q > k {
                    assert(v2[q] == v[q - 1]);
                }
            }
            assert forall|q: int| 0 <= q < v2.len() implies m2.contains_key(
                pending_key(#[trigger] v2[q]),
            ) && m2[pending_key(v2[q])] == pending_items(v2[q]) by {
                if q < k {
                    assert(v2[q] == v[q]);
                } else if q > k {
                    assert(v2[q] == v[q - 1]);
                }
            }
            assert forall|kk: Seq<Seq<char>>| #[trigger] m2.contains_key(kk) implies exists|q: int|
                0 <= q < v2.len() && pending_key(v2[q]) == kk by {
                if kk == g {
                    assert(pending_key(v2[k as int]) == kk);
                } else {
                    let q = choose|q: int| 0 <= q < v.len() && pending_key(v[q]) == kk;
                    if q < k {
                        assert(pending_key(v2[q]) == kk);
                    } else {
                        assert(pending_key(v2[q + 1]) == kk);
                    }
                }
            }
        }
    }
}

/// Groups the aggregate rows by profile, day, chat, sender and category:
/// each group lists its items in row order, and the groups come in the
/// order of their fields.
pub fn aggregate_groups(rows: &Vec<ListIntakeAggregateRow>, labels: &ReportLabels) -> (r: Vec<
    ListIntakeAggregateGroup,
>)
    requires
        labels.wf(),
    ensures
        lists_groups(
            r@,
            items_by_key(rows@, labels.spec_profile_ids(), labels.spec_chat_keys()),
        ),
{
    let ghost profiles = labels.spec_profile_ids();
    let ghost chats = labels.spec_chat_keys();
    let mut pending: Vec<PendingGroup> = Vec::new();
    assert(rows@.take(0) =~= Seq::<ListIntakeAggregateRow>::empty());
    for i in 0..rows.len()
        invariant
            labels.wf(),
            profiles == labels.spec_profile_ids(),
            chats == labels.spec_chat_keys(),
            pending_lists(pending@, items_by_key(rows@.take(i as int), profiles, chats)),
    {
        let row = &rows[i];
        let mut key: Vec<String> = Vec::new();
        key.push(row.profile_id.clone());
        key.push(labels.profile(row.profile_id.as_str()));
        key.push(row.window_local_date.clone());
        key.push(labels.chat(row.chat_key.as_str()));
        key.push(row.sender_label.clone());
        key.push(category_label(row.category_id.as_str()));
        assert(key.deep_view() =~= row_group_key(*row, profiles, chats));
        let item = review_item_from_row(row);
        assert(rows@.take(i + 1).drop_last() == rows@.take(i as int));
        assert(rows@.take(i + 1).last() == *row);
        add_to_groups(
            &mut pending,
            key,
            item,
            Ghost(items_by_key(rows@.take(i as int), profiles, chats)),
        );
    }
    assert(rows@.take(rows@.len() as int) == rows@);
    let ghost m = items_by_key(rows@, profiles, chats);
    let ghost ps = pending@;
    let mut groups: Vec<ListIntakeAggregateGroup> = Vec::new();
    let mut rest = pending;
    let n = rest.len();
    let mut i: usize = 0;
    while i < n
        invariant
            n == ps.len(),
            i <= n,
            rest@ == ps.skip(i as int),
            pending_lists(ps, m),
            groups@.len() == i,
            forall|q: int|
                0 <= q < i ==> group_key(#[trigger] groups@[q]) == pending_key(ps[q])
                    && groups@[q].items@.map_values(|x: ListIntakeReviewItem| x@) == pending_items(
                    ps[q],
                ) && groups@[q].output_policy@ == DEFAULT_OUTPUT_POLICY@,
        decreases n - i,
    {
        let p = rest.remove(0);
        assert(p == ps[i as int]);
        assert(rest@ =~= ps.skip(i + 1));
        assert(p.key@.len() == 6);
        let mut key = p.key;
        let category_label = key.pop().unwrap();
        let sender_label = key.pop().unwrap();
        let chat_label = key.pop().unwrap();
        let local_date = key.pop().unwrap();
        let profile_name = key.pop().unwrap();
        let profile_id = key.pop().unwrap();
        let group = ListIntakeAggregateGroup {
            profile_id,
            profile_name,
            output_policy: owned(DEFAULT_OUTPUT_POLICY),
            local_date,
            chat_label,
            sender_label,
            category_label,
            items: p.items,
        };
        assert(group_key(group) =~= pending_key(p));
        groups.push(group);
        i = i + 1;
    }
    proof {
        assert forall|a: int, b: int| 0 <= a < b < groups@.len() implies key_less(
            group_key(#[trigger] groups@[a]),
            group_key(#[trigger] groups@[b]),
        ) by {
            assert(key_less(pending_key(ps[a]), pending_key(ps[b])));
        }
        assert forall|q: int| 0 <= q < groups@.len() implies m.contains_key(
            group_key(#[trigger] groups@[q]),
        ) && m[group_key(groups@[q])] == groups@[q].items@.map_values(
            |x: ListIntakeReviewItem| x@,
        ) && groups@[q].output_policy@ == DEFAULT_OUTPUT_POLICY@ by {
            assert(m.contains_key(pending_key(ps[q])));
        }
        assert forall|k: Seq<Seq<char>>| #[trigger] m.contains_key(k) implies exists|q: int|
            0 <= q < groups@.len() && group_key(groups@[q]) == k by {
            let q = choose|q: int| 0 <= q < ps.len() && pending_key(ps[q]) == k;
            assert(group_key(groups@[q]) == k);
        }
    }
    groups
}

#[derive(Debug)]
pub struct ListIntakeReviewReport {
    pub generated_at_unix_seconds: i64,
    pub aggregates: Vec<ListIntakeAggregateGroup>,
    pub proposals: Vec<ListIntakeReviewProposalCommand>,
}

/// The review report of the stored aggregates and proposals: profiles and
/// chats are labelled by their order among all rows and proposals.
pub fn review_report(
    rows: &Vec<ListIntakeAggregateRow>,
    proposals: &Vec<ListIntakeReviewProposal>,
    generated_at_unix_seconds: i64,
) -> (r: ListIntakeReviewReport)
    ensures
        r.generated_at_unix_seconds == generated_at_unix_seconds,
        exists|labels: ReportLabels|
            {
                &&& labels.wf()
                &&& labels.spec_profile_ids().to_set() == profile_id_set(rows@, proposals@)
                &&& labels.spec_chat_keys().to_set() == chat_key_set(rows@, proposals@)
                &&& lists_groups(
                    r.aggregates@,
                    items_by_key(rows@, labels.spec_profile_ids(), labels.spec_chat_keys()),
                )
                &&& r.proposals@.len() == proposals@.len()
                &&& forall|i: int|
                    0 <= i < r.proposals@.len() ==> (#[trigger] r.proposals@[i]).profile_name@
                        == ordinal_label(
                        labels.spec_profile_ids(),
                        proposals@[i].profile_id@,
                        "Profile"@,
                    ) && r.proposals@[i].chat_label@ == ordinal_label(
                        labels.spec_chat_keys(),
                        proposals@[i].chat_key@,
                        "Chat"@,
                    ) && r.proposals@[i].proposal_id@ == proposals@[i].proposal_id@
            },
{
    let labels = ReportLabels::new(rows, proposals);
    let aggregates = aggregate_groups(rows, &labels);
    let commands = proposal_commands(proposals, &labels);
    ListIntakeReviewReport { generated_at_unix_seconds, aggregates, proposals: commands }
}

} // verus!
