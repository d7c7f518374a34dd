//! Filtering items by type and by tags.
//!
//! An item passes a filter when its type equals the wanted type up to case,
//! if one is wanted, and it carries every wanted tag, if any are wanted. Tags
//! are compared exactly.

use vstd::prelude::*;
use crate::model::{Item, ItemView};
use crate::text::{chars_of, copy_range, lowercase, text_of, to_lowercase, trim, trimmed};

verus! {

/// What a filtered listing asks for. `None` asks for nothing.
#[derive(Debug, PartialEq, Eq)]
pub struct ItemFilter {
    pub item_type: Option<String>,
    pub tags: Option<Vec<String>>,
}

/// What an [`ItemFilter`] is, as plain mathematical values.
pub struct ItemFilterView {
    pub item_type: Option<Seq<char>>,
    pub tags: Option<Seq<Seq<char>>>,
}

impl View for ItemFilter {
    type V = ItemFilterView;

    open spec fn view(&self) -> ItemFilterView {
        ItemFilterView { item_type: self.item_type.deep_view(), tags: self.tags.deep_view() }
    }
}

/// Whether a type is the wanted one: equal once both are in lower case.
pub open spec fn type_matches(item_type: Seq<char>, wanted: Option<Seq<char>>) -> bool {
    match wanted {
        None => true,
        Some(wanted_type) => lowercase(item_type) == lowercase(wanted_type),
    }
}

/// Whether the tags hold each of the wanted tags.
pub open spec fn holds_all(tags: Seq<Seq<char>>, wanted: Seq<Seq<char>>) -> bool {
    forall|i: int| 0 <= i < wanted.len() ==> tags.contains(#[trigger] wanted[i])
}

/// Whether the tags hold every wanted tag, if any are wanted.
pub open spec fn tags_match(tags: Seq<Seq<char>>, wanted: Option<Seq<Seq<char>>>) -> bool {
    match wanted {
        None => true,
        Some(wanted_tags) => holds_all(tags, wanted_tags),
    }
}

/// Whether an item passes a filter: both conditions hold.
pub open spec fn passes(item: ItemView, filter: ItemFilterView) -> bool {
    type_matches(item.item_type, filter.item_type) && tags_match(item.tags, filter.tags)
}

/// The items that pass the filter, in their order.
pub open spec fn selected(items: Seq<ItemView>, filter: ItemFilterView) -> Seq<ItemView>
    decreases items.len(),
{
    if items.len() == 0 {
        Seq::empty()
    } else if passes(items.last(), filter) {
        selected(items.drop_last(), filter).push(items.last())
    } else {
        selected(items.drop_last(), filter)
    }
}

/// Whether the list holds the text.
fn holds(texts: &Vec<String>, wanted: &String) -> (r: bool)
    ensures
        r == texts.deep_view().contains(wanted@),
{
    let mut i: usize = 0;
    while i < texts.len()
        invariant
            i <= texts.len(),
            forall|j: int| 0 <= j < i ==> texts.deep_view()[j] != wanted@,
        decreases texts.len() - i,
    {
        if texts[i] == *wanted {
            assert(texts.deep_view()[i as int] == wanted@);
            return true;
        }
        i += 1;
    }
    false
}

/// Whether an item passes a filter.
pub fn item_matches(item: &Item, filter: &ItemFilter) -> (r: bool)
    ensures
        r == passes(item@, filter@),
{
    let type_ok = match &filter.item_type {
        None => true,
        Some(wanted) => to_lowercase(item.item_type.as_str()) == to_lowercase(wanted.as_str()),
    };
    if !type_ok {
        return false;
    }
    match &filter.tags {
        None => true,
        Some(wanted) => {
            let mut i: usize = 0;
            while i < wanted.len()
                invariant
                    i <= wanted.len(),
                    filter@.tags == Some(wanted.deep_view()),
                    type_matches(item@.item_type, filter@.item_type),
                    forall|j: int|
                        0 <= j < i ==> item.tags.deep_view().contains(
                            #[trigger] wanted.deep_view()[j],
                        ),
                decreases wanted.len() - i,
            {
                if !holds(&item.tags, &wanted[i]) {
                    assert(!item@.tags.contains(wanted.deep_view()[i as int]));
                    return false;
                }
                i += 1;
            }
            true
        },
    }
}

/// The items that pass the filter, in their order.
pub fn select(items: &Vec<Item>, filter: &ItemFilter) -> (chosen: Vec<Item>)
    ensures
        chosen.deep_view() == selected(items.deep_view(), filter@),
{
    let ghost all = items.deep_view();
    let mut chosen: Vec<Item> = Vec::new();
    let mut i: usize = 0;
    while i < items.len()
        invariant
            i <= items.len(),
            all == items.deep_view(),
            chosen.deep_view() == selected(all.take(i as int), filter@),
        decreases items.len() - i,
    {
        assert(all.take(i + 1).drop_last() =~= all.take(i as int));
        if item_matches(&items[i], filter) {
            chosen.push(items[i].clone());
        }
        i += 1;
    }
    assert(all.take(items.len() as int) =~= all);
    chosen
}

/// An item is among the selected exactly when it is among the items and
/// passes the filter.
pub proof fn lemma_selected_exactly(items: Seq<ItemView>, filter: ItemFilterView, item: ItemView)
    ensures
        selected(items, filter).contains(item) <==> items.contains(item) && passes(item, filter),
    decreases items.len(),
{
    if items.len() > 0 {
        let rest = items.drop_last();
        lemma_selected_exactly(rest, filter, item);
        let chosen = selected(rest, filter);
        if items.contains(item) {
            let k = choose|k: int| 0 <= k < items.len() && items[k] == item;
            if k < items.len() - 1 {
                assert(rest[k] == item);
            }
        }
        if rest.contains(item) {
            let k = choose|k: int| 0 <= k < rest.len() && rest[k] == item;
            assert(items[k] == item);
        }
        if passes(items.last(), filter) {
            let all = chosen.push(items.last());
            assert(all.last() == items.last());
            if chosen.contains(item) {
                let k = choose|k: int| 0 <= k < chosen.len() && chosen[k] == item;
                assert(all[k] == item);
            }
            if all.contains(item) {
                let k = choose|k: int| 0 <= k < all.len() && all[k] == item;
                if k < chosen.len() {
                    assert(chosen[k] == item);
                }
            }
        }
        assert(items[items.len() - 1] == items.last());
    }
}

/// The filter that asks for nothing lets every item pass.
pub proof fn lemma_empty_filter_selects_all(items: Seq<ItemView>)
    ensures
        selected(items, ItemFilterView { item_type: None, tags: None }) == items,
    decreases items.len(),
{
    if items.len() > 0 {
        lemma_empty_filter_selects_all(items.drop_last());
    }
}

/// A filter whose tag list is empty asks nothing of the tags.
pub proof fn lemma_empty_tag_list_asks_nothing(tags: Seq<Seq<char>>)
    ensures
        tags_match(tags, Some(Seq::empty())),
{
}

/// How many characters from `from` on stand before the next comma, or
/// before the end where no comma follows.
pub open spec fn piece_len(s: Seq<char>, from: int) -> nat
    decreases s.len() - from,
{
    if 0 <= from < s.len() && s[from] != ',' {
        1 + piece_len(s, from + 1)
    } else {
        0
    }
}

/// A piece ends at the end of the text at the latest.
pub proof fn lemma_piece_len_bound(s: Seq<char>, from: int)
    requires
        0 <= from <= s.len(),
    ensures
        from + piece_len(s, from) <= s.len(),
    decreases s.len() - from,
{
    if from < s.len() && s[from] != ',' {
        lemma_piece_len_bound(s, from + 1);
    }
}

/// The pieces between the commas of the text, from `from` on. A text with
/// `n` commas has `n + 1` pieces; the empty text has one, which is empty.
pub open spec fn pieces_from(s: Seq<char>, from: int) -> Seq<Seq<char>>
    decreases s.len() + 1 - from,
{
    if 0 <= from <= s.len() {
        proof {
            lemma_piece_len_bound(s, from);
        }
        let end = from + piece_len(s, from);
        if end < s.len() {
            seq![s.subrange(from, end)] + pieces_from(s, end + 1)
        } else {
            seq![s.subrange(from, end)]
        }
    } else {
        Seq::empty()
    }
}

/// The tags that a comma-separated list names: its pieces, each trimmed.
pub open spec fn tag_list(raw: Seq<char>) -> Seq<Seq<char>> {
    pieces_from(raw, 0).map_values(|piece: Seq<char>| trimmed(piece))
}

/// Reads a comma-separated list of tags.
pub fn parse_tag_list(raw: &str) -> (tags: Vec<String>)
    ensures
        tags.deep_view() == tag_list(raw@),
{
    let chars = chars_of(raw);
    let ghost s = chars@;
    let mut tags: Vec<String> = Vec::new();
    let mut pos: usize = 0;
    let ghost mut done: Seq<Seq<char>> = Seq::empty();
    loop
        invariant_except_break
            s == chars@,
            s == raw@,
            pos <= chars.len(),
            done + pieces_from(s, pos as int) == pieces_from(s, 0),
            tags.deep_view() == done.map_values(|piece: Seq<char>| trimmed(piece)),
        ensures
            tags.deep_view() == tag_list(raw@),
        decreases chars.len() - pos,
    {
        let mut end: usize = pos;
        while end < chars.len() && chars[end] != ','
            invariant
                s == chars@,
                pos <= end <= chars.len(),
                piece_len(s, pos as int) == (end - pos) + piece_len(s, end as int),
            decreases chars.len() - end,
        {
            end += 1;
        }
        let piece = copy_range(chars.as_slice(), pos, end);
        let tag = trim(piece.as_slice());
        let ghost before = tags.deep_view();
        tags.push(text_of(tag.as_slice()));
        proof {
            let next = done.push(piece@);
            assert(tags.deep_view() =~= before.push(trimmed(piece@)));
            done = next;
        }
        if end < chars.len() {
            pos = end + 1;
        } else {
            break;
        }
    }
    tags
}

impl ItemFilter {
    /// The filter that a query asks for: the wanted type as it was given,
    /// and the tags of the comma-separated list.
    pub fn from_query(item_type: Option<&str>, tags: Option<&str>) -> (filter: ItemFilter)
        ensures
            filter@.item_type == (match item_type {
                Some(wanted) => Some(wanted@),
                None => None,
            }),
            filter@.tags == (match tags {
                Some(raw) => Some(tag_list(raw@)),
                None => None,
            }),
    {
        ItemFilter {
            item_type: match item_type {
                Some(wanted) => Some(wanted.to_owned()),
                None => None,
            },
            tags: match tags {
                Some(raw) => Some(parse_tag_list(raw)),
                None => None,
            },
        }
    }
}

} // verus!
