//! Quick capture: one block of free text becomes the payload of a new item.
//!
//! The first line is the header. Its words that start with `#` are tags, the
//! other words make the title, and the special tags `todo`, `note` and `event`
//! choose the item's type. The lines after the header are the content.

use vstd::prelude::*;
use crate::model::{CreateItemPayload, CreateItemPayloadView};
use crate::text::{
    chars_of, copy_range, eq_ignore_ascii_case, join_from, joined, lines, rows,
    same_ignoring_ascii_case, split_lines, split_words, text_of, trim, trimmed, words,
};

verus! {

/// The first line of the text; empty where the text has no line.
pub open spec fn header_of(text: Seq<char>) -> Seq<char> {
    if lines(text).len() == 0 {
        Seq::empty()
    } else {
        lines(text)[0]
    }
}

/// The lines after the first, joined by line feeds; empty where there is
/// none.
pub open spec fn content_of(text: Seq<char>) -> Seq<char> {
    if lines(text).len() == 0 {
        Seq::empty()
    } else {
        joined(lines(text).skip(1), '\n')
    }
}

/// Whether a word of the header is a tag: it starts with `#`.
pub open spec fn is_tag_word(word: Seq<char>) -> bool {
    word.len() > 0 && word[0] == '#'
}

/// The tags among the words, in order, each without its leading `#`.
pub open spec fn tags_of(header_words: Seq<Seq<char>>) -> Seq<Seq<char>>
    decreases header_words.len(),
{
    if header_words.len() == 0 {
        Seq::empty()
    } else if is_tag_word(header_words.last()) {
        tags_of(header_words.drop_last()).push(header_words.last().skip(1))
    } else {
        tags_of(header_words.drop_last())
    }
}

/// The words that are no tags, in order.
pub open spec fn title_words(header_words: Seq<Seq<char>>) -> Seq<Seq<char>>
    decreases header_words.len(),
{
    if header_words.len() == 0 {
        Seq::empty()
    } else if is_tag_word(header_words.last()) {
        title_words(header_words.drop_last())
    } else {
        title_words(header_words.drop_last()).push(header_words.last())
    }
}

/// The item type that a tag chooses, if it is one of the special tags. The
/// case of the tag's letters does not matter.
pub open spec fn type_of_tag(tag: Seq<char>) -> Option<Seq<char>> {
    if same_ignoring_ascii_case(tag, "todo"@) {
        Some("task"@)
    } else if same_ignoring_ascii_case(tag, "note"@) {
        Some("note"@)
    } else if same_ignoring_ascii_case(tag, "event"@) {
        Some("event"@)
    } else {
        None
    }
}

/// The item type that a sequence of tags chooses: that of the last special
/// tag among them, and `note` where there is none.
pub open spec fn type_of_tags(tags: Seq<Seq<char>>) -> Seq<char>
    decreases tags.len(),
{
    if tags.len() == 0 {
        "note"@
    } else {
        match type_of_tag(tags.last()) {
            Some(item_type) => item_type,
            None => type_of_tags(tags.drop_last()),
        }
    }
}

/// The payload that a captured text stands for.
pub open spec fn captured(text: Seq<char>) -> CreateItemPayloadView {
    let header_words = words(header_of(text));
    CreateItemPayloadView {
        item_type: type_of_tags(tags_of(header_words)),
        title: trimmed(joined(title_words(header_words), ' ')),
        content: Some(content_of(text)),
        tags: Some(tags_of(header_words)),
        code_location: None,
        completed: None,
        due_date: None,
        start_time: None,
        end_time: None,
    }
}

/// Parses a captured text into the payload of the item that it describes.
pub fn parse_capture(text: &str) -> (payload: CreateItemPayload)
    ensures
        payload@ == captured(text@),
{
    let chars = chars_of(text);
    let all_lines = split_lines(chars.as_slice());
    let header_words: Vec<Vec<char>> = if all_lines.len() == 0 {
        let empty: Vec<char> = Vec::new();
        split_words(empty.as_slice())
    } else {
        split_words(all_lines[0].as_slice())
    };
    let content: Vec<char> = if all_lines.len() == 0 {
        Vec::new()
    } else {
        join_from(&all_lines, 1, '\n')
    };

    let todo = chars_of("todo");
    let note = chars_of("note");
    let event = chars_of("event");
    let ghost all = rows(header_words);
    let mut item_type: String = "note".to_owned();
    let mut tags: Vec<String> = Vec::new();
    let mut title_parts: Vec<Vec<char>> = Vec::new();
    let mut i: usize = 0;
    while i < header_words.len()
        invariant
            i <= header_words.len(),
            all == rows(header_words),
            todo@ == "todo"@,
            note@ == "note"@,
            event@ == "event"@,
            tags.deep_view() == tags_of(all.take(i as int)),
            rows(title_parts) == title_words(all.take(i as int)),
            item_type@ == type_of_tags(tags_of(all.take(i as int))),
        decreases header_words.len() - i,
    {
        let word = &header_words[i];
        let ghost seen = all.take(i as int);
        let ghost next = all.take(i + 1);
        assert(next.drop_last() =~= seen);
        if word.len() > 0 && word[0] == '#' {
            let tag = copy_range(word.as_slice(), 1, word.len());
            if eq_ignore_ascii_case(tag.as_slice(), todo.as_slice()) {
                item_type = "task".to_owned();
            } else if eq_ignore_ascii_case(tag.as_slice(), note.as_slice()) {
                item_type = "note".to_owned();
            } else if eq_ignore_ascii_case(tag.as_slice(), event.as_slice()) {
                item_type = "event".to_owned();
            }
            tags.push(text_of(tag.as_slice()));
            assert(tags_of(next).drop_last() =~= tags_of(seen));
        } else {
            title_parts.push(copy_range(word.as_slice(), 0, word.len()));
            assert(word@.subrange(0, word@.len() as int) =~= word@);
        }
        i += 1;
    }
    assert(all.take(header_words.len() as int) =~= all);
    let joined_title = join_from(&title_parts, 0, ' ');
    assert(rows(title_parts).skip(0) =~= rows(title_parts));
    let title = trim(joined_title.as_slice());
    CreateItemPayload {
        item_type,
        title: text_of(title.as_slice()),
        content: Some(text_of(content.as_slice())),
        tags: Some(tags),
        code_location: None,
        completed: None,
        due_date: None,
        start_time: None,
        end_time: None,
    }
}

/// The type of a captured item is always one of `task`, `note` and `event`.
pub proof fn lemma_type_is_known(tags: Seq<Seq<char>>)
    ensures
        type_of_tags(tags) == "task"@ || type_of_tags(tags) == "note"@ || type_of_tags(tags)
            == "event"@,
    decreases tags.len(),
{
    if tags.len() > 0 {
        lemma_type_is_known(tags.drop_last());
    }
}

/// Tags that choose no type leave the item a note.
pub proof fn lemma_default_type_is_note(tags: Seq<Seq<char>>)
    requires
        forall|i: int| 0 <= i < tags.len() ==> type_of_tag(#[trigger] tags[i]) is None,
    ensures
        type_of_tags(tags) == "note"@,
    decreases tags.len(),
{
    if tags.len() > 0 {
        lemma_default_type_is_note(tags.drop_last());
    }
}

/// Every word of the header is either a tag or a word of the title.
pub proof fn lemma_words_are_split(header_words: Seq<Seq<char>>)
    ensures
        tags_of(header_words).len() + title_words(header_words).len() == header_words.len(),
    decreases header_words.len(),
{
    if header_words.len() > 0 {
        lemma_words_are_split(header_words.drop_last());
    }
}

/// A header that holds only tags gives an empty title.
pub proof fn lemma_only_tags_give_empty_title(header_words: Seq<Seq<char>>)
    requires
        forall|i: int| 0 <= i < header_words.len() ==> is_tag_word(#[trigger] header_words[i]),
    ensures
        title_words(header_words) == Seq::<Seq<char>>::empty(),
        trimmed(joined(title_words(header_words), ' ')) == Seq::<char>::empty(),
    decreases header_words.len(),
{
    if header_words.len() > 0 {
        lemma_only_tags_give_empty_title(header_words.drop_last());
    }
}

} // verus!
