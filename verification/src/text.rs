//! The texts that the views put together: the titles of toasts and
//! dialogs, and the line that stands for a description. The sentences in
//! the user's language come in as arguments.

use vstd::prelude::*;
use vstd::string::*;
use vstd::utf8::*;

verus! {

/// The length, in bytes, to which a task's name is cut for a toast, and the
/// number of characters from which on it is cut.
pub const TOAST_NAME_LIMIT: usize = 15;

/// `template` with `name` in place of every `{}`, read from the left.
pub open spec fn filled(template: Seq<char>, name: Seq<char>) -> Seq<char>
    decreases template.len(),
{
    if template.len() < 2 {
        template
    } else if template[0] == '{' && template[1] == '}' {
        name + filled(template.skip(2), name)
    } else {
        seq![template[0]] + filled(template.skip(1), name)
    }
}

/// The place of the first line feed in `text`, or its length where it has
/// none.
pub open spec fn line_end(text: Seq<char>) -> int
    decreases text.len(),
{
    if text.len() == 0 {
        0
    } else if text[0] == '\n' {
        0
    } else {
        1 + line_end(text.drop_first())
    }
}

/// The first line of `text`, without its ending: a line feed, or a carriage
/// return and a line feed. A text without a line feed is its own first line.
pub open spec fn first_line(text: Seq<char>) -> Seq<char> {
    let end = line_end(text);
    if 0 < end < text.len() && text[end - 1] == '\r' {
        text.subrange(0, end - 1)
    } else {
        text.subrange(0, end)
    }
}

/// Whether `name` can be cut for a toast: a name of more characters than
/// the limit must have a character that begins right at the limit.
pub open spec fn can_shorten(name: &str) -> bool {
    name@.len() > TOAST_NAME_LIMIT ==> is_char_boundary(
        name.spec_bytes(),
        TOAST_NAME_LIMIT as int,
    )
}

/// The name of a task as a toast shows it: a name of up to fifteen
/// characters as it is; of a longer one the characters that its first
/// fifteen bytes hold, and three dots.
pub open spec fn shortened(name: &str) -> Seq<char> {
    if name@.len() > TOAST_NAME_LIMIT {
        decode_utf8(name.spec_bytes().subrange(0, TOAST_NAME_LIMIT as int)) + seq!['.', '.', '.']
    } else {
        name@
    }
}

proof fn lemma_line_end_bounds(text: Seq<char>)
    ensures
        0 <= line_end(text) <= text.len(),
        line_end(text) < text.len() ==> text[line_end(text)] == '\n',
        forall|j: int| 0 <= j < line_end(text) ==> text[j] != '\n',
    decreases text.len(),
{
    if text.len() > 0 && text[0] != '\n' {
        let rest = text.drop_first();
        lemma_line_end_bounds(rest);
        assert forall|j: int| 0 <= j < line_end(text) implies text[j] != '\n' by {
            if j > 0 {
                assert(text[j] == rest[j - 1]);
            }
        }
        if line_end(text) < text.len() {
            assert(text[line_end(text)] == rest[line_end(rest)]);
        }
    }
}

proof fn lemma_line_end_is(text: Seq<char>, end: int)
    requires
        0 <= end <= text.len(),
        end < text.len() ==> text[end] == '\n',
        forall|j: int| 0 <= j < end ==> text[j] != '\n',
    ensures
        line_end(text) == end,
{
    lemma_line_end_bounds(text);
    let e = line_end(text);
    if e < end {
        assert(text[e] != '\n');
    } else if end < e {
        assert(text[end] != '\n');
    }
}

/// Puts `name` in place of every `{}` of `template`.
pub fn fill_in(template: &str, name: &str) -> (r: String)
    ensures
        r@ == filled(template@, name@),
{
    let n = template.unicode_len();
    let mut out = String::new();
    let mut i: usize = 0;
    assert(template@.skip(0) =~= template@);
    while i < n
        invariant
            n == template@.len(),
            i <= n,
            out@ + filled(template@.skip(i as int), name@) =~= filled(template@, name@),
        decreases n - i,
    {
        let ghost rest = template@.skip(i as int);
        if i + 1 < n && template.get_char(i) == '{' && template.get_char(i + 1) == '}' {
            let ghost before = out@;
            out.append(name);
            proof {
                assert(rest.skip(2) =~= template@.skip(i + 2));
                assert(before + (name@ + filled(rest.skip(2), name@)) =~= (before + name@)
                    + filled(rest.skip(2), name@));
            }
            i += 2;
        } else {
            let ghost before = out@;
            out.append(template.substring_char(i, i + 1));
            proof {
                assert(template@.subrange(i as int, i + 1) =~= seq![rest[0]]);
                assert(rest.skip(1) =~= template@.skip(i + 1));
                if rest.len() < 2 {
                    assert(rest =~= seq![rest[0]]);
                    assert(filled(rest.skip(1), name@) =~= Seq::<char>::empty());
                }
                assert(before + (seq![rest[0]] + filled(rest.skip(1), name@)) =~= (before
                    + seq![rest[0]]) + filled(rest.skip(1), name@));
            }
            i += 1;
        }
    }
    assert(template@.skip(n as int) =~= Seq::<char>::empty());
    out
}

/// The first line of a description, which stands for it where there is room
/// for one line only.
pub fn description_display(text: &str) -> (r: String)
    ensures
        r@ == first_line(text@),
{
    let n = text.unicode_len();
    let mut end: usize = 0;
    while end < n && text.get_char(end) != '\n'
        invariant
            n == text@.len(),
            end <= n,
            forall|j: int| 0 <= j < end ==> text@[j] != '\n',
        decreases n - end,
    {
        end += 1;
    }
    proof {
        lemma_line_end_is(text@, end as int);
    }
    if 0 < end && end < n && text.get_char(end - 1) == '\r' {
        String::from_str(text.substring_char(0, end - 1))
    } else {
        String::from_str(text.substring_char(0, end))
    }
}

/// The name of a task as a toast shows it: cut after fifteen bytes and
/// followed by three dots where it has more than fifteen characters.
pub fn short_name(name: &str) -> (r: String)
    requires
        can_shorten(name),
    ensures
        r@ == shortened(name),
{
    if name.unicode_len() > TOAST_NAME_LIMIT {
        let (head, _) = name.split_at(TOAST_NAME_LIMIT);
        let mut out = String::from_str(head);
        out.append("...");
        proof {
            reveal_strlit("...");
            assert("..."@ =~= seq!['.', '.', '.']);
            encode_utf8_decode_utf8(head@);
            assert(head.spec_bytes() == encode_utf8(head@));
        }
        out
    } else {
        String::from_str(name)
    }
}

/// The name of a task as a toast shows it, or nothing where the name cannot
/// be cut: where it has more than fifteen characters and its sixteenth byte
/// stands in the middle of a character.
pub fn checked_short_name(name: &str) -> (r: Option<String>)
    ensures
        r is Some <==> can_shorten(name),
        r is Some ==> r->0@ == shortened(name),
{
    if name.unicode_len() > TOAST_NAME_LIMIT && !name.is_char_boundary(TOAST_NAME_LIMIT) {
        None
    } else {
        Some(short_name(name))
    }
}

/// The title of the toast that says that a task went to the done tasks:
/// `template`, the sentence in the user's language, with the task's name,
/// cut for a toast, in place of its `{}`.
pub fn done_toast_title_from(template: &str, name: &str) -> (r: String)
    requires
        can_shorten(name),
    ensures
        r@ == filled(template@, shortened(name)),
{
    let short = short_name(name);
    fill_in(template, short.as_str())
}

/// The title of the toast that says that a task went to the done tasks,
/// from the sentence in the user's language, or nothing where the task's
/// name cannot be cut for a toast.
pub fn checked_done_toast_title_from(template: &str, name: &str) -> (r: Option<String>)
    ensures
        r is Some <==> can_shorten(name),
        r is Some ==> r->0@ == filled(template@, shortened(name)),
{
    match checked_short_name(name) {
        Some(short) => Some(fill_in(template, short.as_str())),
        None => None,
    }
}

/// The heading of the dialog that asks whether a list is to be deleted:
/// `template`, the question in the user's language, with the list's name in
/// place of its `{}`.
pub fn delete_list_heading_from(template: &str, name: &str) -> (r: String)
    ensures
        r@ == filled(template@, name@),
{
    fill_in(template, name)
}

} // verus!
