//! The one-line files that remember the last address and port. This module
//! decides what is written and what is read back; the caller does the I/O and
//! absorbs its failures, so that persistence is best effort.
use vstd::prelude::*;
use vstd::std_specs::iter::IteratorSpec;

verus! {

/// The characters of `s` before its first line feed.
pub open spec fn line_prefix(s: Seq<char>) -> Seq<char>
    decreases s.len(),
{
    if s.len() == 0 || s[0] == '\n' {
        Seq::empty()
    } else {
        seq![s[0]] + line_prefix(s.drop_first())
    }
}

/// The first line of a file's text, as a line reader yields it: `None` for an
/// empty text; otherwise the characters before the first line feed, with one
/// carriage return dropped where it stands right before that line feed.
pub open spec fn first_line_of(text: Seq<char>) -> Option<Seq<char>> {
    if text.len() == 0 {
        None
    } else {
        let l = line_prefix(text);
        if l.len() < text.len() && l.len() > 0 && l.last() == '\r' {
            Some(l.drop_last())
        } else {
            Some(l)
        }
    }
}

/// The text that saving `value` writes: nothing for an empty value, else the
/// value and a line terminator.
pub open spec fn saved_text_of(value: Seq<char>) -> Option<Seq<char>> {
    if value.len() == 0 {
        None
    } else {
        Some(value.push('\n'))
    }
}

/// The field after a load: the file's first line where the file was read and
/// has one, else the field as it was.
pub open spec fn loaded_value(current: Seq<char>, file_text: Option<Seq<char>>) -> Seq<char> {
    match file_text {
        Some(t) => match first_line_of(t) {
            Some(l) => l,
            None => current,
        },
        None => current,
    }
}

/// The file's text after saving `value` over `prior` (`None`: no file).
pub open spec fn file_after_save(prior: Option<Seq<char>>, value: Seq<char>) -> Option<Seq<char>> {
    match saved_text_of(value) {
        Some(t) => Some(t),
        None => prior,
    }
}

/// The view of a text that may be missing.
pub open spec fn opt_view(t: Option<&str>) -> Option<Seq<char>> {
    match t {
        Some(s) => Some(s@),
        None => None,
    }
}

/// Relies on String::push: appends the one character.
#[verifier::external_body]
fn push_char(s: &mut String, c: char)
    ensures
        final(s)@ == old(s)@.push(c),
{
    s.push(c)
}

/// The first line of `text`, as a line reader yields it (see `first_line_of`).
pub fn first_line(text: &str) -> (r: Option<String>)
    ensures
        opt_view_string(&r) == first_line_of(text@),
{
    let ghost all = text@;
    let mut it = text.chars();
    let mut line = String::new();
    let mut pending_cr = false;
    let mut any = false;
    let mut ended = false;
    let ghost mut read: Seq<char> = Seq::empty();
    assert(read + it.remaining() =~= all);
    while !ended
        invariant
            it.obeys_prophetic_iter_laws(),
            read + it.remaining() == all,
            any == (read.len() > 0),
            !ended ==> line_prefix(all) == read + line_prefix(it.remaining()),
            !ended ==> (line@ + if pending_cr { seq!['\r'] } else { Seq::empty() }) == read,
            !ended && !pending_cr ==> read.len() == 0 || read.last() != '\r',
            ended ==> any == (all.len() > 0),
            ended && any ==> first_line_of(all) == Some(line@),
        decreases all.len() - read.len() + if ended { 0int } else { 1int },
    {
        let ghost rem = it.remaining();
        let ghost old_line = line@;
        match it.next() {
            Some(c) => {
                assert(c == rem[0]);
                any = true;
                proof {
                    read = read.push(c);
                    assert(read + it.remaining() =~= all);
                }
                if c == '\n' {
                    ended = true;
                    let ghost r0 = read.drop_last();
                    assert(line_prefix(all) == r0);
                    assert(r0.len() < all.len());
                    if pending_cr {
                        assert(old_line =~= r0.drop_last());
                    } else {
                        assert(old_line =~= r0);
                    }
                } else {
                    assert(line_prefix(rem) == seq![c] + line_prefix(rem.drop_first()));
                    assert(rem.drop_first() == it.remaining());
                    assert(line_prefix(all) =~= read + line_prefix(it.remaining()));
                    if pending_cr {
                        push_char(&mut line, '\r');
                    }
                    if c == '\r' {
                        pending_cr = true;
                    } else {
                        pending_cr = false;
                        push_char(&mut line, c);
                    }
                    assert((line@ + if pending_cr { seq!['\r'] } else { Seq::empty() }) =~= read);
                }
            },
            None => {
                assert(rem.len() == 0);
                assert(read =~= all);
                if pending_cr {
                    push_char(&mut line, '\r');
                }
                assert(line@ =~= read);
                assert(line_prefix(all) =~= read);
                ended = true;
            },
        }
    }
    if any {
        Some(line)
    } else {
        None
    }
}

/// What saving `value` writes to its file: `None` for an empty value, which
/// leaves whatever the file held; else the value and a line terminator.
pub fn saved_text(value: &str) -> (r: Option<String>)
    ensures
        opt_view_string(&r) == saved_text_of(value@),
{
    if value.is_empty() {
        None
    } else {
        let mut text = value.to_owned();
        push_char(&mut text, '\n');
        Some(text)
    }
}

/// The value of a field after a load from `file_text` (`None`: the file was
/// missing or unreadable): its first line, or `current` where it has none.
pub fn loaded(current: &str, file_text: Option<&str>) -> (r: String)
    ensures
        r@ == loaded_value(current@, opt_view(file_text)),
{
    match file_text {
        Some(t) => match first_line(t) {
            Some(l) => l,
            None => current.to_owned(),
        },
        None => current.to_owned(),
    }
}

proof fn lemma_line_prefix_of_line(v: Seq<char>)
    requires
        forall|i: int| 0 <= i < v.len() ==> #[trigger] v[i] != '\n',
    ensures
        line_prefix(v.push('\n')) == v,
    decreases v.len(),
{
    if v.len() > 0 {
        let t = v.drop_first();
        assert forall|i: int| 0 <= i < t.len() implies #[trigger] t[i] != '\n' by {
            assert(t[i] == v[i + 1]);
        }
        lemma_line_prefix_of_line(t);
        assert(v.push('\n').drop_first() =~= t.push('\n'));
        assert(seq![v[0]] + t =~= v);
    } else {
        assert(v.push('\n')[0] == '\n');
    }
}

/// Saving a value and loading it back gives the value, for every prior file
/// and every field value before the load. The value is non-empty, holds no
/// line feed, and does not end in a carriage return (which a line reader drops
/// before the terminator).
pub proof fn lemma_save_then_load(prior: Option<Seq<char>>, current: Seq<char>, value: Seq<char>)
    requires
        value.len() > 0,
        forall|i: int| 0 <= i < value.len() ==> #[trigger] value[i] != '\n',
        value.last() != '\r',
    ensures
        loaded_value(current, file_after_save(prior, value)) == value,
{
    lemma_line_prefix_of_line(value);
}

/// Saving an empty value leaves the file as it was, so a later load gives what
/// it would have given before the save.
pub proof fn lemma_empty_save_keeps(prior: Option<Seq<char>>, current: Seq<char>)
    ensures
        file_after_save(prior, Seq::empty()) == prior,
        loaded_value(current, file_after_save(prior, Seq::empty())) == loaded_value(current, prior),
{
}

/// The view of a string that may be missing.
pub open spec fn opt_view_string(t: &Option<String>) -> Option<Seq<char>> {
    match t {
        Some(s) => Some(s@),
        None => None,
    }
}

} // verus!
