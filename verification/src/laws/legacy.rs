//! What cleaning up the state file comes to.
use vstd::prelude::*;
use crate::legacy::{
    clear_legacy_preferences, clear_step, cleaned, doc_text, doc_trailing, is_legacy_key,
    is_legacy_preference_key, toml_parse, values_in, ClearError, ClearStep, DocEntry, StateText,
};
use crate::state_file::{after_create, temp_name, Created, WriteStep};

verus! {

/// The preferences that moved to the configuration file.
pub proof fn lemma_preferences_that_moved(key: String, r: bool)
    requires
        call_ensures(is_legacy_preference_key, (&key,), r),
    ensures
        key@ == "annotation-size-factor"@ || key@ == "keybinds"@ || key@ == "invert-scrolling"@
            || key@ == "select-any-annotation"@ || key@ == "close-on-esc"@ || key@
            == "close-on-copy"@ || key@ == "close-on-save"@ || key@ == "hide-default-palette"@
            || key@ == "sticky-session-defaults"@ || key@
            == "park-pointer-during-manual-scroll-capture"@ || key@ == "keep-window-size-on-crop"@
            ==> r,
        key@ == "last-color"@ || key@ == "arrow-style"@ || key@ == "snap-to-edges"@ ==> !r,
{
    reveal_strlit("annotation-size-factor");
    reveal_strlit("keybinds");
    reveal_strlit("invert-scrolling");
    reveal_strlit("select-any-annotation");
    reveal_strlit("close-on-esc");
    reveal_strlit("close-on-copy");
    reveal_strlit("close-on-save");
    reveal_strlit("hide-default-palette");
    reveal_strlit("sticky-session-defaults");
    reveal_strlit("park-pointer-during-manual-scroll-capture");
    reveal_strlit("keep-window-size-on-crop");
    reveal_strlit("last-color");
    reveal_strlit("arrow-style");
    reveal_strlit("snap-to-edges");
    if r {
        assert(key@.len() != 10 && key@.len() != 11);
        assert(key@.len() == 13 ==> key@[0] == 'c');
    }
    assert("snap-to-edges"@[0] == 's');
}

/// `s` ends with `t`.
pub open spec fn ends_with(s: Seq<char>, t: Seq<char>) -> bool {
    t.len() <= s.len() && s.skip(s.len() - t.len()) == t
}

/// The comments in front of an entry: those of its table header, or else of
/// its key.
pub open spec fn comments(e: DocEntry) -> Seq<char> {
    if e.table_prefix is Some {
        e.table_prefix->0
    } else {
        e.key_prefix
    }
}

/// Entry `k` has the key and the value of `e`, and in front of it stands text
/// that ends with `t`.
pub open spec fn follows(c: Seq<DocEntry>, k: int, e: DocEntry, t: Seq<char>) -> bool {
    &&& 0 <= k < c.len()
    &&& c[k].key == e.key && c[k].body == e.body
    &&& ends_with(comments(c[k]), t)
}

/// The comments of an entry that goes stand right in front of those of the
/// next entry, if that stays.
pub proof fn lemma_comments_go_to_the_next_entry(e: Seq<DocEntry>, pending: Seq<char>, i: int)
    requires
        0 <= i,
        i + 1 < e.len(),
        is_legacy_key(e[i].key),
        !is_legacy_key(e[i + 1].key),
    ensures
        exists|k: int| #[trigger]
            follows(cleaned(e, pending).0, k, e[i + 1], comments(e[i]) + comments(e[i + 1])),
    decreases e.len(),
{
    let rest = e.drop_first();
    let c = cleaned(e, pending).0;
    let t = comments(e[i]) + comments(e[i + 1]);
    assert(rest[i] == e[i + 1]);
    if i == 0 {
        let more = pending + e[0].leading();
        assert(c == cleaned(rest, more).0);
        assert(c[0] == rest[0].led_by(more));
        let all = comments(c[0]);
        assert(all =~= pending + t);
        assert(all.skip(all.len() - t.len()) =~= t);
        assert(follows(c, 0, e[1], t));
    } else {
        assert(rest[i - 1] == e[i]);
        if is_legacy_key(e[0].key) {
            lemma_comments_go_to_the_next_entry(rest, pending + e[0].leading(), i - 1);
        } else {
            lemma_comments_go_to_the_next_entry(rest, Seq::empty(), i - 1);
            let d = cleaned(rest, Seq::empty()).0;
            let k = choose|k: int| #[trigger] follows(d, k, e[i + 1], t);
            assert(c[k + 1] == d[k]);
            assert(follows(c, k + 1, e[i + 1], t));
        }
    }
}

/// An entry that stays behind one that stays is not touched.
pub proof fn lemma_other_entries_are_not_touched(e: Seq<DocEntry>, pending: Seq<char>, i: int)
    requires
        0 <= i,
        i + 1 < e.len(),
        !is_legacy_key(e[i].key),
        !is_legacy_key(e[i + 1].key),
    ensures
        cleaned(e, pending).0.contains(e[i + 1]),
    decreases e.len(),
{
    let rest = e.drop_first();
    let c = cleaned(e, pending).0;
    assert(rest[i] == e[i + 1]);
    if i == 0 {
        let d = cleaned(rest, Seq::empty()).0;
        let none = Seq::<char>::empty();
        assert(d[0] == rest[0].led_by(none));
        assert(none + comments(rest[0]) =~= comments(rest[0]));
        assert(d[0] == e[1]);
        assert(c[1] == d[0]);
    } else {
        assert(rest[i - 1] == e[i]);
        if is_legacy_key(e[0].key) {
            lemma_other_entries_are_not_touched(rest, pending + e[0].leading(), i - 1);
        } else {
            lemma_other_entries_are_not_touched(rest, Seq::empty(), i - 1);
            let d = cleaned(rest, Seq::empty()).0;
            let k = choose|k: int| 0 <= k < d.len() && d[k] == e[i + 1];
            assert(c[k + 1] == d[k]);
        }
    }
}

/// The comments of a last entry that goes stay at the end.
pub proof fn lemma_last_comments_stay_at_the_end(e: Seq<DocEntry>, pending: Seq<char>)
    requires
        e.len() > 0,
        is_legacy_key(e.last().key),
    ensures
        ends_with(cleaned(e, pending).1, comments(e.last())),
    decreases e.len(),
{
    let rest = e.drop_first();
    if e.len() == 1 {
        reveal_with_fuel(cleaned, 2);
        let t = comments(e[0]);
        let over = cleaned(e, pending).1;
        assert(over == pending + e[0].leading());
        assert(over.skip(over.len() - t.len()) =~= t);
    } else {
        assert(rest.last() == e.last());
        if is_legacy_key(e[0].key) {
            lemma_last_comments_stay_at_the_end(rest, pending + e[0].leading());
        } else {
            lemma_last_comments_stay_at_the_end(rest, Seq::empty());
        }
    }
}

/// Of the text that is left, none of the moved preferences is read, and all
/// else is read as before; only a text that is not TOML is refused.
pub proof fn lemma_cleared_text(content: &str, r: Result<String, ClearError>, key: Seq<char>)
    requires
        call_ensures(clear_legacy_preferences, (content,), r),
    ensures
        r is Ok <==> toml_parse(content@) is Some,
        r matches Ok(text) ==> {
            &&& toml_parse(text@) is Some
            &&& is_legacy_key(key) ==> !values_in(text@).dom().contains(key)
            &&& !is_legacy_key(key) ==> values_in(text@).dom().contains(key) == values_in(
                content@,
            ).dom().contains(key)
            &&& !is_legacy_key(key) && values_in(content@).dom().contains(key) ==> values_in(
                text@,
            )[key] == values_in(content@)[key]
        },
{
}

/// The text at the end of the file stays there, behind the comments of a last
/// entry that goes.
pub proof fn lemma_text_at_the_end_stays(
    content: &str,
    text: String,
    e: Seq<DocEntry>,
    trailing: Seq<char>,
)
    requires
        call_ensures(clear_legacy_preferences, (content,), Ok(text)),
        toml_parse(content@) == Some((e, trailing)),
        e.len() > 0,
        is_legacy_key(e.last().key),
    ensures
        exists|d: toml_edit::DocumentMut|
            #![trigger doc_text(d)]
            text@ == doc_text(d) && ends_with(doc_trailing(d), comments(e.last()) + trailing),
{
    let d = choose|d: toml_edit::DocumentMut|
        #![trigger doc_text(d)]
        {
            &&& crate::legacy::doc_entries(d) == cleaned(e, Seq::empty()).0
            &&& doc_trailing(d) == cleaned(e, Seq::empty()).1 + trailing
            &&& text@ == doc_text(d)
        };
    lemma_last_comments_stay_at_the_end(e, Seq::empty());
    let over = cleaned(e, Seq::empty()).1;
    let t = comments(e.last());
    let all = doc_trailing(d);
    assert(all.skip(all.len() - (t + trailing).len()) =~= over.skip(over.len() - t.len())
        + trailing);
}

/// A missing file needs no clean-up, one that cannot be read is reported, and
/// one that is not TOML is left as it is.
pub proof fn lemma_clean_up(read: StateText, r: ClearStep)
    requires
        call_ensures(clear_step, (&read,), r),
    ensures
        read is Missing ==> r is Done,
        read is Failed ==> r is Fail,
        read matches StateText::Text(content) ==> {
            &&& toml_parse(content@) is None ==> r is Refuse
            &&& toml_parse(content@) is Some ==> r is Write
        },
{
}

/// A file that is there already is tried under another name, a hundred times
/// in all; any other error ends it.
pub proof fn lemma_temporary_file(attempt: u32, c: Created, r: WriteStep)
    requires
        attempt < 1_000_000,
        call_ensures(after_create, (attempt, c), r),
    ensures
        c == Created::Yes ==> r == WriteStep::Write,
        c == Created::Failed ==> r == WriteStep::Fail,
        c == Created::AlreadyExists && attempt < 99 ==> r == WriteStep::Retry,
        c == Created::AlreadyExists && attempt >= 99 ==> r == WriteStep::GiveUp,
{
}

/// The new file is a hidden one beside the other, named after it.
pub proof fn lemma_temporary_name(file: &str, pid: u32, id: u64, r: String)
    requires
        call_ensures(temp_name, (Some(file), pid, id), r),
    ensures
        r@.len() > file@.len() + 1,
        r@[0] == '.',
        r@.subrange(1, file@.len() + 1int) == file@,
{
    reveal_strlit(".tensaku-tmp-");
    assert(r@.subrange(1, file@.len() + 1int) =~= file@);
}

} // verus!
