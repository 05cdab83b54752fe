//! Clean-up of preference keys that moved out of the state file: the keys go,
//! every comment in front of them stays.
use toml_edit::{DocumentMut, Item, RawString, TomlError};
use vstd::prelude::*;

verus! {

/// A TOML document that can be edited and keeps its formatting.
#[verifier::external_type_specification]
#[verifier::external_body]
pub struct ExDocumentMut(DocumentMut);

/// Why a text is not TOML.
#[verifier::external_type_specification]
#[verifier::external_body]
pub struct ExTomlError(TomlError);

/// One top-level entry of a document.
pub ghost struct DocEntry {
    /// The key.
    pub key: Seq<char>,
    /// The text in front of the key.
    pub key_prefix: Seq<char>,
    /// The text in front of the header of a table, or of the first table of
    /// an array of tables; `None` for other entries.
    pub table_prefix: Option<Seq<char>>,
    /// The value, whichever way it is written.
    pub body: Seq<char>,
}

/// The top-level entries that a document lists, in order.
pub uninterp spec fn doc_entries(d: DocumentMut) -> Seq<DocEntry>;

/// The text after the last entry of a document.
pub uninterp spec fn doc_trailing(d: DocumentMut) -> Seq<char>;

/// The text that a document is written out as.
pub uninterp spec fn doc_text(d: DocumentMut) -> Seq<char>;

/// The document was read from a text, and since then has only lost top-level
/// entries and had the text in front of entries, or at its end, replaced by
/// filler.
pub uninterp spec fn doc_was_read(d: DocumentMut) -> bool;

/// What a text holds as TOML, entries and trailing text; `None` where it is
/// not TOML.
pub uninterp spec fn toml_parse(s: Seq<char>) -> Option<(Seq<DocEntry>, Seq<char>)>;

/// No two entries have the same key.
pub open spec fn distinct_keys(e: Seq<DocEntry>) -> bool {
    forall|i: int, j: int|
        0 <= i < j < e.len() ==> (#[trigger] e[i]).key != (#[trigger] e[j]).key
}

/// `key` is the key of an entry.
pub open spec fn has_key(e: Seq<DocEntry>, key: Seq<char>) -> bool {
    exists|i: int| 0 <= i < e.len() && (#[trigger] e[i]).key == key
}

/// `key` is the key of an entry with a table header.
pub open spec fn has_table(e: Seq<DocEntry>, key: Seq<char>) -> bool {
    exists|i: int| 0 <= i < e.len() && (#[trigger] e[i]).key == key && e[i].table_prefix is Some
}

/// What the entries hold: the value of each key.
pub open spec fn held(e: Seq<DocEntry>) -> Map<Seq<char>, Seq<char>> {
    Map::new(
        |key: Seq<char>| has_key(e, key),
        |key: Seq<char>| e[choose|i: int| 0 <= i < e.len() && (#[trigger] e[i]).key == key].body,
    )
}

/// What a text holds, read as TOML.
pub open spec fn values_in(s: Seq<char>) -> Map<Seq<char>, Seq<char>> {
    match toml_parse(s) {
        Some((e, _)) => held(e),
        None => Map::empty(),
    }
}

/// The text is TOML and holds these values.
pub open spec fn text_holds(s: Seq<char>, values: Map<Seq<char>, Seq<char>>) -> bool {
    toml_parse(s) is Some && values_in(s) == values
}

/// A character that a comment may hold: a tab, or anything but the control
/// characters of ASCII.
pub open spec fn comment_char(c: char) -> bool {
    c == '\t' || (c >= ' ' && c != '\u{7f}')
}

/// Nothing but blanks, line ends and comments, where `comment` says that the
/// text goes on in a comment. A comment has to end with its line, unless the
/// text is the `last` of its file.
pub open spec fn is_filler(s: Seq<char>, comment: bool, last: bool) -> bool
    decreases s.len(),
{
    if s.len() == 0 {
        !comment || last
    } else if s[0] == '\n' {
        is_filler(s.drop_first(), false, last)
    } else if s[0] == '\r' {
        s.len() > 1 && s[1] == '\n' && is_filler(s.drop_first(), comment, last)
    } else if comment {
        comment_char(s[0]) && is_filler(s.drop_first(), true, last)
    } else if s[0] == '#' {
        is_filler(s.drop_first(), true, last)
    } else {
        (s[0] == ' ' || s[0] == '\t') && is_filler(s.drop_first(), false, last)
    }
}

impl DocEntry {
    /// The texts in front of the entry are filler.
    pub open spec fn has_filler(self) -> bool {
        &&& is_filler(self.key_prefix, false, false)
        &&& match self.table_prefix {
            Some(p) => is_filler(p, false, false),
            None => true,
        }
    }
}

/// The texts in front of all entries are filler.
pub open spec fn all_filler(e: Seq<DocEntry>) -> bool {
    forall|i: int| 0 <= i < e.len() ==> (#[trigger] e[i]).has_filler()
}

/// Filler in front of filler is filler.
proof fn lemma_filler_joins(a: Seq<char>, b: Seq<char>, comment: bool, last: bool)
    requires
        is_filler(a, comment, false),
        is_filler(b, false, last),
    ensures
        is_filler(a + b, comment, last),
    decreases a.len(),
{
    if a.len() == 0 {
        assert(a + b =~= b);
    } else {
        assert((a + b).drop_first() =~= a.drop_first() + b);
        let inside = if a[0] == '\n' {
            false
        } else if a[0] == '\r' {
            comment
        } else {
            comment || a[0] == '#'
        };
        lemma_filler_joins(a.drop_first(), b, inside, last);
    }
}

/// The texts in front of an entry.
pub struct EntryText {
    pub key_prefix: String,
    pub table_prefix: Option<String>,
}

impl EntryText {
    /// These are the texts in front of `e`.
    pub open spec fn is_of(self, e: DocEntry) -> bool {
        &&& self.key_prefix@ == e.key_prefix
        &&& match (self.table_prefix, e.table_prefix) {
            (Some(a), Some(b)) => a@ == b,
            (None, None) => true,
            _ => false,
        }
    }
}

/// `r` holds the texts in front of the entry with this key.
pub open spec fn reads_entry(e: Seq<DocEntry>, key: Seq<char>, r: Option<EntryText>) -> bool {
    forall|i: int|
        0 <= i < e.len() && (#[trigger] e[i]).key == key ==> r is Some && r->0.is_of(e[i])
}

/// `now` is `before` without the entry with this key.
pub open spec fn without_entry(before: Seq<DocEntry>, key: Seq<char>, now: Seq<DocEntry>) -> bool {
    forall|i: int| 0 <= i < before.len() && (#[trigger] before[i]).key == key ==> now == before.remove(i)
}

/// `now` is `before` with another text in front of the table with this key.
pub open spec fn with_table_prefix(
    before: Seq<DocEntry>,
    key: Seq<char>,
    prefix: Seq<char>,
    now: Seq<DocEntry>,
) -> bool {
    forall|i: int|
        0 <= i < before.len() && (#[trigger] before[i]).key == key ==> now == before.update(
            i,
            DocEntry { table_prefix: Some(prefix), ..before[i] },
        )
}

/// `now` is `before` with another text in front of this key.
pub open spec fn with_key_prefix(
    before: Seq<DocEntry>,
    key: Seq<char>,
    prefix: Seq<char>,
    now: Seq<DocEntry>,
) -> bool {
    forall|i: int|
        0 <= i < before.len() && (#[trigger] before[i]).key == key ==> now == before.update(
            i,
            DocEntry { key_prefix: prefix, ..before[i] },
        )
}

/// The `FromStr` impl of `DocumentMut` parses a text, or says why it cannot.
/// The contract names what it finds, which depends on the text alone. The keys
/// of a table are unique, and what stands in front of entries and at the end
/// is filler.
#[verifier::external_body]
fn parse_document(content: &str) -> (r: Result<DocumentMut, TomlError>)
    ensures
        match r {
            Ok(d) => toml_parse(content@) == Some((doc_entries(d), doc_trailing(d)))
                && distinct_keys(doc_entries(d)) && all_filler(doc_entries(d)) && is_filler(
                doc_trailing(d),
                false,
                true,
            ) && doc_was_read(d),
            Err(_) => toml_parse(content@) is None,
        },
{
    content.parse::<DocumentMut>()
}

/// `DocumentMut::iter` walks the top-level entries in order. The contract says
/// that these are the keys of the entries.
#[verifier::external_body]
fn document_keys(document: &DocumentMut) -> (r: Vec<String>)
    ensures
        r@.len() == doc_entries(*document).len(),
        forall|i: int| 0 <= i < r@.len() ==> (#[trigger] r@[i])@ == doc_entries(*document)[i].key,
{
    document.iter().map(|(key, _)| key.to_string()).collect()
}

/// `Table::remove_entry` takes an entry out of the top-level table, keeps the
/// order of the others and hands out the key and the item, here by the texts
/// in front of them.
#[verifier::external_body]
fn remove_entry(document: &mut DocumentMut, key: &str) -> (r: Option<EntryText>)
    requires
        has_key(doc_entries(*old(document)), key@),
    ensures
        doc_trailing(*final(document)) == doc_trailing(*old(document)),
        without_entry(doc_entries(*old(document)), key@, doc_entries(*final(document))),
        reads_entry(doc_entries(*old(document)), key@, r),
        doc_was_read(*old(document)) ==> doc_was_read(*final(document)),
{
    let text = |raw: Option<&RawString>| raw.and_then(RawString::as_str).unwrap_or_default().to_string();
    let (key, item) = document.as_table_mut().remove_entry(key)?;
    let table_prefix = match &item {
        Item::Table(table) => Some(text(table.decor().prefix())),
        Item::ArrayOfTables(tables) => tables.get(0).map(|table| text(table.decor().prefix())),
        _ => None,
    };
    Some(EntryText { key_prefix: text(key.leaf_decor().prefix()), table_prefix })
}

/// `Table::get_key_value` finds an entry of the top-level table. The contract
/// says that the texts read from its decoration are those in front of it.
#[verifier::external_body]
fn entry_text(document: &DocumentMut, key: &str) -> (r: Option<EntryText>)
    requires
        has_key(doc_entries(*document), key@),
    ensures
        reads_entry(doc_entries(*document), key@, r),
{
    let text = |raw: Option<&RawString>| raw.and_then(RawString::as_str).unwrap_or_default().to_string();
    let (key, item) = document.as_table().get_key_value(key)?;
    let table_prefix = match item {
        Item::Table(table) => Some(text(table.decor().prefix())),
        Item::ArrayOfTables(tables) => tables.get(0).map(|table| text(table.decor().prefix())),
        _ => None,
    };
    Some(EntryText { key_prefix: text(key.leaf_decor().prefix()), table_prefix })
}

/// `Decor::set_prefix` on the header of a table, or of the first table of an
/// array of tables, sets the text in front of it. The contract says that
/// nothing else changes.
#[verifier::external_body]
fn set_table_prefix(document: &mut DocumentMut, key: &str, prefix: String)
    requires
        has_table(doc_entries(*old(document)), key@),
    ensures
        doc_trailing(*final(document)) == doc_trailing(*old(document)),
        with_table_prefix(
            doc_entries(*old(document)),
            key@,
            prefix@,
            doc_entries(*final(document)),
        ),
        doc_was_read(*old(document)) && is_filler(prefix@, false, false) ==> doc_was_read(
            *final(document),
        ),
{
    let table = match document.get_mut(key) {
        Some(Item::Table(table)) => Some(table),
        Some(Item::ArrayOfTables(tables)) => tables.get_mut(0),
        _ => None,
    };
    table.into_iter().for_each(|table| table.decor_mut().set_prefix(prefix.as_str()));
}

/// `Decor::set_prefix` on a key sets the text in front of it. The contract
/// says that nothing else changes.
#[verifier::external_body]
fn set_key_prefix(document: &mut DocumentMut, key: &str, prefix: String)
    requires
        has_key(doc_entries(*old(document)), key@),
    ensures
        doc_trailing(*final(document)) == doc_trailing(*old(document)),
        with_key_prefix(
            doc_entries(*old(document)),
            key@,
            prefix@,
            doc_entries(*final(document)),
        ),
        doc_was_read(*old(document)) && is_filler(prefix@, false, false) ==> doc_was_read(
            *final(document),
        ),
{
    if let Some((mut key, _)) = document.as_table_mut().get_key_value_mut(key) {
        key.leaf_decor_mut().set_prefix(prefix);
    }
}

/// `DocumentMut::trailing` is the text after the last entry.
#[verifier::external_body]
fn trailing(document: &DocumentMut) -> (r: String)
    ensures
        r@ == doc_trailing(*document),
{
    document.trailing().as_str().unwrap_or_default().to_string()
}

/// `DocumentMut::set_trailing` replaces the text after the last entry.
#[verifier::external_body]
fn set_trailing(document: &mut DocumentMut, text: String)
    ensures
        doc_trailing(*final(document)) == text@,
        doc_entries(*final(document)) == doc_entries(*old(document)),
        doc_was_read(*old(document)) && is_filler(text@, false, true) ==> doc_was_read(
            *final(document),
        ),
{
    document.set_trailing(text);
}

/// The `Display` impl of `DocumentMut` writes the document out; the contract
/// names the text. Keys and values are written as they were read, each line
/// entry and each table header on a line of its own, so the text of a document
/// that was read holds the same values under the same keys. The order of
/// dotted keys, the text in front of entries and the line end at the end of
/// the text need not be the same.
#[verifier::external_body]
fn document_text(document: &DocumentMut) -> (r: String)
    ensures
        r@ == doc_text(*document),
        doc_was_read(*document) ==> text_holds(r@, held(doc_entries(*document))),
{
    document.to_string()
}

/// The preference keys that moved to the configuration file.
pub open spec fn is_legacy_key(key: Seq<char>) -> bool {
    ||| key == "annotation-size-factor"@
    ||| key == "keybinds"@
    ||| key == "invert-scrolling"@
    ||| key == "select-any-annotation"@
    ||| key == "close-on-esc"@
    ||| key == "close-on-copy"@
    ||| key == "close-on-save"@
    ||| key == "hide-default-palette"@
    ||| key == "sticky-session-defaults"@
    ||| key == "park-pointer-during-manual-scroll-capture"@
    ||| key == "keep-window-size-on-crop"@
}

/// Whether a key of the state file belongs to a preference that moved to the
/// configuration file.
pub fn is_legacy_preference_key(key: &String) -> (r: bool)
    ensures
        r == is_legacy_key(key@),
{
    *key == "annotation-size-factor".to_owned() || *key == "keybinds".to_owned() || *key
        == "invert-scrolling".to_owned() || *key == "select-any-annotation".to_owned() || *key
        == "close-on-esc".to_owned() || *key == "close-on-copy".to_owned() || *key
        == "close-on-save".to_owned() || *key == "hide-default-palette".to_owned() || *key
        == "sticky-session-defaults".to_owned() || *key
        == "park-pointer-during-manual-scroll-capture".to_owned() || *key
        == "keep-window-size-on-crop".to_owned()
}

impl DocEntry {
    /// The comments and blank lines in front of the entry: those of its table
    /// header where it has one, else those of its key.
    pub open spec fn leading(self) -> Seq<char> {
        match self.table_prefix {
            Some(p) => p,
            None => self.key_prefix,
        }
    }

    /// The entry with more text in front of it.
    pub open spec fn led_by(self, more: Seq<char>) -> DocEntry {
        match self.table_prefix {
            Some(p) => DocEntry { table_prefix: Some(more + p), ..self },
            None => DocEntry { key_prefix: more + self.key_prefix, ..self },
        }
    }
}

/// The entries without the legacy ones, and the text left over behind the
/// last of them: the text in front of a legacy entry goes to the next entry
/// that stays. `pending` is text of that kind from before these entries.
pub open spec fn cleaned(e: Seq<DocEntry>, pending: Seq<char>) -> (Seq<DocEntry>, Seq<char>)
    decreases e.len(),
{
    if e.len() == 0 {
        (e, pending)
    } else if is_legacy_key(e[0].key) {
        cleaned(e.drop_first(), pending + e[0].leading())
    } else {
        let (rest, over) = cleaned(e.drop_first(), Seq::empty());
        (seq![e[0].led_by(pending)] + rest, over)
    }
}

/// All the text in front of the entries, in order.
pub open spec fn all_leading(e: Seq<DocEntry>) -> Seq<char>
    decreases e.len(),
{
    if e.len() == 0 {
        Seq::empty()
    } else {
        e[0].leading() + all_leading(e.drop_first())
    }
}

/// The entries that stay, untouched.
pub open spec fn kept(e: Seq<DocEntry>) -> Seq<DocEntry>
    decreases e.len(),
{
    if e.len() == 0 {
        e
    } else if is_legacy_key(e[0].key) {
        kept(e.drop_first())
    } else {
        seq![e[0]] + kept(e.drop_first())
    }
}

/// The text in front of an entry.
fn leading_prefix(text: EntryText) -> (r: String)
    ensures
        r@ == (match text.table_prefix {
            Some(p) => p@,
            None => text.key_prefix@,
        }),
{
    match text.table_prefix {
        Some(prefix) => prefix,
        None => text.key_prefix,
    }
}

/// Puts text in front of an entry.
fn prepend_item_prefix(document: &mut DocumentMut, key: &String, prefix: &String, Ghost(at): Ghost<int>)
    requires
        distinct_keys(doc_entries(*old(document))),
        0 <= at < doc_entries(*old(document)).len(),
        doc_entries(*old(document))[at].key == key@,
        doc_entries(*old(document))[at].has_filler(),
        is_filler(prefix@, false, false),
    ensures
        doc_trailing(*final(document)) == doc_trailing(*old(document)),
        doc_entries(*final(document)) == doc_entries(*old(document)).update(
            at,
            doc_entries(*old(document))[at].led_by(prefix@),
        ),
        doc_was_read(*old(document)) ==> doc_was_read(*final(document)),
{
    let ghost before = doc_entries(*document);
    assert(before[at].key == key@);
    let Some(text) = entry_text(document, key.as_str()) else {
        assert(false);
        return ;
    };
    assert(text.is_of(before[at]));
    match text.table_prefix {
        Some(existing) => {
            let longer = prefix.clone().concat(existing.as_str());
            proof {
                lemma_filler_joins(prefix@, existing@, false, false);
            }
            set_table_prefix(document, key.as_str(), longer);
        },
        None => {
            let longer = prefix.clone().concat(text.key_prefix.as_str());
            proof {
                lemma_filler_joins(prefix@, text.key_prefix@, false, false);
            }
            set_key_prefix(document, key.as_str(), longer);
        },
    }
}

/// Takes the legacy keys out of a document and moves the text in front of
/// each to the next entry that stays, or to the end.
fn remove_legacy_keys_preserving_leading_comments(document: &mut DocumentMut)
    requires
        distinct_keys(doc_entries(*old(document))),
        all_filler(doc_entries(*old(document))),
        is_filler(doc_trailing(*old(document)), false, true),
        doc_was_read(*old(document)),
    ensures
        doc_was_read(*final(document)),
        ({
            let (entries, over) = cleaned(doc_entries(*old(document)), Seq::empty());
            &&& doc_entries(*final(document)) == entries
            &&& doc_trailing(*final(document)) == over + doc_trailing(*old(document))
        }),
{
    let ghost e = doc_entries(*document);
    let ghost tail = doc_trailing(*document);
    let keys = document_keys(document);
    let mut pending = String::new();
    let ghost mut done: Seq<DocEntry> = Seq::empty();
    let mut i: usize = 0;
    proof {
        assert(e.skip(0) == e);
        assert(done + e == e);
        let c = cleaned(e, Seq::empty());
        assert(done + c.0 == c.0);
    }
    while i < keys.len()
        invariant
            i <= keys.len(),
            keys@.len() == e.len(),
            forall|k: int| 0 <= k < e.len() ==> (#[trigger] keys@[k])@ == e[k].key,
            distinct_keys(e),
            all_filler(e),
            is_filler(pending@, false, false),
            doc_was_read(*document),
            doc_trailing(*document) == tail,
            doc_entries(*document) == done + e.skip(i as int),
            forall|k: int| 0 <= k < done.len() ==> exists|j: int|
                0 <= j < i && (#[trigger] e[j]).key == (#[trigger] done[k]).key,
            distinct_keys(done + e.skip(i as int)),
            cleaned(e, Seq::empty()).0 == done + cleaned(e.skip(i as int), pending@).0,
            cleaned(e, Seq::empty()).1 == cleaned(e.skip(i as int), pending@).1,
        decreases keys.len() - i,
    {
        let key = &keys[i];
        let ghost rest = e.skip(i as int);
        let ghost before = done + rest;
        let ghost at: int = done.len() as int;
        proof {
            assert(rest.drop_first() == e.skip(i + 1));
            assert(rest[0] == e[i as int]);
            assert(before[at] == e[i as int]);
        }
        if is_legacy_preference_key(key) {
            assert(before[at].key == key@);
            if let Some(text) = remove_entry(document, key.as_str()) {
                assert(text.is_of(before[at]));
                let leading = leading_prefix(text);
                proof {
                    lemma_filler_joins(pending@, leading@, false, false);
                }
                pending = pending.concat(leading.as_str());
            }
            proof {
                assert(before.remove(at) == done + e.skip(i + 1));
                assert(distinct_keys(done + e.skip(i + 1))) by {
                    let now = done + e.skip(i + 1);
                    assert forall|a: int, b: int| 0 <= a < b < now.len() implies (#[trigger] now[a]).key
                        != (#[trigger] now[b]).key by {
                        let a0 = if a < at { a } else { a + 1 };
                        let b0 = if b < at { b } else { b + 1 };
                        assert(now[a] == before[a0] && now[b] == before[b0]);
                    }
                }
            }
        } else {
            if !pending.as_str().is_empty() {
                prepend_item_prefix(document, key, &pending, Ghost(at));
                pending = String::new();
            } else {
                assert(pending@ =~= Seq::<char>::empty());
                assert(pending@ + e[i as int].leading() =~= e[i as int].leading());
                assert(e[i as int].led_by(pending@) == e[i as int]) by {
                    match e[i as int].table_prefix {
                        Some(p) => {
                            assert(pending@ + p == p);
                        },
                        None => {
                            assert(pending@ + e[i as int].key_prefix == e[i as int].key_prefix);
                        },
                    }
                }
                assert(before.update(at, e[i as int]) =~= before);
            }
            proof {
                let ghost_entry = doc_entries(*document)[at];
                let longer = done.push(ghost_entry);
                assert(doc_entries(*document) == before.update(at, ghost_entry));
                assert(before.update(at, ghost_entry) == longer + e.skip(i + 1));
                let c = cleaned(e.skip(i + 1), Seq::empty());
                assert(done + (seq![ghost_entry] + c.0) == longer + c.0);
                assert(distinct_keys(longer + e.skip(i + 1))) by {
                    let now = longer + e.skip(i + 1);
                    assert forall|a: int, b: int| 0 <= a < b < now.len() implies (#[trigger] now[a]).key
                        != (#[trigger] now[b]).key by {
                        assert(now[a].key == before[a].key && now[b].key == before[b].key);
                    }
                }
                assert forall|k: int| 0 <= k < longer.len() implies exists|j: int|
                    0 <= j < i + 1 && (#[trigger] e[j]).key == (#[trigger] longer[k]).key by {
                    if k < done.len() {
                        assert(longer[k] == done[k]);
                    } else {
                        assert(e[i as int].key == longer[k].key);
                    }
                }
                done = longer;
            }
        }
        i = i + 1;
    }
    proof {
        assert(e.skip(i as int) == Seq::<DocEntry>::empty());
        assert(done + e.skip(i as int) == done);
    }
    if !pending.as_str().is_empty() {
        let existing = trailing(document);
        proof {
            lemma_filler_joins(pending@, existing@, false, true);
        }
        set_trailing(document, pending.concat(existing.as_str()));
    } else {
        assert(pending@ + tail =~= tail);
    }
}

/// Why the legacy preferences could not be taken out.
#[derive(Debug)]
pub enum ClearError {
    /// The text is not TOML.
    InvalidData(TomlError),
}

/// What is held under the keys that are no legacy keys.
pub open spec fn without_legacy(values: Map<Seq<char>, Seq<char>>) -> Map<Seq<char>, Seq<char>> {
    values.restrict(Set::new(|key: Seq<char>| !is_legacy_key(key)))
}

/// The text is that of a document with the entries of `content` but for the
/// legacy ones, and with all the filler.
pub open spec fn is_cleaned_text(content: Seq<char>, text: Seq<char>) -> bool {
    match toml_parse(content) {
        Some((e, trailing)) => exists|d: DocumentMut|
            #![trigger doc_text(d)]
            {
                &&& doc_entries(d) == cleaned(e, Seq::empty()).0
                &&& doc_trailing(d) == cleaned(e, Seq::empty()).1 + trailing
                &&& text == doc_text(d)
            },
        None => false,
    }
}

/// The state file's text without the preferences that moved to the
/// configuration file. Reading it gives none of them, and everything else as
/// before.
pub fn clear_legacy_preferences(content: &str) -> (r: Result<String, ClearError>)
    ensures
        r matches Ok(text) ==> text_holds(text@, without_legacy(values_in(content@))),
        match r {
            Ok(text) => toml_parse(content@) is Some && is_cleaned_text(content@, text@),
            Err(_) => toml_parse(content@) is None,
        },
{
    match parse_document(content) {
        Ok(mut document) => {
            let ghost e = doc_entries(document);
            remove_legacy_keys_preserving_leading_comments(&mut document);
            let text = document_text(&document);
            assert(text@ == doc_text(document));
            proof {
                lemma_held_without_legacy(e);
            }
            Ok(text)
        },
        Err(error) => Err(ClearError::InvalidData(error)),
    }
}

/// What reading the state file came to.
#[derive(Debug)]
pub enum StateText {
    /// There is no such file, or no place for one.
    Missing,
    /// It could not be read.
    Failed,
    Text(String),
}

/// What a clean-up of the state file has to do.
#[derive(Debug)]
pub enum ClearStep {
    /// Nothing, and no file is made.
    Done,
    /// Report that the file could not be read.
    Fail,
    /// Report why the preferences could not be taken out.
    Refuse(ClearError),
    /// Put this text in the place of the file's.
    Write(String),
}

/// What a clean-up of the state file has to do, once the file is read.
pub fn clear_step(read: &StateText) -> (r: ClearStep)
    ensures
        match *read {
            StateText::Missing => r is Done,
            StateText::Failed => r is Fail,
            StateText::Text(content) => match r {
                ClearStep::Write(text) => text_holds(
                    text@,
                    without_legacy(values_in(content@)),
                ) && toml_parse(content@) is Some && is_cleaned_text(content@, text@),
                ClearStep::Refuse(_) => toml_parse(content@) is None,
                _ => false,
            },
        },
{
    match read {
        StateText::Missing => ClearStep::Done,
        StateText::Failed => ClearStep::Fail,
        StateText::Text(content) => match clear_legacy_preferences(content.as_str()) {
            Ok(text) => ClearStep::Write(text),
            Err(error) => ClearStep::Refuse(error),
        },
    }
}

/// What is left is what was there without the legacy keys: the same keys with
/// the same values, in the same order.
pub proof fn lemma_only_legacy_keys_leave(e: Seq<DocEntry>, pending: Seq<char>)
    ensures
        cleaned(e, pending).0.len() == kept(e).len(),
        forall|i: int|
            0 <= i < kept(e).len() ==> {
                &&& (#[trigger] cleaned(e, pending).0[i]).key == kept(e)[i].key
                &&& cleaned(e, pending).0[i].body == kept(e)[i].body
                &&& !is_legacy_key(kept(e)[i].key)
            },
    decreases e.len(),
{
    if e.len() > 0 {
        let rest = e.drop_first();
        if is_legacy_key(e[0].key) {
            lemma_only_legacy_keys_leave(rest, pending + e[0].leading());
        } else {
            lemma_only_legacy_keys_leave(rest, Seq::empty());
            assert forall|i: int| 0 <= i < kept(e).len() implies {
                &&& (#[trigger] cleaned(e, pending).0[i]).key == kept(e)[i].key
                &&& cleaned(e, pending).0[i].body == kept(e)[i].body
                &&& !is_legacy_key(kept(e)[i].key)
            } by {
                if i > 0 {
                    assert(cleaned(e, pending).0[i] == cleaned(rest, Seq::empty()).0[i - 1]);
                    assert(kept(e)[i] == kept(rest)[i - 1]);
                }
            }
        }
    }
}

/// An entry's value is what is held under its key.
proof fn lemma_held_at(e: Seq<DocEntry>, i: int)
    requires
        distinct_keys(e),
        0 <= i < e.len(),
    ensures
        held(e).dom().contains(e[i].key),
        held(e)[e[i].key] == e[i].body,
{
    let key = e[i].key;
    assert(has_key(e, key));
    let j = choose|j: int| 0 <= j < e.len() && (#[trigger] e[j]).key == key;
    assert(j == i) by {
        if j < i {
            assert(e[j].key != e[i].key);
        } else if i < j {
            assert(e[i].key != e[j].key);
        }
    }
}

/// The entries that stay are those with other keys, each once.
proof fn lemma_kept(e: Seq<DocEntry>)
    requires
        distinct_keys(e),
    ensures
        distinct_keys(kept(e)),
        forall|k: int|
            0 <= k < kept(e).len() ==> exists|i: int| 0 <= i < e.len() && #[trigger] e[i] == #[trigger] kept(e)[k],
        forall|i: int|
            0 <= i < e.len() && !is_legacy_key((#[trigger] e[i]).key) ==> exists|k: int|
                0 <= k < kept(e).len() && #[trigger] kept(e)[k] == e[i],
    decreases e.len(),
{
    if e.len() > 0 {
        let rest = e.drop_first();
        let tail = kept(rest);
        let all = kept(e);
        assert forall|a: int, b: int| 0 <= a < b < rest.len() implies (#[trigger] rest[a]).key != (
        #[trigger] rest[b]).key by {
            assert(e[a + 1].key != e[b + 1].key);
        }
        lemma_kept(rest);
        let skip: int = if is_legacy_key(e[0].key) { 0 } else { 1 };
        assert(all.len() == tail.len() + skip);
        assert forall|k: int| 0 <= k < tail.len() implies #[trigger] all[k + skip] == tail[k] by {}
        assert forall|k: int| 0 <= k < all.len() implies exists|i: int|
            0 <= i < e.len() && #[trigger] e[i] == #[trigger] all[k] by {
            if skip == 1 && k == 0 {
                assert(e[0] == all[0]);
            } else {
                assert(all[k - skip + skip] == tail[k - skip]);
                let i = choose|i: int| 0 <= i < rest.len() && #[trigger] rest[i] == tail[k - skip];
                assert(e[i + 1] == rest[i]);
            }
        }
        assert forall|i: int| 0 <= i < e.len() && !is_legacy_key((#[trigger] e[i]).key) implies exists|
            k: int,
        | 0 <= k < all.len() && #[trigger] all[k] == e[i] by {
            if i == 0 {
                assert(all[0] == e[0]);
            } else {
                assert(rest[i - 1] == e[i]);
                let k = choose|k: int| 0 <= k < tail.len() && #[trigger] tail[k] == rest[i - 1];
                assert(all[k + skip] == tail[k]);
            }
        }
        assert forall|a: int, b: int| 0 <= a < b < all.len() implies (#[trigger] all[a]).key != (
        #[trigger] all[b]).key by {
            assert(all[b - skip + skip] == tail[b - skip]);
            let j = choose|j: int| 0 <= j < rest.len() && #[trigger] rest[j] == tail[b - skip];
            if skip == 1 && a == 0 {
                assert(e[0].key != e[j + 1].key);
            } else {
                assert(all[a - skip + skip] == tail[a - skip]);
                assert(tail[a - skip].key != tail[b - skip].key);
            }
        }
    }
}

/// What is left holds what was held, but for the legacy keys.
proof fn lemma_held_without_legacy(e: Seq<DocEntry>)
    requires
        distinct_keys(e),
    ensures
        held(cleaned(e, Seq::empty()).0) == without_legacy(held(e)),
{
    let c = cleaned(e, Seq::empty()).0;
    let k = kept(e);
    lemma_only_legacy_keys_leave(e, Seq::empty());
    lemma_kept(e);
    assert(distinct_keys(c)) by {
        assert forall|a: int, b: int| 0 <= a < b < c.len() implies (#[trigger] c[a]).key != (
        #[trigger] c[b]).key by {
            assert(c[a].key == k[a].key && c[b].key == k[b].key);
            assert(k[a].key != k[b].key);
        }
    }
    let left = held(c);
    let right = without_legacy(held(e));
    assert forall|key: Seq<char>| left.dom().contains(key) implies right.dom().contains(key)
        && left[key] == right[key] by {
        let a = choose|a: int| 0 <= a < c.len() && (#[trigger] c[a]).key == key;
        lemma_held_at(c, a);
        assert(c[a].key == k[a].key && c[a].body == k[a].body);
        let i = choose|i: int| 0 <= i < e.len() && #[trigger] e[i] == k[a];
        lemma_held_at(e, i);
    }
    assert forall|key: Seq<char>| right.dom().contains(key) implies left.dom().contains(key) by {
        let i = choose|i: int| 0 <= i < e.len() && (#[trigger] e[i]).key == key;
        let a = choose|a: int| 0 <= a < k.len() && #[trigger] k[a] == e[i];
        assert(c[a].key == k[a].key);
        assert(has_key(c, key));
    }
    assert(left =~= right);
}

/// Cleaning up a text and then what comes of it: reading either result gives
/// no legacy key, everything else as before, and the second clean-up changes
/// nothing that is read.
pub proof fn lemma_clear_settles(content: Seq<char>, once: Seq<char>, twice: Seq<char>)
    requires
        toml_parse(content) is Some,
        text_holds(once, without_legacy(values_in(content))),
        text_holds(twice, without_legacy(values_in(once))),
    ensures
        forall|key: Seq<char>|
            is_legacy_key(key) ==> !(#[trigger] values_in(once).dom().contains(key)),
        forall|key: Seq<char>|
            !is_legacy_key(key) ==> {
                &&& values_in(once).dom().contains(key) == #[trigger] values_in(
                    content,
                ).dom().contains(key)
                &&& values_in(content).dom().contains(key) ==> values_in(once)[key] == values_in(
                    content,
                )[key]
            },
        values_in(twice) == values_in(once),
{
    assert(values_in(twice) =~= values_in(once));
}

/// No comment is lost: the text in front of the entries, with the text left
/// over at the end, reads the same before and after.
pub proof fn lemma_leading_text_survives(e: Seq<DocEntry>, pending: Seq<char>)
    ensures
        all_leading(cleaned(e, pending).0) + cleaned(e, pending).1 == pending + all_leading(e),
    decreases e.len(),
{
    if e.len() == 0 {
        assert(all_leading(e) + pending =~= pending + all_leading(e));
    } else {
        let rest = e.drop_first();
        let lead = e[0].leading();
        if is_legacy_key(e[0].key) {
            lemma_leading_text_survives(rest, pending + lead);
            assert((pending + lead) + all_leading(rest) =~= pending + (lead + all_leading(rest)));
        } else {
            lemma_leading_text_survives(rest, Seq::empty());
            let (kept_rest, over) = cleaned(rest, Seq::empty());
            let all = seq![e[0].led_by(pending)] + kept_rest;
            assert(all.drop_first() =~= kept_rest);
            assert(all[0].leading() =~= pending + lead);
            assert(Seq::<char>::empty() + all_leading(rest) =~= all_leading(rest));
            assert(((pending + lead) + all_leading(kept_rest)) + over =~= pending + (lead + (
            all_leading(kept_rest) + over)));
        }
    }
}

/// A second clean-up finds nothing to do.
pub proof fn lemma_clean_up_is_idempotent(e: Seq<DocEntry>)
    ensures
        ({
            let once = cleaned(e, Seq::empty()).0;
            cleaned(once, Seq::empty()) == (once, Seq::<char>::empty())
        }),
{
    lemma_only_legacy_keys_leave(e, Seq::empty());
    lemma_nothing_to_clean(cleaned(e, Seq::empty()).0);
}

proof fn lemma_nothing_to_clean(e: Seq<DocEntry>)
    requires
        forall|i: int| 0 <= i < e.len() ==> !is_legacy_key((#[trigger] e[i]).key),
    ensures
        cleaned(e, Seq::empty()) == (e, Seq::<char>::empty()),
    decreases e.len(),
{
    if e.len() > 0 {
        let rest = e.drop_first();
        assert forall|i: int| 0 <= i < rest.len() implies !is_legacy_key((#[trigger] rest[i]).key) by {
            assert(rest[i] == e[i + 1]);
        }
        lemma_nothing_to_clean(rest);
        match e[0].table_prefix {
            Some(p) => {
                assert(Seq::<char>::empty() + p =~= p);
            },
            None => {
                assert(Seq::<char>::empty() + e[0].key_prefix =~= e[0].key_prefix);
            },
        }
        assert(seq![e[0]] + rest =~= e);
    }
}

} // verus!
