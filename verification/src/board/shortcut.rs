//! Shortcuts as the user writes them, such as `Ctrl+Shift+L`.
use vstd::prelude::*;
use crate::board::Shortcut;
use crate::input::{Key, Modifiers};
use crate::text::{digit_spec, lower, lower_spec, trim, trim_spec};

verus! {

/// The parts between plus signs.
pub open spec fn tokens(s: Seq<char>) -> Seq<Seq<char>>
    decreases s.len(),
{
    if s.len() == 0 {
        seq![Seq::empty()]
    } else {
        let rest = tokens(s.drop_last());
        if s.last() == '+' {
            rest.push(Seq::empty())
        } else {
            rest.drop_last().push(rest.last().push(s.last()))
        }
    }
}

/// Text in lower case.
pub open spec fn lowered(s: Seq<char>) -> Seq<char> {
    s.map_values(|c: char| lower_spec(c))
}

/// The modifiers with the one of this name, if it is one.
pub open spec fn with_modifier(m: Modifiers, name: Seq<char>) -> Option<Modifiers> {
    if name == "ctrl"@ || name == "control"@ {
        Some(Modifiers { control: true, ..m })
    } else if name == "shift"@ {
        Some(Modifiers { shift: true, ..m })
    } else if name == "alt"@ {
        Some(Modifiers { alt: true, ..m })
    } else if name == "super"@ || name == "meta"@ {
        Some(Modifiers { super_key: true, ..m })
    } else {
        None
    }
}

/// The name of a function key, from `f1` to `f24`.
pub open spec fn function_key(name: Seq<char>) -> bool {
    &&& name.len() == 2 || name.len() == 3
    &&& name[0] == 'f'
    &&& if name.len() == 2 {
        digit_spec(name[1]) && name[1] != '0'
    } else {
        name[1] == '1' && digit_spec(name[2]) || name[1] == '2' && '0' <= name[2] <= '4'
    }
}

/// The name that a key is looked up by: that of a function key, or a single
/// character. `None` for other names.
pub open spec fn key_name(name: Seq<char>) -> Option<Seq<char>> {
    if function_key(name) {
        Some(seq!['F'] + name.skip(1))
    } else if name.len() == 1 {
        Some(name)
    } else {
        None
    }
}

/// The modifiers that the parts of a shortcut name; `None` where a part does
/// not name one.
pub open spec fn modifiers_of(parts: Seq<Seq<char>>) -> Option<Modifiers>
    decreases parts.len(),
{
    if parts.len() == 0 {
        Some(Modifiers::none_spec())
    } else {
        match modifiers_of(parts.drop_last()) {
            Some(m) => with_modifier(m, lowered(trim_spec(parts.last()))),
            None => None,
        }
    }
}

/// The modifiers and the name of the key in a shortcut: any number of
/// modifiers, and then a key. `None` for what is not of this form.
pub open spec fn parts_of(parts: Seq<Seq<char>>) -> Option<(Modifiers, Seq<char>)> {
    match (modifiers_of(parts.drop_last()), key_name(lowered(trim_spec(parts.last())))) {
        (Some(m), Some(name)) => Some((m, name)),
        _ => None,
    }
}

/// A shortcut as it was written.
#[derive(Debug)]
pub struct ShortcutParts {
    pub modifier: Modifiers,
    /// Name of the key.
    pub name: String,
}

impl ShortcutParts {
    /// The parts in mathematical terms.
    pub open spec fn view(&self) -> (Modifiers, Seq<char>) {
        (self.modifier, self.name@)
    }
}

fn find_modifier(m: Modifiers, name: &String) -> (r: Option<Modifiers>)
    ensures
        r == with_modifier(m, name@),
{
    if *name == "ctrl".to_owned() || *name == "control".to_owned() {
        Some(Modifiers { control: true, ..m })
    } else if *name == "shift".to_owned() {
        Some(Modifiers { shift: true, ..m })
    } else if *name == "alt".to_owned() {
        Some(Modifiers { alt: true, ..m })
    } else if *name == "super".to_owned() || *name == "meta".to_owned() {
        Some(Modifiers { super_key: true, ..m })
    } else {
        None
    }
}

fn is_function_key(s: &str) -> (r: bool)
    ensures
        r == function_key(s@),
{
    let n: usize = s.unicode_len();
    if (n != 2 && n != 3) || s.get_char(0) != 'f' {
        return false;
    }
    let c: char = s.get_char(1);
    if n == 2 {
        return '1' <= c && c <= '9';
    }
    let d: char = s.get_char(2);
    '0' <= d && ((c == '1' && d <= '9') || (c == '2' && d <= '4'))
}

fn find_key_name(name: String) -> (r: Option<String>)
    ensures
        match r {
            Some(found) => key_name(name@) == Some(found@),
            None => key_name(name@) is None,
        },
{
    let s: &str = name.as_str();
    let n: usize = s.unicode_len();
    if is_function_key(s) {
        let mut r: String = String::new();
        r.push('F');
        let rest: &str = s.substring_char(1, n);
        proof {
            assert(rest@ =~= name@.skip(1));
            assert(r@ =~= seq!['F']);
        }
        return Some(r.concat(rest));
    }
    if n == 1 {
        Some(name)
    } else {
        None
    }
}

proof fn lemma_tokens_nonempty(s: Seq<char>)
    ensures
        tokens(s).len() > 0,
    decreases s.len(),
{
    if s.len() > 0 {
        lemma_tokens_nonempty(s.drop_last());
    }
}

/// Once a part before the last is no modifier, there are no modifiers in the
/// whole.
proof fn lemma_other_part_ends(s: Seq<char>, i: int)
    requires
        0 <= i <= s.len(),
        modifiers_of(tokens(s.take(i)).drop_last()) is None,
    ensures
        modifiers_of(tokens(s).drop_last()) is None,
    decreases s.len() - i,
{
    lemma_tokens_nonempty(s.take(i));
    if i == s.len() {
        assert(s.take(i) =~= s);
    } else {
        let a = tokens(s.take(i));
        let t = s.take(i + 1);
        assert(t.drop_last() =~= s.take(i));
        let b = tokens(t);
        if t.last() == '+' {
            assert(b.drop_last() =~= a);
            assert(modifiers_of(a) is None);
        } else {
            assert(b.drop_last() =~= a.drop_last());
        }
        lemma_other_part_ends(s, i + 1);
    }
}

/// Reads a shortcut: its modifiers, and the name of the key behind them.
/// Nothing, where the text is not of this form.
pub fn parse_shortcut(s: &str) -> (r: Option<ShortcutParts>)
    ensures
        match r {
            Some(p) => parts_of(tokens(s@)) == Some(p.view()),
            None => parts_of(tokens(s@)) is None,
        },
{
    let n: usize = s.unicode_len();
    let mut modifier: Modifiers = Modifiers::none();
    let mut token: String = String::new();
    let mut i: usize = 0;
    proof {
        assert(s@.take(0) =~= Seq::<char>::empty());
        assert(tokens(s@.take(0)).drop_last() =~= Seq::<Seq<char>>::empty());
        assert(token@ =~= Seq::<char>::empty());
    }
    while i < n
        invariant
            i <= n,
            n == s@.len(),
            token@ == tokens(s@.take(i as int)).last(),
            modifiers_of(tokens(s@.take(i as int)).drop_last()) == Some(modifier),
        decreases n - i,
    {
        let c: char = s.get_char(i);
        let ghost a = tokens(s@.take(i as int));
        let ghost t = s@.take(i + 1);
        proof {
            lemma_tokens_nonempty(s@.take(i as int));
            assert(t.drop_last() =~= s@.take(i as int));
            assert(t.last() == c);
        }
        if c == '+' {
            assert(tokens(t).drop_last() =~= a);
            match find_modifier(modifier, &lower(trim(token.as_str()))) {
                Some(m) => {
                    modifier = m;
                },
                None => {
                    proof {
                        assert(modifiers_of(a) is None);
                        lemma_other_part_ends(s@, i + 1);
                    }
                    return None;
                },
            }
            token = String::new();
            assert(token@ =~= Seq::<char>::empty());
        } else {
            token.push(c);
            assert(tokens(t).drop_last() =~= a.drop_last());
        }
        i = i + 1;
    }
    proof {
        assert(s@.take(n as int) =~= s@);
        lemma_tokens_nonempty(s@);
    }
    match find_key_name(lower(trim(token.as_str()))) {
        Some(name) => Some(ShortcutParts { modifier, name }),
        None => None,
    }
}

/// The shortcut, once its key is looked up by name. A name that is no key
/// makes none.
pub fn resolve_shortcut(parts: &ShortcutParts, key: Option<Key>) -> (r: Option<Shortcut>)
    ensures
        r == match key {
            Some(key) => Some(Shortcut { key, modifier: parts.modifier }),
            None => None,
        },
{
    match key {
        Some(key) => Some(Shortcut { key, modifier: parts.modifier }),
        None => None,
    }
}

/// A text with a part before its last that names no modifier is no shortcut.
pub proof fn lemma_stray_part_is_refused(s: Seq<char>, i: int)
    requires
        0 <= i < tokens(s).len() - 1,
        with_modifier(Modifiers::none_spec(), lowered(trim_spec(tokens(s)[i]))) is None,
    ensures
        parts_of(tokens(s)) is None,
{
    lemma_stray_modifier(tokens(s).drop_last(), i);
}

proof fn lemma_stray_modifier(parts: Seq<Seq<char>>, i: int)
    requires
        0 <= i < parts.len(),
        with_modifier(Modifiers::none_spec(), lowered(trim_spec(parts[i]))) is None,
    ensures
        modifiers_of(parts) is None,
    decreases parts.len(),
{
    if i < parts.len() - 1 {
        lemma_stray_modifier(parts.drop_last(), i);
    }
}

} // verus!
