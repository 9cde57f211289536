//! The key bindings of the help window: which of them a search finds, and
//! how they are laid out under their category headers.
use vstd::prelude::*;
use crate::text::{chars_of, string_of};

verus! {

/// A key binding: its category, its keys and what it does.
pub struct KeyBinding {
    pub category: String,
    pub keys: String,
    pub action: String,
}

/// A line of the help window.
pub enum HelpLine {
    Blank,
    Section(String),
    Binding(String, String),
}

/// A line of the help window, as text.
pub enum HelpLineModel {
    Blank,
    Section(Seq<char>),
    Binding(Seq<char>, Seq<char>),
}

impl KeyBinding {
    pub open spec fn model(self) -> (Seq<char>, Seq<char>, Seq<char>) {
        (self.category@, self.keys@, self.action@)
    }
}

impl HelpLine {
    pub open spec fn model(self) -> HelpLineModel {
        match self {
            HelpLine::Blank => HelpLineModel::Blank,
            HelpLine::Section(c) => HelpLineModel::Section(c@),
            HelpLine::Binding(k, a) => HelpLineModel::Binding(k@, a@),
        }
    }
}

/// The key bindings the help lists, in order, grouped by category.
pub open spec fn binding_table() -> Seq<(Seq<char>, Seq<char>, Seq<char>)> {
    seq![
        ("MOVEMENT"@, "h j k l"@, "Move cursor"@),
        ("MOVEMENT"@, "Enter"@, "Select / move piece"@),
        ("MOVEMENT"@, "Tab"@, "Next movable piece"@),
        ("MOVEMENT"@, "Shift+Tab"@, "Previous movable piece"@),
        ("MOVEMENT"@, "\u{2190} \u{2192} \u{2191} \u{2193}"@, "Arrow navigation"@),
        ("INPUT"@, "e2e4"@, "Algebraic move"@),
        ("INPUT"@, "Nf3"@, "Piece notation"@),
        ("INPUT"@, "O-O"@, "Castle kingside"@),
        ("INPUT"@, "O-O-O"@, "Castle queenside"@),
        ("COMMANDS"@, ":resign"@, "Resign game"@),
        ("COMMANDS"@, ":flip"@, "Flip board"@),
        ("COMMANDS"@, ":new"@, "New game"@),
        ("COMMANDS"@, ":kitty"@, "Toggle image mode"@),
        ("COMMANDS"@, ":debug"@, "Toggle debug panel"@),
        ("COMMANDS"@, ":quit"@, "Exit"@),
        ("GENERAL"@, "?"@, "Toggle help"@),
        ("GENERAL"@, "Esc"@, "Cancel / close"@),
        ("GENERAL"@, "Click"@, "Select square"@),
        ("GENERAL"@, ":"@, "Enter command mode"@),
    ]
}

/// What `str::to_lowercase` makes of a text.
pub uninterp spec fn lowercase(s: Seq<char>) -> Seq<char>;

/// std's `str::to_lowercase`. Claims only that the result is the lowercase
/// form of the text (by Unicode's mapping, which is not spelled out here).
#[verifier::external_body]
fn lowercase_text(s: &str) -> (r: String)
    ensures
        r@ == lowercase(s@),
{
    s.to_lowercase()
}

/// Whether `needle` occurs in `hay` as a run of consecutive characters.
pub open spec fn contains_text(hay: Seq<char>, needle: Seq<char>) -> bool {
    exists|i: int| 0 <= i && i + needle.len() <= hay.len() && #[trigger] hay.subrange(i, i + needle.len()) == needle
}

/// Whether a search finds a binding: the lowercased query occurs in the
/// lowercased keys or action.
pub open spec fn binding_found(b: (Seq<char>, Seq<char>, Seq<char>), query: Seq<char>) -> bool {
    contains_text(lowercase(b.1), lowercase(query)) || contains_text(lowercase(b.2), lowercase(query))
}

/// The bindings of `s` that a search finds, in order; all of them for an
/// empty search.
pub open spec fn found_bindings(s: Seq<(Seq<char>, Seq<char>, Seq<char>)>, query: Seq<char>) -> Seq<(Seq<char>, Seq<char>, Seq<char>)>
    decreases s.len(),
{
    if s.len() == 0 {
        s
    } else {
        let rest = found_bindings(s.drop_last(), query);
        if query.len() == 0 || binding_found(s.last(), query) {
            rest.push(s.last())
        } else {
            rest
        }
    }
}

/// The lines for a list of bindings: each binding under its category's
/// header, a blank line before each header but the first.
pub open spec fn grouped_lines(s: Seq<(Seq<char>, Seq<char>, Seq<char>)>) -> Seq<HelpLineModel>
    decreases s.len(),
{
    if s.len() == 0 {
        Seq::empty()
    } else {
        let before = grouped_lines(s.drop_last());
        let b = s.last();
        let header = if s.len() == 1 {
            seq![HelpLineModel::Section(b.0)]
        } else if s[s.len() - 2].0 != b.0 {
            seq![HelpLineModel::Blank, HelpLineModel::Section(b.0)]
        } else {
            Seq::empty()
        };
        before + header + seq![HelpLineModel::Binding(b.1, b.2)]
    }
}

/// The help window's lines for a search, ending with a blank line.
pub open spec fn help_lines_of(query: Seq<char>) -> Seq<HelpLineModel> {
    grouped_lines(found_bindings(binding_table(), query)).push(HelpLineModel::Blank)
}

fn binding(category: &str, keys: &str, action: &str) -> (b: KeyBinding)
    ensures
        b.model() == (category@, keys@, action@),
{
    KeyBinding { category: string_of(&chars_of(category)), keys: string_of(&chars_of(keys)), action: string_of(&chars_of(action)) }
}

/// The key bindings the help lists.
pub fn key_bindings() -> (v: Vec<KeyBinding>)
    ensures
        v@.map_values(|b: KeyBinding| b.model()) == binding_table(),
{
    let mut v: Vec<KeyBinding> = Vec::new();
    v.push(binding("MOVEMENT", "h j k l", "Move cursor"));
    v.push(binding("MOVEMENT", "Enter", "Select / move piece"));
    v.push(binding("MOVEMENT", "Tab", "Next movable piece"));
    v.push(binding("MOVEMENT", "Shift+Tab", "Previous movable piece"));
    v.push(binding("MOVEMENT", "\u{2190} \u{2192} \u{2191} \u{2193}", "Arrow navigation"));
    v.push(binding("INPUT", "e2e4", "Algebraic move"));
    v.push(binding("INPUT", "Nf3", "Piece notation"));
    v.push(binding("INPUT", "O-O", "Castle kingside"));
    v.push(binding("INPUT", "O-O-O", "Castle queenside"));
    v.push(binding("COMMANDS", ":resign", "Resign game"));
    v.push(binding("COMMANDS", ":flip", "Flip board"));
    v.push(binding("COMMANDS", ":new", "New game"));
    v.push(binding("COMMANDS", ":kitty", "Toggle image mode"));
    v.push(binding("COMMANDS", ":debug", "Toggle debug panel"));
    v.push(binding("COMMANDS", ":quit", "Exit"));
    v.push(binding("GENERAL", "?", "Toggle help"));
    v.push(binding("GENERAL", "Esc", "Cancel / close"));
    v.push(binding("GENERAL", "Click", "Select square"));
    v.push(binding("GENERAL", ":", "Enter command mode"));
    assert(v@.map_values(|b: KeyBinding| b.model()) =~= binding_table());
    v
}

fn same_chars(a: &Vec<char>, b: &Vec<char>, start: usize) -> (r: bool)
    requires
        start + b@.len() <= a@.len(),
    ensures
        r == (a@.subrange(start as int, start + b@.len()) == b@),
{
    let n = a.len();
    let mut j: usize = 0;
    while j < b.len()
        invariant
            j <= b@.len(),
            n == a@.len(),
            start + b@.len() <= a@.len(),
            forall|k: int| 0 <= k < j ==> a@[start + k] == b@[k],
        decreases b.len() - j,
    {
        if a[start + j] != b[j] {
            assert(a@.subrange(start as int, start + b@.len())[j as int] != b@[j as int]);
            return false;
        }
        j = j + 1;
    }
    assert(a@.subrange(start as int, start + b@.len()) =~= b@);
    true
}

/// Whether `needle` occurs in `hay`.
pub fn contains_chars(hay: &Vec<char>, needle: &Vec<char>) -> (r: bool)
    ensures
        r == contains_text(hay@, needle@),
{
    if needle.len() > hay.len() {
        return false;
    }
    let last = hay.len() - needle.len();
    let mut i: usize = 0;
    loop
        invariant
            i <= last,
            last + needle@.len() == hay@.len(),
            forall|k: int| 0 <= k < i ==> #[trigger] hay@.subrange(k, k + needle@.len()) != needle@,
        decreases last - i,
    {
        if same_chars(hay, needle, i) {
            return true;
        }
        if i == last {
            return false;
        }
        i = i + 1;
    }
}

/// Whether a search finds a binding.
fn is_found(b: &KeyBinding, query_lower: &Vec<char>, ghost_query: Ghost<Seq<char>>) -> (r: bool)
    requires
        query_lower@ == lowercase(ghost_query@),
    ensures
        r == binding_found(b.model(), ghost_query@),
{
    let keys = chars_of(lowercase_text(b.keys.as_str()).as_str());
    let action = chars_of(lowercase_text(b.action.as_str()).as_str());
    contains_chars(&keys, query_lower) || contains_chars(&action, query_lower)
}

fn copy_text(s: &String) -> (r: String)
    ensures
        r@ == s@,
{
    string_of(&chars_of(s.as_str()))
}

/// The lines of the help window for a search: the bindings it finds, each
/// under its category's header, and a closing blank line.
pub fn help_lines(search: &str) -> (v: Vec<HelpLine>)
    ensures
        v@.map_values(|l: HelpLine| l.model()) == help_lines_of(search@),
{
    let table = key_bindings();
    let query = chars_of(lowercase_text(search).as_str());
    let empty = chars_of(search).len() == 0;
    let mut lines: Vec<HelpLine> = Vec::new();
    let mut last_category: Option<Vec<char>> = None;
    let ghost mut found: Seq<(Seq<char>, Seq<char>, Seq<char>)> = Seq::empty();
    let mut i: usize = 0;
    while i < table.len()
        invariant
            i <= table@.len(),
            table@.map_values(|b: KeyBinding| b.model()) == binding_table(),
            query@ == lowercase(search@),
            empty == (search@.len() == 0),
            found == found_bindings(binding_table().take(i as int), search@),
            lines@.map_values(|l: HelpLine| l.model()) == grouped_lines(found),
            found.len() == 0 <==> last_category is None,
            last_category matches Some(c) ==> c@ == found.last().0,
        decreases table.len() - i,
    {
        let b = &table[i];
        let ghost bm = b.model();
        assert(binding_table()[i as int] == bm);
        assert(binding_table().take(i + 1).drop_last() =~= binding_table().take(i as int));
        assert(binding_table().take(i + 1).last() == bm);
        let take = empty || is_found(b, &query, Ghost(search@));
        if take {
            let cat = chars_of(b.category.as_str());
            let ghost before = lines@.map_values(|l: HelpLine| l.model());
            let ghost found_before = found;
            let new_group = match &last_category {
                None => true,
                Some(c) => !same_text(c, &cat),
            };
            if new_group {
                if last_category.is_some() {
                    lines.push(HelpLine::Blank);
                }
                lines.push(HelpLine::Section(copy_text(&b.category)));
            }
            lines.push(HelpLine::Binding(copy_text(&b.keys), copy_text(&b.action)));
            proof {
                found = found.push(bm);
                assert(found.drop_last() =~= found_before);
                if found_before.len() > 0 {
                    assert(found[found.len() - 2] == found_before.last());
                }
                assert(lines@.map_values(|l: HelpLine| l.model()) =~= grouped_lines(found));
            }
            last_category = Some(cat);
        }
        i = i + 1;
    }
    assert(binding_table().take(table@.len() as int) =~= binding_table());
    lines.push(HelpLine::Blank);
    assert(lines@.map_values(|l: HelpLine| l.model()) =~= help_lines_of(search@));
    lines
}

fn same_text(a: &Vec<char>, b: &Vec<char>) -> (r: bool)
    ensures
        r == (a@ == b@),
{
    if a.len() != b.len() {
        return false;
    }
    assert(a@.subrange(0, b@.len() as int) =~= a@);
    same_chars(a, b, 0)
}

} // verus!
