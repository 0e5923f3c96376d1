use vstd::prelude::*;
use vstd::string::*;

use crate::strutil::{
    is_white_space, is_ws, last_idx_of, lemma_last_idx_at, lemma_trim_end_at, lemma_trim_start_at,
    lower_char, to_lower_char, trim_end_v, trim_start_v, trim_v, find_last,
};

verus! {

/// One launcher-integration record: the in-memory form of a desktop descriptor file.
pub struct DesktopFile {
    pub name: String,
    pub exec_path: String,
    pub icon: String,
    pub terminal: bool,
    pub app_type: String,
    pub categories: String,
}

/// The mathematical model of a descriptor: each field as a character sequence.
pub struct DesktopFileView {
    pub name: Seq<char>,
    pub exec_path: Seq<char>,
    pub icon: Seq<char>,
    pub terminal: bool,
    pub app_type: Seq<char>,
    pub categories: Seq<char>,
}

impl View for DesktopFile {
    type V = DesktopFileView;

    open spec fn view(&self) -> DesktopFileView {
        DesktopFileView {
            name: self.name@,
            exec_path: self.exec_path@,
            icon: self.icon@,
            terminal: self.terminal,
            app_type: self.app_type@,
            categories: self.categories@,
        }
    }
}

impl DeepView for DesktopFile {
    type V = DesktopFileView;

    open spec fn deep_view(&self) -> DesktopFileView {
        self.view()
    }
}

pub open spec fn key_name() -> Seq<char> {
    seq!['n', 'a', 'm', 'e']
}

pub open spec fn key_exec() -> Seq<char> {
    seq!['e', 'x', 'e', 'c']
}

pub open spec fn key_icon() -> Seq<char> {
    seq!['i', 'c', 'o', 'n']
}

pub open spec fn key_terminal() -> Seq<char> {
    seq!['t', 'e', 'r', 'm', 'i', 'n', 'a', 'l']
}

pub open spec fn key_type() -> Seq<char> {
    seq!['t', 'y', 'p', 'e']
}

pub open spec fn key_categories() -> Seq<char> {
    seq!['c', 'a', 't', 'e', 'g', 'o', 'r', 'i', 'e', 's']
}

/// The lower-cased line starts with `key`: prefix matching, not exact key match.
pub open spec fn matches_key(l: Seq<char>, key: Seq<char>) -> bool {
    key.len() <= l.len() && forall|i: int| 0 <= i < key.len() ==> lower_char(l[i]) == key[i]
}

/// A line carries a value only if it holds at least one `=`.
pub open spec fn has_eq(l: Seq<char>) -> bool {
    last_idx_of(l, '=') >= 0
}

/// Everything after the last `=` of the line, uncased and untrimmed.
pub open spec fn entry_value(l: Seq<char>) -> Seq<char> {
    l.subrange(last_idx_of(l, '=') + 1, l.len() as int)
}

/// A boolean value is true exactly when it is `true` after trimming and lower-casing.
pub open spec fn is_true_value(v: Seq<char>) -> bool {
    let t = trim_v(v);
    t.len() == 4 && lower_char(t[0]) == 't' && lower_char(t[1]) == 'r' && lower_char(t[2]) == 'u'
        && lower_char(t[3]) == 'e'
}

/// The descriptor every parse starts from: all strings empty, terminal off.
pub open spec fn empty_desktop_v() -> DesktopFileView {
    DesktopFileView {
        name: Seq::empty(),
        exec_path: Seq::empty(),
        icon: Seq::empty(),
        terminal: false,
        app_type: Seq::empty(),
        categories: Seq::empty(),
    }
}

/// The effect of one line on the descriptor built so far: the first matching
/// key prefix wins the dispatch, and a line without `=` changes nothing.
pub open spec fn parse_line_v(d: DesktopFileView, l: Seq<char>) -> DesktopFileView {
    if matches_key(l, key_name()) {
        if has_eq(l) {
            DesktopFileView { name: entry_value(l), ..d }
        } else {
            d
        }
    } else if matches_key(l, key_exec()) {
        if has_eq(l) {
            DesktopFileView { exec_path: entry_value(l), ..d }
        } else {
            d
        }
    } else if matches_key(l, key_icon()) {
        if has_eq(l) {
            DesktopFileView { icon: entry_value(l), ..d }
        } else {
            d
        }
    } else if matches_key(l, key_terminal()) {
        if has_eq(l) {
            DesktopFileView { terminal: is_true_value(entry_value(l)), ..d }
        } else {
            d
        }
    } else if matches_key(l, key_type()) {
        if has_eq(l) {
            DesktopFileView { app_type: entry_value(l), ..d }
        } else {
            d
        }
    } else if matches_key(l, key_categories()) {
        if has_eq(l) {
            DesktopFileView { categories: entry_value(l), ..d }
        } else {
            d
        }
    } else {
        d
    }
}

/// The descriptor after the first `n` lines, later assignments overwriting earlier ones.
pub open spec fn parse_upto(ls: Seq<Seq<char>>, n: int) -> DesktopFileView
    decreases n,
{
    if n <= 0 {
        empty_desktop_v()
    } else {
        parse_line_v(parse_upto(ls, n - 1), ls[n - 1])
    }
}

/// The descriptor a whole file of lines parses to.
pub open spec fn parse_lines_v(ls: Seq<Seq<char>>) -> DesktopFileView {
    parse_upto(ls, ls.len() as int)
}

/// The value of an entry line: everything after its last `=`, or nothing
/// when the line has no `=`.
pub fn read_entry_value_as_str(line: &str) -> (r: Option<String>)
    ensures
        r is Some <==> has_eq(line@),
        r matches Some(v) ==> v@ == entry_value(line@),
{
    match find_last(line, '=') {
        Some(i) => {
            let n = line.unicode_len();
            let sub = line.substring_char(i + 1, n);
            Some(String::from_str(sub))
        },
        None => None,
    }
}

/// Whether the trimmed, lower-cased text is the literal `true`.
pub fn is_true_literal(v: &str) -> (r: bool)
    ensures
        r == is_true_value(v@),
{
    let n = v.unicode_len();
    let mut i: usize = 0;
    while i < n && is_ws(v.get_char(i))
        invariant
            i <= n,
            n == v@.len(),
            forall|k: int| 0 <= k < i ==> is_white_space(v@[k]),
        decreases n - i,
    {
        i = i + 1;
    }
    if i == n {
        proof {
            lemma_trim_start_at(v@, n as int);
            assert(trim_start_v(v@) =~= Seq::<char>::empty());
            assert(trim_v(v@).len() == 0);
        }
        return false;
    }
    let mut j: usize = n - 1;
    while j > i && is_ws(v.get_char(j))
        invariant
            i <= j < n,
            n == v@.len(),
            !is_white_space(v@[i as int]),
            forall|k: int| j < k < n ==> is_white_space(v@[k]),
        decreases j,
    {
        j = j - 1;
    }
    proof {
        lemma_trim_start_at(v@, i as int);
        let t = v@.subrange(i as int, n as int);
        lemma_trim_end_at(t, j - i);
        assert(trim_v(v@) =~= v@.subrange(i as int, j + 1));
    }
    if j + 1 - i != 4 {
        return false;
    }
    let r = to_lower_char(v.get_char(i)) == 't' && to_lower_char(v.get_char(i + 1)) == 'r'
        && to_lower_char(v.get_char(i + 2)) == 'u' && to_lower_char(v.get_char(i + 3)) == 'e';
    proof {
        assert(trim_v(v@)[0] == v@[i as int]);
        assert(trim_v(v@)[1] == v@[i + 1]);
        assert(trim_v(v@)[2] == v@[i + 2]);
        assert(trim_v(v@)[3] == v@[i + 3]);
    }
    r
}

/// The boolean an entry line carries, or nothing when the line has no `=`.
pub fn read_entry_value_as_bool(line: &str) -> (r: Option<bool>)
    ensures
        r is Some <==> has_eq(line@),
        r matches Some(b) ==> b == is_true_value(entry_value(line@)),
{
    match read_entry_value_as_str(line) {
        Some(v) => Some(is_true_literal(v.as_str())),
        None => None,
    }
}

/// Whether the lower-cased line starts with the (already lower-case) key.
fn line_matches(line: &str, key: &str) -> (r: bool)
    ensures
        r == matches_key(line@, key@),
{
    let ln = line.unicode_len();
    let kn = key.unicode_len();
    if kn > ln {
        return false;
    }
    let mut i: usize = 0;
    while i < kn
        invariant
            i <= kn,
            kn <= ln,
            ln == line@.len(),
            kn == key@.len(),
            forall|k: int| 0 <= k < i ==> lower_char(line@[k]) == key@[k],
        decreases kn - i,
    {
        if to_lower_char(line.get_char(i)) != key.get_char(i) {
            return false;
        }
        i = i + 1;
    }
    true
}

impl DesktopFile {
    /// A descriptor from its six field values, exactly as given.
    pub fn new(
        name: String,
        exec_path: String,
        icon: String,
        terminal: bool,
        app_type: String,
        categories: String,
    ) -> (d: Self)
        ensures
            d@ == (DesktopFileView {
                name: name@,
                exec_path: exec_path@,
                icon: icon@,
                terminal,
                app_type: app_type@,
                categories: categories@,
            }),
    {
        Self { name, exec_path, icon, terminal, app_type, categories }
    }

    /// A field-for-field copy of the descriptor.
    pub fn duplicate(&self) -> (d: Self)
        ensures
            d@ == self@,
    {
        Self {
            name: self.name.clone(),
            exec_path: self.exec_path.clone(),
            icon: self.icon.clone(),
            terminal: self.terminal,
            app_type: self.app_type.clone(),
            categories: self.categories.clone(),
        }
    }

    /// The descriptor the given file lines parse to: keys matched
    /// case-insensitively by prefix, the last assignment of a field winning,
    /// unrecognized lines ignored, missing keys left at their defaults.
    pub fn from_file(lines: &Vec<String>) -> (d: Self)
        ensures
            d@ == parse_lines_v(lines.deep_view()),
    {
        proof {
            reveal_strlit("name");
            reveal_strlit("exec");
            reveal_strlit("icon");
            reveal_strlit("terminal");
            reveal_strlit("type");
            reveal_strlit("categories");
            assert("name"@ =~= key_name());
            assert("exec"@ =~= key_exec());
            assert("icon"@ =~= key_icon());
            assert("terminal"@ =~= key_terminal());
            assert("type"@ =~= key_type());
            assert("categories"@ =~= key_categories());
        }
        let mut d = Self {
            name: String::new(),
            exec_path: String::new(),
            icon: String::new(),
            terminal: false,
            app_type: String::new(),
            categories: String::new(),
        };
        proof {
            assert(d@ =~= empty_desktop_v());
        }
        let mut i: usize = 0;
        while i < lines.len()
            invariant
                i <= lines.len(),
                d@ == parse_upto(lines.deep_view(), i as int),
            decreases lines.len() - i,
        {
            let line = lines[i].as_str();
            proof {
                reveal_strlit("name");
                reveal_strlit("exec");
                reveal_strlit("icon");
                reveal_strlit("terminal");
                reveal_strlit("type");
                reveal_strlit("categories");
                assert("name"@ =~= key_name());
                assert("exec"@ =~= key_exec());
                assert("icon"@ =~= key_icon());
                assert("terminal"@ =~= key_terminal());
                assert("type"@ =~= key_type());
                assert("categories"@ =~= key_categories());
                assert(lines.deep_view()[i as int] == line@);
            }
            let ghost prev = d@;
            if line_matches(line, "name") {
                match read_entry_value_as_str(line) {
                    Some(value) => d.name = value,
                    None => {},
                }
            } else if line_matches(line, "exec") {
                match read_entry_value_as_str(line) {
                    Some(value) => d.exec_path = value,
                    None => {},
                }
            } else if line_matches(line, "icon") {
                match read_entry_value_as_str(line) {
                    Some(value) => d.icon = value,
                    None => {},
                }
            } else if line_matches(line, "terminal") {
                match read_entry_value_as_bool(line) {
                    Some(value) => d.terminal = value,
                    None => {},
                }
            } else if line_matches(line, "type") {
                match read_entry_value_as_str(line) {
                    Some(value) => d.app_type = value,
                    None => {},
                }
            } else if line_matches(line, "categories") {
                match read_entry_value_as_str(line) {
                    Some(value) => d.categories = value,
                    None => {},
                }
            }
            proof {
                assert(d@ == parse_line_v(prev, line@));
                assert(parse_upto(lines.deep_view(), i as int + 1) == parse_line_v(
                    parse_upto(lines.deep_view(), i as int),
                    lines.deep_view()[i as int],
                ));
            }
            i = i + 1;
        }
        d
    }

    /// The serialized descriptor: a fixed header and six `Key=Value` lines in
    /// fixed order, the boolean rendered as `true` or `false`.
    pub fn serialize(&self) -> (s: String)
        ensures
            s@ == serialize_v(self@),
    {
        let mut s = String::from_str("[Desktop Entry]\nName=");
        s.append(self.name.as_str());
        s.append("\nExec=");
        s.append(self.exec_path.as_str());
        s.append("\nIcon=");
        s.append(self.icon.as_str());
        if self.terminal {
            s.append("\nTerminal=true\nType=");
        } else {
            s.append("\nTerminal=false\nType=");
        }
        s.append(self.app_type.as_str());
        s.append("\nCategories=");
        s.append(self.categories.as_str());
        s.append("\n");
        proof {
            reveal_strlit("[Desktop Entry]\nName=");
            reveal_strlit("\nExec=");
            reveal_strlit("\nIcon=");
            reveal_strlit("\nTerminal=true\nType=");
            reveal_strlit("\nTerminal=false\nType=");
            reveal_strlit("\nCategories=");
            reveal_strlit("\n");
            assert("[Desktop Entry]\nName="@ =~= header_line() + nl() + name_prefix());
            assert("\nExec="@ =~= nl() + exec_prefix());
            assert("\nIcon="@ =~= nl() + icon_prefix());
            assert("\nTerminal=true\nType="@ =~= nl() + terminal_prefix() + bool_lit(true) + nl()
                + type_prefix());
            assert("\nTerminal=false\nType="@ =~= nl() + terminal_prefix() + bool_lit(false) + nl()
                + type_prefix());
            assert("\nCategories="@ =~= nl() + categories_prefix());
            assert("\n"@ =~= nl());
        }
        s
    }

    /// The serialized descriptor as its individual lines, in serialization order.
    pub fn serialize_lines(&self) -> (ls: Vec<String>)
        ensures
            ls.deep_view() == serialize_lines_v(self@),
    {
        let mut ls: Vec<String> = Vec::new();
        ls.push(String::from_str("[Desktop Entry]"));
        let mut l1 = String::from_str("Name=");
        l1.append(self.name.as_str());
        ls.push(l1);
        let mut l2 = String::from_str("Exec=");
        l2.append(self.exec_path.as_str());
        ls.push(l2);
        let mut l3 = String::from_str("Icon=");
        l3.append(self.icon.as_str());
        ls.push(l3);
        if self.terminal {
            ls.push(String::from_str("Terminal=true"));
        } else {
            ls.push(String::from_str("Terminal=false"));
        }
        let mut l5 = String::from_str("Type=");
        l5.append(self.app_type.as_str());
        ls.push(l5);
        let mut l6 = String::from_str("Categories=");
        l6.append(self.categories.as_str());
        ls.push(l6);
        proof {
            reveal_strlit("[Desktop Entry]");
            reveal_strlit("Name=");
            reveal_strlit("Exec=");
            reveal_strlit("Icon=");
            reveal_strlit("Terminal=true");
            reveal_strlit("Terminal=false");
            reveal_strlit("Type=");
            reveal_strlit("Categories=");
            assert("[Desktop Entry]"@ =~= header_line());
            assert("Name="@ =~= name_prefix());
            assert("Exec="@ =~= exec_prefix());
            assert("Icon="@ =~= icon_prefix());
            assert("Terminal=true"@ =~= terminal_prefix() + bool_lit(true));
            assert("Terminal=false"@ =~= terminal_prefix() + bool_lit(false));
            assert("Type="@ =~= type_prefix());
            assert("Categories="@ =~= categories_prefix());
            assert(ls.deep_view() =~= serialize_lines_v(self@));
        }
        ls
    }
}

pub open spec fn header_line() -> Seq<char> {
    seq!['[', 'D', 'e', 's', 'k', 't', 'o', 'p', ' ', 'E', 'n', 't', 'r', 'y', ']']
}

pub open spec fn nl() -> Seq<char> {
    seq!['\n']
}

pub open spec fn name_prefix() -> Seq<char> {
    seq!['N', 'a', 'm', 'e', '=']
}

pub open spec fn exec_prefix() -> Seq<char> {
    seq!['E', 'x', 'e', 'c', '=']
}

pub open spec fn icon_prefix() -> Seq<char> {
    seq!['I', 'c', 'o', 'n', '=']
}

pub open spec fn terminal_prefix() -> Seq<char> {
    seq!['T', 'e', 'r', 'm', 'i', 'n', 'a', 'l', '=']
}

pub open spec fn type_prefix() -> Seq<char> {
    seq!['T', 'y', 'p', 'e', '=']
}

pub open spec fn categories_prefix() -> Seq<char> {
    seq!['C', 'a', 't', 'e', 'g', 'o', 'r', 'i', 'e', 's', '=']
}

/// How a boolean field is rendered.
pub open spec fn bool_lit(b: bool) -> Seq<char> {
    if b {
        seq!['t', 'r', 'u', 'e']
    } else {
        seq!['f', 'a', 'l', 's', 'e']
    }
}

/// The seven lines a descriptor serializes to, in order.
pub open spec fn serialize_lines_v(d: DesktopFileView) -> Seq<Seq<char>> {
    seq![
        header_line(),
        name_prefix() + d.name,
        exec_prefix() + d.exec_path,
        icon_prefix() + d.icon,
        terminal_prefix() + bool_lit(d.terminal),
        type_prefix() + d.app_type,
        categories_prefix() + d.categories,
    ]
}

/// The serialized text: the seven lines, each terminated by a newline.
pub open spec fn serialize_v(d: DesktopFileView) -> Seq<char> {
    header_line() + nl() + name_prefix() + d.name + nl() + exec_prefix() + d.exec_path + nl()
        + icon_prefix() + d.icon + nl() + terminal_prefix() + bool_lit(d.terminal) + nl()
        + type_prefix() + d.app_type + nl() + categories_prefix() + d.categories + nl()
}

/// A field value the textual format can carry without loss: no `=`, no newline.
pub open spec fn value_ok(s: Seq<char>) -> bool {
    forall|i: int| 0 <= i < s.len() ==> s[i] != '=' && s[i] != '\n'
}

/// A serialized `Key=Value` line carries exactly its value: the last `=` of the
/// line is the one the prefix ends with.
proof fn lemma_value_line(prefix: Seq<char>, v: Seq<char>)
    requires
        prefix.len() >= 1,
        prefix[prefix.len() - 1] == '=',
        forall|k: int| 0 <= k < v.len() ==> v[k] != '=',
    ensures
        has_eq(prefix + v),
        entry_value(prefix + v) =~= v,
{
    let l = prefix + v;
    assert(forall|k: int| prefix.len() <= k < l.len() ==> l[k] == v[k - prefix.len()]);
    lemma_last_idx_at(l, '=', prefix.len() - 1);
}

/// Rendering a boolean and reading it back yields the same boolean.
proof fn lemma_bool_lit_roundtrip(b: bool)
    ensures
        is_true_value(bool_lit(b)) == b,
{
    let t = bool_lit(b);
    assert(!is_white_space(t[0]));
    assert(!is_white_space(t[t.len() - 1]));
    assert(trim_start_v(t) == t);
    assert(trim_end_v(t) == t);
    if b {
        assert(is_true_value(t));
    } else {
        assert(trim_v(t).len() == 5);
    }
}

/// A line that does not assign the executable field leaves it unchanged.
proof fn lemma_parse_line_keeps_exec(d: DesktopFileView, l: Seq<char>)
    requires
        !(matches_key(l, key_exec()) && !matches_key(l, key_name()) && has_eq(l)),
    ensures
        parse_line_v(d, l).exec_path == d.exec_path,
{
}

proof fn lemma_exec_stable(ls: Seq<Seq<char>>, j: int, n: int)
    requires
        0 <= j < n <= ls.len(),
        matches_key(ls[j], key_exec()),
        !matches_key(ls[j], key_name()),
        has_eq(ls[j]),
        forall|k: int|
            j < k < n ==> !(matches_key(ls[k], key_exec()) && !matches_key(ls[k], key_name())
                && has_eq(ls[k])),
    ensures
        parse_upto(ls, n).exec_path == entry_value(ls[j]),
    decreases n,
{
    if n == j + 1 {
        assert(parse_upto(ls, n) == parse_line_v(parse_upto(ls, j), ls[j]));
    } else {
        lemma_exec_stable(ls, j, n - 1);
        lemma_parse_line_keeps_exec(parse_upto(ls, n - 1), ls[n - 1]);
        assert(parse_upto(ls, n) == parse_line_v(parse_upto(ls, n - 1), ls[n - 1]));
    }
}

/// Law: key lookup is case-insensitive (the dispatch folds the line before
/// matching) and the last assignment of a field is authoritative: whatever
/// stood in the file before, the executable field of the parse result is the
/// value of the last line that assigns it.
pub proof fn lemma_last_write_wins(ls: Seq<Seq<char>>, j: int)
    requires
        0 <= j < ls.len(),
        matches_key(ls[j], key_exec()),
        !matches_key(ls[j], key_name()),
        has_eq(ls[j]),
        forall|k: int|
            j < k < ls.len() ==> !(matches_key(ls[k], key_exec()) && !matches_key(
                ls[k],
                key_name(),
            ) && has_eq(ls[k])),
    ensures
        parse_lines_v(ls).exec_path == entry_value(ls[j]),
{
    lemma_exec_stable(ls, j, ls.len() as int);
}

/// Law: a file without lines parses to the default descriptor: every string
/// field empty, the terminal flag off.
pub proof fn lemma_empty_parse()
    ensures
        parse_lines_v(Seq::empty()) == empty_desktop_v(),
{
}

/// Law: a descriptor whose field values are free of `=` and newline characters
/// is reproduced exactly by parsing its own serialized lines.
pub proof fn lemma_round_trip(d: DesktopFileView)
    requires
        value_ok(d.name),
        value_ok(d.exec_path),
        value_ok(d.icon),
        value_ok(d.app_type),
        value_ok(d.categories),
    ensures
        parse_lines_v(serialize_lines_v(d)) == d,
{
    let ls = serialize_lines_v(d);
    let l0 = ls[0];
    let l1 = ls[1];
    let l2 = ls[2];
    let l3 = ls[3];
    let l4 = ls[4];
    let l5 = ls[5];
    let l6 = ls[6];

    // The header matches no key: its first character folds to `[`.
    assert(lower_char(l0[0]) == '[');
    assert(!matches_key(l0, key_name()) && !matches_key(l0, key_exec()) && !matches_key(
        l0,
        key_icon(),
    ) && !matches_key(l0, key_terminal()) && !matches_key(l0, key_type()) && !matches_key(
        l0,
        key_categories(),
    ));

    // Name line.
    assert(matches_key(l1, key_name())) by {
        assert(lower_char(l1[0]) == 'n' && lower_char(l1[1]) == 'a' && lower_char(l1[2]) == 'm'
            && lower_char(l1[3]) == 'e');
    }
    lemma_value_line(name_prefix(), d.name);

    // Exec line.
    assert(lower_char(l2[0]) == 'e');
    assert(!matches_key(l2, key_name()));
    assert(matches_key(l2, key_exec())) by {
        assert(lower_char(l2[0]) == 'e' && lower_char(l2[1]) == 'x' && lower_char(l2[2]) == 'e'
            && lower_char(l2[3]) == 'c');
    }
    lemma_value_line(exec_prefix(), d.exec_path);

    // Icon line.
    assert(lower_char(l3[0]) == 'i');
    assert(!matches_key(l3, key_name()) && !matches_key(l3, key_exec()));
    assert(matches_key(l3, key_icon())) by {
        assert(lower_char(l3[0]) == 'i' && lower_char(l3[1]) == 'c' && lower_char(l3[2]) == 'o'
            && lower_char(l3[3]) == 'n');
    }
    lemma_value_line(icon_prefix(), d.icon);

    // Terminal line.
    assert(lower_char(l4[0]) == 't');
    assert(!matches_key(l4, key_name()) && !matches_key(l4, key_exec()) && !matches_key(
        l4,
        key_icon(),
    ));
    assert(matches_key(l4, key_terminal())) by {
        assert(lower_char(l4[0]) == 't' && lower_char(l4[1]) == 'e' && lower_char(l4[2]) == 'r'
            && lower_char(l4[3]) == 'm' && lower_char(l4[4]) == 'i' && lower_char(l4[5]) == 'n'
            && lower_char(l4[6]) == 'a' && lower_char(l4[7]) == 'l');
    }
    assert(forall|k: int| 0 <= k < bool_lit(d.terminal).len() ==> bool_lit(d.terminal)[k] != '=');
    lemma_value_line(terminal_prefix(), bool_lit(d.terminal));
    lemma_bool_lit_roundtrip(d.terminal);

    // Type line.
    assert(lower_char(l5[0]) == 't' && lower_char(l5[1]) == 'y');
    assert(!matches_key(l5, key_name()) && !matches_key(l5, key_exec()) && !matches_key(
        l5,
        key_icon(),
    ) && !matches_key(l5, key_terminal()));
    assert(matches_key(l5, key_type())) by {
        assert(lower_char(l5[0]) == 't' && lower_char(l5[1]) == 'y' && lower_char(l5[2]) == 'p'
            && lower_char(l5[3]) == 'e');
    }
    lemma_value_line(type_prefix(), d.app_type);

    // Categories line.
    assert(lower_char(l6[0]) == 'c');
    assert(!matches_key(l6, key_name()) && !matches_key(l6, key_exec()) && !matches_key(
        l6,
        key_icon(),
    ) && !matches_key(l6, key_terminal()) && !matches_key(l6, key_type()));
    assert(matches_key(l6, key_categories())) by {
        assert(lower_char(l6[0]) == 'c' && lower_char(l6[1]) == 'a' && lower_char(l6[2]) == 't'
            && lower_char(l6[3]) == 'e' && lower_char(l6[4]) == 'g' && lower_char(l6[5]) == 'o'
            && lower_char(l6[6]) == 'r' && lower_char(l6[7]) == 'i' && lower_char(l6[8]) == 'e'
            && lower_char(l6[9]) == 's');
    }
    lemma_value_line(categories_prefix(), d.categories);

    // Walk the fold over the seven lines.
    let d0 = empty_desktop_v();
    assert(parse_upto(ls, 0) == d0);
    assert(parse_upto(ls, 1) == parse_line_v(d0, l0));
    assert(parse_upto(ls, 2) == parse_line_v(parse_upto(ls, 1), l1));
    assert(parse_upto(ls, 3) == parse_line_v(parse_upto(ls, 2), l2));
    assert(parse_upto(ls, 4) == parse_line_v(parse_upto(ls, 3), l3));
    assert(parse_upto(ls, 5) == parse_line_v(parse_upto(ls, 4), l4));
    assert(parse_upto(ls, 6) == parse_line_v(parse_upto(ls, 5), l5));
    assert(parse_upto(ls, 7) == parse_line_v(parse_upto(ls, 6), l6));
    assert(entry_value(l1) =~= d.name);
    assert(entry_value(l2) =~= d.exec_path);
    assert(entry_value(l3) =~= d.icon);
    assert(entry_value(l5) =~= d.app_type);
    assert(entry_value(l6) =~= d.categories);
    assert(parse_lines_v(ls) == d);
}

} // verus!
