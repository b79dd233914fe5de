//! The configuration text format: newline-separated lines of the form
//! `uda.taskwarrior-tui.keyconfig.<action> <value>`.
use vstd::prelude::*;
use vstd::string::*;

verus! {

/// Characters with the Unicode `White_Space` property.
pub open spec fn is_ws(c: char) -> bool {
    let u = c as u32;
    (0x9 <= u && u <= 0xd) || u == 0x20 || u == 0x85 || u == 0xa0 || u == 0x1680 || (0x2000 <= u
        && u <= 0x200a) || u == 0x2028 || u == 0x2029 || u == 0x202f || u == 0x205f || u == 0x3000
}

/// The characters of `s` that are not whitespace, in order.
pub open spec fn non_ws(s: Seq<char>) -> Seq<char>
    decreases s.len(),
{
    if s.len() == 0 {
        Seq::empty()
    } else {
        let p = non_ws(s.drop_last());
        if is_ws(s.last()) {
            p
        } else {
            p.push(s.last())
        }
    }
}

/// A value names a key when, with surrounding whitespace trimmed, it is one character.
pub open spec fn single_value(s: Seq<char>) -> Option<char> {
    let t = non_ws(s);
    if t.len() == 1 {
        Some(t[0])
    } else {
        None
    }
}

/// The first index at or after `i` that holds `c`, or the length of `s`.
pub open spec fn find_from(s: Seq<char>, i: int, c: char) -> int
    decreases s.len() - i,
{
    if i >= s.len() {
        s.len() as int
    } else if s[i] == c {
        i
    } else {
        find_from(s, i + 1, c)
    }
}

/// `s` holds `p` starting at index `at`.
pub open spec fn has_at(s: Seq<char>, at: int, p: Seq<char>) -> bool {
    0 <= at && at + p.len() <= s.len() && s.subrange(at, at + p.len()) == p
}

/// What every setting key begins with.
pub open spec fn key_prefix() -> Seq<char> {
    "uda.taskwarrior-tui.keyconfig."@
}

/// `s` holds no whitespace (and so no line break).
pub open spec fn no_ws(s: Seq<char>) -> bool {
    forall|k: int| 0 <= k < s.len() ==> !is_ws(#[trigger] s[k])
}

/// An action name with each hyphen spelled as an underscore.
pub open spec fn underscored(name: Seq<char>) -> Seq<char> {
    name.map_values(|c: char| if c == '-' { '_' } else { c })
}

/// The value that follows the setting key `uda.taskwarrior-tui.keyconfig.<name>` at the
/// start of `line`, where the key ends at whitespace or at the end of the line.
pub open spec fn after_key(line: Seq<char>, name: Seq<char>) -> Option<Seq<char>> {
    let k = key_prefix() + name;
    if has_at(line, 0, k) && (k.len() == line.len() || is_ws(line[k.len() as int])) {
        Some(line.subrange(k.len() as int, line.len() as int))
    } else {
        None
    }
}

/// The value that `line` gives the action `name`, spelled with hyphens or with underscores.
pub open spec fn line_setting(line: Seq<char>, name: Seq<char>) -> Option<Seq<char>> {
    match after_key(line, name) {
        Some(v) => Some(v),
        None => after_key(line, underscored(name)),
    }
}

/// The key that the first line at or after `start` that sets `name` assigns, if its value
/// is a single character.
pub open spec fn lookup_from(s: Seq<char>, start: int, name: Seq<char>) -> Option<char>
    decreases s.len() - start,
{
    if 0 <= start <= s.len() {
        let e = find_from(s, start, '\n');
        match line_setting(s.subrange(start, e), name) {
            Some(v) => single_value(v),
            None => if start <= e < s.len() {
                lookup_from(s, e + 1, name)
            } else {
                None
            },
        }
    } else {
        None
    }
}

/// The key that the text `s` assigns to the action `name`: only the first line that sets
/// the action counts, and a value that is not a single character leaves it unset.
pub open spec fn setting(s: Seq<char>, name: Seq<char>) -> Option<char> {
    lookup_from(s, 0, name)
}

pub proof fn lemma_find_from_bounds(s: Seq<char>, i: int, c: char)
    requires
        0 <= i <= s.len(),
    ensures
        i <= find_from(s, i, c) <= s.len(),
        find_from(s, i, c) < s.len() ==> s[find_from(s, i, c)] == c,
        forall|k: int| i <= k < find_from(s, i, c) ==> s[k] != c,
    decreases s.len() - i,
{
    if i < s.len() && s[i] != c {
        lemma_find_from_bounds(s, i + 1, c);
    }
}

/// The text `uda.taskwarrior-tui.keyconfig.<key><t>`.
pub open spec fn setting_text(key: Seq<char>, t: Seq<char>) -> Seq<char> {
    key_prefix() + key + t
}

/// The part of `t` before its first line break.
pub open spec fn first_line(t: Seq<char>) -> Seq<char> {
    t.subrange(0, find_from(t, 0, '\n'))
}

pub proof fn lemma_find_same_suffix(s1: Seq<char>, s2: Seq<char>, i: int, c: char)
    requires
        s1.len() == s2.len(),
        0 <= i,
        forall|k: int| i <= k < s1.len() ==> s1[k] == s2[k],
    ensures
        find_from(s1, i, c) == find_from(s2, i, c),
    decreases s1.len() - i,
{
    if i < s1.len() {
        lemma_find_same_suffix(s1, s2, i + 1, c);
    }
}

/// Texts that agree from `i` on give each action the same key from `i` on.
pub proof fn lemma_lookup_same_suffix(s1: Seq<char>, s2: Seq<char>, i: int, name: Seq<char>)
    requires
        s1.len() == s2.len(),
        0 <= i,
        forall|k: int| i <= k < s1.len() ==> s1[k] == s2[k],
    ensures
        lookup_from(s1, i, name) == lookup_from(s2, i, name),
    decreases s1.len() - i,
{
    if i <= s1.len() {
        lemma_find_same_suffix(s1, s2, i, '\n');
        lemma_find_from_bounds(s1, i, '\n');
        let e = find_from(s1, i, '\n');
        assert(s1.subrange(i, e) =~= s2.subrange(i, e));
        if e < s1.len() {
            lemma_lookup_same_suffix(s1, s2, e + 1, name);
        }
    }
}

/// In a line `uda.taskwarrior-tui.keyconfig.<key><v>` only `key` is the setting key.
pub proof fn lemma_key_match(key: Seq<char>, v: Seq<char>, n: Seq<char>)
    requires
        no_ws(key),
        no_ws(n),
        v.len() == 0 || is_ws(v[0]),
    ensures
        after_key(setting_text(key, v), key) == Some(v),
        after_key(setting_text(key, v), n) is Some ==> n == key,
{
    let p = key_prefix();
    let line = setting_text(key, v);
    let kl = p.len() + key.len();
    assert(line.subrange(0, kl as int) =~= p + key);
    assert(line.subrange(kl as int, line.len() as int) =~= v);
    if v.len() > 0 {
        assert(line[kl as int] == v[0]);
    }
    if after_key(line, n) is Some {
        let nl = p.len() + n.len();
        assert(line.subrange(0, nl as int) == p + n);
        if n.len() < key.len() {
            assert(line[nl as int] == key[n.len() as int]);
        } else if n.len() > key.len() {
            assert(line[kl as int] == (p + n)[kl as int]);
            assert((p + n)[kl as int] == n[key.len() as int]);
        } else {
            assert forall|k: int| 0 <= k < n.len() implies n[k] == key[k] by {
                assert((p + n)[p.len() + k] == line[p.len() + k]);
            }
            assert(n =~= key);
        }
    }
}

/// A text that begins with a setting for `key` takes its first line from that setting: the
/// line break that ends it is the first in `t`.
pub proof fn lemma_first_line(key: Seq<char>, t: Seq<char>)
    requires
        no_ws(key),
    ensures
        find_from(setting_text(key, t), 0, '\n') == key_prefix().len() + key.len() + find_from(
            t,
            0,
            '\n',
        ),
        setting_text(key, t).subrange(0, find_from(setting_text(key, t), 0, '\n'))
            == setting_text(key, first_line(t)),
{
    reveal_strlit("uda.taskwarrior-tui.keyconfig.");
    let p = key_prefix();
    let d = setting_text(key, t);
    let kl = p.len() + key.len();
    assert(d =~= (p + key) + t);
    assert forall|k: int| 0 <= k < kl implies d[k] != '\n' by {
        if k >= p.len() {
            assert(d[k] == key[k - p.len()]);
        }
    }
    lemma_find_skip(d, 0, kl as int, '\n');
    lemma_find_shift(p + key, t, 0, '\n');
    lemma_find_from_bounds(t, 0, '\n');
    assert(d.subrange(0, find_from(d, 0, '\n')) =~= setting_text(key, first_line(t)));
}

/// Finding in `x + y` past `x` is finding in `y`.
pub proof fn lemma_find_shift(x: Seq<char>, y: Seq<char>, i: int, c: char)
    requires
        0 <= i <= y.len(),
    ensures
        find_from(x + y, x.len() + i, c) == x.len() + find_from(y, i, c),
    decreases y.len() - i,
{
    if i < y.len() {
        assert((x + y)[x.len() + i] == y[i]);
        lemma_find_shift(x, y, i + 1, c);
    }
}

/// Skipping indices that do not hold `c` does not change where `c` is found.
pub proof fn lemma_find_skip(s: Seq<char>, i: int, j: int, c: char)
    requires
        0 <= i <= j <= s.len(),
        forall|k: int| i <= k < j ==> s[k] != c,
    ensures
        find_from(s, i, c) == find_from(s, j, c),
    decreases j - i,
{
    if i < j {
        lemma_find_skip(s, i + 1, j, c);
    }
}

/// A text that begins with a setting for `key` gives `key` the value of its first line.
pub proof fn lemma_leading_setting(key: Seq<char>, t: Seq<char>)
    requires
        no_ws(key),
        no_ws(underscored(key)),
        t.len() == 0 || is_ws(t[0]),
    ensures
        setting(setting_text(key, t), key) == single_value(first_line(t)),
{
    lemma_first_line(key, t);
    lemma_find_from_bounds(t, 0, '\n');
    let v = first_line(t);
    if v.len() > 0 {
        assert(v[0] == t[0]);
    }
    lemma_key_match(key, v, key);
}

/// Respelling hyphens as underscores loses nothing in names without underscores.
pub proof fn lemma_underscored_injective(x: Seq<char>, y: Seq<char>)
    requires
        !x.contains('_'),
        !y.contains('_'),
    ensures
        underscored(x) == underscored(y) ==> x == y,
        underscored(x) == y ==> x == y,
{
    if underscored(x) == underscored(y) {
        assert(x.len() == underscored(x).len());
        assert(y.len() == underscored(y).len());
        assert forall|k: int| 0 <= k < x.len() implies x[k] == y[k] by {
            assert(underscored(x)[k] == underscored(y)[k]);
            assert(y[k] != '_');
            assert(x[k] != '_');
        }
        assert(x =~= y);
    }
    if underscored(x) == y {
        assert(x.len() == underscored(x).len());
        assert forall|k: int| 0 <= k < x.len() implies x[k] == y[k] by {
            assert(underscored(x)[k] == y[k]);
            assert(y[k] != '_');
        }
        assert(x =~= y);
    }
}

pub fn is_ws_char(c: char) -> (r: bool)
    ensures
        r == is_ws(c),
{
    let u = c as u32;
    (0x9 <= u && u <= 0xd) || u == 0x20 || u == 0x85 || u == 0xa0 || u == 0x1680 || (0x2000 <= u
        && u <= 0x200a) || u == 0x2028 || u == 0x2029 || u == 0x202f || u == 0x205f || u == 0x3000
}

pub fn chars_of(s: &str) -> (r: Vec<char>)
    ensures
        r@ == s@,
{
    let n = s.unicode_len();
    let mut r: Vec<char> = Vec::new();
    let mut i: usize = 0;
    while i < n
        invariant
            n == s@.len(),
            i <= n,
            r@ == s@.subrange(0, i as int),
        decreases n - i,
    {
        r.push(s.get_char(i));
        i += 1;
        assert(r@ =~= s@.subrange(0, i as int));
    }
    assert(r@ =~= s@);
    r
}

fn find_char_from(s: &Vec<char>, i: usize, c: char) -> (r: usize)
    requires
        i <= s.len(),
    ensures
        r == find_from(s@, i as int, c),
        i <= r <= s.len(),
{
    let mut k = i;
    while k < s.len()
        invariant
            i <= k <= s.len(),
            find_from(s@, k as int, c) == find_from(s@, i as int, c),
        decreases s.len() - k,
    {
        if s[k] == c {
            return k;
        }
        k += 1;
    }
    k
}

fn has_at_exec(s: &Vec<char>, at: usize, p: &Vec<char>) -> (r: bool)
    ensures
        r == has_at(s@, at as int, p@),
{
    if at > s.len() || p.len() > s.len() - at {
        return false;
    }
    let mut k: usize = 0;
    while k < p.len()
        invariant
            at + p.len() <= s.len(),
            k <= p.len(),
            forall|m: int| 0 <= m < k ==> s@[at + m] == p@[m],
        decreases p.len() - k,
    {
        if s[at + k] != p[k] {
            assert(s@.subrange(at as int, at + p.len())[k as int] != p@[k as int]);
            return false;
        }
        k += 1;
    }
    assert(s@.subrange(at as int, at + p.len()) =~= p@);
    true
}

fn slice_of(s: &Vec<char>, a: usize, b: usize) -> (r: Vec<char>)
    requires
        a <= b <= s.len(),
    ensures
        r@ == s@.subrange(a as int, b as int),
{
    let mut r: Vec<char> = Vec::new();
    let mut i = a;
    while i < b
        invariant
            a <= i <= b <= s.len(),
            r@ == s@.subrange(a as int, i as int),
        decreases b - i,
    {
        r.push(s[i]);
        i += 1;
        assert(r@ =~= s@.subrange(a as int, i as int));
    }
    r
}

fn concat(a: &Vec<char>, b: &Vec<char>) -> (r: Vec<char>)
    ensures
        r@ == a@ + b@,
{
    let mut r = a.clone();
    let mut i: usize = 0;
    while i < b.len()
        invariant
            i <= b.len(),
            r@ == a@ + b@.subrange(0, i as int),
        decreases b.len() - i,
    {
        r.push(b[i]);
        i += 1;
        assert(r@ =~= a@ + b@.subrange(0, i as int));
    }
    assert(b@.subrange(0, b.len() as int) =~= b@);
    r
}

pub fn underscored_exec(name: &Vec<char>) -> (r: Vec<char>)
    ensures
        r@ == underscored(name@),
{
    let mut r: Vec<char> = Vec::new();
    let mut i: usize = 0;
    while i < name.len()
        invariant
            i <= name.len(),
            r@ == underscored(name@.subrange(0, i as int)),
        decreases name.len() - i,
    {
        let c = name[i];
        r.push(if c == '-' { '_' } else { c });
        i += 1;
        assert(r@ =~= underscored(name@.subrange(0, i as int)));
    }
    assert(name@.subrange(0, name.len() as int) =~= name@);
    r
}

fn single_value_exec(v: &Vec<char>) -> (r: Option<char>)
    ensures
        r == single_value(v@),
{
    let mut count: usize = 0;
    let mut first: char = ' ';
    let mut i: usize = 0;
    while i < v.len()
        invariant
            i <= v.len(),
            count == non_ws(v@.subrange(0, i as int)).len(),
            count <= i,
            count > 0 ==> first == non_ws(v@.subrange(0, i as int))[0],
        decreases v.len() - i,
    {
        assert(v@.subrange(0, i + 1).drop_last() =~= v@.subrange(0, i as int));
        if !is_ws_char(v[i]) {
            if count == 0 {
                first = v[i];
            }
            count += 1;
        }
        i += 1;
    }
    assert(v@.subrange(0, v.len() as int) =~= v@);
    if count == 1 {
        Some(first)
    } else {
        None
    }
}

fn after_key_exec(line: &Vec<char>, name: &Vec<char>) -> (r: Option<Vec<char>>)
    ensures
        r is Some <==> after_key(line@, name@) is Some,
        r is Some ==> after_key(line@, name@) == Some(r->0@),
{
    let prefix = chars_of("uda.taskwarrior-tui.keyconfig.");
    let k = concat(&prefix, name);
    if !has_at_exec(line, 0, &k) {
        return None;
    }
    let e = k.len();
    if e < line.len() && !is_ws_char(line[e]) {
        return None;
    }
    Some(slice_of(line, e, line.len()))
}

fn line_setting_exec(line: &Vec<char>, name: &Vec<char>, name_u: &Vec<char>) -> (r: Option<
    Vec<char>,
>)
    requires
        name_u@ == underscored(name@),
    ensures
        r is Some <==> line_setting(line@, name@) is Some,
        r is Some ==> line_setting(line@, name@) == Some(r->0@),
{
    match after_key_exec(line, name) {
        Some(v) => Some(v),
        None => after_key_exec(line, name_u),
    }
}

/// Finds the key that the text `s` assigns to the action spelled `name` (with hyphens) or
/// `name_u` (with underscores).
pub fn setting_of(s: &Vec<char>, name: &Vec<char>, name_u: &Vec<char>) -> (r: Option<char>)
    requires
        name_u@ == underscored(name@),
    ensures
        r == setting(s@, name@),
{
    let mut start: usize = 0;
    loop
        invariant
            start <= s.len(),
            name_u@ == underscored(name@),
            lookup_from(s@, start as int, name@) == setting(s@, name@),
        decreases s.len() - start,
    {
        let e = find_char_from(s, start, '\n');
        let line = slice_of(s, start, e);
        match line_setting_exec(&line, name, name_u) {
            Some(v) => {
                return single_value_exec(&v);
            },
            None => {
                if e < s.len() {
                    start = e + 1;
                } else {
                    return None;
                }
            },
        }
    }
}

} // verus!
