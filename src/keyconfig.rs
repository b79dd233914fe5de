//! Key bindings: the defaults, the overrides read from configuration text, and the rule
//! that no two checked actions share a key.
use vstd::prelude::*;
use crate::settings::{
    chars_of, find_from, first_line, is_ws, key_prefix, lemma_find_from_bounds, lemma_first_line,
    lemma_key_match, lemma_leading_setting, lemma_lookup_same_suffix, lemma_underscored_injective,
    no_ws, non_ws, setting, setting_of, setting_text,
    underscored, underscored_exec,
};

verus! {

/// The actions, in this order, are the slots of a [`KeyConfig`]. The first
/// `CONFIGURABLE` of them can be set from configuration text.
pub const CONFIGURABLE: usize = 25;

/// The slot of the help binding, which is reserved and exempt from the uniqueness rule.
pub const HELP: usize = 25;

/// The number of slots.
pub const ACTIONS: usize = 36;

/// One physical key: a character together with modifier flags (shift 1, control 2, alt 4).
#[derive(Clone, Copy, Debug, PartialEq, Eq, Structural)]
pub struct KeyBinding {
    pub code: char,
    pub modifiers: u8,
}

impl KeyBinding {
    /// The plain key for `c`, with no modifier.
    pub open spec fn of_char(c: char) -> KeyBinding {
        KeyBinding { code: c, modifiers: 0 }
    }

    pub fn from_char(c: char) -> (r: KeyBinding)
        ensures
            r == KeyBinding::of_char(c),
    {
        KeyBinding { code: c, modifiers: 0 }
    }
}

/// Two checked actions (`first < second`) share a key.
#[derive(Clone, Copy, Debug, PartialEq, Eq, Structural)]
pub struct DuplicateBindingError {
    pub first: usize,
    pub second: usize,
}

/// One binding for each action. The slots, in order: the configurable actions from `quit`
/// to `previous_tab`, then `help`, then `shortcut0` to `shortcut9`.
#[derive(Clone, Copy, Debug)]
pub struct KeyConfig {
    pub quit: KeyBinding,
    pub refresh: KeyBinding,
    pub go_to_bottom: KeyBinding,
    pub go_to_top: KeyBinding,
    pub down: KeyBinding,
    pub up: KeyBinding,
    pub page_down: KeyBinding,
    pub page_up: KeyBinding,
    pub delete: KeyBinding,
    pub done: KeyBinding,
    pub start_stop: KeyBinding,
    pub select: KeyBinding,
    pub select_all: KeyBinding,
    pub undo: KeyBinding,
    pub edit: KeyBinding,
    pub modify: KeyBinding,
    pub shell: KeyBinding,
    pub log: KeyBinding,
    pub add: KeyBinding,
    pub annotate: KeyBinding,
    pub filter: KeyBinding,
    pub zoom: KeyBinding,
    pub context_menu: KeyBinding,
    pub next_tab: KeyBinding,
    pub previous_tab: KeyBinding,
    pub help: KeyBinding,
    pub shortcut0: KeyBinding,
    pub shortcut1: KeyBinding,
    pub shortcut2: KeyBinding,
    pub shortcut3: KeyBinding,
    pub shortcut4: KeyBinding,
    pub shortcut5: KeyBinding,
    pub shortcut6: KeyBinding,
    pub shortcut7: KeyBinding,
    pub shortcut8: KeyBinding,
    pub shortcut9: KeyBinding,
}

/// The hyphen-spelled setting name of a configurable action.
pub open spec fn action_name(a: int) -> Seq<char> {
    if a == 0 {
        "quit"@
    } else if a == 1 {
        "refresh"@
    } else if a == 2 {
        "go-to-bottom"@
    } else if a == 3 {
        "go-to-top"@
    } else if a == 4 {
        "down"@
    } else if a == 5 {
        "up"@
    } else if a == 6 {
        "page-down"@
    } else if a == 7 {
        "page-up"@
    } else if a == 8 {
        "delete"@
    } else if a == 9 {
        "done"@
    } else if a == 10 {
        "start-stop"@
    } else if a == 11 {
        "select"@
    } else if a == 12 {
        "select-all"@
    } else if a == 13 {
        "undo"@
    } else if a == 14 {
        "edit"@
    } else if a == 15 {
        "modify"@
    } else if a == 16 {
        "shell"@
    } else if a == 17 {
        "log"@
    } else if a == 18 {
        "add"@
    } else if a == 19 {
        "annotate"@
    } else if a == 20 {
        "filter"@
    } else if a == 21 {
        "zoom"@
    } else if a == 22 {
        "context-menu"@
    } else if a == 23 {
        "next-tab"@
    } else if a == 24 {
        "previous-tab"@
    } else {
        "previous-tab"@
    }
}

/// The compiled-in key of each action.
pub open spec fn default_key(a: int) -> char {
    if a == 0 {
        'q'
    } else if a == 1 {
        'r'
    } else if a == 2 {
        'G'
    } else if a == 3 {
        'g'
    } else if a == 4 {
        'j'
    } else if a == 5 {
        'k'
    } else if a == 6 {
        'J'
    } else if a == 7 {
        'K'
    } else if a == 8 {
        'x'
    } else if a == 9 {
        'd'
    } else if a == 10 {
        's'
    } else if a == 11 {
        'v'
    } else if a == 12 {
        'V'
    } else if a == 13 {
        'u'
    } else if a == 14 {
        'e'
    } else if a == 15 {
        'm'
    } else if a == 16 {
        '!'
    } else if a == 17 {
        'l'
    } else if a == 18 {
        'a'
    } else if a == 19 {
        'A'
    } else if a == 20 {
        '/'
    } else if a == 21 {
        'z'
    } else if a == 22 {
        'c'
    } else if a == 23 {
        ']'
    } else if a == 24 {
        '['
    } else if a == 25 {
        '?'
    } else if a == 26 {
        '0'
    } else if a == 27 {
        '1'
    } else if a == 28 {
        '2'
    } else if a == 29 {
        '3'
    } else if a == 30 {
        '4'
    } else if a == 31 {
        '5'
    } else if a == 32 {
        '6'
    } else if a == 33 {
        '7'
    } else if a == 34 {
        '8'
    } else {
        '9'
    }
}

pub open spec fn default_bindings() -> Seq<KeyBinding> {
    Seq::new(ACTIONS as nat, |a: int| KeyBinding::of_char(default_key(a)))
}

/// Actions `i` and `j` (`i < j`), both subject to the uniqueness rule, share a key in `b`.
pub open spec fn duplicate_at(b: Seq<KeyBinding>, i: int, j: int) -> bool {
    0 <= i < j < b.len() && i != HELP && j != HELP && b[i] == b[j]
}

/// No two actions but the help binding share a key.
pub open spec fn no_duplicates(b: Seq<KeyBinding>) -> bool {
    forall|i: int, j: int| !duplicate_at(b, i, j)
}

/// The bindings `b` with the overrides that the text `data` sets laid over them.
pub open spec fn overlay(b: Seq<KeyBinding>, data: Seq<char>) -> Seq<KeyBinding> {
    Seq::new(
        b.len(),
        |a: int|
            if a < CONFIGURABLE {
                match setting(data, action_name(a)) {
                    Some(c) => KeyBinding::of_char(c),
                    None => b[a],
                }
            } else {
                b[a]
            },
    )
}

fn action_name_str(a: usize) -> (r: &'static str)
    requires
        a < CONFIGURABLE,
    ensures
        r@ == action_name(a as int),
{
        if a == 0 {
            "quit"
        } else if a == 1 {
            "refresh"
        } else if a == 2 {
            "go-to-bottom"
        } else if a == 3 {
            "go-to-top"
        } else if a == 4 {
            "down"
        } else if a == 5 {
            "up"
        } else if a == 6 {
            "page-down"
        } else if a == 7 {
            "page-up"
        } else if a == 8 {
            "delete"
        } else if a == 9 {
            "done"
        } else if a == 10 {
            "start-stop"
        } else if a == 11 {
            "select"
        } else if a == 12 {
            "select-all"
        } else if a == 13 {
            "undo"
        } else if a == 14 {
            "edit"
        } else if a == 15 {
            "modify"
        } else if a == 16 {
            "shell"
        } else if a == 17 {
            "log"
        } else if a == 18 {
            "add"
        } else if a == 19 {
            "annotate"
        } else if a == 20 {
            "filter"
        } else if a == 21 {
            "zoom"
        } else if a == 22 {
            "context-menu"
        } else if a == 23 {
            "next-tab"
        } else {
            "previous-tab"
        }
}

impl View for KeyConfig {
    type V = Seq<KeyBinding>;

    /// The binding of each action, by slot.
    open spec fn view(&self) -> Seq<KeyBinding> {
        Seq::new(ACTIONS as nat, |a: int| self.slot(a))
    }
}

impl KeyConfig {
    pub open spec fn slot(&self, a: int) -> KeyBinding {
        if a == 0 {
            self.quit
        } else if a == 1 {
            self.refresh
        } else if a == 2 {
            self.go_to_bottom
        } else if a == 3 {
            self.go_to_top
        } else if a == 4 {
            self.down
        } else if a == 5 {
            self.up
        } else if a == 6 {
            self.page_down
        } else if a == 7 {
            self.page_up
        } else if a == 8 {
            self.delete
        } else if a == 9 {
            self.done
        } else if a == 10 {
            self.start_stop
        } else if a == 11 {
            self.select
        } else if a == 12 {
            self.select_all
        } else if a == 13 {
            self.undo
        } else if a == 14 {
            self.edit
        } else if a == 15 {
            self.modify
        } else if a == 16 {
            self.shell
        } else if a == 17 {
            self.log
        } else if a == 18 {
            self.add
        } else if a == 19 {
            self.annotate
        } else if a == 20 {
            self.filter
        } else if a == 21 {
            self.zoom
        } else if a == 22 {
            self.context_menu
        } else if a == 23 {
            self.next_tab
        } else if a == 24 {
            self.previous_tab
        } else if a == 25 {
            self.help
        } else if a == 26 {
            self.shortcut0
        } else if a == 27 {
            self.shortcut1
        } else if a == 28 {
            self.shortcut2
        } else if a == 29 {
            self.shortcut3
        } else if a == 30 {
            self.shortcut4
        } else if a == 31 {
            self.shortcut5
        } else if a == 32 {
            self.shortcut6
        } else if a == 33 {
            self.shortcut7
        } else if a == 34 {
            self.shortcut8
        } else {
            self.shortcut9
        }
    }

    /// The binding of the action in slot `a`.
    pub fn binding(&self, a: usize) -> (r: KeyBinding)
        requires
            a < ACTIONS,
        ensures
            r == self@[a as int],
    {
            if a == 0 {
                self.quit
            } else if a == 1 {
                self.refresh
            } else if a == 2 {
                self.go_to_bottom
            } else if a == 3 {
                self.go_to_top
            } else if a == 4 {
                self.down
            } else if a == 5 {
                self.up
            } else if a == 6 {
                self.page_down
            } else if a == 7 {
                self.page_up
            } else if a == 8 {
                self.delete
            } else if a == 9 {
                self.done
            } else if a == 10 {
                self.start_stop
            } else if a == 11 {
                self.select
            } else if a == 12 {
                self.select_all
            } else if a == 13 {
                self.undo
            } else if a == 14 {
                self.edit
            } else if a == 15 {
                self.modify
            } else if a == 16 {
                self.shell
            } else if a == 17 {
                self.log
            } else if a == 18 {
                self.add
            } else if a == 19 {
                self.annotate
            } else if a == 20 {
                self.filter
            } else if a == 21 {
                self.zoom
            } else if a == 22 {
                self.context_menu
            } else if a == 23 {
                self.next_tab
            } else if a == 24 {
                self.previous_tab
            } else if a == 25 {
                self.help
            } else if a == 26 {
                self.shortcut0
            } else if a == 27 {
                self.shortcut1
            } else if a == 28 {
                self.shortcut2
            } else if a == 29 {
                self.shortcut3
            } else if a == 30 {
                self.shortcut4
            } else if a == 31 {
                self.shortcut5
            } else if a == 32 {
                self.shortcut6
            } else if a == 33 {
                self.shortcut7
            } else if a == 34 {
                self.shortcut8
            } else {
                self.shortcut9
            }
    }

    fn set_binding(&mut self, a: usize, b: KeyBinding)
        requires
            a < CONFIGURABLE,
        ensures
            final(self)@ == old(self)@.update(a as int, b),
    {
            if a == 0 {
                self.quit = b;
            } else if a == 1 {
                self.refresh = b;
            } else if a == 2 {
                self.go_to_bottom = b;
            } else if a == 3 {
                self.go_to_top = b;
            } else if a == 4 {
                self.down = b;
            } else if a == 5 {
                self.up = b;
            } else if a == 6 {
                self.page_down = b;
            } else if a == 7 {
                self.page_up = b;
            } else if a == 8 {
                self.delete = b;
            } else if a == 9 {
                self.done = b;
            } else if a == 10 {
                self.start_stop = b;
            } else if a == 11 {
                self.select = b;
            } else if a == 12 {
                self.select_all = b;
            } else if a == 13 {
                self.undo = b;
            } else if a == 14 {
                self.edit = b;
            } else if a == 15 {
                self.modify = b;
            } else if a == 16 {
                self.shell = b;
            } else if a == 17 {
                self.log = b;
            } else if a == 18 {
                self.add = b;
            } else if a == 19 {
                self.annotate = b;
            } else if a == 20 {
                self.filter = b;
            } else if a == 21 {
                self.zoom = b;
            } else if a == 22 {
                self.context_menu = b;
            } else if a == 23 {
                self.next_tab = b;
            } else {
                self.previous_tab = b;
            }
        assert(self@ =~= old(self)@.update(a as int, b));
    }

    /// The bindings `data` gives: the defaults with its overrides laid over them, if no
    /// two checked actions then share a key.
    pub fn new(data: &str) -> (r: Result<KeyConfig, DuplicateBindingError>)
        ensures
            r is Ok <==> no_duplicates(overlay(default_bindings(), data@)),
            r matches Ok(kc) ==> kc@ == overlay(default_bindings(), data@),
            r matches Err(e) ==> duplicate_at(
                overlay(default_bindings(), data@),
                e.first as int,
                e.second as int,
            ),
    {
        let mut kc = KeyConfig::default();
        match kc.update(data) {
            Ok(()) => Ok(kc),
            Err(e) => Err(e),
        }
    }

    /// Lays the overrides that `data` sets over the current bindings, then checks that no
    /// two checked actions share a key.
    pub fn update(&mut self, data: &str) -> (r: Result<(), DuplicateBindingError>)
        ensures
            final(self)@ == overlay(old(self)@, data@),
            r is Ok <==> no_duplicates(final(self)@),
            r matches Err(e) ==> duplicate_at(final(self)@, e.first as int, e.second as int),
    {
        let text = chars_of(data);
        let mut a: usize = 0;
        while a < CONFIGURABLE
            invariant
                a <= CONFIGURABLE,
                text@ == data@,
                forall|i: int| 0 <= i < a ==> self@[i] == overlay(old(self)@, data@)[i],
                forall|i: int| a <= i < ACTIONS ==> self@[i] == old(self)@[i],
            decreases CONFIGURABLE - a,
        {
            let name = chars_of(action_name_str(a));
            let name_u = underscored_exec(&name);
            match setting_of(&text, &name, &name_u) {
                Some(c) => self.set_binding(a, KeyBinding::from_char(c)),
                None => {},
            }
            a += 1;
        }
        assert(self@ =~= overlay(old(self)@, data@));
        self.check()
    }

    /// Succeeds when no two actions but the help binding share a key; otherwise names
    /// two that do.
    pub fn check(&self) -> (r: Result<(), DuplicateBindingError>)
        ensures
            r is Ok <==> no_duplicates(self@),
            r matches Err(e) ==> duplicate_at(self@, e.first as int, e.second as int),
    {
        let mut i: usize = 0;
        while i < ACTIONS
            invariant
                i <= ACTIONS,
                forall|x: int, y: int| x < i ==> !duplicate_at(self@, x, y),
            decreases ACTIONS - i,
        {
            if i != HELP {
                let bi = self.binding(i);
                let mut j: usize = i + 1;
                while j < ACTIONS
                    invariant
                        i < ACTIONS,
                        i != HELP,
                        bi == self@[i as int],
                        i < j <= ACTIONS,
                        forall|y: int| y < j ==> !duplicate_at(self@, i as int, y),
                        forall|x: int, y: int| x < i ==> !duplicate_at(self@, x, y),
                    decreases ACTIONS - j,
                {
                    if j != HELP && self.binding(j) == bi {
                        assert(duplicate_at(self@, i as int, j as int));
                        return Err(DuplicateBindingError { first: i, second: j });
                    }
                    j += 1;
                }
            }
            i += 1;
        }
        Ok(())
    }
}

impl Default for KeyConfig {
    /// The compiled-in bindings.
    fn default() -> (r: KeyConfig)
        ensures
            r@ == default_bindings(),
    {
        let r = KeyConfig {
            quit: KeyBinding::from_char('q'),
            refresh: KeyBinding::from_char('r'),
            go_to_bottom: KeyBinding::from_char('G'),
            go_to_top: KeyBinding::from_char('g'),
            down: KeyBinding::from_char('j'),
            up: KeyBinding::from_char('k'),
            page_down: KeyBinding::from_char('J'),
            page_up: KeyBinding::from_char('K'),
            delete: KeyBinding::from_char('x'),
            done: KeyBinding::from_char('d'),
            start_stop: KeyBinding::from_char('s'),
            select: KeyBinding::from_char('v'),
            select_all: KeyBinding::from_char('V'),
            undo: KeyBinding::from_char('u'),
            edit: KeyBinding::from_char('e'),
            modify: KeyBinding::from_char('m'),
            shell: KeyBinding::from_char('!'),
            log: KeyBinding::from_char('l'),
            add: KeyBinding::from_char('a'),
            annotate: KeyBinding::from_char('A'),
            filter: KeyBinding::from_char('/'),
            zoom: KeyBinding::from_char('z'),
            context_menu: KeyBinding::from_char('c'),
            next_tab: KeyBinding::from_char(']'),
            previous_tab: KeyBinding::from_char('['),
            help: KeyBinding::from_char('?'),
            shortcut0: KeyBinding::from_char('0'),
            shortcut1: KeyBinding::from_char('1'),
            shortcut2: KeyBinding::from_char('2'),
            shortcut3: KeyBinding::from_char('3'),
            shortcut4: KeyBinding::from_char('4'),
            shortcut5: KeyBinding::from_char('5'),
            shortcut6: KeyBinding::from_char('6'),
            shortcut7: KeyBinding::from_char('7'),
            shortcut8: KeyBinding::from_char('8'),
            shortcut9: KeyBinding::from_char('9'),
        };
        assert(r@ =~= default_bindings());
        r
    }
}

/// Action names are distinct and hold neither whitespace nor an underscore.
proof fn lemma_action_names(a: int)
    requires
        0 <= a < CONFIGURABLE,
    ensures
        no_ws(action_name(a)),
        no_ws(underscored(action_name(a))),
        !action_name(a).contains('_'),
        forall|x: int| 0 <= x < CONFIGURABLE && x != a ==> action_name(x) != action_name(a),
{
    reveal_strlit("quit");
    reveal_strlit("refresh");
    reveal_strlit("go-to-bottom");
    reveal_strlit("go-to-top");
    reveal_strlit("down");
    reveal_strlit("up");
    reveal_strlit("page-down");
    reveal_strlit("page-up");
    reveal_strlit("delete");
    reveal_strlit("done");
    reveal_strlit("start-stop");
    reveal_strlit("select");
    reveal_strlit("select-all");
    reveal_strlit("undo");
    reveal_strlit("edit");
    reveal_strlit("modify");
    reveal_strlit("shell");
    reveal_strlit("log");
    reveal_strlit("add");
    reveal_strlit("annotate");
    reveal_strlit("filter");
    reveal_strlit("zoom");
    reveal_strlit("context-menu");
    reveal_strlit("next-tab");
    reveal_strlit("previous-tab");
    assert(no_ws(action_name(a)));
    assert(!action_name(a).contains('_'));
    assert forall|k: int| 0 <= k < underscored(action_name(a)).len() implies !is_ws(
        #[trigger] underscored(action_name(a))[k],
    ) by {
        assert(!is_ws(action_name(a)[k]));
    }
    assert forall|x: int| 0 <= x < CONFIGURABLE && x != a implies action_name(x) != action_name(
        a,
    ) by {
        if action_name(x) == action_name(a) {
            let (nx, na) = (action_name(x), action_name(a));
            assert(nx.len() == na.len() && nx[0] == na[0] && nx[nx.len() - 1] == na[na.len() - 1]);
        }
    }
}

/// The compiled-in bindings give no two checked actions the same key.
pub proof fn law_defaults_distinct()
    ensures
        no_duplicates(default_bindings()),
{
    assert forall|i: int, j: int| !duplicate_at(default_bindings(), i, j) by {
        if 0 <= i < j < ACTIONS {
            assert(default_bindings()[i] == KeyBinding::of_char(default_key(i)));
            assert(default_bindings()[j] == KeyBinding::of_char(default_key(j)));
        }
    }
}

/// A text whose first line sets a configurable action to a one-character value replaces
/// the action's binding with that key; a value that is empty or longer leaves the binding as
/// it was.
pub proof fn law_override_line(b: Seq<KeyBinding>, a: int, t: Seq<char>)
    requires
        b.len() == ACTIONS,
        0 <= a < CONFIGURABLE,
        t.len() == 0 || is_ws(t[0]),
    ensures
        non_ws(first_line(t)).len() == 1 ==> overlay(b, setting_text(action_name(a), t))[a]
            == KeyBinding::of_char(non_ws(first_line(t))[0]),
        non_ws(first_line(t)).len() != 1 ==> overlay(b, setting_text(action_name(a), t))[a]
            == b[a],
{
    lemma_action_names(a);
    lemma_leading_setting(action_name(a), t);
}

/// Spelling an action's setting key with hyphens or with underscores gives the same
/// bindings.
pub proof fn law_spellings_agree(b: Seq<KeyBinding>, a: int, t: Seq<char>)
    requires
        b.len() == ACTIONS,
        0 <= a < CONFIGURABLE,
        t.len() == 0 || is_ws(t[0]),
    ensures
        overlay(b, setting_text(action_name(a), t)) == overlay(
            b,
            setting_text(underscored(action_name(a)), t),
        ),
{
    let n = action_name(a);
    let nu = underscored(n);
    lemma_action_names(a);
    let dh = setting_text(n, t);
    let du = setting_text(nu, t);
    let kl = key_prefix().len() + n.len();
    lemma_first_line(n, t);
    lemma_first_line(nu, t);
    lemma_find_from_bounds(t, 0, '\n');
    lemma_find_from_bounds(dh, 0, '\n');
    lemma_find_from_bounds(du, 0, '\n');
    let e = find_from(dh, 0, '\n');
    let v = first_line(t);
    if v.len() > 0 {
        assert(v[0] == t[0]);
    }
    assert forall|k: int| e + 1 <= k < dh.len() implies dh[k] == du[k] by {
        assert(dh[k] == t[k - kl]);
        assert(du[k] == t[k - kl]);
    }
    assert forall|x: int| 0 <= x < CONFIGURABLE implies setting(dh, action_name(x)) == setting(
        du,
        action_name(x),
    ) by {
        lemma_action_names(x);
        let m = action_name(x);
        let mu = underscored(m);
        lemma_key_match(n, v, m);
        lemma_key_match(n, v, mu);
        lemma_key_match(nu, v, m);
        lemma_key_match(nu, v, mu);
        lemma_underscored_injective(m, n);
        lemma_underscored_injective(n, m);
        if e < dh.len() {
            lemma_lookup_same_suffix(dh, du, e + 1, m);
        }
    }
    assert(overlay(b, dh) =~= overlay(b, du));
}

/// An override that gives a configurable action the key that another checked action keeps
/// breaks the uniqueness rule, so `update` fails.
pub proof fn law_colliding_override(
    b: Seq<KeyBinding>,
    data: Seq<char>,
    a: int,
    other: int,
    c: char,
)
    requires
        b.len() == ACTIONS,
        0 <= a < CONFIGURABLE,
        0 <= other < ACTIONS,
        other != a,
        other != HELP,
        setting(data, action_name(a)) == Some(c),
        other >= CONFIGURABLE || setting(data, action_name(other)) is None,
        b[other] == KeyBinding::of_char(c),
    ensures
        !no_duplicates(overlay(b, data)),
{
    let o = overlay(b, data);
    if a < other {
        assert(duplicate_at(o, a, other));
    } else {
        assert(duplicate_at(o, other, a));
    }
}

} // verus!
