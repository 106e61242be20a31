//! Placeholder substitution: `{name}` in a template is replaced by the value
//! bound to `name`, and placeholders without a binding are kept verbatim.
use vstd::prelude::*;

verus! {

pub open spec fn is_brace(c: char) -> bool {
    c == '{' || c == '}'
}

/// Length of the longest prefix of `s` that holds no brace.
pub open spec fn name_len(s: Seq<char>) -> nat
    decreases s.len(),
{
    if s.len() == 0 || is_brace(s[0]) {
        0
    } else {
        1 + name_len(s.drop_first())
    }
}

/// The characters of `s` from position `i` on.
pub open spec fn suffix(s: Seq<char>, i: int) -> Seq<char> {
    s.subrange(i, s.len() as int)
}

/// `t` starts with a placeholder: `{`, a brace-free name, `}`.
pub open spec fn starts_with_placeholder(t: Seq<char>) -> bool {
    t.len() > 0 && t[0] == '{' && name_len(t.drop_first()) + 1 < t.len() && t[(name_len(
        t.drop_first(),
    ) + 1) as int] == '}'
}

/// The name of the placeholder that `t` starts with.
pub open spec fn leading_name(t: Seq<char>) -> Seq<char> {
    t.subrange(1, name_len(t.drop_first()) + 1int)
}

/// The template `t` with every placeholder whose name `vars` binds replaced by
/// its value, read from left to right; a substituted value is not read again.
pub open spec fn render_text(vars: Map<Seq<char>, Seq<char>>, t: Seq<char>) -> Seq<char>
    decreases t.len(),
{
    if t.len() == 0 {
        Seq::empty()
    } else if starts_with_placeholder(t) && vars.contains_key(leading_name(t)) {
        vars[leading_name(t)] + render_text(vars, suffix(t, name_len(t.drop_first()) + 2int))
    } else {
        seq![t[0]] + render_text(vars, t.drop_first())
    }
}

/// `t[i..=j]` is a placeholder: braces at both ends and none between.
pub open spec fn is_placeholder(t: Seq<char>, i: int, j: int) -> bool {
    &&& 0 <= i < j < t.len()
    &&& t[i] == '{'
    &&& t[j] == '}'
    &&& forall|k: int| i < k < j ==> !is_brace(#[trigger] t[k])
}

/// No placeholder of `t` names a variable that `vars` binds.
pub open spec fn no_known_placeholder(vars: Map<Seq<char>, Seq<char>>, t: Seq<char>) -> bool {
    forall|i: int, j: int|
        #[trigger] is_placeholder(t, i, j) ==> !vars.contains_key(t.subrange(i + 1, j))
}

/// `s` holds no brace.
pub open spec fn brace_free(s: Seq<char>) -> bool {
    forall|k: int| 0 <= k < s.len() ==> !is_brace(#[trigger] s[k])
}

/// The placeholder `{name}`.
pub open spec fn placeholder(name: Seq<char>) -> Seq<char> {
    seq!['{'] + name + seq!['}']
}

pub proof fn lemma_name_len_exact(s: Seq<char>, m: int)
    requires
        0 <= m <= s.len(),
        forall|k: int| 0 <= k < m ==> !is_brace(#[trigger] s[k]),
        m == s.len() || is_brace(s[m]),
    ensures
        name_len(s) == m,
    decreases m,
{
    if m > 0 {
        let d = s.drop_first();
        assert forall|k: int| 0 <= k < m - 1 implies !is_brace(#[trigger] d[k]) by {
            assert(d[k] == s[k + 1]);
        }
        if m < s.len() {
            assert(d[m - 1] == s[m]);
        }
        lemma_name_len_exact(d, m - 1);
    }
}

/// The name after the brace at `i` runs up to the next brace, at `j`, or to
/// the end.
proof fn lemma_name_len_at(t: Seq<char>, i: int, j: int)
    requires
        0 <= i < j <= t.len(),
        forall|k: int| i < k < j ==> !is_brace(#[trigger] t[k]),
        j == t.len() || is_brace(t[j]),
    ensures
        name_len(suffix(t, i + 1)) == j - i - 1,
{
    let d = suffix(t, i + 1);
    assert forall|k: int| 0 <= k < j - i - 1 implies !is_brace(#[trigger] d[k]) by {
        assert(d[k] == t[i + 1 + k]);
    }
    if j < t.len() {
        assert(d[j - i - 1] == t[j]);
    }
    lemma_name_len_exact(d, j - i - 1);
}

pub proof fn lemma_name_len_bounds(s: Seq<char>)
    ensures
        name_len(s) <= s.len(),
        forall|k: int| 0 <= k < name_len(s) ==> !is_brace(#[trigger] s[k]),
        name_len(s) < s.len() ==> is_brace(s[name_len(s) as int]),
    decreases s.len(),
{
    if s.len() > 0 && !is_brace(s[0]) {
        let d = s.drop_first();
        lemma_name_len_bounds(d);
        assert forall|k: int| 0 <= k < name_len(s) implies !is_brace(#[trigger] s[k]) by {
            if k > 0 {
                assert(s[k] == d[k - 1]);
            }
        }
        if name_len(s) < s.len() {
            assert(s[name_len(s) as int] == d[name_len(d) as int]);
        }
    }
}

/// The bindings that `entries` holds, later entries over earlier ones.
pub open spec fn entries_map(entries: Seq<(String, String)>) -> Map<Seq<char>, Seq<char>>
    decreases entries.len(),
{
    if entries.len() == 0 {
        Map::empty()
    } else {
        let last = entries.last();
        entries_map(entries.drop_last()).insert(last.0@, last.1@)
    }
}

pub open spec fn keys_unique(entries: Seq<(String, String)>) -> bool {
    forall|i: int, j: int|
        0 <= i < j < entries.len() ==> (#[trigger] entries[i]).0@ != (#[trigger] entries[j]).0@
}

proof fn lemma_entries_map_index(entries: Seq<(String, String)>, i: int)
    requires
        keys_unique(entries),
        0 <= i < entries.len(),
    ensures
        entries_map(entries).contains_key(entries[i].0@),
        entries_map(entries)[entries[i].0@] == entries[i].1@,
    decreases entries.len(),
{
    if i < entries.len() - 1 {
        let d = entries.drop_last();
        assert(d[i] == entries[i]);
        assert(keys_unique(d));
        assert(entries[i].0@ != entries[entries.len() - 1].0@);
        lemma_entries_map_index(d, i);
    }
}

proof fn lemma_entries_map_absent(entries: Seq<(String, String)>, k: Seq<char>)
    requires
        forall|i: int| 0 <= i < entries.len() ==> (#[trigger] entries[i]).0@ != k,
    ensures
        !entries_map(entries).contains_key(k),
    decreases entries.len(),
{
    if entries.len() > 0 {
        let d = entries.drop_last();
        assert forall|i: int| 0 <= i < d.len() implies (#[trigger] d[i]).0@ != k by {
            assert(d[i] == entries[i]);
        }
        assert(entries[entries.len() - 1].0@ != k);
        lemma_entries_map_absent(d, k);
    }
}

proof fn lemma_entries_map_update(entries: Seq<(String, String)>, i: int, e: (String, String))
    requires
        keys_unique(entries),
        0 <= i < entries.len(),
        e.0@ == entries[i].0@,
    ensures
        entries_map(entries.update(i, e)) == entries_map(entries).insert(e.0@, e.1@),
    decreases entries.len(),
{
    let u = entries.update(i, e);
    let d = entries.drop_last();
    if i == entries.len() - 1 {
        assert(u.drop_last() =~= d);
        assert(entries_map(u) =~= entries_map(entries).insert(e.0@, e.1@));
    } else {
        assert(u.drop_last() =~= d.update(i, e));
        assert(keys_unique(d));
        assert(d[i] == entries[i]);
        lemma_entries_map_update(d, i, e);
        let last = entries.last();
        assert(last.0@ != e.0@);
        assert(u.last() == last);
        assert(entries_map(u) =~= entries_map(entries).insert(e.0@, e.1@));
    }
}

/// Substitution variables: each name bound at most once, the latest value kept.
pub struct Variables {
    entries: Vec<(String, String)>,
}

impl View for Variables {
    type V = Map<Seq<char>, Seq<char>>;

    closed spec fn view(&self) -> Map<Seq<char>, Seq<char>> {
        entries_map(self.entries@)
    }
}

impl Variables {
    pub closed spec fn well_formed(&self) -> bool {
        keys_unique(self.entries@)
    }

    pub fn new() -> (r: Variables)
        ensures
            r.well_formed(),
            r@ == Map::<Seq<char>, Seq<char>>::empty(),
    {
        Variables { entries: Vec::new() }
    }

    fn position(&self, name: &str) -> (r: Option<usize>)
        requires
            self.well_formed(),
        ensures
            match r {
                Some(i) => i < self.entries@.len() && self.entries@[i as int].0@ == name@,
                None => forall|i: int|
                    0 <= i < self.entries@.len() ==> (#[trigger] self.entries@[i]).0@ != name@,
            },
    {
        let key = String::from_str(name);
        let mut i: usize = 0;
        while i < self.entries.len()
            invariant
                i <= self.entries@.len(),
                key@ == name@,
                forall|k: int| 0 <= k < i ==> (#[trigger] self.entries@[k]).0@ != name@,
            decreases self.entries@.len() - i,
        {
            if self.entries[i].0 == key {
                return Some(i);
            }
            i = i + 1;
        }
        None
    }

    /// The value bound to `name`, if any.
    pub fn lookup(&self, name: &str) -> (r: Option<&String>)
        requires
            self.well_formed(),
        ensures
            match r {
                Some(v) => self@.contains_key(name@) && self@[name@] == v@,
                None => !self@.contains_key(name@),
            },
    {
        match self.position(name) {
            Some(i) => {
                proof {
                    lemma_entries_map_index(self.entries@, i as int);
                }
                Some(&self.entries[i].1)
            },
            None => {
                proof {
                    lemma_entries_map_absent(self.entries@, name@);
                }
                None
            },
        }
    }

    /// `t` with every placeholder whose name is bound replaced by its value;
    /// placeholders of unbound names are kept verbatim.
    pub fn render(&self, t: &str) -> (r: String)
        requires
            self.well_formed(),
        ensures
            r@ == render_text(self@, t@),
    {
        let n = t.unicode_len();
        let mut out = String::new();
        let mut i: usize = 0;
        proof {
            assert(suffix(t@, 0) =~= t@);
            assert(out@ + t@ =~= t@);
        }
        while i < n
            invariant
                self.well_formed(),
                n == t@.len(),
                i <= n,
                out@ + render_text(self@, suffix(t@, i as int)) == render_text(self@, t@),
            decreases n - i,
        {
            let ghost rest = suffix(t@, i as int);
            proof {
                assert(rest.drop_first() =~= suffix(t@, i + 1));
            }
            let c = t.get_char(i);
            let mut j: usize = i + 1;
            while j < n && c == '{' && t.get_char(j) != '{' && t.get_char(j) != '}'
                invariant
                    i < j <= n,
                    n == t@.len(),
                    c == t@[i as int],
                    forall|k: int| i < k < j ==> !is_brace(#[trigger] t@[k]),
                decreases n - j,
            {
                j = j + 1;
            }
            let mut done = false;
            if c == '{' && j < n && t.get_char(j) == '}' {
                proof {
                    lemma_name_len_at(t@, i as int, j as int);
                    assert(leading_name(rest) =~= t@.subrange(i + 1, j as int));
                    assert(suffix(rest, j - i + 1) =~= suffix(t@, j + 1));
                }
                let name = t.substring_char(i + 1, j);
                match self.lookup(name) {
                    Some(v) => {
                        out.append(v.as_str());
                        i = j + 1;
                        done = true;
                        proof {
                            assert(out@ + render_text(self@, suffix(t@, i as int)) =~= render_text(self@, t@));
                        }
                    },
                    None => {},
                }
            }
            if !done {
                proof {
                    if c == '{' {
                        lemma_name_len_at(t@, i as int, j as int);
                    }
                }
                out.append(t.substring_char(i, i + 1));
                i = i + 1;
                proof {
                    assert(out@ + render_text(self@, suffix(t@, i as int)) =~= render_text(self@, t@));
                }
            }
        }
        proof {
            assert(suffix(t@, i as int) =~= Seq::<char>::empty());
        }
        out
    }

    /// Binds `key` to `value`, replacing an earlier binding of `key`.
    pub fn set(&mut self, key: String, value: String)
        requires
            old(self).well_formed(),
        ensures
            final(self).well_formed(),
            final(self)@ == old(self)@.insert(key@, value@),
    {
        match self.position(key.as_str()) {
            Some(i) => {
                proof {
                    lemma_entries_map_update(self.entries@, i as int, (key, value));
                }
                self.entries.set(i, (key, value));
            },
            None => {
                self.entries.push((key, value));
                proof {
                    assert(self.entries@.drop_last() =~= old(self).entries@);
                }
            },
        }
    }
}

} // verus!
