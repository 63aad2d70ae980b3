//! The filter codec: a comparison operator with its operand(s), written as the
//! single wire string that the API reads after `filter[<field>]=`.
//!
//! | operator         | wire string  |
//! |------------------|--------------|
//! | equals           | `v`          |
//! | not-equals       | `!v`         |
//! | in-set           | `a,b,c`      |
//! | not-in-set       | `!a,b,c`     |
//! | range            | `min..max`   |
//! | greater-than     | `>v`         |
//! | greater-or-equal | `>=v`        |
//! | less-than        | `<v`         |
//! | less-or-equal    | `<=v`        |
use crate::text::{joined, owned};
use vstd::prelude::*;

verus! {

/// A filter as the API reads it: an operator with its operand(s).
pub enum FilterSpec {
    /// Exact match.
    Eq(Seq<char>),
    /// Anything but the value.
    Not(Seq<char>),
    /// Any of the values.
    In(Seq<Seq<char>>),
    /// None of the values.
    NotIn(Seq<Seq<char>>),
    /// Between two bounds.
    Range(Seq<char>, Seq<char>),
    /// Greater than.
    Gt(Seq<char>),
    /// Greater than or equal.
    Gte(Seq<char>),
    /// Less than.
    Lt(Seq<char>),
    /// Less than or equal.
    Lte(Seq<char>),
}

/// A filter operator with its operand(s).
#[derive(Debug)]
pub enum Filter {
    /// Exact match.
    Eq(String),
    /// Anything but the value.
    Not(String),
    /// Any of the values.
    In(Vec<String>),
    /// None of the values.
    NotIn(Vec<String>),
    /// Between a lower and an upper bound.
    Range(String, String),
    /// Greater than.
    Gt(String),
    /// Greater than or equal.
    Gte(String),
    /// Less than.
    Lt(String),
    /// Less than or equal.
    Lte(String),
}

/// The character sequences of a list of strings.
pub open spec fn texts(vs: Seq<String>) -> Seq<Seq<char>> {
    vs.map_values(|s: String| s@)
}

impl View for Filter {
    type V = FilterSpec;

    open spec fn view(&self) -> FilterSpec {
        match self {
            Filter::Eq(v) => FilterSpec::Eq(v@),
            Filter::Not(v) => FilterSpec::Not(v@),
            Filter::In(vs) => FilterSpec::In(texts(vs@)),
            Filter::NotIn(vs) => FilterSpec::NotIn(texts(vs@)),
            Filter::Range(a, b) => FilterSpec::Range(a@, b@),
            Filter::Gt(v) => FilterSpec::Gt(v@),
            Filter::Gte(v) => FilterSpec::Gte(v@),
            Filter::Lt(v) => FilterSpec::Lt(v@),
            Filter::Lte(v) => FilterSpec::Lte(v@),
        }
    }
}

/// The values joined by commas.
pub open spec fn comma_join(vs: Seq<Seq<char>>) -> Seq<char>
    decreases vs.len(),
{
    if vs.len() == 0 {
        Seq::empty()
    } else if vs.len() == 1 {
        vs[0]
    } else {
        comma_join(vs.drop_last()) + seq![','] + vs.last()
    }
}

/// The pieces of `s` between commas, read one character at a time: a comma
/// opens a new, empty piece; any other character extends the last piece.
pub open spec fn comma_split(s: Seq<char>) -> Seq<Seq<char>>
    decreases s.len(),
{
    if s.len() == 0 {
        seq![Seq::<char>::empty()]
    } else if s.last() == ',' {
        comma_split(s.drop_last()).push(Seq::empty())
    } else {
        let p = comma_split(s.drop_last());
        p.update(p.len() - 1, p.last().push(s.last()))
    }
}

/// The first position, from `i` on, at which `s` holds two dots in a row; -1 if none.
pub open spec fn find_dots(s: Seq<char>, i: int) -> int
    decreases s.len() - i,
{
    if i < 0 || i + 1 >= s.len() {
        -1
    } else if s[i] == '.' && s[i + 1] == '.' {
        i
    } else {
        find_dots(s, i + 1)
    }
}

/// `s` holds no two dots in a row.
pub open spec fn no_double_dot(s: Seq<char>) -> bool {
    forall|i: int| 0 <= i < s.len() - 1 ==> !(#[trigger] s[i] == '.' && s[i + 1] == '.')
}

/// `s` begins with a character that the wire format reads as an operator.
pub open spec fn starts_with_operator(s: Seq<char>) -> bool {
    s.len() > 0 && (s[0] == '!' || s[0] == '<' || s[0] == '>')
}

/// `s` begins with `=`.
pub open spec fn starts_with_equals(s: Seq<char>) -> bool {
    s.len() > 0 && s[0] == '='
}

/// No value of the list holds a comma.
pub open spec fn no_commas(vs: Seq<Seq<char>>) -> bool {
    forall|i: int| 0 <= i < vs.len() ==> !(#[trigger] vs[i]).contains(',')
}

/// The wire string of a filter.
pub open spec fn encode(f: FilterSpec) -> Seq<char> {
    match f {
        FilterSpec::Eq(v) => v,
        FilterSpec::Not(v) => seq!['!'] + v,
        FilterSpec::In(vs) => comma_join(vs),
        FilterSpec::NotIn(vs) => seq!['!'] + comma_join(vs),
        FilterSpec::Range(a, b) => a + seq!['.', '.'] + b,
        FilterSpec::Gt(v) => seq!['>'] + v,
        FilterSpec::Gte(v) => seq!['>', '='] + v,
        FilterSpec::Lt(v) => seq!['<'] + v,
        FilterSpec::Lte(v) => seq!['<', '='] + v,
    }
}

/// The filter that a wire string reads as. Operator prefixes are tried
/// longest first; then a comma makes a set, two dots a range, and anything
/// else is an exact match.
pub open spec fn decode(s: Seq<char>) -> FilterSpec {
    if s.len() >= 2 && s[0] == '>' && s[1] == '=' {
        FilterSpec::Gte(s.subrange(2, s.len() as int))
    } else if s.len() >= 1 && s[0] == '>' {
        FilterSpec::Gt(s.subrange(1, s.len() as int))
    } else if s.len() >= 2 && s[0] == '<' && s[1] == '=' {
        FilterSpec::Lte(s.subrange(2, s.len() as int))
    } else if s.len() >= 1 && s[0] == '<' {
        FilterSpec::Lt(s.subrange(1, s.len() as int))
    } else if s.len() >= 1 && s[0] == '!' {
        let rest = s.subrange(1, s.len() as int);
        if rest.contains(',') {
            FilterSpec::NotIn(comma_split(rest))
        } else {
            FilterSpec::Not(rest)
        }
    } else if s.contains(',') {
        FilterSpec::In(comma_split(s))
    } else if find_dots(s, 0) >= 0 {
        let k = find_dots(s, 0);
        FilterSpec::Range(s.subrange(0, k), s.subrange(k + 2, s.len() as int))
    } else {
        FilterSpec::Eq(s)
    }
}

/// The filter's wire string reads back as the same filter: its operands
/// hold nothing that the wire format would read as an operator or a
/// separator, and a set has at least two values (a one-value set is written
/// as an exact match is).
pub open spec fn unambiguous(f: FilterSpec) -> bool {
    match f {
        FilterSpec::Eq(v) => !v.contains(',') && no_double_dot(v) && !starts_with_operator(v),
        FilterSpec::Not(v) => !v.contains(','),
        FilterSpec::In(vs) => vs.len() >= 2 && no_commas(vs) && !starts_with_operator(vs[0]),
        FilterSpec::NotIn(vs) => vs.len() >= 2 && no_commas(vs),
        FilterSpec::Range(a, b) => !a.contains(',') && !b.contains(',') && no_double_dot(a) && !(
        a.len() > 0 && a.last() == '.') && !starts_with_operator(a),
        FilterSpec::Gt(v) => !starts_with_equals(v),
        FilterSpec::Gte(v) => true,
        FilterSpec::Lt(v) => !starts_with_equals(v),
        FilterSpec::Lte(v) => true,
    }
}

proof fn lemma_comma_split_nonempty(s: Seq<char>)
    ensures
        comma_split(s).len() >= 1,
    decreases s.len(),
{
    if s.len() > 0 {
        lemma_comma_split_nonempty(s.drop_last());
    }
}

/// Appending text without commas extends the last piece.
proof fn lemma_comma_split_extend(p: Seq<char>, q: Seq<char>)
    requires
        !q.contains(','),
    ensures
        comma_split(p + q) == comma_split(p).update(
            comma_split(p).len() - 1,
            comma_split(p).last() + q,
        ),
    decreases q.len(),
{
    lemma_comma_split_nonempty(p);
    if q.len() == 0 {
        assert(p + q =~= p);
        assert(comma_split(p).last() + q =~= comma_split(p).last());
        assert(comma_split(p).update(comma_split(p).len() - 1, comma_split(p).last())
            =~= comma_split(p));
    } else {
        let q0 = q.drop_last();
        assert(!q0.contains(',')) by {
            if q0.contains(',') {
                let i = choose|i: int| 0 <= i < q0.len() && q0[i] == ',';
                assert(q[i] == ',');
            }
        }
        lemma_comma_split_extend(p, q0);
        assert((p + q).drop_last() =~= p + q0);
        assert((p + q).last() == q.last());
        assert(q.last() != ',') by {
            assert(q[q.len() - 1] == q.last());
        }
        lemma_comma_split_nonempty(p + q0);
        let sp = comma_split(p);
        assert(comma_split(p + q) =~= sp.update(sp.len() - 1, sp.last() + q)) by {
            assert(sp.last() + q0 + seq![q.last()] =~= sp.last() + q);
            assert(q0.push(q.last()) =~= q);
        }
    }
}

/// Splitting values joined by commas gives the values back.
proof fn lemma_split_join(vs: Seq<Seq<char>>)
    requires
        vs.len() >= 1,
        no_commas(vs),
    ensures
        comma_split(comma_join(vs)) == vs,
    decreases vs.len(),
{
    if vs.len() == 1 {
        lemma_comma_split_extend(Seq::empty(), vs[0]);
        assert(Seq::<char>::empty() + vs[0] =~= vs[0]);
        assert(comma_split(Seq::<char>::empty()) == seq![Seq::<char>::empty()]);
        assert(comma_split(vs[0]) =~= vs);
    } else {
        let pre = vs.drop_last();
        assert(no_commas(pre)) by {
            assert forall|i: int| 0 <= i < pre.len() implies !(#[trigger] pre[i]).contains(',') by {
                assert(pre[i] == vs[i]);
            }
        }
        lemma_split_join(pre);
        let j = comma_join(pre);
        let jc = j + seq![','];
        assert(jc.drop_last() =~= j);
        assert(comma_split(jc) == comma_split(j).push(Seq::empty()));
        assert(!vs.last().contains(',')) by {
            assert(vs[vs.len() - 1] == vs.last());
        }
        lemma_comma_split_extend(jc, vs.last());
        assert(comma_join(vs) == jc + vs.last());
        assert(Seq::<char>::empty() + vs.last() =~= vs.last());
        assert(comma_split(comma_join(vs)) =~= vs);
    }
}

/// Joined values hold a comma when there are at least two of them.
proof fn lemma_join_has_comma(vs: Seq<Seq<char>>)
    requires
        vs.len() >= 2,
    ensures
        comma_join(vs).contains(','),
{
    let j = comma_join(vs.drop_last());
    assert((j + seq![','] + vs.last())[j.len() as int] == ',');
}

/// Text without two dots in a row has none from any position on.
proof fn lemma_find_dots_none(s: Seq<char>, i: int)
    requires
        no_double_dot(s),
        0 <= i,
    ensures
        find_dots(s, i) == -1,
    decreases s.len() - i,
{
    if i + 1 < s.len() {
        assert(!(s[i] == '.' && s[i + 1] == '.'));
        lemma_find_dots_none(s, i + 1);
    }
}

/// In `a..b`, the first two dots in a row are the separator.
proof fn lemma_find_dots_range(a: Seq<char>, b: Seq<char>, i: int)
    requires
        no_double_dot(a),
        !(a.len() > 0 && a.last() == '.'),
        0 <= i <= a.len(),
    ensures
        find_dots(a + seq!['.', '.'] + b, i) == a.len(),
    decreases a.len() - i,
{
    let s = a + seq!['.', '.'] + b;
    if i < a.len() {
        if i + 1 < a.len() {
            assert(!(a[i] == '.' && a[i + 1] == '.'));
        } else {
            assert(a[i] == a.last());
        }
        assert(!(s[i] == '.' && s[i + 1] == '.'));
        lemma_find_dots_range(a, b, i + 1);
    } else {
        assert(s[i] == '.' && s[i + 1] == '.');
    }
}

/// Reading a filter's wire string gives back the filter, whenever the
/// filter's wire string is unambiguous.
pub proof fn lemma_filter_round_trip(f: FilterSpec)
    requires
        unambiguous(f),
    ensures
        decode(encode(f)) == f,
{
    let s = encode(f);
    match f {
        FilterSpec::Eq(v) => {
            lemma_find_dots_none(v, 0);
        },
        FilterSpec::Not(v) => {
            assert(s.subrange(1, s.len() as int) =~= v);
        },
        FilterSpec::In(vs) => {
            lemma_join_has_comma(vs);
            lemma_split_join(vs);
            assert(vs[0] == vs.subrange(0, 1)[0]);
            lemma_join_prefix(vs);
        },
        FilterSpec::NotIn(vs) => {
            assert(s.subrange(1, s.len() as int) =~= comma_join(vs));
            lemma_join_has_comma(vs);
            lemma_split_join(vs);
        },
        FilterSpec::Range(a, b) => {
            assert(!s.contains(',')) by {
                if s.contains(',') {
                    let i = choose|i: int| 0 <= i < s.len() && s[i] == ',';
                    if i < a.len() {
                        assert(a[i] == ',');
                    } else if i >= a.len() + 2 {
                        assert(b[i - a.len() - 2] == ',');
                    }
                }
            }
            lemma_find_dots_range(a, b, 0);
            assert(s.subrange(0, a.len() as int) =~= a);
            assert(s.subrange(a.len() as int + 2, s.len() as int) =~= b);
        },
        FilterSpec::Gt(v) => {
            assert(s.subrange(1, s.len() as int) =~= v);
        },
        FilterSpec::Gte(v) => {
            assert(s.subrange(2, s.len() as int) =~= v);
        },
        FilterSpec::Lt(v) => {
            assert(s.subrange(1, s.len() as int) =~= v);
        },
        FilterSpec::Lte(v) => {
            assert(s.subrange(2, s.len() as int) =~= v);
        },
    }
}

/// Joined values begin as the first value does.
proof fn lemma_join_prefix(vs: Seq<Seq<char>>)
    requires
        vs.len() >= 1,
    ensures
        vs[0].len() > 0 ==> comma_join(vs).len() > 0 && comma_join(vs)[0] == vs[0][0],
        vs[0].len() == 0 && vs.len() >= 2 ==> comma_join(vs).len() > 0 && comma_join(vs)[0]
            == ',',
    decreases vs.len(),
{
    if vs.len() >= 2 {
        let pre = vs.drop_last();
        lemma_join_prefix(pre);
        if pre.len() == 1 {
            assert(comma_join(pre) == vs[0]);
        }
    }
}

/// The values joined by commas.
pub fn join_commas(vs: &Vec<String>) -> (r: String)
    ensures
        r@ == comma_join(texts(vs@)),
{
    let mut r = String::new();
    let mut i: usize = 0;
    while i < vs.len()
        invariant
            i <= vs@.len(),
            r@ == comma_join(texts(vs@.subrange(0, i as int))),
        decreases vs@.len() - i,
    {
        let ghost before = r@;
        if i > 0 {
            r.append(",");
        }
        r.append(vs[i].as_str());
        proof {
            reveal_strlit(",");
            let t = texts(vs@.subrange(0, i + 1));
            assert(t.drop_last() =~= texts(vs@.subrange(0, i as int)));
            assert(t.last() == vs@[i as int]@);
            if i == 0 {
                assert(r@ =~= vs@[0]@);
            } else {
                assert(r@ =~= before + seq![','] + vs@[i as int]@);
            }
        }
        i = i + 1;
    }
    assert(vs@.subrange(0, vs@.len() as int) =~= vs@);
    r
}

/// Whether `s` holds a comma.
fn has_comma(s: &str) -> (r: bool)
    ensures
        r == s@.contains(','),
{
    let n = s.unicode_len();
    let mut i: usize = 0;
    while i < n
        invariant
            n == s@.len(),
            i <= n,
            forall|j: int| 0 <= j < i ==> s@[j] != ',',
        decreases n - i,
    {
        if s.get_char(i) == ',' {
            return true;
        }
        i = i + 1;
    }
    false
}

/// The pieces of `s` between commas.
fn split_commas(s: &str) -> (r: Vec<String>)
    ensures
        texts(r@) == comma_split(s@),
{
    let n = s.unicode_len();
    let mut parts: Vec<String> = Vec::new();
    let mut start: usize = 0;
    let mut i: usize = 0;
    assert(s@.subrange(0, 0) =~= Seq::<char>::empty());
    while i < n
        invariant
            n == s@.len(),
            start <= i <= n,
            comma_split(s@.subrange(0, i as int)) == texts(parts@).push(s@.subrange(start as int, i as int)),
        decreases n - i,
    {
        let c = s.get_char(i);
        let ghost t = s@.subrange(0, i + 1);
        assert(t.drop_last() =~= s@.subrange(0, i as int));
        assert(t.last() == c);
        if c == ',' {
            let piece = owned(s.substring_char(start, i));
            let ghost old_parts = parts@;
            parts.push(piece);
            proof {
                assert(texts(parts@) =~= texts(old_parts).push(s@.subrange(start as int, i as int)));
                assert(s@.subrange(i + 1, i + 1) =~= Seq::<char>::empty());
            }
            start = i + 1;
        } else {
            proof {
                let p = texts(parts@).push(s@.subrange(start as int, i as int));
                assert(s@.subrange(start as int, i + 1) =~= s@.subrange(start as int, i as int).push(c));
                assert(p.update(p.len() - 1, p.last().push(c)) =~= texts(parts@).push(
                    s@.subrange(start as int, i + 1),
                ));
            }
        }
        i = i + 1;
    }
    let ghost old_parts = parts@;
    parts.push(owned(s.substring_char(start, n)));
    assert(texts(parts@) =~= texts(old_parts).push(s@.subrange(start as int, n as int)));
    assert(s@.subrange(0, n as int) =~= s@);
    parts
}

/// The first position at which `s` holds two dots in a row.
fn find_double_dot(s: &str) -> (r: Option<usize>)
    ensures
        match r {
            Some(k) => find_dots(s@, 0) == k as int && k + 2 <= s@.len(),
            None => find_dots(s@, 0) < 0,
        },
{
    let n = s.unicode_len();
    if n < 2 {
        return None;
    }
    let mut i: usize = 0;
    while i < n - 1
        invariant
            n == s@.len(),
            n >= 2,
            find_dots(s@, 0) == find_dots(s@, i as int),
        decreases n - i,
    {
        if s.get_char(i) == '.' && s.get_char(i + 1) == '.' {
            return Some(i);
        }
        i = i + 1;
    }
    None
}

impl Filter {
    /// The wire string of this filter.
    pub fn encode(&self) -> (r: String)
        ensures
            r@ == encode(self@),
    {
        proof {
            reveal_strlit("!");
            reveal_strlit("..");
            reveal_strlit(">");
            reveal_strlit(">=");
            reveal_strlit("<");
            reveal_strlit("<=");
        }
        match self {
            Filter::Eq(v) => owned(v.as_str()),
            Filter::Not(v) => joined("!", v.as_str()),
            Filter::In(vs) => join_commas(vs),
            Filter::NotIn(vs) => {
                let j = join_commas(vs);
                joined("!", j.as_str())
            },
            Filter::Range(a, b) => {
                let mut r = joined(a.as_str(), "..");
                r.append(b.as_str());
                r
            },
            Filter::Gt(v) => joined(">", v.as_str()),
            Filter::Gte(v) => joined(">=", v.as_str()),
            Filter::Lt(v) => joined("<", v.as_str()),
            Filter::Lte(v) => joined("<=", v.as_str()),
        }
    }

    /// The filter that a wire string reads as.
    pub fn parse(s: &str) -> (r: Filter)
        ensures
            r@ == decode(s@),
    {
        let n = s.unicode_len();
        if n >= 2 && s.get_char(0) == '>' && s.get_char(1) == '=' {
            Filter::Gte(owned(s.substring_char(2, n)))
        } else if n >= 1 && s.get_char(0) == '>' {
            Filter::Gt(owned(s.substring_char(1, n)))
        } else if n >= 2 && s.get_char(0) == '<' && s.get_char(1) == '=' {
            Filter::Lte(owned(s.substring_char(2, n)))
        } else if n >= 1 && s.get_char(0) == '<' {
            Filter::Lt(owned(s.substring_char(1, n)))
        } else if n >= 1 && s.get_char(0) == '!' {
            let rest = s.substring_char(1, n);
            if has_comma(rest) {
                Filter::NotIn(split_commas(rest))
            } else {
                Filter::Not(owned(rest))
            }
        } else if has_comma(s) {
            Filter::In(split_commas(s))
        } else {
            match find_double_dot(s) {
                Some(k) => Filter::Range(
                    owned(s.substring_char(0, k)),
                    owned(s.substring_char(k + 2, n)),
                ),
                None => Filter::Eq(owned(s)),
            }
        }
    }
}

} // verus!
