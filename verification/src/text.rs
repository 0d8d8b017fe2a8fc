//! Plain-text helpers: decimal formatting of counts and indices, whitespace
//! trimming, and comma-splitting of multi-value command arguments.

use vstd::prelude::*;

verus! {

/// The decimal digit character for a value below ten.
pub open spec fn digit_char(d: nat) -> char {
    if d == 0 {
        '0'
    } else if d == 1 {
        '1'
    } else if d == 2 {
        '2'
    } else if d == 3 {
        '3'
    } else if d == 4 {
        '4'
    } else if d == 5 {
        '5'
    } else if d == 6 {
        '6'
    } else if d == 7 {
        '7'
    } else if d == 8 {
        '8'
    } else {
        '9'
    }
}

/// The usual decimal rendering of a natural number, most significant digit
/// first, with no leading zeros (zero itself renders as "0").
pub open spec fn dec_digits(n: nat) -> Seq<char>
    decreases n,
{
    if n < 10 {
        seq![digit_char(n)]
    } else {
        dec_digits(n / 10).push(digit_char(n % 10))
    }
}

fn digit_str(d: u64) -> (s: &'static str)
    requires
        d < 10,
    ensures
        s@ == seq![digit_char(d as nat)],
{
    let s: &'static str = if d == 0 {
        "0"
    } else if d == 1 {
        "1"
    } else if d == 2 {
        "2"
    } else if d == 3 {
        "3"
    } else if d == 4 {
        "4"
    } else if d == 5 {
        "5"
    } else if d == 6 {
        "6"
    } else if d == 7 {
        "7"
    } else if d == 8 {
        "8"
    } else {
        "9"
    };
    proof {
        reveal_strlit("0");
        reveal_strlit("1");
        reveal_strlit("2");
        reveal_strlit("3");
        reveal_strlit("4");
        reveal_strlit("5");
        reveal_strlit("6");
        reveal_strlit("7");
        reveal_strlit("8");
        reveal_strlit("9");
        assert(s@ =~= seq![digit_char(d as nat)]);
    }
    s
}

/// Renders a count in decimal, as the terminal output shows it.
pub fn u64_to_string(n: u64) -> (s: String)
    ensures
        s@ == dec_digits(n as nat),
    decreases n,
{
    if n < 10 {
        String::from_str(digit_str(n))
    } else {
        let mut s = u64_to_string(n / 10);
        s.append(digit_str(n % 10));
        proof {
            assert(s@ =~= dec_digits(n as nat));
        }
        s
    }
}

/// Whether a character counts as whitespace for argument trimming
/// (the Unicode White_Space set).
pub open spec fn is_space_char(c: char) -> bool {
    c == ' ' || c == '\t' || c == '\n' || c == '\r' || c == '\u{b}' || c == '\u{c}' || c
        == '\u{85}' || c == '\u{a0}' || c == '\u{1680}' || c == '\u{2000}' || c == '\u{2001}' || c
        == '\u{2002}' || c == '\u{2003}' || c == '\u{2004}' || c == '\u{2005}' || c == '\u{2006}'
        || c == '\u{2007}' || c == '\u{2008}' || c == '\u{2009}' || c == '\u{200a}' || c
        == '\u{2028}' || c == '\u{2029}' || c == '\u{202f}' || c == '\u{205f}' || c == '\u{3000}'
}

fn is_space(c: char) -> (r: bool)
    ensures
        r == is_space_char(c),
{
    c == ' ' || c == '\t' || c == '\n' || c == '\r' || c == '\u{b}' || c == '\u{c}' || c
        == '\u{85}' || c == '\u{a0}' || c == '\u{1680}' || c == '\u{2000}' || c == '\u{2001}' || c
        == '\u{2002}' || c == '\u{2003}' || c == '\u{2004}' || c == '\u{2005}' || c == '\u{2006}'
        || c == '\u{2007}' || c == '\u{2008}' || c == '\u{2009}' || c == '\u{200a}' || c
        == '\u{2028}' || c == '\u{2029}' || c == '\u{202f}' || c == '\u{205f}' || c == '\u{3000}'
}

/// A string with its leading whitespace removed.
pub open spec fn trim_start_spec(s: Seq<char>) -> Seq<char>
    decreases s.len(),
{
    if s.len() > 0 && is_space_char(s[0]) {
        trim_start_spec(s.drop_first())
    } else {
        s
    }
}

/// A string with its trailing whitespace removed.
pub open spec fn trim_end_spec(s: Seq<char>) -> Seq<char>
    decreases s.len(),
{
    if s.len() > 0 && is_space_char(s.last()) {
        trim_end_spec(s.drop_last())
    } else {
        s
    }
}

/// A string with surrounding whitespace removed, as `str::trim` leaves it.
pub open spec fn trim_spec(s: Seq<char>) -> Seq<char> {
    trim_end_spec(trim_start_spec(s))
}

proof fn lemma_trim_start_bound(s: Seq<char>, a: int)
    requires
        0 <= a <= s.len(),
        forall|k: int| 0 <= k < a ==> is_space_char(s[k]),
        a == s.len() || !is_space_char(s[a]),
    ensures
        trim_start_spec(s) == s.subrange(a, s.len() as int),
    decreases a,
{
    if a == 0 {
        assert(s.subrange(0, s.len() as int) =~= s);
    } else {
        let t = s.drop_first();
        assert(t =~= s.subrange(1, s.len() as int));
        lemma_trim_start_bound(t, a - 1);
        assert(t.subrange(a - 1, t.len() as int) =~= s.subrange(a, s.len() as int));
    }
}

proof fn lemma_trim_end_bound(s: Seq<char>, b: int)
    requires
        0 <= b <= s.len(),
        forall|k: int| b <= k < s.len() ==> is_space_char(s[k]),
        b == 0 || !is_space_char(s[b - 1]),
    ensures
        trim_end_spec(s) == s.subrange(0, b),
    decreases s.len() - b,
{
    if b == s.len() {
        assert(s.subrange(0, s.len() as int) =~= s);
    } else {
        let t = s.drop_last();
        assert(t =~= s.subrange(0, s.len() - 1));
        lemma_trim_end_bound(t, b);
        assert(t.subrange(0, b) =~= s.subrange(0, b));
    }
}

/// Removes surrounding whitespace, exactly as the trimming spec says.
pub fn trim_str(t: &str) -> (r: String)
    ensures
        r@ == trim_spec(t@),
{
    let len = t.unicode_len();
    let mut a: usize = 0;
    while a < len && is_space(t.get_char(a))
        invariant
            0 <= a <= len,
            len == t@.len(),
            forall|k: int| 0 <= k < a ==> is_space_char(t@[k]),
        decreases len - a,
    {
        a = a + 1;
    }
    proof {
        lemma_trim_start_bound(t@, a as int);
    }
    let ghost mid = t@.subrange(a as int, len as int);
    let mut b: usize = len;
    while b > a && is_space(t.get_char(b - 1))
        invariant
            a <= b <= len,
            len == t@.len(),
            forall|k: int| b <= k < len ==> is_space_char(t@[k]),
        decreases b,
    {
        b = b - 1;
    }
    proof {
        lemma_trim_end_bound(mid, b - a);
        assert(mid.subrange(0, b - a) =~= t@.subrange(a as int, b as int));
    }
    let sub = t.substring_char(a, b);
    sub.to_owned()
}

/// The pieces of a string cut at every comma, in order, none dropped:
/// an empty string yields one empty piece, and so does every empty segment
/// between, before or after commas.
pub open spec fn split_commas(s: Seq<char>) -> Seq<Seq<char>>
    decreases s.len(),
{
    if s.len() == 0 {
        seq![Seq::<char>::empty()]
    } else if s[0] == ',' {
        seq![Seq::<char>::empty()].add(split_commas(s.drop_first()))
    } else {
        let rest = split_commas(s.drop_first());
        seq![seq![s[0]].add(rest[0])].add(rest.drop_first())
    }
}

/// A comma-separated argument list as the commands read it: split at every
/// comma, each piece trimmed of surrounding whitespace, order kept, empty
/// pieces kept.
pub open spec fn split_and_trim_spec(s: Seq<char>) -> Seq<Seq<char>> {
    split_commas(s).map_values(|t: Seq<char>| trim_spec(t))
}

proof fn lemma_split_no_comma(t: Seq<char>)
    requires
        forall|k: int| 0 <= k < t.len() ==> t[k] != ',',
    ensures
        split_commas(t) == seq![t],
    decreases t.len(),
{
    if t.len() == 0 {
        assert(t =~= Seq::<char>::empty());
        assert(split_commas(t) =~= seq![t]);
    } else {
        let t2 = t.drop_first();
        lemma_split_no_comma(t2);
        let rest = split_commas(t2);
        assert(rest[0] == t2);
        assert(seq![t[0]].add(t2) =~= t);
        assert(rest.drop_first() =~= Seq::<Seq<char>>::empty());
        assert(split_commas(t) =~= seq![t]);
    }
}

proof fn lemma_split_comma_at(t: Seq<char>, i: int)
    requires
        0 <= i < t.len(),
        t[i] == ',',
        forall|k: int| 0 <= k < i ==> t[k] != ',',
    ensures
        split_commas(t) == seq![t.subrange(0, i)].add(
            split_commas(t.subrange(i + 1, t.len() as int)),
        ),
    decreases i,
{
    if i == 0 {
        assert(t.subrange(0, 0) =~= Seq::<char>::empty());
        assert(t.drop_first() =~= t.subrange(1, t.len() as int));
    } else {
        let t2 = t.drop_first();
        assert(t2 =~= t.subrange(1, t.len() as int));
        lemma_split_comma_at(t2, i - 1);
        let rest = split_commas(t2);
        let tail = split_commas(t2.subrange(i, t2.len() as int));
        assert(rest == seq![t2.subrange(0, i - 1)].add(tail));
        assert(rest[0] == t2.subrange(0, i - 1));
        assert(rest.drop_first() =~= tail);
        assert(seq![t[0]].add(t2.subrange(0, i - 1)) =~= t.subrange(0, i));
        assert(t2.subrange(i, t2.len() as int) =~= t.subrange(i + 1, t.len() as int));
        assert(split_commas(t) =~= seq![t.subrange(0, i)].add(tail));
    }
}

fn trim_range(s: &str, from: usize, to: usize) -> (r: String)
    requires
        from <= to <= s@.len(),
    ensures
        r@ == trim_spec(s@.subrange(from as int, to as int)),
{
    let sub = s.substring_char(from, to);
    trim_str(sub)
}

/// Splits a comma-separated argument list and trims each piece, the way
/// every multi-value flag (recipients, attendees) is read: order kept,
/// no piece dropped, empty pieces passed through.
pub fn split_and_trim(s: &str) -> (out: Vec<String>)
    ensures
        out.deep_view() == split_and_trim_spec(s@),
{
    let len = s.unicode_len();
    let mut out: Vec<String> = Vec::new();
    proof {
        assert(s@.subrange(0, len as int) =~= s@);
        assert(out.deep_view() =~= Seq::<Seq<char>>::empty());
        assert(out.deep_view().add(split_and_trim_spec(s@)) =~= split_and_trim_spec(s@));
    }
    let mut j: usize = 0;
    let mut i: usize = 0;
    while i < len
        invariant
            0 <= j <= i <= len,
            len == s@.len(),
            forall|k: int| j <= k < i ==> s@[k] != ',',
            split_and_trim_spec(s@) =~= out.deep_view().add(
                split_commas(s@.subrange(j as int, len as int)).map_values(
                    |t: Seq<char>| trim_spec(t),
                ),
            ),
        decreases len - i,
    {
        if s.get_char(i) == ',' {
            let ghost seg = s@.subrange(j as int, len as int);
            let tok = trim_range(s, j, i);
            proof {
                lemma_split_comma_at(seg, i - j);
                assert(seg.subrange(0, i - j) =~= s@.subrange(j as int, i as int));
                assert(seg.subrange(i - j + 1, seg.len() as int) =~= s@.subrange(
                    i + 1,
                    len as int,
                ));
            }
            out.push(tok);
            proof {
                let f = |t: Seq<char>| trim_spec(t);
                let tail = split_commas(s@.subrange(i + 1, len as int));
                assert(seq![s@.subrange(j as int, i as int)].add(tail).map_values(f)
                    =~= seq![trim_spec(s@.subrange(j as int, i as int))].add(tail.map_values(f)));
                assert(split_and_trim_spec(s@) =~= out.deep_view().add(tail.map_values(f)));
            }
            j = i + 1;
        }
        i = i + 1;
    }
    let ghost seg = s@.subrange(j as int, len as int);
    let tok = trim_range(s, j, len);
    proof {
        lemma_split_no_comma(seg);
    }
    out.push(tok);
    proof {
        let f = |t: Seq<char>| trim_spec(t);
        assert(seq![seg].map_values(f) =~= seq![trim_spec(seg)]);
        assert(out.deep_view() =~= split_and_trim_spec(s@));
    }
    out
}

} // verus!
