use vstd::prelude::*;
use vstd::string::StrSliceExecFns;

verus! {

/// Compares two string slices character by character.
pub fn str_eq(a: &str, b: &str) -> (r: bool)
    ensures
        r == (a@ == b@),
{
    let an = a.unicode_len();
    let bn = b.unicode_len();
    if an != bn {
        assert(a@ != b@) by {
            assert(a@.len() != b@.len());
        }
        return false;
    }
    let mut i: usize = 0;
    while i < an
        invariant
            an == a@.len(),
            an == b@.len(),
            i <= an,
            forall|k: int| 0 <= k < i ==> a@[k] == b@[k],
        decreases an - i,
    {
        if a.get_char(i) != b.get_char(i) {
            assert(a@ != b@) by {
                assert(a@[i as int] != b@[i as int]);
            }
            return false;
        }
        i += 1;
    }
    proof {
        assert(a@ =~= b@);
    }
    true
}

/// True when `r` is a suffix of `d`.
pub open spec fn is_suffix_of(r: Seq<char>, d: Seq<char>) -> bool {
    r.len() <= d.len() && d.skip(d.len() - r.len()) == r
}

/// Tests whether `suffix` ends the string `s`.
pub fn str_ends_with(s: &str, suffix: &str) -> (r: bool)
    ensures
        r == is_suffix_of(suffix@, s@),
{
    let sn = s.unicode_len();
    let fn_: usize = suffix.unicode_len();
    if fn_ > sn {
        return false;
    }
    let off = sn - fn_;
    let mut i: usize = 0;
    while i < fn_
        invariant
            sn == s@.len(),
            fn_ == suffix@.len(),
            fn_ <= sn,
            off == sn - fn_,
            i <= fn_,
            forall|k: int| 0 <= k < i ==> s@[off + k] == suffix@[k],
        decreases fn_ - i,
    {
        if s.get_char(off + i) != suffix.get_char(i) {
            assert(!is_suffix_of(suffix@, s@)) by {
                assert(s@.skip(s@.len() - suffix@.len())[i as int] != suffix@[i as int]);
            }
            return false;
        }
        i += 1;
    }
    proof {
        assert(s@.skip(s@.len() - suffix@.len()) =~= suffix@);
    }
    true
}

/// The views of a sequence of strings: each as its characters.
pub open spec fn string_views(v: Seq<String>) -> Seq<Seq<char>> {
    v.map_values(|s: String| s@)
}

/// True when some element of `items` reads the same as `target`.
pub open spec fn seq_has_string(items: Seq<Seq<char>>, target: Seq<char>) -> bool {
    exists|i: int| 0 <= i < items.len() && items[i] == target
}

/// Looks `target` up among the strings of `items`.
pub fn contains_string(items: &Vec<String>, target: &str) -> (r: bool)
    ensures
        r == seq_has_string(string_views(items@), target@),
{
    let ghost views = string_views(items@);
    let mut i: usize = 0;
    while i < items.len()
        invariant
            views == string_views(items@),
            i <= items.len(),
            forall|k: int| 0 <= k < i ==> views[k] != target@,
        decreases items.len() - i,
    {
        if str_eq(items[i].as_str(), target) {
            assert(views[i as int] == target@);
            return true;
        }
        i += 1;
    }
    false
}

/// Copies a list of strings.
pub fn clone_strings(v: &Vec<String>) -> (r: Vec<String>)
    ensures
        r@ == v@,
{
    let r = v.clone();
    proof {
        assert forall|k: int| 0 <= k < v@.len() implies r@[k] == v@[k] by {
            assert(vstd::pervasive::cloned::<String>(v@[k], r@[k]));
        }
        assert(r@ =~= v@);
    }
    r
}

/// Appends one character to a string.
///
/// Relies on String::push: it appends exactly the given character.
#[verifier::external_body]
pub fn push_char(s: &mut String, c: char)
    ensures
        final(s)@ == old(s)@.push(c),
{
    s.push(c);
}

/// The index of the first occurrence of `sep` in `s`, or the length of
/// `s` when it does not occur.
pub open spec fn first_sep(s: Seq<char>, sep: char) -> nat
    decreases s.len(),
{
    if s.len() == 0 {
        0
    } else if s[0] == sep {
        0
    } else {
        1 + first_sep(s.skip(1), sep)
    }
}

/// The pieces of `s` between occurrences of `sep`: always at least one
/// piece, and an empty piece beside each adjacent pair of separators.
pub open spec fn fields(s: Seq<char>, sep: char) -> Seq<Seq<char>>
    decreases s.len(),
{
    let k = first_sep(s, sep);
    if k >= s.len() {
        seq![s]
    } else {
        seq![s.take(k as int)] + fields(s.skip(k as int + 1), sep)
    }
}

/// The first separator is never past the end.
pub proof fn lemma_first_sep_le_len(s: Seq<char>, sep: char)
    ensures
        first_sep(s, sep) <= s.len(),
    decreases s.len(),
{
    if s.len() > 0 && s[0] != sep {
        lemma_first_sep_le_len(s.skip(1), sep);
    }
}

/// A scan that saw no separator before `k`, and one at `k` unless it ran
/// off the end, has found the first separator.
pub proof fn lemma_first_sep_at(s: Seq<char>, sep: char, k: int)
    requires
        0 <= k <= s.len(),
        forall|j: int| 0 <= j < k ==> s[j] != sep,
        k < s.len() ==> s[k] == sep,
    ensures
        first_sep(s, sep) == if k < s.len() {
            k
        } else {
            s.len() as int
        },
    decreases k,
{
    if k == 0 {
    } else {
        assert(s[0] != sep);
        lemma_first_sep_at(s.skip(1), sep, k - 1);
    }
}

/// Splits `s` at every occurrence of `sep`.
#[verifier::loop_isolation(false)]
pub fn split_char(s: &str, sep: char) -> (r: Vec<String>)
    ensures
        string_views(r@) == fields(s@, sep),
{
    let n = s.unicode_len();
    let mut out: Vec<String> = Vec::new();
    let mut p: usize = 0;
    proof {
        assert(s@.skip(0) =~= s@);
        assert(string_views(out@) + fields(s@, sep) =~= fields(s@, sep));
    }
    loop
        invariant
            p <= n,
            fields(s@, sep) =~= string_views(out@) + fields(s@.skip(p as int), sep),
        decreases n - p,
    {
        let mut k: usize = p;
        while k < n && s.get_char(k) != sep
            invariant
                p <= k <= n,
                forall|j: int| p <= j < k ==> s@[j] != sep,
            decreases n - k,
        {
            k += 1;
        }
        let piece = s.substring_char(p, k).to_owned();
        let ghost pre = string_views(out@);
        out.push(piece);
        proof {
            let tail = s@.skip(p as int);
            assert forall|j: int| 0 <= j < k - p implies tail[j] != sep by {
                assert(tail[j] == s@[p + j]);
            }
            lemma_first_sep_at(tail, sep, k - p);
            assert(tail.take(k - p) =~= s@.subrange(p as int, k as int));
            assert(string_views(out@) =~= pre.push(s@.subrange(p as int, k as int)));
        }
        if k == n {
            proof {
                assert(fields(s@.skip(p as int), sep) =~= seq![s@.subrange(p as int, n as int)]);
                assert(string_views(out@) =~= fields(s@, sep));
            }
            return out;
        }
        proof {
            let tail = s@.skip(p as int);
            assert(tail.skip(k - p + 1) =~= s@.skip(k + 1));
            assert(fields(tail, sep) =~= seq![s@.subrange(p as int, k as int)] + fields(
                s@.skip(k + 1),
                sep,
            ));
            assert(fields(s@, sep) =~= string_views(out@) + fields(s@.skip(k + 1), sep));
        }
        p = k + 1;
    }
}

/// A line with its trailing carriage return removed, when it has one.
pub open spec fn strip_cr(t: Seq<char>) -> Seq<char> {
    if t.len() > 0 && t.last() == '\r' {
        t.drop_last()
    } else {
        t
    }
}

/// The lines of `s`, split at each newline: one optional final newline
/// yields no extra line, and each line loses a trailing carriage return.
pub open spec fn lines_of(s: Seq<char>) -> Seq<Seq<char>> {
    if s.len() == 0 {
        Seq::empty()
    } else {
        let core = if s.last() == '\n' {
            s.drop_last()
        } else {
            s
        };
        fields(core, '\n').map_values(|t: Seq<char>| strip_cr(t))
    }
}

/// Splits `s` into its lines, as `lines_of` describes them.
#[verifier::loop_isolation(false)]
pub fn split_lines(s: &str) -> (r: Vec<String>)
    ensures
        string_views(r@) == lines_of(s@),
{
    let n = s.unicode_len();
    if n == 0 {
        let r: Vec<String> = Vec::new();
        proof {
            assert(string_views(r@) =~= lines_of(s@));
        }
        return r;
    }
    let core = if s.get_char(n - 1) == '\n' {
        s.substring_char(0, n - 1)
    } else {
        s.substring_char(0, n)
    };
    proof {
        if s@.last() == '\n' {
            assert(core@ =~= s@.drop_last());
        } else {
            assert(core@ =~= s@);
        }
    }
    let pieces = split_char(core, '\n');
    let ghost fv = fields(core@, '\n');
    let mut out: Vec<String> = Vec::new();
    let mut i: usize = 0;
    while i < pieces.len()
        invariant
            i <= pieces.len(),
            fv == fields(core@, '\n'),
            string_views(pieces@) == fv,
            string_views(out@) =~= fv.take(i as int).map_values(|t: Seq<char>| strip_cr(t)),
        decreases pieces.len() - i,
    {
        let pi = &pieces[i];
        let m = pi.as_str().unicode_len();
        let item = if m > 0 && pi.as_str().get_char(m - 1) == '\r' {
            pi.as_str().substring_char(0, m - 1).to_owned()
        } else {
            pi.clone()
        };
        proof {
            if m > 0 && pi@.last() == '\r' {
                assert(item@ =~= strip_cr(pieces@[i as int]@));
            }
            assert(item@ == strip_cr(fv[i as int]));
        }
        let ghost pre = string_views(out@);
        out.push(item);
        proof {
            assert(string_views(out@) =~= pre.push(strip_cr(fv[i as int])));
            assert(string_views(out@) =~= fv.take(i + 1).map_values(|t: Seq<char>| strip_cr(t)));
        }
        i += 1;
    }
    proof {
        assert(fv.take(fv.len() as int) =~= fv);
        assert(string_views(out@) =~= lines_of(s@));
    }
    out
}

/// The character for one decimal digit.
pub open spec fn dec_digit(d: int) -> char {
    if d == 0 {
        '0'
    } else if d == 1 {
        '1'
    } else if d == 2 {
        '2'
    } else if d == 3 {
        '3'
    } else if d == 4 {
        '4'
    } else if d == 5 {
        '5'
    } else if d == 6 {
        '6'
    } else if d == 7 {
        '7'
    } else if d == 8 {
        '8'
    } else {
        '9'
    }
}

/// The decimal digits of a non-negative number, most significant first.
pub open spec fn dec_str(n: int) -> Seq<char>
    decreases n,
    when n >= 0
{
    if n < 10 {
        seq![dec_digit(n)]
    } else {
        dec_str(n / 10).push(dec_digit(n % 10))
    }
}

/// A number written in decimal, with a leading minus when negative.
pub open spec fn int_str(n: int) -> Seq<char> {
    if n < 0 {
        seq!['-'] + dec_str(-n)
    } else {
        dec_str(n)
    }
}

/// Relies on the decimal Display of i32, reached through ToString.
#[verifier::external_body]
pub fn i32_to_string(n: i32) -> (r: String)
    ensures
        r@ == int_str(n as int),
{
    n.to_string()
}

/// The lowercase form of a sequence of characters, as str::to_lowercase
/// computes it. The result depends on the characters alone.
pub uninterp spec fn lower_of(s: Seq<char>) -> Seq<char>;

/// Relies on str::to_lowercase: the result is a function of the input
/// characters alone, and an empty input stays empty.
#[verifier::external_body]
pub fn to_lowercase_str(s: &str) -> (r: String)
    ensures
        r@ == lower_of(s@),
        s@.len() == 0 ==> r@.len() == 0,
{
    s.to_lowercase()
}

} // verus!
