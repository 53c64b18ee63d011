//! Character-level helpers on strings, proved against the `Seq<char>` view.
use vstd::prelude::*;
use vstd::slice::slice_subrange;
use vstd::string::StringExecFns;

verus! {

/// The characters of `s`, in order.
pub fn chars_of(s: &str) -> (v: Vec<char>)
    ensures
        v@ == s@,
{
    let mut v: Vec<char> = Vec::new();
    for c in it: s.chars()
        invariant
            v@ == it.seq().take(it.index() as int),
    {
        v.push(c);
    }
    v
}

/// Whether two character vectors hold the same characters.
fn same_chars(a: &Vec<char>, b: &Vec<char>) -> (res: bool)
    ensures
        res == (a@ == b@),
{
    if a.len() != b.len() {
        return false;
    }
    let mut i: usize = 0;
    while i < a.len()
        invariant
            a.len() == b.len(),
            i <= a.len(),
            forall|j: int| 0 <= j < i ==> a@[j] == b@[j],
        decreases a.len() - i,
    {
        if a[i] != b[i] {
            return false;
        }
        i = i + 1;
    }
    assert(a@ =~= b@);
    true
}

/// Whether `a` and `b` spell the same text.
pub fn same_text(a: &str, b: &str) -> (res: bool)
    ensures
        res == (a@ == b@),
{
    let ca = chars_of(a);
    let cb = chars_of(b);
    same_chars(&ca, &cb)
}

/// Whether `s` begins with `prefix`.
pub fn has_prefix(s: &str, prefix: &str) -> (res: bool)
    ensures
        res == prefix@.is_prefix_of(s@),
{
    let cs = chars_of(s);
    let cp = chars_of(prefix);
    if cp.len() > cs.len() {
        return false;
    }
    let mut i: usize = 0;
    while i < cp.len()
        invariant
            cp.len() <= cs.len(),
            cs@ == s@,
            cp@ == prefix@,
            i <= cp.len(),
            forall|j: int| 0 <= j < i ==> cp@[j] == cs@[j],
        decreases cp.len() - i,
    {
        if cp[i] != cs[i] {
            return false;
        }
        i = i + 1;
    }
    assert(prefix@ =~= s@.subrange(0, prefix@.len() as int));
    true
}

/// The number of characters in `s`.
pub fn char_count(s: &str) -> (n: usize)
    ensures
        n == s@.len(),
{
    let cs = chars_of(s);
    cs.len()
}

/// An owned copy of `s`.
pub fn owned(s: &str) -> (res: String)
    ensures
        res@ == s@,
{
    s.to_owned()
}

/// The concatenation of `a` and `b`.
pub fn joined(a: &str, b: &str) -> (res: String)
    ensures
        res@ == a@ + b@,
{
    let mut out = a.to_owned();
    out.append(b);
    out
}

/// Appends `c` to `s` (`String::push`: appends the given char to the end of
/// the string).
#[verifier::external_body]
pub(crate) fn push_char(s: &mut String, c: char)
    ensures
        final(s)@ == old(s)@.push(c),
{
    s.push(c);
}

/// The text `Debug` formatting gives a string: quoted, with quotes,
/// backslashes, control and non-printable characters escaped.
pub uninterp spec fn debug_text(s: Seq<char>) -> Seq<char>;

/// `format!("{:?}", s)`: the string's `Debug` text.
#[verifier::external_body]
pub(crate) fn debug_quoted(s: &str) -> (t: String)
    ensures
        t@ == debug_text(s@),
{
    format!("{:?}", s)
}

/// The text `Debug` formatting gives a byte list: the decimal values,
/// separated by ", ", in brackets.
pub open spec fn bytes_text(v: Seq<u8>) -> Seq<char> {
    "["@ + joined_with(v.map_values(|b: u8| decimal(b as nat)), ", "@) + "]"@
}

/// The `Debug` text of a byte list.
pub fn bytes_debug(v: &[u8]) -> (t: String)
    ensures
        t@ == bytes_text(v@),
{
    let ghost all = v@.map_values(|b: u8| decimal(b as nat));
    let mut r = String::new();
    let mut i: usize = 0;
    while i < v.len()
        invariant
            i <= v@.len(),
            all == v@.map_values(|b: u8| decimal(b as nat)),
            r@ == joined_with(all.take(i as int), ", "@),
        decreases v@.len() - i,
    {
        proof {
            assert(all.take(i + 1).drop_last() =~= all.take(i as int));
            assert(all.take(i + 1).last() == decimal(v@[i as int] as nat));
        }
        let digits = decimal_text(v[i] as u64);
        if i == 0 {
            r = digits;
            proof {
                assert(all.take(1) =~= seq![decimal(v@[0] as nat)]);
            }
        } else {
            r.append(", ");
            r.append(digits.as_str());
        }
        i = i + 1;
    }
    proof {
        assert(all.take(v@.len() as int) =~= all);
    }
    owned("[").concat(r.as_str()).concat("]")
}

/// The string spelled by `cs`.
pub fn text_of(cs: &[char]) -> (s: String)
    ensures
        s@ == cs@,
{
    let mut s = String::new();
    let mut i: usize = 0;
    while i < cs.len()
        invariant
            i <= cs@.len(),
            s@ == cs@.take(i as int),
        decreases cs@.len() - i,
    {
        push_char(&mut s, cs[i]);
        proof {
            assert(cs@.take(i + 1) =~= cs@.take(i as int).push(cs@[i as int]));
        }
        i = i + 1;
    }
    proof {
        assert(cs@.take(cs@.len() as int) =~= cs@);
    }
    s
}

/// The character of a decimal digit.
pub open spec fn digit_char(d: nat) -> char {
    (d + 48) as char
}

/// The decimal spelling of `n`, most significant digit first.
pub open spec fn decimal(n: nat) -> Seq<char>
    decreases n,
{
    if n < 10 {
        seq![digit_char(n)]
    } else {
        decimal(n / 10).push(digit_char(n % 10))
    }
}

/// The decimal spelling of `n` (what `to_string` gives for an integer).
pub fn decimal_text(n: u64) -> (s: String)
    ensures
        s@ == decimal(n as nat),
    decreases n,
{
    let d = (n % 10) as u8;
    let c = (48u8 + d) as char;
    proof {
        assert(c == digit_char((n % 10) as nat));
    }
    if n < 10 {
        let mut s = String::new();
        push_char(&mut s, c);
        proof {
            assert(s@ =~= seq![digit_char(n as nat)]);
        }
        s
    } else {
        let mut s = decimal_text(n / 10);
        push_char(&mut s, c);
        s
    }
}

/// Whether `sep` occurs in `s` starting at character `i`.
pub open spec fn occurs_at(s: Seq<char>, sep: Seq<char>, i: int) -> bool {
    0 <= i && i + sep.len() <= s.len() && s.subrange(i, i + sep.len()) == sep
}

/// Splits `s` on the first occurrence of `sep` into the text before and the
/// text after it; `None` when `sep` does not occur.
pub fn split_once(s: &str, sep: &str) -> (r: Option<(String, String)>)
    ensures
        r matches Some((a, b)) ==> s@ == a@ + sep@ + b@ && occurs_at(s@, sep@, a@.len() as int)
            && forall|i: int| 0 <= i < a@.len() ==> !occurs_at(s@, sep@, i),
        r is None ==> forall|i: int| !occurs_at(s@, sep@, i),
{
    let cs = chars_of(s);
    let cp = chars_of(sep);
    if cp.len() > cs.len() {
        return None;
    }
    let last = cs.len() - cp.len();
    let mut i: usize = 0;
    while i <= last
        invariant
            cs@ == s@,
            cp@ == sep@,
            cp.len() <= cs.len(),
            last == cs.len() - cp.len(),
            forall|j: int| 0 <= j < i ==> !occurs_at(s@, sep@, j),
        decreases last + 1 - i,
    {
        let mut k: usize = 0;
        let mut matched = true;
        while k < cp.len()
            invariant
                cs@ == s@,
                cp@ == sep@,
                i <= last,
                last == cs.len() - cp.len(),
                k <= cp.len(),
                matched ==> forall|j: int| 0 <= j < k ==> cs@[i + j] == cp@[j],
                !matched ==> !occurs_at(s@, sep@, i as int),
            decreases cp.len() - k,
        {
            if matched && cs[i + k] != cp[k] {
                matched = false;
                proof {
                    assert(s@.subrange(i as int, i + sep@.len())[k as int] != sep@[k as int]);
                }
            }
            k = k + 1;
        }
        if matched {
            proof {
                assert(s@.subrange(i as int, i + sep@.len()) =~= sep@);
            }
            let before = text_of(slice_subrange(cs.as_slice(), 0, i));
            let after = text_of(slice_subrange(cs.as_slice(), i + cp.len(), cs.len()));
            proof {
                assert(s@ =~= before@ + sep@ + after@);
            }
            return Some((before, after));
        }
        if i == last {
            proof {
                assert forall|j: int| !occurs_at(s@, sep@, j) by {
                    if j > last {
                        assert(!(j + sep@.len() <= s@.len()));
                    }
                }
            }
            return None;
        }
        i = i + 1;
    }
    None
}

/// The texts of `list` joined with `sep` between neighbours.
pub open spec fn joined_with(list: Seq<Seq<char>>, sep: Seq<char>) -> Seq<char>
    decreases list.len(),
{
    if list.len() == 0 {
        Seq::empty()
    } else if list.len() == 1 {
        list[0]
    } else {
        joined_with(list.drop_last(), sep) + sep + list.last()
    }
}

/// The texts of a list of owned strings.
pub open spec fn texts_of(v: Seq<String>) -> Seq<Seq<char>> {
    v.map_values(|s: String| s@)
}

/// Joins the strings of `list` with `sep` between neighbours.
pub fn join_texts(list: &Vec<String>, sep: &str) -> (r: String)
    ensures
        r@ == joined_with(texts_of(list@), sep@),
{
    let mut r = String::new();
    let ghost all = texts_of(list@);
    let mut i: usize = 0;
    while i < list.len()
        invariant
            i <= list@.len(),
            all == texts_of(list@),
            r@ == joined_with(all.take(i as int), sep@),
        decreases list@.len() - i,
    {
        proof {
            assert(all.take(i + 1).drop_last() =~= all.take(i as int));
            assert(all.take(i + 1).last() == list@[i as int]@);
        }
        if i == 0 {
            r = owned(list[i].as_str());
            proof {
                assert(all.take(1) =~= seq![list@[0]@]);
            }
        } else {
            r.append(sep);
            r.append(list[i].as_str());
        }
        i = i + 1;
    }
    proof {
        assert(all.take(list@.len() as int) =~= all);
    }
    r
}

} // verus!
