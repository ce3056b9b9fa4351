use vstd::prelude::*;

verus! {

/// Appends `c` to `s` with `String::push`. Trusted: the std documentation
/// states that `push` appends the given char to the end of the string.
#[verifier::external_body]
pub(crate) fn push_char(s: &mut String, c: char)
    ensures
        final(s)@ == old(s)@.push(c),
{
    s.push(c)
}

/// A byte that may stand in an HTTP header value read as text: a visible
/// ASCII character, a space or a tab.
pub open spec fn is_visible_ascii(b: u8) -> bool {
    (32 <= b && b < 127) || b == 9
}

/// The text of the bytes `b`, each read as the ASCII character it codes.
pub open spec fn ascii_text(b: Seq<u8>) -> Seq<char> {
    b.map_values(|x: u8| x as char)
}

/// Reads the bytes of an HTTP header value as text, as `to_str` of the
/// http crate's `HeaderValue` does: `None` when a byte is not visible ASCII.
pub fn header_text(bytes: &Vec<u8>) -> (r: Option<String>)
    ensures
        r is Some <==> (forall|i: int| 0 <= i < bytes@.len() ==> is_visible_ascii(#[trigger] bytes@[i])),
        r matches Some(s) ==> s@ == ascii_text(bytes@),
{
    let mut out = String::new();
    let mut i: usize = 0;
    while i < bytes.len()
        invariant
            i <= bytes@.len(),
            forall|j: int| 0 <= j < i ==> is_visible_ascii(#[trigger] bytes@[j]),
            out@ == ascii_text(bytes@.subrange(0, i as int)),
        decreases bytes@.len() - i,
    {
        let b = bytes[i];
        if !((32 <= b && b < 127) || b == 9) {
            return None;
        }
        push_char(&mut out, b as char);
        proof {
            assert(bytes@.subrange(0, i as int + 1) =~= bytes@.subrange(0, i as int).push(b));
            assert(ascii_text(bytes@.subrange(0, i as int + 1)) =~= ascii_text(bytes@.subrange(0, i as int)).push(b as char));
        }
        i = i + 1;
    }
    proof {
        assert(bytes@.subrange(0, bytes@.len() as int) =~= bytes@);
    }
    Some(out)
}

/// The characters of `s`, in order.
pub fn chars_of(s: &str) -> (r: Vec<char>)
    ensures
        r@ == s@,
{
    let n = s.unicode_len();
    let mut out: Vec<char> = Vec::new();
    let mut i: usize = 0;
    while i < n
        invariant
            n == s@.len(),
            i <= n,
            out@ == s@.take(i as int),
        decreases n - i,
    {
        out.push(s.get_char(i));
        i = i + 1;
        proof {
            assert(out@ =~= s@.take(i as int));
        }
    }
    proof {
        assert(s@.take(n as int) =~= s@);
    }
    out
}

/// `s` with every match of `pat` replaced by `with`, matches being taken
/// from left to right without overlap, as `str::replace` does.
pub open spec fn replaced(s: Seq<char>, pat: Seq<char>, with: Seq<char>) -> Seq<char>
    recommends
        pat.len() > 0,
    decreases s.len(),
{
    if s.len() == 0 {
        Seq::empty()
    } else if pat.len() > 0 && pat.len() <= s.len() && s.take(pat.len() as int) == pat {
        with + replaced(s.skip(pat.len() as int), pat, with)
    } else {
        seq![s[0]] + replaced(s.skip(1), pat, with)
    }
}

/// Replacing a text by itself changes nothing.
pub proof fn lemma_replace_by_itself(s: Seq<char>, pat: Seq<char>)
    requires
        pat.len() > 0,
    ensures
        replaced(s, pat, pat) == s,
    decreases s.len(),
{
    if s.len() > 0 {
        if pat.len() <= s.len() && s.take(pat.len() as int) == pat {
            lemma_replace_by_itself(s.skip(pat.len() as int), pat);
            assert(pat + s.skip(pat.len() as int) =~= s);
        } else {
            lemma_replace_by_itself(s.skip(1), pat);
            assert(seq![s[0]] + s.skip(1) =~= s);
        }
    }
}

/// A text in which the pattern does not occur is left as it is, whatever
/// it would be replaced by.
pub proof fn lemma_replace_without_match(s: Seq<char>, pat: Seq<char>, with: Seq<char>)
    requires
        pat.len() > 0,
        forall|i: int| 0 <= i <= s.len() - pat.len() ==> #[trigger] s.skip(i).take(pat.len() as int) != pat,
    ensures
        replaced(s, pat, with) == s,
    decreases s.len(),
{
    if s.len() > 0 {
        if pat.len() <= s.len() {
            assert(s.skip(0) =~= s);
            assert(s.skip(0).take(pat.len() as int) != pat);
        }
        let t = s.skip(1);
        assert forall|i: int| 0 <= i <= t.len() - pat.len() implies #[trigger] t.skip(i).take(pat.len() as int)
            != pat by {
            assert(t.skip(i) =~= s.skip(i + 1));
            assert(s.skip(i + 1).take(pat.len() as int) != pat);
        }
        lemma_replace_without_match(t, pat, with);
        assert(seq![s[0]] + t =~= s);
    }
}

/// The pattern alone is replaced whole.
pub proof fn lemma_replace_whole_pattern(pat: Seq<char>, with: Seq<char>)
    requires
        pat.len() > 0,
    ensures
        replaced(pat, pat, with) == with,
{
    assert(pat.take(pat.len() as int) =~= pat);
    assert(pat.skip(pat.len() as int) =~= Seq::<char>::empty());
    assert(replaced(Seq::<char>::empty(), pat, with) == Seq::<char>::empty());
    assert(replaced(pat, pat, with) == with + replaced(pat.skip(pat.len() as int), pat, with));
    assert(with + Seq::<char>::empty() =~= with);
}

/// `pat` occurs in `s` at position `i`.
pub(crate) fn matches_at(s: &Vec<char>, i: usize, pat: &Vec<char>) -> (r: bool)
    requires
        i <= s@.len(),
    ensures
        r == (pat@.len() <= s@.len() - i && s@.skip(i as int).take(pat@.len() as int) == pat@),
{
    if pat.len() > s.len() - i {
        return false;
    }
    let mut k: usize = 0;
    while k < pat.len()
        invariant
            i <= s@.len(),
            pat@.len() <= s@.len() - i,
            k <= pat@.len(),
            forall|j: int| 0 <= j < k ==> s@[i + j] == pat@[j],
        decreases pat@.len() - k,
    {
        assert(i + k < s@.len());
        assert(s@.len() == s.len());
        if s[i + k] != pat[k] {
            proof {
                assert(s@.skip(i as int).take(pat@.len() as int)[k as int] != pat@[k as int]);
            }
            return false;
        }
        k = k + 1;
    }
    proof {
        assert(s@.skip(i as int).take(pat@.len() as int) =~= pat@);
    }
    true
}

/// `s` with every match of `pat` replaced by `with`.
pub fn replace_all(s: &str, pat: &str, with: &str) -> (r: String)
    requires
        pat@.len() > 0,
    ensures
        r@ == replaced(s@, pat@, with@),
{
    let cs = chars_of(s);
    let ps = chars_of(pat);
    let n = cs.len();
    let mut out = String::new();
    let mut i: usize = 0;
    proof {
        assert(cs@.skip(0) =~= s@);
    }
    while i < n
        invariant
            n == cs@.len(),
            cs@ == s@,
            ps@ == pat@,
            pat@.len() > 0,
            i <= n,
            out@ + replaced(cs@.skip(i as int), pat@, with@) == replaced(s@, pat@, with@),
        decreases n - i,
    {
        let ghost rest = cs@.skip(i as int);
        if matches_at(&cs, i, &ps) {
            proof {
                assert(rest.skip(pat@.len() as int) =~= cs@.skip(i + pat@.len()));
                assert(out@ + with@ + replaced(cs@.skip(i + pat@.len()), pat@, with@)
                    =~= out@ + (with@ + replaced(rest.skip(pat@.len() as int), pat@, with@)));
            }
            out.append(with);
            i = i + ps.len();
        } else {
            let c = cs[i];
            proof {
                assert(rest[0] == c);
                assert(rest.skip(1) =~= cs@.skip(i + 1));
                assert(out@.push(c) + replaced(cs@.skip(i + 1), pat@, with@)
                    =~= out@ + (seq![c] + replaced(rest.skip(1), pat@, with@)));
            }
            push_char(&mut out, c);
            i = i + 1;
        }
    }
    proof {
        assert(cs@.skip(n as int) =~= Seq::<char>::empty());
        assert(out@ + Seq::<char>::empty() =~= out@);
    }
    out
}

/// `pat` occurs in `s`.
pub open spec fn occurs(s: Seq<char>, pat: Seq<char>) -> bool {
    exists|i: int| 0 <= i <= s.len() - pat.len() && #[trigger] s.skip(i).take(pat.len() as int) == pat
}

/// `pat` occurs in `s`.
pub(crate) fn contains_chars(s: &Vec<char>, pat: &Vec<char>) -> (r: bool)
    ensures
        r == occurs(s@, pat@),
{
    if pat.len() > s.len() {
        return false;
    }
    let last = s.len() - pat.len();
    let mut i: usize = 0;
    while i < last
        invariant
            last == s@.len() - pat@.len(),
            i <= last,
            forall|j: int| 0 <= j < i ==> #[trigger] s@.skip(j).take(pat@.len() as int) != pat@,
        decreases last - i,
    {
        if matches_at(s, i, pat) {
            return true;
        }
        i = i + 1;
    }
    matches_at(s, last, pat)
}

} // verus!
