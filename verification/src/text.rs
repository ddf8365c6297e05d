//! Character-level utilities shared by the command builders and the frame
//! parser: decimal rendering of integers, newline stripping, and splitting
//! a line into space-separated tokens.

use vstd::prelude::*;

verus! {

/// Relies on String::push: appends exactly one character to the string.
#[verifier::external_body]
pub(crate) fn push_char(s: &mut String, c: char)
    ensures
        final(s)@ == old(s)@.push(c),
{
    s.push(c);
}

/// The character for one decimal digit.
pub open spec fn dec_digit(d: nat) -> char {
    if d == 0 {
        '0'
    } else if d == 1 {
        '1'
    } else if d == 2 {
        '2'
    } else if d == 3 {
        '3'
    } else if d == 4 {
        '4'
    } else if d == 5 {
        '5'
    } else if d == 6 {
        '6'
    } else if d == 7 {
        '7'
    } else if d == 8 {
        '8'
    } else {
        '9'
    }
}

/// The usual decimal rendering of `n`, most significant digit first.
pub open spec fn dec_chars(n: nat) -> Seq<char>
    decreases n,
{
    if n < 10 {
        seq![dec_digit(n)]
    } else {
        dec_chars(n / 10).push(dec_digit(n % 10))
    }
}

fn dec_digit_exec(d: u64) -> (c: char)
    requires
        d < 10,
    ensures
        c == dec_digit(d as nat),
{
    if d == 0 {
        '0'
    } else if d == 1 {
        '1'
    } else if d == 2 {
        '2'
    } else if d == 3 {
        '3'
    } else if d == 4 {
        '4'
    } else if d == 5 {
        '5'
    } else if d == 6 {
        '6'
    } else if d == 7 {
        '7'
    } else if d == 8 {
        '8'
    } else {
        '9'
    }
}

/// Renders `n` in decimal.
pub fn u64_to_string(n: u64) -> (r: String)
    ensures
        r@ == dec_chars(n as nat),
    decreases n,
{
    if n < 10 {
        let mut s = String::new();
        push_char(&mut s, dec_digit_exec(n));
        proof {
            assert(s@ =~= dec_chars(n as nat));
        }
        s
    } else {
        let mut s = u64_to_string(n / 10);
        push_char(&mut s, dec_digit_exec(n % 10));
        proof {
            assert(s@ =~= dec_chars(n as nat));
        }
        s
    }
}

/// `s` with every newline removed, as the reply parser sees a line.
pub open spec fn strip_newlines(s: Seq<char>) -> Seq<char>
    decreases s.len(),
{
    if s.len() == 0 {
        Seq::empty()
    } else if s.last() == '\n' {
        strip_newlines(s.drop_last())
    } else {
        strip_newlines(s.drop_last()).push(s.last())
    }
}

/// `s` split at every single space, the way the wire protocol separates
/// tokens: consecutive spaces yield empty tokens and the empty sequence
/// yields one empty token.
pub open spec fn split_spaces(s: Seq<char>) -> Seq<Seq<char>>
    decreases s.len(),
{
    if s.len() == 0 {
        seq![Seq::<char>::empty()]
    } else {
        let rest = split_spaces(s.drop_first());
        if s[0] == ' ' {
            seq![Seq::<char>::empty()] + rest
        } else {
            seq![seq![s[0]] + rest[0]] + rest.drop_first()
        }
    }
}

/// Splitting always yields at least one token.
pub proof fn lemma_split_spaces_len(s: Seq<char>)
    ensures
        split_spaces(s).len() >= 1,
    decreases s.len(),
{
    if s.len() > 0 {
        lemma_split_spaces_len(s.drop_first());
    }
}

/// The position of the first occurrence of `c` in `s`, or -1 if there is
/// none.
pub open spec fn find_char(s: Seq<char>, c: char) -> int
    decreases s.len(),
{
    if s.len() == 0 {
        -1
    } else if s[0] == c {
        0
    } else if find_char(s.drop_first(), c) == -1 {
        -1
    } else {
        find_char(s.drop_first(), c) + 1
    }
}

/// A sequence without `c` has no first occurrence of it.
pub proof fn lemma_find_char_none(s: Seq<char>, c: char)
    requires
        forall|i: int| 0 <= i < s.len() ==> s[i] != c,
    ensures
        find_char(s, c) == -1,
    decreases s.len(),
{
    if s.len() > 0 {
        assert(forall|i: int| 0 <= i < s.drop_first().len() ==> s.drop_first()[i] != c);
        lemma_find_char_none(s.drop_first(), c);
    }
}

/// The first occurrence of `c` is the position carrying `c` with none
/// before it.
pub proof fn lemma_find_char_at(s: Seq<char>, c: char, k: int)
    requires
        0 <= k < s.len(),
        s[k] == c,
        forall|i: int| 0 <= i < k ==> s[i] != c,
    ensures
        find_char(s, c) == k,
    decreases s.len(),
{
    if k > 0 {
        assert(s.drop_first()[k - 1] == c);
        assert(forall|i: int| 0 <= i < k - 1 ==> s.drop_first()[i] != c);
        lemma_find_char_at(s.drop_first(), c, k - 1);
    }
}

/// The complete lines in `s`: every maximal segment that is terminated by
/// a newline.  What follows the last newline is not a complete line.
pub open spec fn complete_lines(s: Seq<char>) -> Seq<Seq<char>>
    decreases s.len(),
{
    let i = find_char(s, '\n');
    if 0 <= i < s.len() {
        seq![s.take(i)] + complete_lines(s.skip(i + 1))
    } else {
        Seq::empty()
    }
}

/// What remains of `s` after its last complete line.
pub open spec fn line_rest(s: Seq<char>) -> Seq<char>
    decreases s.len(),
{
    let i = find_char(s, '\n');
    if 0 <= i < s.len() {
        line_rest(s.skip(i + 1))
    } else {
        s
    }
}

/// Compares two strings character by character.
pub fn str_eq(a: &str, b: &str) -> (r: bool)
    ensures
        r == (a@ == b@),
{
    let n = a.unicode_len();
    let m = b.unicode_len();
    if n != m {
        return false;
    }
    let mut i: usize = 0;
    while i < n
        invariant
            n == a@.len(),
            n == b@.len(),
            0 <= i <= n,
            forall|j: int| 0 <= j < i ==> a@[j] == b@[j],
        decreases n - i,
    {
        if a.get_char(i) != b.get_char(i) {
            return false;
        }
        i = i + 1;
    }
    proof {
        assert(a@ =~= b@);
    }
    true
}

/// Removes every newline from `s`.
pub fn strip_nl(s: &str) -> (out: String)
    ensures
        out@ == strip_newlines(s@),
{
    let n = s.unicode_len();
    let mut out = String::new();
    let mut i: usize = 0;
    while i < n
        invariant
            n == s@.len(),
            0 <= i <= n,
            out@ == strip_newlines(s@.take(i as int)),
        decreases n - i,
    {
        let c = s.get_char(i);
        proof {
            assert(s@.take(i + 1).drop_last() =~= s@.take(i as int));
            assert(s@.take(i + 1).last() == s@[i as int]);
        }
        if c != '\n' {
            push_char(&mut out, c);
        }
        i = i + 1;
    }
    proof {
        assert(s@.take(n as int) =~= s@);
    }
    out
}

/// Splits `s` at every single space.
pub fn tokenize(s: &str) -> (toks: Vec<String>)
    ensures
        toks@.map_values(|t: String| t@) == split_spaces(s@),
{
    let n = s.unicode_len();
    let mut toks: Vec<String> = Vec::new();
    let mut cur = String::new();
    let mut i: usize = 0;
    proof {
        lemma_split_spaces_len(s@);
        assert(s@.skip(0) =~= s@);
        assert(toks@.map_values(|t: String| t@) =~= Seq::<Seq<char>>::empty());
        assert(cur@ + split_spaces(s@)[0] =~= split_spaces(s@)[0]);
        assert(split_spaces(s@) =~= toks@.map_values(|t: String| t@) + seq![
            cur@ + split_spaces(s@.skip(0))[0],
        ] + split_spaces(s@.skip(0)).drop_first());
    }
    while i < n
        invariant
            n == s@.len(),
            0 <= i <= n,
            split_spaces(s@) == toks@.map_values(|t: String| t@) + seq![
                cur@ + split_spaces(s@.skip(i as int))[0],
            ] + split_spaces(s@.skip(i as int)).drop_first(),
        decreases n - i,
    {
        let c = s.get_char(i);
        proof {
            lemma_split_spaces_len(s@.skip(i + 1));
            assert(s@.skip(i as int).drop_first() =~= s@.skip(i + 1));
            assert(s@.skip(i as int)[0] == s@[i as int]);
        }
        if c == ' ' {
            let ghost old_toks = toks@;
            let ghost old_cur = cur@;
            toks.push(cur);
            cur = String::new();
            proof {
                assert(toks@.map_values(|t: String| t@) =~= old_toks.map_values(|t: String| t@)
                    + seq![old_cur]);
                assert(old_cur + split_spaces(s@.skip(i as int))[0] =~= old_cur);
                assert(split_spaces(s@) =~= toks@.map_values(|t: String| t@) + seq![
                    cur@ + split_spaces(s@.skip(i + 1))[0],
                ] + split_spaces(s@.skip(i + 1)).drop_first());
            }
        } else {
            let ghost old_cur = cur@;
            push_char(&mut cur, c);
            proof {
                assert(old_cur + (seq![s@[i as int]] + split_spaces(s@.skip(i + 1))[0]) =~= cur@
                    + split_spaces(s@.skip(i + 1))[0]);
                assert(split_spaces(s@) =~= toks@.map_values(|t: String| t@) + seq![
                    cur@ + split_spaces(s@.skip(i + 1))[0],
                ] + split_spaces(s@.skip(i + 1)).drop_first());
            }
        }
        i = i + 1;
    }
    proof {
        assert(s@.skip(n as int) =~= Seq::<char>::empty());
        assert(cur@ + split_spaces(s@.skip(n as int))[0] =~= cur@);
    }
    let ghost old_toks = toks@;
    let ghost old_cur = cur@;
    toks.push(cur);
    proof {
        assert(toks@.map_values(|t: String| t@) =~= old_toks.map_values(|t: String| t@) + seq![
            old_cur,
        ]);
        assert(toks@.map_values(|t: String| t@) =~= split_spaces(s@));
    }
    toks
}

} // verus!
