//! Character-level helpers shared by the menu and configuration logic:
//! ASCII lowercasing, the code-point order of strings, decimal rendering
//! and Unicode white space.
use vstd::prelude::*;
use vstd::string::*;

verus! {

/// `c` with the ASCII letters `A`..=`Z` mapped to `a`..=`z`; every other
/// character is unchanged.
pub open spec fn ascii_lower(c: char) -> char {
    if 'A' <= c && c <= 'Z' {
        ((c as u32) + 32) as char
    } else {
        c
    }
}

/// The ASCII lowercase form of a whole string.
pub open spec fn lower_seq(s: Seq<char>) -> Seq<char> {
    s.map_values(|c: char| ascii_lower(c))
}

/// Lexicographic order by code point from position `i` on, where a proper
/// prefix comes first. On strings this is the order of `String`'s `Ord`
/// (UTF-8 keeps the code-point order byte by byte).
pub open spec fn lex_le_from(a: Seq<char>, b: Seq<char>, i: nat) -> bool
    decreases a.len() - i,
{
    if i >= a.len() {
        true
    } else if i >= b.len() {
        false
    } else if (a[i as int] as u32) < (b[i as int] as u32) {
        true
    } else if (a[i as int] as u32) > (b[i as int] as u32) {
        false
    } else {
        lex_le_from(a, b, i + 1)
    }
}

/// `a` comes no later than `b` in the code-point order of strings.
pub open spec fn lex_le(a: Seq<char>, b: Seq<char>) -> bool {
    lex_le_from(a, b, 0)
}

/// The code-point order is total.
pub proof fn lemma_lex_total(a: Seq<char>, b: Seq<char>, i: nat)
    ensures
        lex_le_from(a, b, i) || lex_le_from(b, a, i),
    decreases a.len() - i,
{
    if i < a.len() && i < b.len() && (a[i as int] as u32) == (b[i as int] as u32) {
        lemma_lex_total(a, b, i + 1);
    }
}

/// The code-point order is transitive.
pub proof fn lemma_lex_trans(a: Seq<char>, b: Seq<char>, c: Seq<char>, i: nat)
    requires
        lex_le_from(a, b, i),
        lex_le_from(b, c, i),
    ensures
        lex_le_from(a, c, i),
    decreases a.len() - i,
{
    if i < a.len() && i < b.len() && i < c.len() && (a[i as int] as u32) == (b[i as int] as u32)
        && (b[i as int] as u32) == (c[i as int] as u32) {
        lemma_lex_trans(a, b, c, i + 1);
    }
}

/// The code-point order is reflexive.
pub proof fn lemma_lex_refl(a: Seq<char>, i: nat)
    ensures
        lex_le_from(a, a, i),
    decreases a.len() - i,
{
    if i < a.len() {
        lemma_lex_refl(a, i + 1);
    }
}

/// From position `j` on, with `a` and `b` agreeing before position `i`
/// (`j <= i`), the order is decided at `i`.
proof fn lemma_lex_decided_at(a: Seq<char>, b: Seq<char>, i: nat, j: nat)
    requires
        j <= i,
        i <= a.len(),
        i <= b.len(),
        forall|k: int| j <= k < i ==> a[k] == b[k],
    ensures
        lex_le_from(a, b, j) == lex_le_from(a, b, i),
        lex_le_from(b, a, j) == lex_le_from(b, a, i),
    decreases i - j,
{
    if j < i {
        lemma_lex_decided_at(a, b, i, j + 1);
    }
}

/// The code-point order of strings is plain lexicographic order: a prefix
/// comes no later than any string it begins, a string never comes before
/// its own proper prefix, and otherwise the first differing character
/// decides, whatever follows it.
pub proof fn lemma_lex_is_lexicographic(a: Seq<char>, b: Seq<char>, i: nat)
    requires
        i <= a.len(),
        i <= b.len(),
        forall|k: int| 0 <= k < i ==> a[k] == b[k],
    ensures
        i == a.len() ==> lex_le(a, b),
        i == b.len() && i < a.len() ==> !lex_le(a, b),
        i < a.len() && i < b.len() && (a[i as int] as u32) < (b[i as int] as u32) ==> lex_le(a, b)
            && !lex_le(b, a),
{
    lemma_lex_decided_at(a, b, i, 0);
}

/// ASCII lowercase of one character.
pub fn lower_char(c: char) -> (r: char)
    ensures
        r == ascii_lower(c),
{
    if 'A' <= c && c <= 'Z' {
        ((c as u8) + 32) as char
    } else {
        c
    }
}

/// The characters of `s` in ASCII lowercase: the key by which player names
/// are ordered.
pub fn lowercase_chars(s: &str) -> (r: Vec<char>)
    ensures
        r@ == lower_seq(s@),
{
    let mut r: Vec<char> = Vec::new();
    for c in it: s.chars()
        invariant
            it.seq() == s@,
            r@ =~= lower_seq(s@.take(it.index() as int)),
    {
        r.push(lower_char(c));
        assert(s@.take(it.index() + 1) =~= s@.take(it.index() as int).push(c));
    }
    assert(s@.take(s@.len() as int) =~= s@);
    r
}

/// Whether `a` comes no later than `b` in the code-point order.
pub fn lex_le_chars(a: &Vec<char>, b: &Vec<char>) -> (r: bool)
    ensures
        r == lex_le(a@, b@),
{
    let mut i: usize = 0;
    while i < a.len()
        invariant
            i <= a.len(),
            lex_le(a@, b@) == lex_le_from(a@, b@, i as nat),
        decreases a.len() - i,
    {
        if i >= b.len() {
            return false;
        }
        let x = a[i] as u32;
        let y = b[i] as u32;
        if x < y {
            return true;
        }
        if x > y {
            return false;
        }
        i = i + 1;
    }
    true
}

/// The key by which a player name is ordered in the menus.
pub open spec fn name_key(name: String) -> Seq<char> {
    lower_seq(name@)
}

/// `names` is ordered by the ASCII-lowercased code-point order.
pub open spec fn sorted_case_insensitive(names: Seq<String>) -> bool {
    forall|i: int, j: int|
        0 <= i < j < names.len() ==> lex_le(name_key(#[trigger] names[i]), name_key(#[trigger] names[j]))
}

/// The names rearranged into ASCII-case-insensitive code-point order.
/// Names whose keys are equal may come in either order.
pub fn sort_case_insensitive(names: &Vec<String>) -> (r: Vec<String>)
    ensures
        r@.to_multiset() == names@.to_multiset(),
        sorted_case_insensitive(r@),
{
    let mut out: Vec<String> = Vec::new();
    let mut keys: Vec<Vec<char>> = Vec::new();
    let mut i: usize = 0;
    assert(out@ =~= names@.take(0));
    while i < names.len()
        invariant
            i <= names.len(),
            keys@.len() == out@.len(),
            forall|k: int| 0 <= k < out@.len() ==> (#[trigger] keys@[k])@ == name_key(out@[k]),
            out@.to_multiset() == names@.take(i as int).to_multiset(),
            sorted_case_insensitive(out@),
        decreases names.len() - i,
    {
        let name = names[i].clone();
        let key = lowercase_chars(name.as_str());
        let mut j: usize = 0;
        while j < out.len() && lex_le_chars(&keys[j], &key)
            invariant
                j <= out@.len(),
                keys@.len() == out@.len(),
                forall|k: int| 0 <= k < out@.len() ==> (#[trigger] keys@[k])@ == name_key(out@[k]),
                key@ == name_key(name),
                forall|k: int| 0 <= k < j ==> lex_le(name_key(#[trigger] out@[k]), key@),
            decreases out@.len() - j,
        {
            j = j + 1;
        }
        proof {
            if j < out@.len() {
                lemma_lex_total(keys@[j as int]@, key@, 0);
                assert forall|k: int| j <= k < out@.len() implies lex_le(key@, name_key(#[trigger] out@[k])) by {
                    if k > j {
                        lemma_lex_trans(key@, name_key(out@[j as int]), name_key(out@[k]), 0);
                    }
                }
            }
            vstd::seq_lib::to_multiset_insert(out@, j as int, name);
            vstd::seq_lib::to_multiset_build(names@.take(i as int), names@[i as int]);
            assert(names@.take(i + 1) =~= names@.take(i as int).push(names@[i as int]));
        }
        let ghost old_out = out@;
        out.insert(j, name);
        keys.insert(j, key);
        proof {
            assert forall|a: int, b: int| 0 <= a < b < out@.len() implies lex_le(
                name_key(#[trigger] out@[a]),
                name_key(#[trigger] out@[b]),
            ) by {
                if a < j && b > j {
                    lemma_lex_trans(name_key(out@[a]), key@, name_key(out@[b]), 0);
                }
            }
        }
        i = i + 1;
    }
    assert(names@.take(names@.len() as int) =~= names@);
    out
}

/// The decimal digit `d` (below ten) as a character.
pub open spec fn digit_char(d: nat) -> char {
    ((d + 48) as u32) as char
}

/// The decimal representation of `n`, without sign or leading zeros.
pub open spec fn decimal(n: nat) -> Seq<char>
    decreases n,
{
    if n < 10 {
        seq![digit_char(n)]
    } else {
        decimal(n / 10).push(digit_char(n % 10))
    }
}

/// The number that a string of decimal digits denotes.
pub open spec fn digits_value(s: Seq<char>) -> nat
    decreases s.len(),
{
    if s.len() == 0 {
        0
    } else {
        digits_value(s.drop_last()) * 10 + ((s.last() as u32) - 48) as nat
    }
}

/// `c` is one of `0`..=`9`.
pub open spec fn is_digit(c: char) -> bool {
    48 <= (c as u32) <= 57
}

/// The decimal form of `n` is a numeral for `n`: at least one digit, only
/// digits, no leading zero unless `n` is zero, and read in base ten it
/// gives back `n`.
pub proof fn lemma_decimal_is_numeral(n: nat)
    ensures
        decimal(n).len() >= 1,
        forall|i: int| 0 <= i < decimal(n).len() ==> is_digit(#[trigger] decimal(n)[i]),
        n != 0 ==> decimal(n)[0] != '0',
        digits_value(decimal(n)) == n,
    decreases n,
{
    assert(((n % 10 + 48) as u32) as char as u32 == (n % 10 + 48) as u32);
    if n < 10 {
        assert(decimal(n) == seq![digit_char(n)]);
        assert(decimal(n).drop_last() =~= Seq::<char>::empty());
        assert(((n + 48) as u32) as char as u32 == (n + 48) as u32);
        if n != 0 {
            assert(decimal(n)[0] as u32 != 48);
        }
        assert(digits_value(decimal(n)) == digits_value(Seq::<char>::empty()) * 10 + ((decimal(n).last() as u32) - 48) as nat);
    } else {
        lemma_decimal_is_numeral(n / 10);
        let d = decimal(n / 10);
        assert(decimal(n) == d.push(digit_char(n % 10)));
        assert(decimal(n).drop_last() =~= d);
        assert(n == (n / 10) * 10 + n % 10) by (nonlinear_arith);
        assert(n / 10 != 0);
        assert forall|i: int| 0 <= i < decimal(n).len() implies is_digit(#[trigger] decimal(n)[i]) by {
            if i < d.len() {
                assert(decimal(n)[i] == d[i]);
            }
        }
        assert(decimal(n)[0] == d[0]);
        let last = digit_char(n % 10);
        assert(decimal(n).last() == last);
        assert(((last as u32) - 48) as nat == n % 10);
        assert(digits_value(decimal(n)) == digits_value(d) * 10 + ((last as u32) - 48) as nat);
        assert(digits_value(d) * 10 == (n / 10) * 10);
    }
}

fn digit_str(d: u64) -> (r: &'static str)
    requires
        d < 10,
    ensures
        r@ == seq![digit_char(d as nat)],
{
    proof {
        reveal_strlit("0");
        reveal_strlit("1");
        reveal_strlit("2");
        reveal_strlit("3");
        reveal_strlit("4");
        reveal_strlit("5");
        reveal_strlit("6");
        reveal_strlit("7");
        reveal_strlit("8");
        reveal_strlit("9");
    }
    match d {
        0 => "0",
        1 => "1",
        2 => "2",
        3 => "3",
        4 => "4",
        5 => "5",
        6 => "6",
        7 => "7",
        8 => "8",
        _ => "9",
    }
}

/// Appends the decimal representation of `n` to `out`.
pub fn push_decimal(out: &mut String, n: u64)
    ensures
        final(out)@ == old(out)@ + decimal(n as nat),
    decreases n,
{
    if n >= 10 {
        push_decimal(out, n / 10);
    }
    out.append(digit_str(n % 10));
    assert(decimal(n as nat) == if n < 10 {
        seq![digit_char(n as nat)]
    } else {
        decimal((n / 10) as nat).push(digit_char((n % 10) as nat))
    });
}

/// Unicode `White_Space` (the characters that `char::is_whitespace`
/// accepts and `str::trim` removes).
pub open spec fn is_white_space(c: char) -> bool {
    let u = c as u32;
    ||| 0x09 <= u <= 0x0D
    ||| u == 0x20
    ||| u == 0x85
    ||| u == 0xA0
    ||| u == 0x1680
    ||| 0x2000 <= u <= 0x200A
    ||| u == 0x2028
    ||| u == 0x2029
    ||| u == 0x202F
    ||| u == 0x205F
    ||| u == 0x3000
}

/// Whether `c` is Unicode white space.
pub fn white_space(c: char) -> (r: bool)
    ensures
        r == is_white_space(c),
{
    let u = c as u32;
    (0x09 <= u && u <= 0x0D) || u == 0x20 || u == 0x85 || u == 0xA0 || u == 0x1680 || (0x2000 <= u
        && u <= 0x200A) || u == 0x2028 || u == 0x2029 || u == 0x202F || u == 0x205F || u == 0x3000
}

/// The index of the first character at or after `i` that is not white
/// space, or the length when there is none.
pub open spec fn first_kept(s: Seq<char>, i: nat) -> nat
    decreases s.len() - i,
{
    if i < s.len() && is_white_space(s[i as int]) {
        first_kept(s, i + 1)
    } else {
        i
    }
}

/// One past the last character before `j` that is not white space, or 0
/// when there is none.
pub open spec fn end_kept(s: Seq<char>, j: nat) -> nat
    decreases j,
{
    if 0 < j <= s.len() && is_white_space(s[j - 1]) {
        end_kept(s, (j - 1) as nat)
    } else {
        j
    }
}

/// `s` without its leading and trailing white space, as `str::trim` gives it.
pub open spec fn trim_seq(s: Seq<char>) -> Seq<char> {
    let a = first_kept(s, 0);
    let b = end_kept(s, s.len());
    if a < b {
        s.subrange(a as int, b as int)
    } else {
        Seq::empty()
    }
}

proof fn lemma_first_kept(s: Seq<char>, i: nat)
    requires
        i <= s.len(),
    ensures
        i <= first_kept(s, i) <= s.len(),
        forall|k: int| i <= k < first_kept(s, i) ==> is_white_space(#[trigger] s[k]),
        first_kept(s, i) < s.len() ==> !is_white_space(s[first_kept(s, i) as int]),
    decreases s.len() - i,
{
    if i < s.len() && is_white_space(s[i as int]) {
        lemma_first_kept(s, i + 1);
    }
}

proof fn lemma_end_kept(s: Seq<char>, j: nat)
    requires
        j <= s.len(),
    ensures
        end_kept(s, j) <= j,
        forall|k: int| end_kept(s, j) <= k < j ==> is_white_space(#[trigger] s[k]),
        end_kept(s, j) > 0 ==> !is_white_space(s[end_kept(s, j) - 1]),
    decreases j,
{
    if 0 < j && is_white_space(s[j - 1]) {
        lemma_end_kept(s, (j - 1) as nat);
    }
}

/// Trimming cuts `s` into white space, the trimmed text, and white space:
/// the trimmed text neither starts nor ends with white space, and it is
/// empty exactly when `s` holds nothing but white space.
pub proof fn lemma_trim_shape(s: Seq<char>)
    ensures
        exists|a: int, b: int|
            {
                &&& 0 <= a <= b <= s.len()
                &&& trim_seq(s) == s.subrange(a, b)
                &&& forall|k: int| 0 <= k < a ==> is_white_space(#[trigger] s[k])
                &&& forall|k: int| b <= k < s.len() ==> is_white_space(#[trigger] s[k])
                &&& a < b ==> !is_white_space(s[a]) && !is_white_space(s[b - 1])
            },
        trim_seq(s).len() == 0 <==> forall|k: int| 0 <= k < s.len() ==> is_white_space(#[trigger] s[k]),
{
    lemma_first_kept(s, 0);
    lemma_end_kept(s, s.len());
    let a = first_kept(s, 0);
    let b = end_kept(s, s.len());
    if a < b {
        assert(trim_seq(s).len() > 0);
        assert(!is_white_space(s[a as int]));
        assert(0 <= a <= b <= s.len() && trim_seq(s) == s.subrange(a as int, b as int));
    } else {
        assert forall|k: int| 0 <= k < s.len() implies is_white_space(#[trigger] s[k]) by {
            if k >= a {
                assert(k >= b);
            }
        }
        assert(trim_seq(s) =~= s.subrange(a as int, a as int));
        assert(0 <= a <= a <= s.len());
        assert(forall|k: int| a <= k < s.len() ==> is_white_space(#[trigger] s[k]));
    }
}

/// `s` without its leading and trailing white space.
pub fn trim_white_space(s: &str) -> (r: &str)
    ensures
        r@ == trim_seq(s@),
{
    let n = s.unicode_len();
    let mut a: usize = 0;
    while a < n && white_space(s.get_char(a))
        invariant
            n == s@.len(),
            a <= n,
            first_kept(s@, 0) == first_kept(s@, a as nat),
        decreases n - a,
    {
        a = a + 1;
    }
    let mut b: usize = n;
    while b > 0 && white_space(s.get_char(b - 1))
        invariant
            n == s@.len(),
            b <= n,
            end_kept(s@, n as nat) == end_kept(s@, b as nat),
        decreases b,
    {
        b = b - 1;
    }
    if a < b {
        s.substring_char(a, b)
    } else {
        proof {
            reveal_strlit("");
        }
        ""
    }
}

/// Whether `s` is empty once trimmed, i.e. `s.trim().is_empty()`.
pub fn is_blank(s: &str) -> (r: bool)
    ensures
        r == (trim_seq(s@).len() == 0),
{
    let t = trim_white_space(s);
    t.unicode_len() == 0
}

} // verus!
