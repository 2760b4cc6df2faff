use vstd::prelude::*;

verus! {

/// `String::push` appends the given character to the end of the string.
pub assume_specification[ String::push ](s: &mut String, ch: char)
    ensures
        final(s)@ == old(s)@.push(ch),
;

/// `n` copies of one character.
pub open spec fn repeat_char(c: char, n: nat) -> Seq<char> {
    Seq::new(n, |i: int| c)
}

/// Appends `n` copies of `c` to `out`.
pub fn push_repeated(out: &mut String, c: char, n: usize)
    ensures
        final(out)@ == old(out)@ + repeat_char(c, n as nat),
{
    let mut i: usize = 0;
    while i < n
        invariant
            i <= n,
            out@ == old(out)@ + repeat_char(c, i as nat),
        decreases n - i,
    {
        out.push(c);
        i = i + 1;
        assert(out@ =~= old(out)@ + repeat_char(c, i as nat));
    }
}

/// The name as shown: every underscore becomes a space.
pub open spec fn spaced_name(name: Seq<char>) -> Seq<char> {
    name.map_values(|c: char| if c == '_' { ' ' } else { c })
}

/// The characters of `s`, in order.
pub fn chars_of(s: &str) -> (r: Vec<char>)
    ensures
        r@ == s@,
{
    let n = s.unicode_len();
    let mut out: Vec<char> = Vec::new();
    let mut i: usize = 0;
    while i < n
        invariant
            n == s@.len(),
            i <= n,
            out@ == s@.take(i as int),
        decreases n - i,
    {
        let c = s.get_char(i);
        out.push(c);
        i = i + 1;
        assert(out@ =~= s@.take(i as int));
    }
    assert(s@.take(n as int) =~= s@);
    out
}

/// Appends `name` with every underscore turned into a space.
pub fn push_spaced_name(out: &mut String, name: &str)
    ensures
        final(out)@ == old(out)@ + spaced_name(name@),
        final(out)@.len() == old(out)@.len() + name@.len(),
        final(out)@.take(old(out)@.len() as int) == old(out)@,
        forall|i: int|
            0 <= i < name@.len() ==> #[trigger] final(out)@[old(out)@.len() + i] == if name@[i]
                == '_' {
                ' '
            } else {
                name@[i]
            },
{
    let chars = chars_of(name);
    let n = chars.len();
    let mut i: usize = 0;
    while i < n
        invariant
            n == chars@.len(),
            chars@ == name@,
            i <= n,
            out@ == old(out)@ + spaced_name(name@.take(i as int)),
        decreases n - i,
    {
        let c = chars[i];
        if c == '_' {
            out.push(' ');
        } else {
            out.push(c);
        }
        i = i + 1;
        assert(spaced_name(name@.take(i as int)) =~= spaced_name(name@.take(i - 1)).push(
            if c == '_' { ' ' } else { c },
        ));
        assert(out@ =~= old(out)@ + spaced_name(name@.take(i as int)));
    }
    assert(name@.take(n as int) =~= name@);
    assert((old(out)@ + spaced_name(name@)).take(old(out)@.len() as int) =~= old(out)@);
}

/// The name as shown: every underscore becomes a space.
pub fn display_name(name: &str) -> (r: String)
    ensures
        r@ == spaced_name(name@),
        r@.len() == name@.len(),
        forall|i: int|
            0 <= i < name@.len() ==> #[trigger] r@[i] == if name@[i] == '_' {
                ' '
            } else {
                name@[i]
            },
{
    let mut out = String::new();
    push_spaced_name(&mut out, name);
    assert(out@ =~= spaced_name(name@));
    out
}

/// The decimal digit for `d`.
pub open spec fn digit_char(d: nat) -> char {
    if d == 0 {
        '0'
    } else if d == 1 {
        '1'
    } else if d == 2 {
        '2'
    } else if d == 3 {
        '3'
    } else if d == 4 {
        '4'
    } else if d == 5 {
        '5'
    } else if d == 6 {
        '6'
    } else if d == 7 {
        '7'
    } else if d == 8 {
        '8'
    } else {
        '9'
    }
}

/// The decimal writing of `n`, without leading zeros.
pub open spec fn decimal(n: nat) -> Seq<char>
    decreases n,
{
    if n < 10 {
        seq![digit_char(n)]
    } else {
        decimal(n / 10).push(digit_char(n % 10))
    }
}

fn digit(d: u64) -> (c: char)
    requires
        d < 10,
    ensures
        c == digit_char(d as nat),
{
    if d == 0 {
        '0'
    } else if d == 1 {
        '1'
    } else if d == 2 {
        '2'
    } else if d == 3 {
        '3'
    } else if d == 4 {
        '4'
    } else if d == 5 {
        '5'
    } else if d == 6 {
        '6'
    } else if d == 7 {
        '7'
    } else if d == 8 {
        '8'
    } else {
        '9'
    }
}

/// Appends the decimal writing of `n`.
pub fn push_decimal(out: &mut String, n: u64)
    ensures
        final(out)@ == old(out)@ + decimal(n as nat),
    decreases n,
{
    if n >= 10 {
        push_decimal(out, n / 10);
    }
    out.push(digit(n % 10));
    assert(out@ =~= old(out)@ + decimal(n as nat));
}

/// Whether `c` has the Unicode `White_Space` property.
pub open spec fn is_white_space(c: char) -> bool {
    ||| ('\u{9}' <= c && c <= '\u{d}')
    ||| c == ' '
    ||| c == '\u{85}'
    ||| c == '\u{a0}'
    ||| c == '\u{1680}'
    ||| ('\u{2000}' <= c && c <= '\u{200a}')
    ||| c == '\u{2028}'
    ||| c == '\u{2029}'
    ||| c == '\u{202f}'
    ||| c == '\u{205f}'
    ||| c == '\u{3000}'
}

/// Whether `c` has the Unicode `White_Space` property.
pub fn white_space(c: char) -> (r: bool)
    ensures
        r == is_white_space(c),
{
    ('\u{9}' <= c && c <= '\u{d}') || c == ' ' || c == '\u{85}' || c == '\u{a0}' || c
        == '\u{1680}' || ('\u{2000}' <= c && c <= '\u{200a}') || c == '\u{2028}' || c
        == '\u{2029}' || c == '\u{202f}' || c == '\u{205f}' || c == '\u{3000}'
}

/// Whether `c` lies outside the ASCII range.
pub open spec fn is_non_ascii(c: char) -> bool {
    (c as u32) > 0x7f
}

/// Whether `needle` occurs in `hay` as a run of consecutive characters.
pub open spec fn has_infix(hay: Seq<char>, needle: Seq<char>) -> bool {
    exists|i: int|
        0 <= i && i + needle.len() <= hay.len() && #[trigger] hay.subrange(i, i + needle.len())
            == needle
}

/// Whether `needle` occurs in `hay` as a run of consecutive characters.
pub fn contains_infix(hay: &Vec<char>, needle: &Vec<char>) -> (r: bool)
    ensures
        r == has_infix(hay@, needle@),
{
    let h = hay.len();
    let m = needle.len();
    if m > h {
        assert(!has_infix(hay@, needle@));
        return false;
    }
    let mut i: usize = 0;
    while i <= h - m
        invariant
            h == hay@.len(),
            m == needle@.len(),
            m <= h,
            i <= h - m + 1,
            forall|k: int| 0 <= k < i ==> #[trigger] hay@.subrange(k, k + m) != needle@,
        decreases h - m + 1 - i,
    {
        let mut j: usize = 0;
        let mut same = true;
        while j < m
            invariant
                h == hay@.len(),
                m == needle@.len(),
                i + m <= h,
                j <= m,
                same == (forall|l: int| 0 <= l < j ==> hay@[i + l] == needle@[l]),
            decreases m - j,
        {
            if hay[i + j] != needle[j] {
                same = false;
            }
            j = j + 1;
        }
        if same {
            assert(hay@.subrange(i as int, i + m) =~= needle@);
            return true;
        }
        proof {
            if hay@.subrange(i as int, i + m) == needle@ {
                assert forall|l: int| 0 <= l < m implies hay@[i + l] == needle@[l] by {
                    assert(hay@.subrange(i as int, i + m)[l] == hay@[i + l]);
                }
            }
        }
        i = i + 1;
    }
    proof {
        if has_infix(hay@, needle@) {
            let k = choose|k: int|
                0 <= k && k + m <= h && #[trigger] hay@.subrange(k, k + m) == needle@;
            assert(hay@.subrange(k, k + m) != needle@);
        }
    }
    false
}

/// The characters that remain once the leading white space is dropped.
pub open spec fn trim_start_seq(s: Seq<char>) -> Seq<char>
    decreases s.len(),
{
    if s.len() > 0 && is_white_space(s[0]) {
        trim_start_seq(s.drop_first())
    } else {
        s
    }
}

/// Whether the first character that is not white space lies outside ASCII
/// (an icon, for instance).
pub open spec fn starts_with_icon(s: Seq<char>) -> bool {
    let t = trim_start_seq(s);
    t.len() > 0 && is_non_ascii(t[0])
}

proof fn lemma_trim_start_skip(s: Seq<char>, i: int)
    requires
        0 <= i <= s.len(),
        forall|k: int| 0 <= k < i ==> is_white_space(s[k]),
    ensures
        trim_start_seq(s) == trim_start_seq(s.subrange(i, s.len() as int)),
    decreases i,
{
    if i > 0 {
        assert(s.len() > 0 && is_white_space(s[0]));
        let rest = s.drop_first();
        assert forall|k: int| 0 <= k < i - 1 implies is_white_space(rest[k]) by {
            assert(rest[k] == s[k + 1]);
        }
        lemma_trim_start_skip(rest, i - 1);
        assert(rest.subrange(i - 1, rest.len() as int) =~= s.subrange(i, s.len() as int));
    } else {
        assert(s.subrange(0, s.len() as int) =~= s);
    }
}

/// Whether the first character of `s` that is not white space lies outside
/// ASCII (an icon, for instance).
pub fn has_leading_icon(s: &str) -> (r: bool)
    ensures
        r == starts_with_icon(s@),
{
    let chars = chars_of(s);
    let n = chars.len();
    let mut i: usize = 0;
    while i < n && white_space(chars[i])
        invariant
            chars@ == s@,
            n == s@.len(),
            i <= n,
            forall|k: int| 0 <= k < i ==> is_white_space(s@[k]),
        decreases n - i,
    {
        i = i + 1;
    }
    proof {
        lemma_trim_start_skip(s@, i as int);
        let rest = s@.subrange(i as int, s@.len() as int);
        if i < n {
            assert(rest[0] == s@[i as int]);
            assert(!is_white_space(rest[0]));
        } else {
            assert(rest.len() == 0);
        }
    }
    if i < n {
        (chars[i] as u32) > 0x7f
    } else {
        false
    }
}

/// Showing a name changes none of its length and only its underscores:
/// each becomes a space, and every other character, digits among them,
/// stays where it was. No underscore is left, and showing it again changes
/// nothing.
pub proof fn law_spaced_name_shape(name: Seq<char>)
    ensures
        spaced_name(name).len() == name.len(),
        forall|i: int|
            0 <= i < name.len() && name[i] == '_' ==> #[trigger] spaced_name(name)[i] == ' ',
        forall|i: int|
            0 <= i < name.len() && name[i] != '_' ==> #[trigger] spaced_name(name)[i] == name[i],
        !spaced_name(name).contains('_'),
        spaced_name(spaced_name(name)) == spaced_name(name),
{
    assert(spaced_name(spaced_name(name)) =~= spaced_name(name));
}

/// White space before a line does not change whether it starts with an icon.
pub proof fn law_leading_space_is_ignored(s: Seq<char>, c: char)
    requires
        is_white_space(c),
    ensures
        starts_with_icon(seq![c] + s) == starts_with_icon(s),
{
    let t = seq![c] + s;
    assert(t.len() > 0 && is_white_space(t[0]));
    assert(t.drop_first() =~= s);
}

} // verus!
