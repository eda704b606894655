//! Text helpers used to render queue entries, durations and replies:
//! decimal formatting, capitalization, chopping long titles to a display
//! width, escaping markup characters, and reading time spans like `2h 30m`.

use vstd::prelude::*;
use vstd::string::StringExecFns;

verus! {

/// Relies on `String::push`: appends the character to the end of the string.
#[verifier::external_body]
pub fn push_char(s: &mut String, c: char)
    ensures
        final(s)@ == old(s)@.push(c),
{
    s.push(c);
}

/// The uppercase mapping of a character, as Unicode defines it; it can be
/// more than one character long.
pub uninterp spec fn upper_of(c: char) -> Seq<char>;

/// Relies on `char::to_uppercase`: yields the character's full Unicode
/// uppercase mapping, one or more characters, depending on nothing but the
/// character itself.
#[verifier::external_body]
fn char_to_upper(c: char) -> (r: String)
    ensures
        r@ == upper_of(c),
        r@.len() >= 1,
{
    c.to_uppercase().collect::<String>()
}

/// Whether a character counts as whitespace, as Unicode defines it.
pub uninterp spec fn is_space(c: char) -> bool;

/// Relies on `char::is_whitespace`: whether the character has the Unicode
/// whitespace property, a function of the character alone.
#[verifier::external_body]
pub(crate) fn char_is_whitespace(c: char) -> (r: bool)
    ensures
        r == is_space(c),
{
    c.is_whitespace()
}

/// The decimal digit `d` as a character.
pub open spec fn dec_digit(d: int) -> char
    recommends
        0 <= d <= 9,
{
    ((48 + d) as u8) as char
}

/// The decimal notation of `n`, most significant digit first, no padding.
pub open spec fn dec_str(n: nat) -> Seq<char>
    decreases n,
{
    if n < 10 {
        seq![dec_digit(n as int)]
    } else {
        dec_str(n / 10).push(dec_digit((n % 10) as int))
    }
}

fn digit_char(d: u64) -> (c: char)
    requires
        d <= 9,
    ensures
        c == dec_digit(d as int),
{
    (48 + d as u8) as char
}

/// `n` in decimal notation.
pub fn format_u64(n: u64) -> (r: String)
    ensures
        r@ == dec_str(n as nat),
    decreases n,
{
    if n < 10 {
        let mut s = String::new();
        push_char(&mut s, digit_char(n));
        s
    } else {
        let mut s = format_u64(n / 10);
        push_char(&mut s, digit_char(n % 10));
        s
    }
}

/// The characters of `s`, in order, as a vector.
pub fn chars_of(s: &str) -> (r: Vec<char>)
    ensures
        r@ == s@,
{
    let mut out: Vec<char> = Vec::new();
    for c in it: s.chars()
        invariant
            it.seq() == s@,
            out@ == it.seq().take(it.index()),
    {
        out.push(c);
        proof {
            assert(it.seq().take(it.index()).push(c) =~= it.seq().take(it.index() + 1));
        }
    }
    proof {
        assert(s@.take(s@.len() as int) =~= s@);
    }
    out
}

/// `total` seconds rendered as `1D 2h 3m 4s`, leaving out every leading
/// part that is zero, the seconds always shown.
pub open spec fn spec_format_seconds(total: nat) -> Seq<char> {
    let d = total / 86400;
    let h = (total / 3600) % 24;
    let m = (total % 3600) / 60;
    let s = (total % 3600) % 60;
    let out0 = dec_str(s) + "s"@;
    let out1 = if m != 0 {
        dec_str(m) + "m "@ + out0
    } else {
        out0
    };
    let out2 = if h != 0 {
        dec_str(h) + "h "@ + out1
    } else {
        out1
    };
    if d != 0 {
        dec_str(d) + "D "@ + out2
    } else {
        out2
    }
}

/// A number of seconds as days, hours, minutes and seconds.
pub fn format_seconds(seconds: u64) -> (r: String)
    ensures
        r@ == spec_format_seconds(seconds as nat),
{
    let d = seconds / 86400;
    let h = seconds / 3600 % 24;
    let m = seconds % 3600 / 60;
    let s = seconds % 3600 % 60;
    let mut out = String::new();
    if d != 0 {
        out.append(format_u64(d).as_str());
        out.append("D ");
    }
    if h != 0 {
        out.append(format_u64(h).as_str());
        out.append("h ");
    }
    if m != 0 {
        out.append(format_u64(m).as_str());
        out.append("m ");
    }
    out.append(format_u64(s).as_str());
    out.append("s");
    proof {
        assert(out@ =~= spec_format_seconds(seconds as nat));
    }
    out
}

/// `n` in decimal, zero-padded on the left to at least two digits.
pub open spec fn pad2(n: nat) -> Seq<char> {
    if n < 10 {
        seq!['0'] + dec_str(n)
    } else {
        dec_str(n)
    }
}

fn pad2_exec(n: u64) -> (r: String)
    ensures
        r@ == pad2(n as nat),
{
    let mut s = String::new();
    if n < 10 {
        push_char(&mut s, '0');
    }
    s.append(format_u64(n).as_str());
    proof {
        assert(s@ =~= pad2(n as nat));
    }
    s
}

/// A length in milliseconds as `HH:MM:SS`, or `MM:SS` under an hour.
pub open spec fn spec_display_time_span(millis: nat) -> Seq<char> {
    let hours = millis / 3600000;
    let minutes = (millis / 60000) % 60;
    let seconds = (millis / 1000) % 60;
    if millis >= 3600000 {
        pad2(hours) + ":"@ + pad2(minutes) + ":"@ + pad2(seconds)
    } else {
        pad2(minutes) + ":"@ + pad2(seconds)
    }
}

/// A track length in milliseconds as a clock-style time span.
pub fn display_time_span(millis: u64) -> (r: String)
    ensures
        r@ == spec_display_time_span(millis as nat),
{
    let mut out = String::new();
    if millis >= 3600000 {
        out.append(pad2_exec(millis / 3600000).as_str());
        out.append(":");
    }
    out.append(pad2_exec(millis / 60000 % 60).as_str());
    out.append(":");
    out.append(pad2_exec(millis / 1000 % 60).as_str());
    proof {
        assert(out@ =~= spec_display_time_span(millis as nat));
    }
    out
}

/// A track's length for display: its seconds rendered as a time span, or
/// `Live` for a live stream (no length, or a zero length).
pub fn format_duration(duration_millis: Option<u64>) -> (r: String)
    ensures
        match duration_millis {
            Some(ms) => (ms == 0 ==> r@ == "Live"@) && (ms != 0 ==> r@ == spec_format_seconds(
                (ms / 1000) as nat,
            )),
            None => r@ == "Live"@,
        },
{
    match duration_millis {
        Some(ms) => {
            if ms != 0 {
                format_seconds(ms / 1000)
            } else {
                "Live".to_owned()
            }
        },
        None => "Live".to_owned(),
    }
}

/// The input with the Unicode uppercase mapping of its first character in
/// front of the unchanged remainder; empty input stays empty.
pub fn capitalize_first(input: &str) -> (r: String)
    ensures
        input@.len() == 0 ==> r@.len() == 0,
        input@.len() > 0 ==> r@ == upper_of(input@[0]) + input@.drop_first(),
{
    let v = chars_of(input);
    if v.len() == 0 {
        return String::new();
    }
    let mut out = char_to_upper(v[0]);
    let n = v.len();
    for i in 1..n
        invariant
            v@ == input@,
            n == v@.len(),
            1 <= i <= n,
            out@ == upper_of(input@[0]) + input@.subrange(1, i as int),
    {
        push_char(&mut out, v[i]);
        proof {
            assert((upper_of(input@[0]) + input@.subrange(1, i as int)).push(input@[i as int])
                =~= upper_of(input@[0]) + input@.subrange(1, i + 1));
        }
    }
    proof {
        assert(input@.subrange(1, input@.len() as int) =~= input@.drop_first());
    }
    out
}

/// The first `max_chars` characters of `s`; all of `s` when it is shorter.
pub fn shorten(s: &str, max_chars: usize) -> (r: String)
    ensures
        s@.len() <= max_chars ==> r@ == s@,
        s@.len() > max_chars ==> r@ == s@.take(max_chars as int),
{
    let v = chars_of(s);
    let n = if v.len() < max_chars {
        v.len()
    } else {
        max_chars
    };
    let mut out = String::new();
    for i in 0..n
        invariant
            v@ == s@,
            n <= v@.len(),
            out@ == s@.take(i as int),
    {
        push_char(&mut out, v[i]);
        proof {
            assert(s@.take(i as int).push(s@[i as int]) =~= s@.take(i + 1));
        }
    }
    proof {
        if s@.len() <= max_chars {
            assert(s@.take(s@.len() as int) =~= s@);
        }
    }
    out
}

/// The escaping of one character for chat markup: markup characters get a
/// backslash in front; square brackets, which a backslash cannot escape,
/// become similar-looking bracket characters.
pub open spec fn escape_char(c: char) -> Seq<char> {
    if c == '\\' || c == '_' || c == '*' || c == '~' || c == '`' || c == '|' {
        seq!['\\', c]
    } else if c == '[' {
        seq!['⁅']
    } else if c == ']' {
        seq!['⁆']
    } else {
        seq![c]
    }
}

/// `s` with every character escaped for chat markup.
pub open spec fn escaped(s: Seq<char>) -> Seq<char>
    decreases s.len(),
{
    if s.len() == 0 {
        Seq::empty()
    } else {
        escape_char(s[0]) + escaped(s.drop_first())
    }
}

proof fn lemma_escaped_push(s: Seq<char>, c: char)
    ensures
        escaped(s.push(c)) == escaped(s) + escape_char(c),
    decreases s.len(),
{
    if s.len() == 0 {
        assert(s.push(c).drop_first() =~= Seq::<char>::empty());
        assert(s.push(c)[0] == c);
        assert(escaped(s.push(c)) == escape_char(c) + escaped(Seq::<char>::empty()));
        assert(escape_char(c) + Seq::<char>::empty() =~= escape_char(c));
        assert(escaped(s) + escape_char(c) =~= escape_char(c));
    } else {
        assert(s.push(c).drop_first() =~= s.drop_first().push(c));
        lemma_escaped_push(s.drop_first(), c);
        assert(escaped(s.push(c)) =~= escaped(s) + escape_char(c));
    }
}

fn append_escaped(base: &mut String, v: &Vec<char>)
    ensures
        final(base)@ == old(base)@ + escaped(v@),
{
    let n = v.len();
    proof {
        assert(v@.take(0) =~= Seq::<char>::empty());
        assert(old(base)@ + escaped(v@.take(0)) =~= old(base)@);
    }
    for i in 0..n
        invariant
            n == v@.len(),
            base@ == old(base)@ + escaped(v@.take(i as int)),
        decreases n - i,
    {
        let c = v[i];
        proof {
            lemma_escaped_push(v@.take(i as int), v@[i as int]);
            assert(v@.take(i as int).push(v@[i as int]) =~= v@.take(i + 1));
        }
        if c == '\\' || c == '_' || c == '*' || c == '~' || c == '`' || c == '|' {
            push_char(base, '\\');
            push_char(base, c);
            proof {
                assert(base@ =~= old(base)@ + escaped(v@.take(i + 1)));
            }
        } else if c == '[' {
            push_char(base, '⁅');
            proof {
                assert(base@ =~= old(base)@ + escaped(v@.take(i + 1)));
            }
        } else if c == ']' {
            push_char(base, '⁆');
            proof {
                assert(base@ =~= old(base)@ + escaped(v@.take(i + 1)));
            }
        } else {
            push_char(base, c);
            proof {
                assert(base@ =~= old(base)@ + escaped(v@.take(i + 1)));
            }
        }
    }
    proof {
        assert(v@.take(v@.len() as int) =~= v@);
    }
}

/// `s` escaped for chat markup.
pub fn escape_str(s: &str) -> (r: String)
    ensures
        r@ == escaped(s@),
{
    let v = chars_of(s);
    let mut out = String::new();
    append_escaped(&mut out, &v);
    proof {
        assert(out@ =~= escaped(s@));
    }
    out
}

/// The length of `s` without its trailing whitespace.
pub open spec fn trimmed_len(s: Seq<char>) -> int
    decreases s.len(),
{
    if s.len() == 0 {
        0
    } else if is_space(s.last()) {
        trimmed_len(s.drop_last())
    } else {
        s.len() as int
    }
}

proof fn lemma_trimmed_len_bounds(s: Seq<char>)
    ensures
        0 <= trimmed_len(s) <= s.len(),
    decreases s.len(),
{
    if s.len() > 0 && is_space(s.last()) {
        lemma_trimmed_len_bounds(s.drop_last());
    }
}

/// `s` without its trailing whitespace.
pub open spec fn trim_end_spec(s: Seq<char>) -> Seq<char> {
    s.take(trimmed_len(s))
}

fn trim_end_chars(v: &mut Vec<char>)
    ensures
        final(v)@ == trim_end_spec(old(v)@),
{
    proof {
        assert(old(v)@.take(v@.len() as int) =~= old(v)@);
    }
    while v.len() > 0 && char_is_whitespace(v[v.len() - 1])
        invariant
            v@.len() <= old(v)@.len(),
            v@ == old(v)@.take(v@.len() as int),
            trim_end_spec(old(v)@) == trim_end_spec(v@),
        decreases v@.len(),
    {
        let ghost before = v@;
        v.pop();
        proof {
            assert(v@ =~= before.drop_last());
            lemma_trimmed_len_bounds(before.drop_last());
            assert(trimmed_len(before) == trimmed_len(before.drop_last()));
            assert(before.drop_last() =~= before.take(before.len() - 1));
            assert(before.take(before.len() - 1).take(trimmed_len(before)) =~= before.take(
                trimmed_len(before),
            ));
            assert(trim_end_spec(before) =~= trim_end_spec(v@));
            assert(before == old(v)@.take(before.len() as int));
            assert(before.take(before.len() - 1) =~= old(v)@.take(before.len() - 1));
            assert(v@ =~= old(v)@.take(v@.len() as int));
        }
    }
    proof {
        if v@.len() == 0 {
            assert(trim_end_spec(v@) =~= v@);
        } else {
            assert(!is_space(v@.last()));
            assert(trimmed_len(v@) == v@.len() as int);
            assert(trim_end_spec(v@) =~= v@);
        }
    }
}

/// What `push_chopped_str` appends for `s`: the whole string, escaped, when
/// it fits within `max_len` characters; otherwise its first `max_len - 1`
/// characters with trailing whitespace trimmed, escaped, and `…` marking
/// the cut.
pub open spec fn chopped(s: Seq<char>, max_len: int) -> Seq<char> {
    if s.len() > max_len {
        escaped(trim_end_spec(s.take(max_len - 1))).push('…')
    } else {
        escaped(s)
    }
}

/// Appends `new_str` to `base`, escaped, chopping it with an ellipsis when
/// it runs past `max_len` characters.
pub fn push_chopped_str(base: &mut String, new_str: &str, max_len: usize)
    requires
        max_len >= 1,
    ensures
        final(base)@ == old(base)@ + chopped(new_str@, max_len as int),
{
    let mut v = chars_of(new_str);
    if v.len() > max_len {
        v.truncate(max_len - 1);
        proof {
            assert(v@ =~= new_str@.take(max_len - 1));
        }
        trim_end_chars(&mut v);
        append_escaped(base, &v);
        push_char(base, '…');
        proof {
            assert(base@ =~= old(base)@ + chopped(new_str@, max_len as int));
        }
    } else {
        append_escaped(base, &v);
    }
}

/// `s` escaped and chopped to at most `max_len` characters, an ellipsis
/// marking any cut.
pub fn chop_str(s: &str, max_len: usize) -> (r: String)
    requires
        max_len >= 1,
    ensures
        r@ == chopped(s@, max_len as int),
{
    let mut base = String::new();
    push_chopped_str(&mut base, s, max_len);
    proof {
        assert(base@ =~= chopped(s@, max_len as int));
    }
    base
}

/// The words of `s`, split at every single space; the empty word between
/// two adjacent spaces is kept, as is the one empty word of an empty input.
pub open spec fn split_on_space(s: Seq<char>) -> Seq<Seq<char>>
    decreases s.len(),
{
    if s.len() == 0 {
        seq![Seq::empty()]
    } else if s[0] == ' ' {
        seq![Seq::empty()] + split_on_space(s.drop_first())
    } else {
        let rest = split_on_space(s.drop_first());
        seq![seq![s[0]] + rest[0]] + rest.drop_first()
    }
}

proof fn lemma_split_nonempty(s: Seq<char>)
    ensures
        split_on_space(s).len() >= 1,
    decreases s.len(),
{
    if s.len() > 0 {
        lemma_split_nonempty(s.drop_first());
    }
}

/// Whether every character is a decimal digit.
pub open spec fn is_digits(s: Seq<char>) -> bool {
    forall|i: int| 0 <= i < s.len() ==> 48 <= (#[trigger] s[i]) as u32 <= 57
}

/// The value of a sequence of decimal digits.
pub open spec fn digits_value(s: Seq<char>) -> nat
    decreases s.len(),
{
    if s.len() == 0 {
        0
    } else {
        digits_value(s.drop_last()) * 10 + ((s.last() as u32 - 48) as int % 10) as nat
    }
}

/// The value `s` denotes as a decimal number, or zero when it is empty, is
/// not all digits, or overflows a 64-bit count.
pub open spec fn parse_or_zero(s: Seq<char>) -> nat {
    if s.len() > 0 && is_digits(s) && digits_value(s) <= u64::MAX {
        digits_value(s)
    } else {
        0
    }
}

/// Seconds per unit suffix: `s`econds, `m`inutes, `h`ours, `D`ays, `W`eeks,
/// `M`onths, `Y`ears; anything else counts for nothing.
pub open spec fn unit_multiplier(c: char) -> nat {
    if c == 's' {
        1
    } else if c == 'm' {
        60
    } else if c == 'h' {
        3600
    } else if c == 'D' {
        86400
    } else if c == 'W' {
        604800
    } else if c == 'M' {
        2628288
    } else if c == 'Y' {
        31536000
    } else {
        0
    }
}

/// The seconds one word contributes: its digits times its unit suffix.
pub open spec fn word_seconds(w: Seq<char>) -> nat {
    if w.len() == 0 {
        0
    } else {
        parse_or_zero(w.drop_last()) * unit_multiplier(w.last())
    }
}

/// The seconds the first `i` words contribute together.
pub open spec fn sum_word_seconds(ws: Seq<Seq<char>>, i: int) -> nat
    decreases i,
{
    if i <= 0 {
        0
    } else {
        sum_word_seconds(ws, i - 1) + word_seconds(ws[i - 1])
    }
}

/// The total seconds a time-span text like `1h 30m 10s` describes.
pub open spec fn spec_string_to_seconds(s: Seq<char>) -> nat {
    sum_word_seconds(split_on_space(s), split_on_space(s).len() as int)
}

/// The word `p` prepended to the first word of `ws`.
spec fn prepend_first(p: Seq<char>, ws: Seq<Seq<char>>) -> Seq<Seq<char>>
    recommends
        ws.len() >= 1,
{
    seq![p + ws[0]] + ws.drop_first()
}

fn split_words(s: &str) -> (r: Vec<Vec<char>>)
    ensures
        r@.map_values(|w: Vec<char>| w@) == split_on_space(s@),
{
    let cs = chars_of(s);
    let mut done: Vec<Vec<char>> = Vec::new();
    let mut cur: Vec<char> = Vec::new();
    let n = cs.len();
    proof {
        assert(s@.skip(0) =~= s@);
        lemma_split_nonempty(s@);
        assert(Seq::<char>::empty() + split_on_space(s@)[0] =~= split_on_space(s@)[0]);
        assert(seq![split_on_space(s@)[0]] + split_on_space(s@).drop_first() =~= split_on_space(
            s@,
        ));
        assert(done@.map_values(|w: Vec<char>| w@) + prepend_first(cur@, split_on_space(s@))
            =~= split_on_space(s@));
    }
    for k in 0..n
        invariant
            cs@ == s@,
            n == s@.len(),
            split_on_space(s@) == done@.map_values(|w: Vec<char>| w@) + prepend_first(
                cur@,
                split_on_space(s@.skip(k as int)),
            ),
        decreases n - k,
    {
        let ghost t = s@.skip(k as int);
        proof {
            assert(t.len() > 0);
            assert(t[0] == s@[k as int]);
            assert(t.drop_first() =~= s@.skip(k + 1));
            lemma_split_nonempty(s@.skip(k + 1));
        }
        if cs[k] == ' ' {
            let ghost done0 = done@;
            let ghost cur0 = cur@;
            done.push(cur);
            cur = Vec::new();
            proof {
                let rest = split_on_space(s@.skip(k + 1));
                assert(split_on_space(t) == seq![Seq::<char>::empty()] + rest);
                assert(cur0 + (seq![Seq::<char>::empty()] + rest)[0] =~= cur0);
                assert((seq![Seq::<char>::empty()] + rest).drop_first() =~= rest);
                assert(prepend_first(cur0, split_on_space(t)) =~= seq![cur0] + rest);
                assert(Seq::<char>::empty() + rest[0] =~= rest[0]);
                assert(prepend_first(cur@, rest) =~= seq![rest[0]] + rest.drop_first());
                assert(seq![rest[0]] + rest.drop_first() =~= rest);
                assert(done@.map_values(|w: Vec<char>| w@) =~= done0.map_values(
                    |w: Vec<char>| w@,
                ).push(cur0));
                assert(done0.map_values(|w: Vec<char>| w@).push(cur0) + rest =~= done0.map_values(
                    |w: Vec<char>| w@,
                ) + (seq![cur0] + rest));
                assert(split_on_space(s@) == done@.map_values(|w: Vec<char>| w@) + prepend_first(
                    cur@,
                    rest,
                ));
            }
        } else {
            let ghost cur0 = cur@;
            cur.push(cs[k]);
            proof {
                let rest = split_on_space(s@.skip(k + 1));
                assert(split_on_space(t) == seq![seq![t[0]] + rest[0]] + rest.drop_first());
                assert(cur0 + (seq![t[0]] + rest[0]) =~= cur@ + rest[0]);
                assert(prepend_first(cur0, split_on_space(t)) =~= prepend_first(cur@, rest));
                assert(split_on_space(s@) == done@.map_values(|w: Vec<char>| w@) + prepend_first(
                    cur@,
                    rest,
                ));
            }
        }
    }
    let ghost done0 = done@;
    let ghost cur0 = cur@;
    done.push(cur);
    proof {
        assert(s@.skip(s@.len() as int).len() == 0);
        let rest = split_on_space(s@.skip(s@.len() as int));
        assert(rest == seq![Seq::<char>::empty()]);
        assert(cur0 + rest[0] =~= cur0);
        assert(rest.drop_first() =~= Seq::<Seq<char>>::empty());
        assert(prepend_first(cur0, rest) =~= seq![cur0]);
        assert(done@.map_values(|w: Vec<char>| w@) =~= done0.map_values(|w: Vec<char>| w@).push(
            cur0,
        ));
        assert(done0.map_values(|w: Vec<char>| w@) + seq![cur0] =~= done@.map_values(
            |w: Vec<char>| w@,
        ));
    }
    done
}

fn parse_prefix(w: &Vec<char>, end: usize) -> (r: u64)
    requires
        end <= w@.len(),
    ensures
        r as nat == parse_or_zero(w@.take(end as int)),
{
    let ghost p = w@.take(end as int);
    if end == 0 {
        return 0;
    }
    let mut acc: u64 = 0;
    for i in 0..end
        invariant
            end <= w@.len(),
            p == w@.take(end as int),
            is_digits(w@.take(i as int)),
            acc as nat == digits_value(w@.take(i as int)),
        decreases end - i,
    {
        let d = w[i] as u32;
        if d < 48 || d > 57 {
            proof {
                assert(p[i as int] == w@[i as int]);
                assert(!is_digits(p));
            }
            return 0;
        }
        let step = acc as u128 * 10 + (d - 48) as u128;
        proof {
            assert(w@.take(i + 1).drop_last() =~= w@.take(i as int));
            assert(w@.take(i + 1).last() == w@[i as int]);
        }
        if step > u64::MAX as u128 {
            // The prefix so far already exceeds a 64-bit count, and more
            // digits only grow it.
            proof {
                assert(digits_value(w@.take(i + 1)) > u64::MAX);
                lemma_digits_value_grows(w@, i + 1, end as int);
                assert(parse_or_zero(p) == 0);
            }
            return 0;
        }
        acc = step as u64;
    }
    proof {
        assert(w@.take(end as int) =~= p);
        assert(is_digits(p) && digits_value(p) <= u64::MAX);
        assert(p.len() > 0);
    }
    acc
}

proof fn lemma_digits_value_grows(w: Seq<char>, i: int, end: int)
    requires
        0 <= i <= end <= w.len(),
    ensures
        digits_value(w.take(i)) <= digits_value(w.take(end)),
    decreases end - i,
{
    if i < end {
        lemma_digits_value_grows(w, i + 1, end);
        assert(w.take(i + 1).drop_last() =~= w.take(i));
        assert(digits_value(w.take(i)) <= digits_value(w.take(i + 1)));
    }
}

fn word_seconds_exec(w: &Vec<char>) -> (r: u64)
    ensures
        word_seconds(w@) <= u64::MAX ==> r == word_seconds(w@),
        word_seconds(w@) > u64::MAX ==> r == u64::MAX,
{
    let n = w.len();
    if n == 0 {
        return 0;
    }
    let last = w[n - 1];
    let mult: u64 = if last == 's' {
        1
    } else if last == 'm' {
        60
    } else if last == 'h' {
        3600
    } else if last == 'D' {
        86400
    } else if last == 'W' {
        604800
    } else if last == 'M' {
        2628288
    } else if last == 'Y' {
        31536000
    } else {
        0
    };
    proof {
        assert(w@.last() == w@[n - 1]);
        assert(mult == unit_multiplier(w@.last()));
        assert(w@.take(n - 1) =~= w@.drop_last());
    }
    if mult == 0 {
        return 0;
    }
    let p = parse_prefix(w, n - 1);
    proof {
        assert(p as int * mult as int <= 0xffff_ffff_ffff_ffff * 31536000) by (nonlinear_arith)
            requires
                0 <= p as int <= 0xffff_ffff_ffff_ffff,
                0 <= mult as int <= 31536000,
        ;
    }
    let total = p as u128 * mult as u128;
    if total > u64::MAX as u128 {
        u64::MAX
    } else {
        total as u64
    }
}

/// The total seconds a time-span text like `1h 30m 10s` describes: each
/// space-separated word is digits followed by a unit suffix, a malformed or
/// overflowing word counts for nothing, and a total beyond the 64-bit range
/// stops there rather than wrapping.
pub fn string_to_seconds(text: &str) -> (r: u64)
    ensures
        spec_string_to_seconds(text@) <= u64::MAX ==> r == spec_string_to_seconds(text@),
        spec_string_to_seconds(text@) > u64::MAX ==> r == u64::MAX,
{
    let ghost ws = split_on_space(text@);
    let words = split_words(text);
    let mut total: u64 = 0;
    let m = words.len();
    proof {
        assert(words@.map_values(|w: Vec<char>| w@).len() == ws.len());
    }
    for i in 0..m
        invariant
            m == ws.len(),
            words@.map_values(|w: Vec<char>| w@) == ws,
            sum_word_seconds(ws, i as int) <= u64::MAX ==> total == sum_word_seconds(
                ws,
                i as int,
            ),
            sum_word_seconds(ws, i as int) > u64::MAX ==> total == u64::MAX,
        decreases m - i,
    {
        proof {
            assert(words@.map_values(|w: Vec<char>| w@)[i as int] == ws[i as int]);
        }
        let add = word_seconds_exec(&words[i]);
        if add > u64::MAX - total {
            total = u64::MAX;
        } else {
            total = total + add;
        }
        proof {
            assert(sum_word_seconds(ws, i + 1) == sum_word_seconds(ws, i as int) + word_seconds(
                ws[i as int],
            ));
        }
    }
    total
}

} // verus!
