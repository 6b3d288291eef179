//! Text normalization for speech synthesis and the playback queue of
//! synthesized segments.
use crate::text::{
    lemma_trim_run, parse_unsigned, parse_unsigned_chars, alphanumeric, chars_of, digit, is_alphanumeric, is_digit, is_white_space, join, replace_all,
    replace_chars, split_words, string_from_chars, trim, trim_chars, white_space, words,
};
use vstd::prelude::*;

verus! {

/// `u32::from_str`: an optional `+`, then one or more decimal digits,
/// whose value fits in 32 bits.
pub open spec fn parse_u32(s: Seq<char>) -> Option<nat> {
    parse_unsigned(s, u32::MAX as nat)
}

/// The word for 1 to 19; empty otherwise.
pub open spec fn ones_word(n: nat) -> Seq<char> {
    if n == 1 { "one"@ }
    else if n == 2 { "two"@ }
    else if n == 3 { "three"@ }
    else if n == 4 { "four"@ }
    else if n == 5 { "five"@ }
    else if n == 6 { "six"@ }
    else if n == 7 { "seven"@ }
    else if n == 8 { "eight"@ }
    else if n == 9 { "nine"@ }
    else if n == 10 { "ten"@ }
    else if n == 11 { "eleven"@ }
    else if n == 12 { "twelve"@ }
    else if n == 13 { "thirteen"@ }
    else if n == 14 { "fourteen"@ }
    else if n == 15 { "fifteen"@ }
    else if n == 16 { "sixteen"@ }
    else if n == 17 { "seventeen"@ }
    else if n == 18 { "eighteen"@ }
    else if n == 19 { "nineteen"@ }
    else { ""@ }
}

/// The word for 2 to 9 tens; empty otherwise.
pub open spec fn tens_word(t: nat) -> Seq<char> {
    if t == 2 { "twenty"@ }
    else if t == 3 { "thirty"@ }
    else if t == 4 { "forty"@ }
    else if t == 5 { "fifty"@ }
    else if t == 6 { "sixty"@ }
    else if t == 7 { "seventy"@ }
    else if t == 8 { "eighty"@ }
    else if t == 9 { "ninety"@ }
    else { ""@ }
}

/// English words for 0 to 999: "zero", "fifteen", "forty-two",
/// "one hundred twenty-three".
pub open spec fn words_below_thousand(n: nat) -> Seq<char>
    decreases n,
{
    if n == 0 {
        "zero"@
    } else if n < 20 {
        ones_word(n)
    } else if n < 100 {
        if n % 10 == 0 {
            tens_word(n / 10)
        } else {
            tens_word(n / 10) + "-"@ + ones_word(n % 10)
        }
    } else if n < 1000 {
        if n % 100 == 0 {
            ones_word(n / 100) + " hundred"@
        } else {
            ones_word(n / 100) + " hundred "@ + words_below_thousand(n % 100)
        }
    } else {
        ""@
    }
}

/// A number string in words when it parses as a number below 1000;
/// otherwise the string unchanged.
pub open spec fn number_words(s: Seq<char>) -> Seq<char> {
    match parse_u32(s) {
        Some(n) => if n < 1000 {
            words_below_thousand(n)
        } else {
            s
        },
        None => s,
    }
}

fn ones_str(n: u32) -> (s: &'static str)
    requires
        n < 20,
    ensures
        s@ == ones_word(n as nat),
{
    match n {
        1 => "one",
        2 => "two",
        3 => "three",
        4 => "four",
        5 => "five",
        6 => "six",
        7 => "seven",
        8 => "eight",
        9 => "nine",
        10 => "ten",
        11 => "eleven",
        12 => "twelve",
        13 => "thirteen",
        14 => "fourteen",
        15 => "fifteen",
        16 => "sixteen",
        17 => "seventeen",
        18 => "eighteen",
        19 => "nineteen",
        _ => "",
    }
}

fn tens_str(t: u32) -> (s: &'static str)
    requires
        t < 10,
    ensures
        s@ == tens_word(t as nat),
{
    match t {
        2 => "twenty",
        3 => "thirty",
        4 => "forty",
        5 => "fifty",
        6 => "sixty",
        7 => "seventy",
        8 => "eighty",
        9 => "ninety",
        _ => "",
    }
}

/// Words for a number below 1000.
fn words_for(n: u32) -> (s: String)
    requires
        n < 1000,
    ensures
        s@ == words_below_thousand(n as nat),
    decreases n,
{
    if n == 0 {
        String::from_str("zero")
    } else if n < 20 {
        String::from_str(ones_str(n))
    } else if n < 100 {
        let mut s = String::from_str(tens_str(n / 10));
        if n % 10 != 0 {
            s.append("-");
            s.append(ones_str(n % 10));
        }
        s
    } else {
        let mut s = String::from_str(ones_str(n / 100));
        if n % 100 == 0 {
            s.append(" hundred");
        } else {
            s.append(" hundred ");
            let rest = words_for(n % 100);
            s.append(rest.as_str());
        }
        s
    }
}

/// `u32::from_str` on characters.
pub fn parse_u32_chars(s: &[char]) -> (r: Option<u32>)
    ensures
        match parse_u32(s@) {
            Some(v) => r == Some(v as u32),
            None => r.is_none(),
        },
{
    match parse_unsigned_chars(s, 0xffff_ffff) {
        Some(v) => Some(v as u32),
        None => None,
    }
}

/// A number string in words: parsed as `u32`, 0 to 999 becomes words
/// ("123" gives "one hundred twenty-three"); anything else is returned
/// unchanged.
pub fn number_to_words(num_str: &str) -> (s: String)
    ensures
        s@ == number_words(num_str@),
{
    let cs = chars_of(num_str);
    match parse_u32_chars(cs.as_slice()) {
        Some(n) => {
            if n < 1000 {
                words_for(n)
            } else {
                String::from_str(num_str)
            }
        },
        None => String::from_str(num_str),
    }
}

/// The number of decimal digits that start `s`.
pub open spec fn digit_run(s: Seq<char>) -> nat
    decreases s.len(),
{
    if s.len() > 0 && is_digit(s[0]) {
        1 + digit_run(s.drop_first())
    } else {
        0
    }
}

pub proof fn lemma_digit_run_bound(s: Seq<char>)
    ensures
        digit_run(s) <= s.len(),
        s.len() > 0 && is_digit(s[0]) ==> digit_run(s) >= 1,
    decreases s.len(),
{
    if s.len() > 0 && is_digit(s[0]) {
        lemma_digit_run_bound(s.drop_first());
    }
}

proof fn lemma_digit_run_exact(s: Seq<char>, k: int)
    requires
        0 <= k <= s.len(),
        forall|j: int| 0 <= j < k ==> is_digit(#[trigger] s[j]),
        k == s.len() || !is_digit(s[k]),
    ensures
        digit_run(s) == k,
    decreases k,
{
    if k > 0 {
        lemma_digit_run_exact(s.drop_first(), k - 1);
    }
}

proof fn lemma_digit_run_at_least(s: Seq<char>, k: int)
    requires
        0 <= k <= s.len(),
        forall|j: int| 0 <= j < k ==> is_digit(#[trigger] s[j]),
    ensures
        digit_run(s) >= k,
    decreases k,
{
    if k > 0 {
        lemma_digit_run_at_least(s.drop_first(), k - 1);
    }
}

/// Times written as digits, a colon and one or two digits become words:
/// "3:30" gives "three thirty", "3:00" gives "three o'clock". Digits not
/// followed by a colon and digits are kept.
pub open spec fn expand_times(s: Seq<char>) -> Seq<char>
    decreases s.len(),
{
    if s.len() == 0 {
        Seq::empty()
    } else if !is_digit(s[0]) {
        seq![s[0]] + expand_times(s.drop_first())
    } else {
        proof {
            lemma_digit_run_bound(s);
        }
        let k = digit_run(s);
        let num = s.take(k as int);
        let rest = s.skip(k as int);
        if rest.len() > 0 && rest[0] == ':' {
            let after = rest.drop_first();
            let m = if digit_run(after) >= 2 {
                2nat
            } else {
                digit_run(after)
            };
            proof {
                lemma_digit_run_bound(after);
            }
            let minutes = after.take(m as int);
            if m > 0 {
                (if minutes == seq!['0', '0'] {
                    number_words(num) + " o'clock"@
                } else {
                    number_words(num) + " "@ + number_words(minutes)
                }) + expand_times(after.skip(m as int))
            } else {
                num + seq![':'] + expand_times(after)
            }
        } else {
            num + expand_times(rest)
        }
    }
}

/// Appends the characters of `s`.
pub fn push_str(out: &mut Vec<char>, s: &str)
    ensures
        final(out)@ == old(out)@ + s@,
{
    let cs = chars_of(s);
    push_chars(out, cs.as_slice());
}

/// Appends `cs`.
pub fn push_chars(out: &mut Vec<char>, cs: &[char])
    ensures
        final(out)@ == old(out)@ + cs@,
{
    let n = cs.len();
    let mut i: usize = 0;
    while i < n
        invariant
            i <= n,
            n == cs@.len(),
            out@ == old(out)@ + cs@.take(i as int),
        decreases n - i,
    {
        out.push(cs[i]);
        proof {
            assert(cs@.take(i + 1) =~= cs@.take(i as int).push(cs@[i as int]));
        }
        i = i + 1;
    }
    proof {
        assert(cs@.take(n as int) =~= cs@);
    }
}

/// The characters `v[from..to]`.
pub fn slice_chars(v: &[char], from: usize, to: usize) -> (r: Vec<char>)
    requires
        from <= to <= v@.len(),
    ensures
        r@ == v@.subrange(from as int, to as int),
{
    let mut r: Vec<char> = Vec::new();
    let mut i: usize = from;
    while i < to
        invariant
            from <= i <= to,
            to <= v@.len(),
            r@ == v@.subrange(from as int, i as int),
        decreases to - i,
    {
        r.push(v[i]);
        i = i + 1;
    }
    r
}

fn number_words_of(v: &[char]) -> (s: String)
    ensures
        s@ == number_words(v@),
{
    let st = string_from_chars(v);
    number_to_words(st.as_str())
}

/// Spells out times ("3:30" gives "three thirty").
pub fn expand_time_format(text: &str) -> (r: String)
    ensures
        r@ == expand_times(text@),
{
    let v = chars_of(text);
    let out = expand_time_chars(v.as_slice());
    string_from_chars(out.as_slice())
}

proof fn lemma_expand_number(rest: Seq<char>)
    requires
        rest.len() > 0,
        is_digit(rest[0]),
    ensures
        ({
            let k = digit_run(rest);
            let num = rest.take(k as int);
            let tail = rest.skip(k as int);
            &&& 1 <= k <= rest.len()
            &&& tail.len() > 0 && tail[0] == ':' ==> {
                let after = tail.drop_first();
                let m = if digit_run(after) >= 2 {
                    2nat
                } else {
                    digit_run(after)
                };
                let minutes = after.take(m as int);
                &&& m <= after.len()
                &&& expand_times(rest) == if m > 0 {
                    (if minutes == seq!['0', '0'] {
                        number_words(num) + " o'clock"@
                    } else {
                        number_words(num) + " "@ + number_words(minutes)
                    }) + expand_times(after.skip(m as int))
                } else {
                    num + seq![':'] + expand_times(after)
                }
            }
            &&& !(tail.len() > 0 && tail[0] == ':') ==> expand_times(rest) == num + expand_times(
                tail,
            )
        }),
{
    lemma_digit_run_bound(rest);
    let tail = rest.skip(digit_run(rest) as int);
    if tail.len() > 0 {
        lemma_digit_run_bound(tail.drop_first());
    }
}

/// Expands the number that starts at `i`: returns its expansion and where
/// the rest of the text starts.
fn expand_number_at(v: &[char], i: usize) -> (r: (Vec<char>, usize))
    requires
        i < v@.len(),
        is_digit(v@[i as int]),
    ensures
        i < r.1 <= v@.len(),
        expand_times(v@.skip(i as int)) == r.0@ + expand_times(v@.skip(r.1 as int)),
{
    let n = v.len();
    let ghost rest = v@.skip(i as int);
    proof {
        assert(rest[0] == v@[i as int]);
        lemma_expand_number(rest);
    }
    let mut j: usize = i + 1;
    while j < n && digit(v[j])
        invariant
            i < j <= n,
            n == v@.len(),
            forall|k: int| i <= k < j ==> is_digit(#[trigger] v@[k]),
        decreases n - j,
    {
        j = j + 1;
    }
    proof {
        assert forall|k: int| 0 <= k < j - i implies is_digit(#[trigger] rest[k]) by {
            assert(rest[k] == v@[i + k]);
        }
        if j < n {
            assert(rest[j - i] == v@[j as int]);
        }
        lemma_digit_run_exact(rest, j - i);
        assert(rest.take(j - i) =~= v@.subrange(i as int, j as int));
        assert(rest.skip(j - i) =~= v@.skip(j as int));
        if j < n {
            assert(rest.skip(j - i)[0] == v@[j as int]);
        }
    }
    let num = slice_chars(v, i, j);
    let mut out: Vec<char> = Vec::new();
    if j < n && v[j] == ':' {
        let a = j + 1;
        let mut e: usize = a;
        while e < n && e - a < 2 && digit(v[e])
            invariant
                a <= e <= n,
                e - a <= 2,
                n == v@.len(),
                forall|k: int| a <= k < e ==> is_digit(#[trigger] v@[k]),
            decreases n - e,
        {
            e = e + 1;
        }
        let ghost after = rest.skip(j - i).drop_first();
        proof {
            assert(after =~= v@.skip(a as int));
            assert forall|k: int| 0 <= k < e - a implies is_digit(#[trigger] after[k]) by {
                assert(after[k] == v@[a + k]);
            }
            if e - a < 2 {
                if e < n {
                    assert(after[e - a] == v@[e as int]);
                }
                lemma_digit_run_exact(after, e - a);
            } else {
                lemma_digit_run_at_least(after, 2);
            }
            assert(after.take(e - a) =~= v@.subrange(a as int, e as int));
            assert(after.skip(e - a) =~= v@.skip(e as int));
        }
        if e > a {
            let minutes = slice_chars(v, a, e);
            let hour = number_words_of(num.as_slice());
            let is_zero = e - a == 2 && v[a] == '0' && v[a + 1] == '0';
            proof {
                if e - a == 2 {
                    assert(is_zero == (minutes@ =~= seq!['0', '0']));
                } else {
                    assert(minutes@.len() != 2);
                    assert(minutes@ != seq!['0', '0']);
                }
            }
            if is_zero {
                push_str(&mut out, hour.as_str());
                push_str(&mut out, " o'clock");
            } else {
                let min = number_words_of(minutes.as_slice());
                push_str(&mut out, hour.as_str());
                push_str(&mut out, " ");
                push_str(&mut out, min.as_str());
            }
            proof {
                assert(out@ + expand_times(v@.skip(e as int)) =~= expand_times(rest));
            }
            (out, e)
        } else {
            push_chars(&mut out, num.as_slice());
            out.push(':');
            proof {
                assert(out@ + expand_times(v@.skip(a as int)) =~= expand_times(rest));
            }
            (out, a)
        }
    } else {
        push_chars(&mut out, num.as_slice());
        proof {
            assert(out@ + expand_times(v@.skip(j as int)) =~= expand_times(rest));
        }
        (out, j)
    }
}

fn expand_time_chars(v: &[char]) -> (out: Vec<char>)
    ensures
        out@ == expand_times(v@),
{
    let n = v.len();
    let mut out: Vec<char> = Vec::new();
    let mut i: usize = 0;
    proof {
        assert(v@.skip(0) =~= v@);
    }
    while i < n
        invariant
            i <= n,
            n == v@.len(),
            expand_times(v@) == out@ + expand_times(v@.skip(i as int)),
        decreases n - i,
    {
        let ghost rest = v@.skip(i as int);
        let ghost before = out@;
        proof {
            assert(rest[0] == v@[i as int]);
        }
        if !digit(v[i]) {
            out.push(v[i]);
            proof {
                assert(rest.drop_first() =~= v@.skip(i + 1));
                assert(out@ + expand_times(v@.skip(i + 1)) =~= before + (seq![rest[0]]
                    + expand_times(rest.drop_first())));
            }
            i = i + 1;
        } else {
            let (piece, next) = expand_number_at(v, i);
            push_chars(&mut out, piece.as_slice());
            proof {
                assert(out@ + expand_times(v@.skip(next as int)) =~= before + (piece@
                    + expand_times(v@.skip(next as int))));
            }
            i = next;
        }
    }
    proof {
        assert(v@.skip(n as int) =~= Seq::<char>::empty());
        assert(out@ + Seq::<char>::empty() =~= out@);
    }
    out
}

/// Applies each replacement of `pairs` in turn to the whole text.
pub open spec fn apply_pairs(s: Seq<char>, pairs: Seq<(Seq<char>, Seq<char>)>) -> Seq<char>
    decreases pairs.len(),
{
    if pairs.len() == 0 {
        s
    } else {
        apply_pairs(replace_all(s, pairs[0].0, pairs[0].1), pairs.drop_first())
    }
}

/// Pairs of strings as pairs of character sequences.
pub open spec fn pair_views(t: Seq<(&str, &str)>) -> Seq<(Seq<char>, Seq<char>)> {
    t.map_values(|p: (&str, &str)| (p.0@, p.1@))
}

proof fn lemma_replace_empty(s: Seq<char>, rep: Seq<char>)
    ensures
        replace_all(s, Seq::empty(), rep) == s,
    decreases s.len(),
{
    if s.len() > 0 {
        lemma_replace_empty(s.drop_first(), rep);
        assert(seq![s[0]] + s.drop_first() =~= s);
    }
}

/// `replace_all`, also for an empty pattern (which replaces nothing).
fn replace_any(s: &[char], pat: &[char], rep: &[char]) -> (r: Vec<char>)
    ensures
        r@ == replace_all(s@, pat@, rep@),
{
    if pat.len() == 0 {
        proof {
            assert(pat@ =~= Seq::<char>::empty());
            lemma_replace_empty(s@, rep@);
        }
        slice_chars(s, 0, s.len())
    } else {
        replace_chars(s, pat, rep)
    }
}

/// Applies a replacement table in order.
fn apply_table(v: Vec<char>, table: &[(&str, &str)]) -> (r: Vec<char>)
    ensures
        r@ == apply_pairs(v@, pair_views(table@)),
{
    let n = table.len();
    let mut cur = v;
    let mut i: usize = 0;
    proof {
        assert(pair_views(table@).skip(0) =~= pair_views(table@));
    }
    while i < n
        invariant
            i <= n,
            n == table@.len(),
            apply_pairs(v@, pair_views(table@)) == apply_pairs(cur@, pair_views(table@).skip(
                i as int,
            )),
        decreases n - i,
    {
        let (pat, rep) = table[i];
        let pc = chars_of(pat);
        let rc = chars_of(rep);
        let next = replace_any(cur.as_slice(), pc.as_slice(), rc.as_slice());
        proof {
            let rest = pair_views(table@).skip(i as int);
            assert(rest[0] == (pat@, rep@));
            assert(rest.drop_first() =~= pair_views(table@).skip(i + 1));
        }
        cur = next;
        i = i + 1;
    }
    proof {
        assert(pair_views(table@).skip(n as int) =~= Seq::<(Seq<char>, Seq<char>)>::empty());
    }
    cur
}

/// Abbreviations and what they are read as.
pub open spec fn abbreviation_pairs() -> Seq<(Seq<char>, Seq<char>)> {
    seq![
        ("Mr."@, "Mister"@),
        ("Mrs."@, "Misses"@),
        ("Ms."@, "Miss"@),
        ("Dr."@, "Doctor"@),
        ("Prof."@, "Professor"@),
        ("Jr."@, "Junior"@),
        ("Sr."@, "Senior"@),
        ("vs."@, "versus"@),
        ("etc."@, "etcetera"@),
        ("e.g."@, "for example"@),
        ("i.e."@, "that is"@),
        ("approx."@, "approximately"@),
        ("govt."@, "government"@),
        ("dept."@, "department"@),
        ("st."@, "street"@),
        ("ave."@, "avenue"@),
        ("blvd."@, "boulevard"@),
        ("no."@, "number"@),
        ("vol."@, "volume"@),
        ("pg."@, "page"@),
        ("pp."@, "pages"@),
        ("hrs."@, "hours"@),
        ("mins."@, "minutes"@),
        ("secs."@, "seconds"@),
        ("lb."@, "pounds"@),
        ("lbs."@, "pounds"@),
        ("oz."@, "ounces"@),
        ("ft."@, "feet"@),
        ("in."@, "inches"@),
        ("yd."@, "yards"@),
        ("mi."@, "miles"@),
        ("km."@, "kilometers"@),
        ("cm."@, "centimeters"@),
        ("mm."@, "millimeters"@),
    ]
}

/// Symbols and what they are read as.
pub open spec fn symbol_pairs() -> Seq<(Seq<char>, Seq<char>)> {
    seq![
        ("&"@, " and "@),
        ("%"@, " percent"@),
        ("@"@, " at "@),
        ("#"@, " number "@),
        ("$"@, " dollars "@),
        ("€"@, " euros "@),
        ("£"@, " pounds "@),
        ("+"@, " plus "@),
        ("="@, " equals "@),
    ]
}

/// Ordinal numbers and their words, longer ones first, so that "21st" is
/// read as "twenty-first" and not as "2" followed by "first".
pub open spec fn ordinal_pairs() -> Seq<(Seq<char>, Seq<char>)> {
    seq![
        ("100th"@, "hundredth"@),
        ("10th"@, "tenth"@),
        ("11th"@, "eleventh"@),
        ("12th"@, "twelfth"@),
        ("13th"@, "thirteenth"@),
        ("20th"@, "twentieth"@),
        ("21st"@, "twenty-first"@),
        ("22nd"@, "twenty-second"@),
        ("23rd"@, "twenty-third"@),
        ("30th"@, "thirtieth"@),
        ("1st"@, "first"@),
        ("2nd"@, "second"@),
        ("3rd"@, "third"@),
        ("4th"@, "fourth"@),
        ("5th"@, "fifth"@),
        ("6th"@, "sixth"@),
        ("7th"@, "seventh"@),
        ("8th"@, "eighth"@),
        ("9th"@, "ninth"@),
    ]
}

fn ordinal_table() -> (t: Vec<(&'static str, &'static str)>)
    ensures
        pair_views(t@) == ordinal_pairs(),
{
    let t = vec![
        ("100th", "hundredth"),
        ("10th", "tenth"),
        ("11th", "eleventh"),
        ("12th", "twelfth"),
        ("13th", "thirteenth"),
        ("20th", "twentieth"),
        ("21st", "twenty-first"),
        ("22nd", "twenty-second"),
        ("23rd", "twenty-third"),
        ("30th", "thirtieth"),
        ("1st", "first"),
        ("2nd", "second"),
        ("3rd", "third"),
        ("4th", "fourth"),
        ("5th", "fifth"),
        ("6th", "sixth"),
        ("7th", "seventh"),
        ("8th", "eighth"),
        ("9th", "ninth"),
    ];
    proof {
        assert(pair_views(t@) =~= ordinal_pairs());
    }
    t
}

/// Ordinals in words ("1st" gives "first", "22nd" gives "twenty-second").
pub fn expand_ordinals(text: &str) -> (r: String)
    ensures
        r@ == apply_pairs(text@, ordinal_pairs()),
{
    let v = chars_of(text);
    let t = ordinal_table();
    let out = apply_table(v, t.as_slice());
    string_from_chars(out.as_slice())
}

fn abbreviation_table() -> (t: Vec<(&'static str, &'static str)>)
    ensures
        pair_views(t@) == abbreviation_pairs(),
{
    let t = vec![
        ("Mr.", "Mister"),
        ("Mrs.", "Misses"),
        ("Ms.", "Miss"),
        ("Dr.", "Doctor"),
        ("Prof.", "Professor"),
        ("Jr.", "Junior"),
        ("Sr.", "Senior"),
        ("vs.", "versus"),
        ("etc.", "etcetera"),
        ("e.g.", "for example"),
        ("i.e.", "that is"),
        ("approx.", "approximately"),
        ("govt.", "government"),
        ("dept.", "department"),
        ("st.", "street"),
        ("ave.", "avenue"),
        ("blvd.", "boulevard"),
        ("no.", "number"),
        ("vol.", "volume"),
        ("pg.", "page"),
        ("pp.", "pages"),
        ("hrs.", "hours"),
        ("mins.", "minutes"),
        ("secs.", "seconds"),
        ("lb.", "pounds"),
        ("lbs.", "pounds"),
        ("oz.", "ounces"),
        ("ft.", "feet"),
        ("in.", "inches"),
        ("yd.", "yards"),
        ("mi.", "miles"),
        ("km.", "kilometers"),
        ("cm.", "centimeters"),
        ("mm.", "millimeters"),
    ];
    proof {
        assert(pair_views(t@) =~= abbreviation_pairs());
    }
    t
}

fn symbol_table() -> (t: Vec<(&'static str, &'static str)>)
    ensures
        pair_views(t@) == symbol_pairs(),
{
    let t = vec![
        ("&", " and "),
        ("%", " percent"),
        ("@", " at "),
        ("#", " number "),
        ("$", " dollars "),
        ("€", " euros "),
        ("£", " pounds "),
        ("+", " plus "),
        ("=", " equals "),
    ];
    proof {
        assert(pair_views(t@) =~= symbol_pairs());
    }
    t
}

/// Punctuation kept for synthesis: `. , ! ? ; : ' - "`.
pub open spec fn is_speech_punct(c: char) -> bool {
    c == '.' || c == ',' || c == '!' || c == '?' || c == ';' || c == ':' || c == '\'' || c == '-'
        || c == '"'
}

/// Characters kept for synthesis: alphanumerics, white space and the
/// punctuation above.
pub open spec fn speakable(c: char) -> bool {
    alphanumeric(c) || is_white_space(c) || is_speech_punct(c)
}

/// The characters of `s` that are kept for synthesis, in order.
pub open spec fn keep_speakable(s: Seq<char>) -> Seq<char>
    decreases s.len(),
{
    if s.len() == 0 {
        Seq::empty()
    } else if speakable(s.last()) {
        keep_speakable(s.drop_last()).push(s.last())
    } else {
        keep_speakable(s.drop_last())
    }
}

/// Text prepared for synthesis: abbreviations, symbols and ordinals spelled
/// out, times in words, white space collapsed to single spaces, characters
/// that cannot be spoken removed, and the ends trimmed.
pub open spec fn normalized_for_speech(text: Seq<char>) -> Seq<char> {
    let a = apply_pairs(text, abbreviation_pairs());
    let b = apply_pairs(a, symbol_pairs());
    let c = apply_pairs(b, ordinal_pairs());
    let d = expand_times(c);
    let e = join(words(d), " "@);
    trim(keep_speakable(e))
}

/// Every character kept for synthesis is speakable.
proof fn lemma_keep_speakable_only(s: Seq<char>)
    ensures
        forall|i: int|
            0 <= i < keep_speakable(s).len() ==> speakable(#[trigger] keep_speakable(s)[i]),
    decreases s.len(),
{
    if s.len() > 0 {
        let prev = keep_speakable(s.drop_last());
        lemma_keep_speakable_only(s.drop_last());
        if speakable(s.last()) {
            assert forall|i: int| 0 <= i < keep_speakable(s).len() implies speakable(
                #[trigger] keep_speakable(s)[i],
            ) by {
                if i < prev.len() {
                    assert(keep_speakable(s)[i] == prev[i]);
                }
            }
        }
    }
}

/// The characters the final cleaning never removes: letters and digits,
/// white space, and the punctuation `. , ! ? ; : ' - "` that shapes speech.
pub open spec fn always_spoken(c: char) -> bool {
    ||| alphanumeric(c)
    ||| is_white_space(c)
    ||| c == '.'
    ||| c == ','
    ||| c == '!'
    ||| c == '?'
    ||| c == ';'
    ||| c == ':'
    ||| c == '\''
    ||| c == '-'
    ||| c == '"'
}

/// Law: the cleaning step keeps every letter, digit, white space and
/// sentence punctuation, so text made only of those passes it unchanged;
/// in particular full stops and question marks stay between sentences.
pub proof fn law_cleaning_keeps_punctuation(s: Seq<char>)
    requires
        forall|i: int| 0 <= i < s.len() ==> always_spoken(#[trigger] s[i]),
    ensures
        keep_speakable(s) == s,
    decreases s.len(),
{
    if s.len() > 0 {
        assert forall|i: int| 0 <= i < s.drop_last().len() implies always_spoken(
            #[trigger] s.drop_last()[i],
        ) by {
            assert(s.drop_last()[i] == s[i]);
        }
        law_cleaning_keeps_punctuation(s.drop_last());
        assert(always_spoken(s[s.len() - 1]));
        assert(s.drop_last().push(s.last()) =~= s);
    }
}

/// Law: when the text, once expanded and with its white space collapsed,
/// holds only letters, digits, white space and sentence punctuation, the
/// prepared text is exactly that text trimmed: nothing more is removed.
pub proof fn law_normalized_keeps_sentences(text: Seq<char>)
    requires
        ({
            let e = join(
                words(
                    expand_times(
                        apply_pairs(
                            apply_pairs(apply_pairs(text, abbreviation_pairs()), symbol_pairs()),
                            ordinal_pairs(),
                        ),
                    ),
                ),
                " "@,
            );
            forall|i: int| 0 <= i < e.len() ==> always_spoken(#[trigger] e[i])
        }),
    ensures
        normalized_for_speech(text) == trim(
            join(
                words(
                    expand_times(
                        apply_pairs(
                            apply_pairs(apply_pairs(text, abbreviation_pairs()), symbol_pairs()),
                            ordinal_pairs(),
                        ),
                    ),
                ),
                " "@,
            ),
        ),
{
    let e = join(
        words(
            expand_times(
                apply_pairs(
                    apply_pairs(apply_pairs(text, abbreviation_pairs()), symbol_pairs()),
                    ordinal_pairs(),
                ),
            ),
        ),
        " "@,
    );
    law_cleaning_keeps_punctuation(e);
}

/// Law: text prepared for synthesis holds only speakable characters
/// (alphanumerics, white space and the punctuation `.,!?;:'-"`), and
/// neither starts nor ends with white space.
pub proof fn law_normalized_text_is_speakable(text: Seq<char>)
    ensures
        forall|i: int|
            0 <= i < normalized_for_speech(text).len() ==> speakable(
                #[trigger] normalized_for_speech(text)[i],
            ),
        normalized_for_speech(text).len() > 0 ==> !is_white_space(normalized_for_speech(text)[0])
            && !is_white_space(normalized_for_speech(text).last()),
{
    let a = apply_pairs(text, abbreviation_pairs());
    let b = apply_pairs(a, symbol_pairs());
    let c = apply_pairs(b, ordinal_pairs());
    let d = expand_times(c);
    let e = join(words(d), " "@);
    let k = keep_speakable(e);
    lemma_keep_speakable_only(e);
    lemma_trim_run(k);
    let n = trim(k);
    let start = choose|st: int|
        0 <= st && st + n.len() <= k.len() && n == #[trigger] k.subrange(st, st + n.len());
    assert forall|i: int| 0 <= i < n.len() implies speakable(#[trigger] n[i]) by {
        assert(n[i] == k[start + i]);
    }
}

/// Joins character sequences with a separator.
fn join_chars(parts: &Vec<Vec<char>>, sep: &[char]) -> (r: Vec<char>)
    ensures
        r@ == join(parts@.map_values(|p: Vec<char>| p@), sep@),
{
    let ghost views = parts@.map_values(|p: Vec<char>| p@);
    let n = parts.len();
    let mut r: Vec<char> = Vec::new();
    let mut i: usize = 0;
    proof {
        assert(views.take(0) =~= Seq::<Seq<char>>::empty());
    }
    while i < n
        invariant
            i <= n,
            n == parts@.len(),
            views == parts@.map_values(|p: Vec<char>| p@),
            r@ == join(views.take(i as int), sep@),
        decreases n - i,
    {
        let ghost before = r@;
        if i > 0 {
            push_chars(&mut r, sep);
        }
        push_chars(&mut r, parts[i].as_slice());
        proof {
            let t = views.take(i + 1);
            assert(t.drop_last() =~= views.take(i as int));
            assert(t.last() == parts@[i as int]@);
            if i == 0 {
                assert(t.len() == 1);
                assert(r@ =~= t[0]);
            } else {
                assert(r@ =~= join(t.drop_last(), sep@) + sep@ + t.last());
            }
        }
        i = i + 1;
    }
    proof {
        assert(views.take(n as int) =~= views);
    }
    r
}

/// Keeps the characters that can be spoken.
fn keep_speakable_chars(v: &[char]) -> (r: Vec<char>)
    ensures
        r@ == keep_speakable(v@),
{
    let n = v.len();
    let mut r: Vec<char> = Vec::new();
    let mut i: usize = 0;
    while i < n
        invariant
            i <= n,
            n == v@.len(),
            r@ == keep_speakable(v@.take(i as int)),
        decreases n - i,
    {
        let c = v[i];
        let keep = is_alphanumeric(c) || white_space(c) || c == '.' || c == ',' || c == '!' || c
            == '?' || c == ';' || c == ':' || c == '\'' || c == '-' || c == '"';
        if keep {
            r.push(c);
        }
        proof {
            let t = v@.take(i + 1);
            assert(t.drop_last() =~= v@.take(i as int));
            assert(t.last() == c);
        }
        i = i + 1;
    }
    proof {
        assert(v@.take(n as int) =~= v@);
    }
    r
}

/// Prepares text for synthesis (see `normalized_for_speech`).
pub fn normalize_text_for_tts(text: &str) -> (r: String)
    ensures
        r@ == normalized_for_speech(text@),
{
    let v = chars_of(text);
    let a = apply_table(v, abbreviation_table().as_slice());
    let b = apply_table(a, symbol_table().as_slice());
    let c = apply_table(b, ordinal_table().as_slice());
    let d = expand_time_chars(c.as_slice());
    let ws = split_words(d.as_slice());
    let sep = vec![' '];
    proof {
        assert(ws@.map_values(|p: Vec<char>| p@) =~= words(d@));
        assert(sep@ =~= " "@) by {
            reveal_strlit(" ");
        }
    }
    let e = join_chars(&ws, sep.as_slice());
    let f = keep_speakable_chars(e.as_slice());
    let g = trim_chars(f.as_slice());
    string_from_chars(g.as_slice())
}

/// The text to synthesize for a segment: `None` when the text is blank or
/// nothing speakable remains after normalization.
pub fn synthesis_text(text: &str) -> (r: Option<String>)
    ensures
        trim(text@).len() == 0 ==> r.is_none(),
        trim(text@).len() > 0 ==> match r {
            Some(t) => t@ == normalized_for_speech(text@) && t@.len() > 0,
            None => normalized_for_speech(text@).len() == 0,
        },
{
    let v = chars_of(text);
    let t = trim_chars(v.as_slice());
    if t.len() == 0 {
        return None;
    }
    let normalized = normalize_text_for_tts(text);
    if normalized.as_str().is_empty() {
        None
    } else {
        Some(normalized)
    }
}

/// The duration of `num_samples` samples at `sample_rate`, in whole
/// milliseconds (rounded down).
pub fn duration_ms(num_samples: u64, sample_rate: u32) -> (ms: u64)
    requires
        sample_rate > 0,
        num_samples * 1000 <= u64::MAX,
    ensures
        ms == (num_samples * 1000) / (sample_rate as int),
{
    (num_samples * 1000) / (sample_rate as u64)
}

/// The text the synthesis worker speaks for a segment: none for a segment
/// not meant to be spoken, for blank text, or when nothing speakable
/// remains after normalization; the normalized text otherwise.
pub open spec fn spoken_text(should_speak: bool, text: Seq<char>) -> Option<Seq<char>> {
    if !should_speak || trim(text).len() == 0 || normalized_for_speech(text).len() == 0 {
        None
    } else {
        Some(normalized_for_speech(text))
    }
}

/// What the synthesis worker speaks for a segment (see `spoken_text`).
pub fn segment_text(should_speak: bool, text: &str) -> (r: Option<String>)
    ensures
        match spoken_text(should_speak, text@) {
            Some(t) => r matches Some(s) && s@ == t,
            None => r.is_none(),
        },
{
    if !should_speak {
        return None;
    }
    synthesis_text(text)
}

/// Events of the synthesis worker.
pub enum TTSEvent<T> {
    /// Synthesized audio of a segment.
    Audio(QueuedAudio<T>),
    /// Synthesis failed, for this segment of this request when known.
    Error { error: String, segment_index: Option<usize>, request_id: Option<u128> },
    /// The worker shut down.
    Shutdown,
}

/// What the synthesis worker reports once a segment was synthesized:
/// non-empty audio is sent with its segment and request, empty audio is
/// not sent, and a failure is reported with its segment and request.
pub fn synthesis_event<T>(
    segment_index: usize,
    request_id: u128,
    result: Result<Vec<T>, String>,
) -> (e: Option<TTSEvent<Vec<T>>>)
    ensures
        match result {
            Ok(samples) => if samples@.len() > 0 {
                e matches Some(TTSEvent::Audio(q)) && q.segment_index == segment_index
                    && q.request_id == request_id && q.audio == samples
            } else {
                e.is_none()
            },
            Err(m) => e matches Some(TTSEvent::Error { error, segment_index: si, request_id: ri })
                && error == m && si == Some(segment_index) && ri == Some(request_id),
        },
{
    match result {
        Ok(samples) => {
            if samples.len() > 0 {
                Some(TTSEvent::Audio(QueuedAudio { segment_index, request_id, audio: samples }))
            } else {
                None
            }
        },
        Err(m) => Some(
            TTSEvent::Error { error: m, segment_index: Some(segment_index), request_id: Some(request_id) },
        ),
    }
}

/// A synthesized segment waiting for playback.
pub struct QueuedAudio<T> {
    /// Position of the segment in its response.
    pub segment_index: usize,
    /// The request (response) the segment belongs to.
    pub request_id: u128,
    /// The audio.
    pub audio: T,
}

/// Inserting at the first position whose index is greater.
pub open spec fn insert_pos<T>(items: Seq<QueuedAudio<T>>, index: usize) -> int {
    if exists|k: int| 0 <= k < items.len() && items[k].segment_index > index {
        choose|k: int|
            0 <= k < items.len() && items[k].segment_index > index && forall|j: int|
                0 <= j < k ==> items[j].segment_index <= index
    } else {
        items.len() as int
    }
}

/// Playback queue of synthesized segments of one response: segments are
/// kept ordered by index and handed out strictly in index order, from 0;
/// a segment of another response replaces the queue.
pub struct AudioQueue<T> {
    segments: Vec<QueuedAudio<T>>,
    next_playback_index: usize,
    current_request: Option<u128>,
}

impl<T> AudioQueue<T> {
    /// The queued segments, in order.
    pub closed spec fn items(&self) -> Seq<QueuedAudio<T>> {
        self.segments@
    }

    /// The index of the next segment to play.
    pub closed spec fn next(&self) -> usize {
        self.next_playback_index
    }

    /// The response being queued, if any.
    pub closed spec fn request(&self) -> Option<u128> {
        self.current_request
    }

    /// Queued segments are ordered by index and belong to the current
    /// response.
    pub open spec fn well_formed(&self) -> bool {
        &&& forall|i: int, j: int|
            0 <= i <= j < self.items().len() ==> self.items()[i].segment_index
                <= self.items()[j].segment_index
        &&& forall|i: int|
            0 <= i < self.items().len() ==> self.request() == Some(
                #[trigger] self.items()[i].request_id,
            )
    }

    /// An empty queue.
    pub fn new() -> (q: Self)
        ensures
            q.well_formed(),
            q.items().len() == 0,
            q.next() == 0,
            q.request().is_none(),
    {
        AudioQueue { segments: Vec::new(), next_playback_index: 0, current_request: None }
    }

    /// Adds a segment. A segment of another response than the current one
    /// first empties the queue and restarts playback at index 0. The
    /// segment goes before the first queued segment with a greater index.
    #[verifier::rlimit(30)]
    pub fn enqueue(&mut self, audio: QueuedAudio<T>)
        requires
            old(self).well_formed(),
        ensures
            final(self).well_formed(),
            final(self).request() == Some(audio.request_id),
            ({
                let fresh = old(self).request() != Some(audio.request_id);
                let base = if fresh {
                    Seq::<QueuedAudio<T>>::empty()
                } else {
                    old(self).items()
                };
                let pos = insert_pos(base, audio.segment_index);
                &&& final(self).next() == if fresh {
                    0
                } else {
                    old(self).next()
                }
                &&& 0 <= pos <= base.len()
                &&& final(self).items() == base.insert(pos, audio)
            }),
    {
        let fresh = match self.current_request {
            Some(r) => r != audio.request_id,
            None => true,
        };
        if fresh {
            self.segments = Vec::new();
            self.next_playback_index = 0;
            self.current_request = Some(audio.request_id);
        }
        let ghost base = self.segments@;
        proof {
            assert(self.well_formed());
        }
        let n = self.segments.len();
        let mut pos: usize = 0;
        while pos < n && self.segments[pos].segment_index <= audio.segment_index
            invariant
                pos <= n,
                n == self.segments@.len(),
                self.segments@ == base,
                forall|i: int, j: int|
                    0 <= i <= j < base.len() ==> base[i].segment_index <= base[j].segment_index,
                forall|j: int| 0 <= j < pos ==> base[j].segment_index <= audio.segment_index,
            decreases n - pos,
        {
            pos = pos + 1;
        }
        proof {
            if pos < n {
                assert(base[pos as int].segment_index > audio.segment_index);
                let k = choose|k: int|
                    0 <= k < base.len() && base[k].segment_index > audio.segment_index && forall|
                        j: int,
                    | 0 <= j < k ==> base[j].segment_index <= audio.segment_index;
                assert(k == pos);
            } else {
                assert(!exists|k: int| 0 <= k < base.len() && base[k].segment_index > audio.segment_index);
            }
        }
        let ghost item_index = audio.segment_index;
        let ghost item = audio;
        self.segments.insert(pos, audio);
        proof {
            let items = self.segments@;
            assert(items =~= base.insert(pos as int, item));
            assert forall|i: int, j: int| 0 <= i <= j < items.len() implies items[i].segment_index
                <= items[j].segment_index by {
                if i < pos && j > pos {
                    assert(items[j] == base[j - 1]);
                } else if i < pos && j == pos {
                } else if i == pos && j > pos {
                    assert(items[j] == base[j - 1]);
                    if pos < n {
                        assert(base[pos as int].segment_index > item_index);
                        assert(base[pos as int].segment_index <= base[j - 1].segment_index);
                    }
                } else if i > pos {
                    assert(items[i] == base[i - 1]);
                    assert(items[j] == base[j - 1]);
                }
            }
            assert forall|i: int| 0 <= i < items.len() implies self.request() == Some(
                #[trigger] items[i].request_id,
            ) by {
                if i > pos {
                    assert(items[i] == base[i - 1]);
                }
            }
        }
    }

    /// Hands out the segment whose index is the next to play, if it is
    /// queued, and moves on to the following index.
    pub fn dequeue(&mut self) -> (r: Option<QueuedAudio<T>>)
        requires
            old(self).well_formed(),
            old(self).next() < usize::MAX,
        ensures
            final(self).well_formed(),
            final(self).request() == old(self).request(),
            match r {
                Some(a) => {
                    let k = choose|k: int|
                        0 <= k < old(self).items().len() && old(self).items()[k].segment_index
                            == old(self).next() && forall|j: int|
                            0 <= j < k ==> old(self).items()[j].segment_index != old(self).next();
                    &&& 0 <= k < old(self).items().len()
                    &&& a == old(self).items()[k]
                    &&& a.segment_index == old(self).next()
                    &&& final(self).items() == old(self).items().remove(k)
                    &&& final(self).next() == old(self).next() + 1
                },
                None => {
                    &&& forall|k: int|
                        0 <= k < old(self).items().len() ==> #[trigger] old(self).items()[k].segment_index
                            != old(self).next()
                    &&& final(self).items() == old(self).items()
                    &&& final(self).next() == old(self).next()
                },
            },
    {
        let n = self.segments.len();
        let mut pos: usize = 0;
        while pos < n && self.segments[pos].segment_index != self.next_playback_index
            invariant
                pos <= n,
                n == self.segments@.len(),
                self.segments@ == old(self).segments@,
                self.next_playback_index == old(self).next_playback_index,
                forall|j: int| 0 <= j < pos ==> self.segments@[j].segment_index != self.next_playback_index,
            decreases n - pos,
        {
            pos = pos + 1;
        }
        if pos < n {
            proof {
                let items = old(self).items();
                let k = choose|k: int|
                    0 <= k < items.len() && items[k].segment_index == old(self).next() && forall|j: int|
                        0 <= j < k ==> items[j].segment_index != old(self).next();
                assert(k == pos);
            }
            self.next_playback_index = self.next_playback_index + 1;
            let a = self.segments.remove(pos);
            proof {
                let items = self.segments@;
                let base = old(self).segments@;
                assert forall|i: int, j: int| 0 <= i <= j < items.len() implies items[i].segment_index
                    <= items[j].segment_index by {
                    let bi = if i < pos { i } else { i + 1 };
                    let bj = if j < pos { j } else { j + 1 };
                    assert(items[i] == base[bi]);
                    assert(items[j] == base[bj]);
                }
                assert forall|i: int| 0 <= i < items.len() implies self.request() == Some(
                    #[trigger] items[i].request_id,
                ) by {
                    let bi = if i < pos { i } else { i + 1 };
                    assert(items[i] == base[bi]);
                }
            }
            Some(a)
        } else {
            None
        }
    }

    /// Hands out, in order, every segment that can be played now: the
    /// segments with the next index, the one after, and so on, until one is
    /// missing.
    pub fn drain_available(&mut self) -> (out: Vec<QueuedAudio<T>>)
        requires
            old(self).well_formed(),
            old(self).next() + old(self).items().len() < usize::MAX,
        ensures
            final(self).well_formed(),
            final(self).request() == old(self).request(),
            final(self).next() == old(self).next() + out@.len(),
            forall|k: int|
                0 <= k < out@.len() ==> #[trigger] out@[k].segment_index == old(self).next() + k,
            final(self).items().len() + out@.len() == old(self).items().len(),
            forall|k: int|
                0 <= k < final(self).items().len() ==> #[trigger] final(self).items()[k].segment_index
                    != final(self).next(),
    {
        let mut out: Vec<QueuedAudio<T>> = Vec::new();
        loop
            invariant
                self.well_formed(),
                self.request() == old(self).request(),
                self.next() == old(self).next() + out@.len(),
                forall|k: int|
                    0 <= k < out@.len() ==> #[trigger] out@[k].segment_index == old(self).next() + k,
                self.items().len() + out@.len() == old(self).items().len(),
                old(self).next() + old(self).items().len() < usize::MAX,
            ensures
                self.well_formed(),
                self.request() == old(self).request(),
                self.next() == old(self).next() + out@.len(),
                forall|k: int|
                    0 <= k < out@.len() ==> #[trigger] out@[k].segment_index == old(self).next() + k,
                self.items().len() + out@.len() == old(self).items().len(),
                forall|k: int|
                    0 <= k < self.items().len() ==> #[trigger] self.items()[k].segment_index
                        != self.next(),
            decreases self.items().len(),
        {
            match self.dequeue() {
                Some(a) => {
                    out.push(a);
                },
                None => {
                    break;
                },
            }
        }
        out
    }

    /// Empties the queue and forgets the response.
    pub fn clear(&mut self)
        ensures
            final(self).well_formed(),
            final(self).items().len() == 0,
            final(self).next() == 0,
            final(self).request().is_none(),
    {
        self.segments = Vec::new();
        self.next_playback_index = 0;
        self.current_request = None;
    }

    /// The number of queued segments.
    pub fn len(&self) -> (n: usize)
        ensures
            n == self.items().len(),
    {
        self.segments.len()
    }

    /// Whether no segment is queued.
    pub fn is_empty(&self) -> (b: bool)
        ensures
            b == (self.items().len() == 0),
    {
        self.segments.len() == 0
    }

    /// The index of the next segment to play.
    pub fn next_playback_index(&self) -> (n: usize)
        ensures
            n == self.next(),
    {
        self.next_playback_index
    }

    /// The queued segments, in order.
    pub fn segments(&self) -> (s: &Vec<QueuedAudio<T>>)
        ensures
            s@ == self.items(),
    {
        &self.segments
    }
}

} // verus!
