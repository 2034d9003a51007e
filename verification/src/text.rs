//! Text helpers: command-line argument lists, decimal numbers and the
//! character-level scanning used to read ffmpeg's capability listings.
use vstd::prelude::*;

verus! {

/// The text of each argument of an argument list.
pub open spec fn arg_texts(v: Seq<String>) -> Seq<Seq<char>> {
    v.map_values(|s: String| s@)
}

/// Appends one argument, copied from `a`.
pub fn push_arg(args: &mut Vec<String>, a: &str)
    ensures
        arg_texts(final(args)@) == arg_texts(old(args)@).push(a@),
{
    let s = String::from_str(a);
    args.push(s);
    assert(arg_texts(args@) =~= arg_texts(old(args)@).push(a@));
}

/// Appends one argument, moving `s` into the list.
pub fn push_owned(args: &mut Vec<String>, s: String)
    ensures
        arg_texts(final(args)@) == arg_texts(old(args)@).push(s@),
{
    let ghost t = s@;
    args.push(s);
    assert(arg_texts(args@) =~= arg_texts(old(args)@).push(t));
}

/// Appends every argument of `more`, in order.
pub fn extend_args(args: &mut Vec<String>, more: Vec<String>)
    ensures
        arg_texts(final(args)@) == arg_texts(old(args)@) + arg_texts(more@),
{
    let mut rest = more;
    let ghost added = rest@;
    args.append(&mut rest);
    assert(arg_texts(args@) =~= arg_texts(old(args)@) + arg_texts(added));
}

/// Appends a clone of every argument of `more`, in order.
pub fn extend_args_from(args: &mut Vec<String>, more: &Vec<String>)
    ensures
        arg_texts(final(args)@) == arg_texts(old(args)@) + arg_texts(more@),
{
    let ghost start = arg_texts(args@);
    let n = more.len();
    let mut i: usize = 0;
    while i < n
        invariant
            n == more@.len(),
            0 <= i <= n,
            arg_texts(args@) =~= start + arg_texts(more@).take(i as int),
        decreases n - i,
    {
        let s = more[i].clone();
        let ghost before = args@;
        assert(s@ == more@[i as int]@);
        args.push(s);
        assert(arg_texts(args@) =~= arg_texts(before).push(more@[i as int]@));
        assert(arg_texts(more@).take(i + 1) =~= arg_texts(more@).take(i as int).push(more@[i as int]@));
        i = i + 1;
    }
    assert(arg_texts(more@).take(n as int) =~= arg_texts(more@));
}

/// A copy of a list of arguments.
pub fn copy_args(v: &Vec<String>) -> (res: Vec<String>)
    ensures
        arg_texts(res@) == arg_texts(v@),
{
    let mut res: Vec<String> = Vec::new();
    extend_args_from(&mut res, v);
    assert(arg_texts(Seq::<String>::empty()) =~= Seq::<Seq<char>>::empty());
    assert(Seq::<Seq<char>>::empty() + arg_texts(v@) =~= arg_texts(v@));
    res
}

/// A copy of an optional text.
pub fn copy_opt_string(s: &Option<String>) -> (res: Option<String>)
    ensures
        res == *s,
{
    match s {
        Some(t) => Some(t.clone()),
        None => None,
    }
}

/// Whether two texts are equal.
pub fn text_eq(a: &str, b: &str) -> (res: bool)
    ensures
        res == (a@ == b@),
{
    let x = String::from_str(a);
    let y = String::from_str(b);
    x == y
}

/// `String::push` from std: appends one character.
#[verifier::external_body]
fn string_push(s: &mut String, c: char)
    ensures
        final(s)@ == old(s)@.push(c),
{
    s.push(c)
}

/// The character of a decimal digit.
pub open spec fn digit_char(d: nat) -> char {
    if d == 0 {
        '0'
    } else if d == 1 {
        '1'
    } else if d == 2 {
        '2'
    } else if d == 3 {
        '3'
    } else if d == 4 {
        '4'
    } else if d == 5 {
        '5'
    } else if d == 6 {
        '6'
    } else if d == 7 {
        '7'
    } else if d == 8 {
        '8'
    } else {
        '9'
    }
}

/// The decimal representation of `n`, without sign or leading zeros
/// (`0` is written `"0"`).
pub open spec fn decimal(n: nat) -> Seq<char>
    decreases n,
{
    if n < 10 {
        seq![digit_char(n)]
    } else {
        decimal(n / 10).push(digit_char(n % 10))
    }
}

fn digit_of(d: u128) -> (c: char)
    requires
        d < 10,
    ensures
        c == digit_char(d as nat),
{
    if d == 0 {
        '0'
    } else if d == 1 {
        '1'
    } else if d == 2 {
        '2'
    } else if d == 3 {
        '3'
    } else if d == 4 {
        '4'
    } else if d == 5 {
        '5'
    } else if d == 6 {
        '6'
    } else if d == 7 {
        '7'
    } else if d == 8 {
        '8'
    } else {
        '9'
    }
}

/// Appends the decimal text of `n`.
pub fn append_decimal(s: &mut String, n: u128)
    ensures
        final(s)@ == old(s)@ + decimal(n as nat),
    decreases n,
{
    if n >= 10 {
        append_decimal(s, n / 10);
    }
    string_push(s, digit_of(n % 10));
    assert(s@ =~= old(s)@ + decimal(n as nat));
}

/// The decimal text of `n`.
pub fn decimal_string(n: u128) -> (res: String)
    ensures
        res@ == decimal(n as nat),
{
    let mut s = String::new();
    append_decimal(&mut s, n);
    assert(s@ =~= decimal(n as nat));
    s
}

/// The decimal text of `n` followed by `suffix`.
pub fn decimal_with_suffix(n: u128, suffix: &str) -> (res: String)
    ensures
        res@ == decimal(n as nat) + suffix@,
{
    let mut s = decimal_string(n);
    s.append(suffix);
    s
}

/// Joins two texts.
pub fn concat(a: &str, b: &str) -> (res: String)
    ensures
        res@ == a@ + b@,
{
    let mut s = String::from_str(a);
    s.append(b);
    s
}

/// Every character of `s`, in order.
pub fn chars_of(s: &str) -> (res: Vec<char>)
    ensures
        res@ == s@,
{
    let mut res: Vec<char> = Vec::new();
    for c in it: s.chars()
        invariant
            res@ == it.seq().take(it.index() as int),
            it.seq() == s@,
    {
        res.push(c);
        assert(res@ =~= it.seq().take(it.index() + 1));
    }
    assert(res@ =~= s@);
    res
}

/// Builds a text from characters.
pub fn string_of_chars(cs: &Vec<char>) -> (res: String)
    ensures
        res@ == cs@,
{
    let mut s = String::new();
    let n = cs.len();
    let mut i: usize = 0;
    while i < n
        invariant
            n == cs@.len(),
            0 <= i <= n,
            s@ =~= cs@.take(i as int),
        decreases n - i,
    {
        string_push(&mut s, cs[i]);
        i = i + 1;
        assert(s@ =~= cs@.take(i as int));
    }
    assert(cs@.take(n as int) =~= cs@);
    s
}

} // verus!

verus! {

/// The lower-case form of a text, as std's `str::to_lowercase` gives it
/// (Unicode's lower-case mapping of each character).
pub uninterp spec fn lowercase_of(s: Seq<char>) -> Seq<char>;

/// `str::to_lowercase` from std.
#[verifier::external_body]
pub(crate) fn lowercase(s: &str) -> (res: String)
    ensures
        res@ == lowercase_of(s@),
{
    s.to_lowercase()
}

} // verus!

verus! {

/// Unicode's `White_Space` property, which std's `char::is_whitespace`
/// tests.
pub open spec fn is_white_space(c: char) -> bool {
    let u = c as u32;
    ||| u == 0x09 || u == 0x0A || u == 0x0B || u == 0x0C || u == 0x0D || u == 0x20
    ||| u == 0x85 || u == 0xA0 || u == 0x1680
    ||| 0x2000 <= u <= 0x200A
    ||| u == 0x2028 || u == 0x2029 || u == 0x202F || u == 0x205F || u == 0x3000
}

/// Whether `c` is white space.
pub fn white_space(c: char) -> (res: bool)
    ensures
        res == is_white_space(c),
{
    let u = c as u32;
    u == 0x09 || u == 0x0A || u == 0x0B || u == 0x0C || u == 0x0D || u == 0x20 || u == 0x85
        || u == 0xA0 || u == 0x1680 || (0x2000 <= u && u <= 0x200A) || u == 0x2028 || u
        == 0x2029 || u == 0x202F || u == 0x205F || u == 0x3000
}

/// The texts of a list of character vectors.
pub open spec fn char_texts(v: Seq<Vec<char>>) -> Seq<Seq<char>> {
    v.map_values(|l: Vec<char>| l@)
}

/// Scanning a text for lines: the finished lines and the line in progress.
pub open spec fn line_scan(s: Seq<char>) -> (Seq<Seq<char>>, Seq<char>)
    decreases s.len(),
{
    if s.len() == 0 {
        (Seq::empty(), Seq::empty())
    } else {
        let (done, cur) = line_scan(s.drop_last());
        if s.last() == '\n' {
            (done.push(cur), Seq::empty())
        } else {
            (done, cur.push(s.last()))
        }
    }
}

/// The pieces of a text between line feeds; a text that ends with a line
/// feed has no empty last line.
pub open spec fn split_lines(s: Seq<char>) -> Seq<Seq<char>> {
    let (done, cur) = line_scan(s);
    if cur.len() == 0 {
        done
    } else {
        done.push(cur)
    }
}

/// The lines of a text.
pub fn lines_of(s: &Vec<char>) -> (res: Vec<Vec<char>>)
    ensures
        char_texts(res@) == split_lines(s@),
{
    let mut done: Vec<Vec<char>> = Vec::new();
    let mut cur: Vec<char> = Vec::new();
    let n = s.len();
    let mut i: usize = 0;
    while i < n
        invariant
            n == s@.len(),
            0 <= i <= n,
            (char_texts(done@), cur@) == line_scan(s@.take(i as int)),
        decreases n - i,
    {
        let c = s[i];
        assert(s@.take(i + 1).drop_last() =~= s@.take(i as int));
        if c == '\n' {
            let line = cur;
            let ghost prev = done@;
            done.push(line);
            cur = Vec::new();
            assert(char_texts(done@) =~= char_texts(prev).push(line@));
            assert(cur@ =~= Seq::<char>::empty());
        } else {
            cur.push(c);
        }
        i = i + 1;
    }
    assert(s@.take(n as int) =~= s@);
    if cur.len() > 0 {
        let ghost prev = done@;
        let ghost last = cur@;
        done.push(cur);
        assert(char_texts(done@) =~= char_texts(prev).push(last));
    }
    done
}

/// A text without its leading white space.
pub open spec fn trim_start(s: Seq<char>) -> Seq<char>
    decreases s.len(),
{
    if s.len() > 0 && is_white_space(s[0]) {
        trim_start(s.drop_first())
    } else {
        s
    }
}

/// A text without its trailing white space.
pub open spec fn trim_end(s: Seq<char>) -> Seq<char>
    decreases s.len(),
{
    if s.len() > 0 && is_white_space(s.last()) {
        trim_end(s.drop_last())
    } else {
        s
    }
}

/// A text without leading or trailing white space.
pub open spec fn trim(s: Seq<char>) -> Seq<char> {
    trim_end(trim_start(s))
}

/// `s` without leading or trailing white space.
pub fn trimmed(s: &Vec<char>) -> (res: Vec<char>)
    ensures
        res@ == trim(s@),
{
    let n = s.len();
    let mut a: usize = 0;
    assert(s@.subrange(0, n as int) =~= s@);
    while a < n && white_space(s[a])
        invariant
            n == s@.len(),
            0 <= a <= n,
            trim_start(s@) == trim_start(s@.subrange(a as int, n as int)),
        decreases n - a,
    {
        assert(s@.subrange(a as int, n as int).drop_first() =~= s@.subrange(a + 1, n as int));
        a = a + 1;
    }
    assert(trim_start(s@) == s@.subrange(a as int, n as int));
    let mut b: usize = n;
    while b > a && white_space(s[b - 1])
        invariant
            n == s@.len(),
            0 <= a <= b <= n,
            trim(s@) == trim_end(s@.subrange(a as int, b as int)),
        decreases b,
    {
        assert(s@.subrange(a as int, b as int).drop_last() =~= s@.subrange(a as int, b - 1));
        b = b - 1;
    }
    let mut res: Vec<char> = Vec::new();
    let mut k: usize = a;
    while k < b
        invariant
            n == s@.len(),
            0 <= a <= k <= b <= n,
            res@ =~= s@.subrange(a as int, k as int),
        decreases b - k,
    {
        res.push(s[k]);
        k = k + 1;
    }
    res
}

/// Scanning a text for words: the finished words and the word in progress.
pub open spec fn word_scan(s: Seq<char>) -> (Seq<Seq<char>>, Seq<char>)
    decreases s.len(),
{
    if s.len() == 0 {
        (Seq::empty(), Seq::empty())
    } else {
        let (done, cur) = word_scan(s.drop_last());
        if is_white_space(s.last()) {
            if cur.len() == 0 {
                (done, cur)
            } else {
                (done.push(cur), Seq::empty())
            }
        } else {
            (done, cur.push(s.last()))
        }
    }
}

/// The white-space separated words of a text, as std's
/// `str::split_whitespace` yields them.
pub open spec fn words(s: Seq<char>) -> Seq<Seq<char>> {
    let (done, cur) = word_scan(s);
    if cur.len() == 0 {
        done
    } else {
        done.push(cur)
    }
}

/// The words of `s`.
pub fn words_of(s: &Vec<char>) -> (res: Vec<Vec<char>>)
    ensures
        char_texts(res@) == words(s@),
{
    let mut done: Vec<Vec<char>> = Vec::new();
    let mut cur: Vec<char> = Vec::new();
    let n = s.len();
    let mut i: usize = 0;
    while i < n
        invariant
            n == s@.len(),
            0 <= i <= n,
            (char_texts(done@), cur@) == word_scan(s@.take(i as int)),
        decreases n - i,
    {
        let c = s[i];
        assert(s@.take(i + 1).drop_last() =~= s@.take(i as int));
        if white_space(c) {
            if cur.len() > 0 {
                let word = cur;
                let ghost prev = done@;
                done.push(word);
                cur = Vec::new();
                assert(char_texts(done@) =~= char_texts(prev).push(word@));
                assert(cur@ =~= Seq::<char>::empty());
            }
        } else {
            cur.push(c);
        }
        i = i + 1;
    }
    assert(s@.take(n as int) =~= s@);
    if cur.len() > 0 {
        let ghost prev = done@;
        let ghost last = cur@;
        done.push(cur);
        assert(char_texts(done@) =~= char_texts(prev).push(last));
    }
    done
}

/// Whether a text holds the character `c`.
pub fn has_char(s: &Vec<char>, c: char) -> (res: bool)
    ensures
        res == s@.contains(c),
{
    let n = s.len();
    let mut i: usize = 0;
    while i < n
        invariant
            n == s@.len(),
            0 <= i <= n,
            forall|k: int| 0 <= k < i ==> s@[k] != c,
        decreases n - i,
    {
        if s[i] == c {
            return true;
        }
        i = i + 1;
    }
    false
}

/// Whether a list of texts holds `t`.
pub fn contains_text(list: &Vec<String>, t: &str) -> (res: bool)
    ensures
        res == arg_texts(list@).contains(t@),
{
    let n = list.len();
    let mut i: usize = 0;
    while i < n
        invariant
            n == list@.len(),
            0 <= i <= n,
            forall|k: int| 0 <= k < i ==> list@[k]@ != t@,
        decreases n - i,
    {
        if text_eq(list[i].as_str(), t) {
            assert(arg_texts(list@)[i as int] == t@);
            return true;
        }
        i = i + 1;
    }
    assert(!arg_texts(list@).contains(t@)) by {
        if arg_texts(list@).contains(t@) {
            let k = choose|k: int| 0 <= k < arg_texts(list@).len() && arg_texts(list@)[k] == t@;
            assert(list@[k]@ == t@);
        }
    }
    false
}

} // verus!

verus! {

/// `w:h` in decimal.
pub open spec fn dims_text(w: u32, h: u32) -> Seq<char> {
    decimal(w as nat) + ":"@ + decimal(h as nat)
}

/// The decimal text `w:h`.
pub fn dims(w: u32, h: u32) -> (res: String)
    ensures
        res@ == dims_text(w, h),
{
    let mut s = decimal_string(w as u128);
    s.append(":");
    append_decimal(&mut s, h as u128);
    s
}

/// The text of an optional value, or `default`.
pub open spec fn text_or(t: Option<String>, default: Seq<char>) -> Seq<char> {
    match t {
        Some(s) => s@,
        None => default,
    }
}

/// The text of `t`, or `default` when there is none.
pub fn str_or<'a>(t: &'a Option<String>, default: &'a str) -> (res: &'a str)
    ensures
        res@ == text_or(*t, default@),
{
    match t {
        Some(s) => s.as_str(),
        None => default,
    }
}

} // verus!

verus! {

/// The arguments `a`.
pub fn args1(a: &str) -> (res: Vec<String>)
    ensures
        arg_texts(res@) == seq![a@],
{
    let mut v: Vec<String> = Vec::new();
    push_arg(&mut v, a);
    assert(arg_texts(v@) =~= seq![a@]);
    v
}

/// The arguments `a b`.
pub fn args2(a: &str, b: &str) -> (res: Vec<String>)
    ensures
        arg_texts(res@) == seq![a@, b@],
{
    let mut v: Vec<String> = Vec::new();
    push_arg(&mut v, a);
    push_arg(&mut v, b);
    assert(arg_texts(v@) =~= seq![a@, b@]);
    v
}

/// The arguments `a s`, where `s` is moved in.
pub fn args_with(a: &str, s: String) -> (res: Vec<String>)
    ensures
        arg_texts(res@) == seq![a@, s@],
{
    let mut v: Vec<String> = Vec::new();
    push_arg(&mut v, a);
    push_owned(&mut v, s);
    assert(arg_texts(v@) =~= seq![a@, s@]);
    v
}

/// The arguments `a b c d`.
pub fn args4(a: &str, b: &str, c: &str, d: &str) -> (res: Vec<String>)
    ensures
        arg_texts(res@) == seq![a@, b@, c@, d@],
{
    let mut v: Vec<String> = Vec::new();
    push_arg(&mut v, a);
    push_arg(&mut v, b);
    push_arg(&mut v, c);
    push_arg(&mut v, d);
    assert(arg_texts(v@) =~= seq![a@, b@, c@, d@]);
    v
}

} // verus!

verus! {

/// The texts of environment variable settings.
pub open spec fn env_texts(v: Seq<(String, String)>) -> Seq<(Seq<char>, Seq<char>)> {
    v.map_values(|p: (String, String)| (p.0@, p.1@))
}

} // verus!
