//! Text that the tool produces: decimal numbers, timestamped file names and
//! the HTML snippet that embeds an image as a base64 data URI.
use vstd::prelude::*;
use base64::Engine;

verus! {

/// The character of one decimal digit.
pub open spec fn digit_char(d: nat) -> char {
    (d + 48) as char
}

/// Decimal notation of a natural number, without leading zeros.
pub open spec fn decimal(n: nat) -> Seq<char>
    decreases n,
{
    if n < 10 {
        seq![digit_char(n)]
    } else {
        decimal(n / 10).push(digit_char(n % 10))
    }
}

/// Decimal notation of an integer: a minus sign before negative numbers.
pub open spec fn signed_decimal(v: int) -> Seq<char> {
    if v < 0 {
        seq!['-'].add(decimal((-v) as nat))
    } else {
        decimal(v as nat)
    }
}

/// `stem-<timestamp>.<extension>`.
pub open spec fn timestamped_name(stem: Seq<char>, timestamp: nat, extension: Seq<char>) -> Seq<char> {
    stem + "-"@ + decimal(timestamp) + "."@ + extension
}

/// `<img src="data:<mime>;base64,<payload>" />`.
pub open spec fn html_embed(mime: Seq<char>, payload: Seq<char>) -> Seq<char> {
    "<img src=\"data:"@ + mime + ";base64,"@ + payload + "\" />"@
}

/// Decimal notation has one digit for numbers below ten and more above.
proof fn decimal_len(n: nat)
    ensures
        decimal(n).len() >= 1,
        (decimal(n).len() == 1) == (n < 10),
    decreases n,
{
    if n >= 10 {
        decimal_len(n / 10);
    }
}

/// Different numbers have different decimal notations.
pub proof fn decimal_injective(a: nat, b: nat)
    requires
        decimal(a) == decimal(b),
    ensures
        a == b,
    decreases a,
{
    decimal_len(a);
    decimal_len(b);
    if a < 10 && b < 10 {
        assert(decimal(a)[0] == digit_char(a));
        assert(decimal(b)[0] == digit_char(b));
        assert((a + 48) as char == (b + 48) as char);
        assert(((a + 48) as char) as int == a + 48);
        assert(((b + 48) as char) as int == b + 48);
    } else {
        assert(a >= 10 && b >= 10);
        let da = decimal(a);
        let db = decimal(b);
        assert(da.drop_last() == decimal(a / 10));
        assert(db.drop_last() == decimal(b / 10));
        decimal_injective(a / 10, b / 10);
        assert(da.last() == digit_char(a % 10));
        assert(db.last() == digit_char(b % 10));
        assert(((a % 10 + 48) as char) as int == a % 10 + 48);
        assert(((b % 10 + 48) as char) as int == b % 10 + 48);
    }
}

/// Files saved at different timestamps get different names.
pub proof fn distinct_timestamps_distinct_names(stem: Seq<char>, t1: nat, t2: nat, extension: Seq<char>)
    requires
        t1 != t2,
    ensures
        timestamped_name(stem, t1, extension) != timestamped_name(stem, t2, extension),
{
    let n1 = timestamped_name(stem, t1, extension);
    let n2 = timestamped_name(stem, t2, extension);
    let d1 = decimal(t1);
    let d2 = decimal(t2);
    let start = stem.len() + 1;
    reveal_strlit("-");
    reveal_strlit(".");
    if n1 == n2 {
        if d1.len() == d2.len() {
            assert(n1.subrange(start as int, (start + d1.len()) as int) =~= d1);
            assert(n2.subrange(start as int, (start + d2.len()) as int) =~= d2);
            decimal_injective(t1, t2);
        } else {
            assert(n1.len() == stem.len() + 1 + d1.len() + 1 + extension.len());
            assert(n2.len() == stem.len() + 1 + d2.len() + 1 + extension.len());
        }
    }
}

fn digit_str(d: u64) -> (s: &'static str)
    requires
        d < 10,
    ensures
        s@ == seq![digit_char(d as nat)],
{
    if d == 0 {
        proof { reveal_strlit("0"); }
        "0"
    } else if d == 1 {
        proof { reveal_strlit("1"); }
        "1"
    } else if d == 2 {
        proof { reveal_strlit("2"); }
        "2"
    } else if d == 3 {
        proof { reveal_strlit("3"); }
        "3"
    } else if d == 4 {
        proof { reveal_strlit("4"); }
        "4"
    } else if d == 5 {
        proof { reveal_strlit("5"); }
        "5"
    } else if d == 6 {
        proof { reveal_strlit("6"); }
        "6"
    } else if d == 7 {
        proof { reveal_strlit("7"); }
        "7"
    } else if d == 8 {
        proof { reveal_strlit("8"); }
        "8"
    } else {
        proof { reveal_strlit("9"); }
        "9"
    }
}

/// Appends the decimal notation of `n` to `out`.
fn push_decimal(out: &mut String, n: u64)
    ensures
        final(out)@ == old(out)@ + decimal(n as nat),
    decreases n,
{
    if n < 10 {
        out.append(digit_str(n));
    } else {
        push_decimal(out, n / 10);
        out.append(digit_str(n % 10));
        proof {
            assert(decimal(n as nat) == decimal((n / 10) as nat).push(digit_char((n % 10) as nat)));
        }
    }
}

/// The decimal notation of `n`, as `format!("{}", n)` writes it.
pub fn decimal_string(n: u64) -> (s: String)
    ensures
        s@ == decimal(n as nat),
{
    let mut s = String::new();
    push_decimal(&mut s, n);
    s
}

/// The decimal notation of a signed number, as `format!("{}", v)` writes it.
pub fn signed_decimal_string(v: i32) -> (s: String)
    ensures
        s@ == signed_decimal(v as int),
{
    let mut s = String::new();
    if v < 0 {
        s.append("-");
        let magnitude: u64 = (0i64 - v as i64) as u64;
        push_decimal(&mut s, magnitude);
        proof {
            reveal_strlit("-");
            assert(s@ == seq!['-'].add(decimal((-v) as nat)));
        }
    } else {
        push_decimal(&mut s, v as u64);
    }
    s
}

/// The file name `stem-<timestamp>.<extension>` under which a capture is saved.
pub fn timestamped_file_name(stem: &str, timestamp: u64, extension: &str) -> (name: String)
    ensures
        name@ == timestamped_name(stem@, timestamp as nat, extension@),
{
    let mut name = String::from_str(stem);
    name.append("-");
    push_decimal(&mut name, timestamp);
    name.append(".");
    name.append(extension);
    name
}

/// The HTML `img` element that shows `payload` (base64 text) as an image of
/// type `mime`, as it is put on the clipboard.
pub fn html_image_embed(mime: &str, payload: &str) -> (html: String)
    ensures
        html@ == html_embed(mime@, payload@),
{
    let mut html = String::from_str("<img src=\"data:");
    html.append(mime);
    html.append(";base64,");
    html.append(payload);
    html.append("\" />");
    html
}

/// Number of characters of the padded base64 text of `n` bytes.
pub open spec fn base64_len(n: nat) -> nat {
    4 * ((n + 2) / 3)
}

/// The character of a 6-bit value in the standard base64 alphabet:
/// `A`-`Z`, `a`-`z`, `0`-`9`, `+`, `/`.
pub open spec fn base64_digit(v: int) -> char {
    if v < 26 {
        (65 + v) as char
    } else if v < 52 {
        (97 + v - 26) as char
    } else if v < 62 {
        (48 + v - 52) as char
    } else if v == 62 {
        '+'
    } else {
        '/'
    }
}

/// The padded base64 text (standard alphabet, RFC 4648) of some bytes: each
/// group of three bytes, read as a 24-bit number, gives four 6-bit digits; a
/// last group of one or two bytes is filled with zero bits and its missing
/// digits are written as `=`.
pub open spec fn base64_standard(data: Seq<u8>) -> Seq<char>
    decreases data.len(),
{
    if data.len() == 0 {
        Seq::empty()
    } else {
        let b1: int = if data.len() > 1 { data[1] as int } else { 0 };
        let b2: int = if data.len() > 2 { data[2] as int } else { 0 };
        let group = data[0] as int * 65536 + b1 * 256 + b2;
        let chunk = seq![
            base64_digit(group / 262144),
            base64_digit((group / 4096) % 64),
            if data.len() > 1 { base64_digit((group / 64) % 64) } else { '=' },
            if data.len() > 2 { base64_digit(group % 64) } else { '=' },
        ];
        if data.len() <= 3 {
            chunk
        } else {
            chunk + base64_standard(data.skip(3))
        }
    }
}

/// Calls `Engine::encode` of `base64::engine::general_purpose::STANDARD`.
/// Trusted: the text is the padded standard base64 of the bytes, four
/// characters for each started group of three bytes (as `encoded_len` and
/// `encode_with_padding` in the crate's source compute it). The crate panics
/// where that length overflows `usize`.
#[verifier::external_body]
pub(crate) fn encode_base64(data: &[u8]) -> (text: String)
    requires
        base64_len(data@.len()) <= usize::MAX,
    ensures
        text@ == base64_standard(data@),
        text@.len() == base64_len(data@.len()),
{
    base64::engine::general_purpose::STANDARD.encode(data)
}

/// The texts of a list of strings.
pub open spec fn texts(items: Seq<String>) -> Seq<Seq<char>> {
    items.map_values(|s: String| s@)
}

/// The items one after another, `sep` between each two.
pub open spec fn joined(items: Seq<Seq<char>>, sep: Seq<char>) -> Seq<char>
    decreases items.len(),
{
    if items.len() == 0 {
        Seq::empty()
    } else if items.len() == 1 {
        items[0]
    } else {
        joined(items.drop_last(), sep) + sep + items.last()
    }
}

/// The strings one after another, `sep` between each two, as
/// `[String]::join` writes them.
pub fn join_strings(items: &Vec<String>, sep: &str) -> (text: String)
    ensures
        text@ == joined(texts(items@), sep@),
{
    let mut text = String::new();
    let n = items.len();
    for i in 0..n
        invariant
            n == items@.len(),
            text@ == joined(texts(items@).take(i as int), sep@),
    {
        let ghost prefix = texts(items@).take(i as int);
        let ghost next = texts(items@).take(i + 1);
        proof {
            assert(next.drop_last() =~= prefix);
            assert(next.last() == items@[i as int]@);
        }
        if i > 0 {
            text.append(sep);
        } else {
            assert(prefix =~= Seq::<Seq<char>>::empty());
        }
        text.append(items[i].as_str());
    }
    proof {
        assert(texts(items@).take(n as int) =~= texts(items@));
    }
    text
}

/// `first` followed by `second`.
pub fn concat_str(first: &str, second: &str) -> (text: String)
    ensures
        text@ == first@ + second@,
{
    let mut text = String::from_str(first);
    text.append(second);
    text
}

} // verus!
