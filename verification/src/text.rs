//! Small text utilities shared by the domain and endpoint layers: decimal
//! rendering of integers, string comparison and concatenation.
use vstd::prelude::*;

verus! {

/// The ASCII digit for `d`, for `0 <= d < 10`.
pub open spec fn digit_char(d: int) -> char {
    (48 + d) as char
}

/// Decimal digits of a natural number, most significant first, without
/// leading zeros (`0` renders as `"0"`).
pub open spec fn nat_decimal(n: nat) -> Seq<char>
    decreases n,
{
    if n < 10 {
        seq![digit_char(n as int)]
    } else {
        nat_decimal(n / 10).push(digit_char((n % 10) as int))
    }
}

/// Decimal rendering of an integer: a `-` sign for negative values, then the
/// digits of its magnitude.
pub open spec fn int_decimal(i: int) -> Seq<char> {
    if i < 0 {
        seq!['-'] + nat_decimal((-i) as nat)
    } else {
        nat_decimal(i as nat)
    }
}

/// Renders `x` in decimal through `i64`'s `Display` implementation
/// (`std::fmt`), which writes an optional `-` and the digits of the magnitude
/// with no leading zeros. The contract states that text; it is trusted.
#[verifier::external_body]
pub(crate) fn decimal_string(x: i64) -> (res: String)
    ensures
        res@ == int_decimal(x as int),
{
    format!("{}", x)
}

/// Whether two string slices hold the same characters.
pub fn str_eq(a: &str, b: &str) -> (res: bool)
    ensures
        res == (a@ == b@),
{
    let a_owned = a.to_owned();
    let b_owned = b.to_owned();
    a_owned == b_owned
}

/// `a` followed by `b`.
pub fn concat(a: &str, b: &str) -> (res: String)
    ensures
        res@ == a@ + b@,
{
    let owned = a.to_owned();
    owned.concat(b)
}

/// `a`, then `b`, then `c`.
pub fn concat3(a: &str, b: &str, c: &str) -> (res: String)
    ensures
        res@ == a@ + b@ + c@,
{
    let ab = concat(a, b);
    ab.concat(c)
}


/// Name for what `std::path::Path::file_name` gives for the path with this
/// text: its final normal component, or nothing (for instance when the path
/// ends in `..` or is a root).
pub uninterp spec fn path_file_name_of(path: Seq<char>) -> Option<Seq<char>>;

/// The text after the last `/` of a path (all of it when there is none).
pub open spec fn after_last_slash(path: Seq<char>) -> Seq<char>
    decreases path.len(),
{
    if path.len() == 0 {
        path
    } else if path.last() == '/' {
        Seq::empty()
    } else {
        after_last_slash(path.drop_last()).push(path.last())
    }
}

/// The path ends in a plain name: the text after its last `/` is neither
/// empty, nor `.`, nor `..`.
pub open spec fn ends_in_name(path: Seq<char>) -> bool {
    let last = after_last_slash(path);
    &&& last.len() > 0
    &&& last != "."@
    &&& last != ".."@
}

/// The path terminates in `..`.
pub open spec fn ends_in_parent(path: Seq<char>) -> bool {
    after_last_slash(path) == ".."@
}

/// The final component of a path, through `std::path::Path::file_name`. The
/// contract ties the result to the path's text through a name, and states the
/// two cases that the documentation spells out: a path that ends in a plain
/// name has that name as its final component, and a path that terminates in
/// `..` has none. For other texts (a trailing `/` or `.`, a root) what the
/// component is is not stated.
#[verifier::external_body]
pub(crate) fn path_file_name(path: &str) -> (res: Option<String>)
    ensures
        match res {
            Some(name) => {
                &&& path_file_name_of(path@) == Some(name@)
                &&& ends_in_name(path@) ==> name@ == after_last_slash(path@)
                &&& !ends_in_parent(path@)
            },
            None => path_file_name_of(path@).is_none() && !ends_in_name(path@),
        },
{
    match std::path::Path::new(path).file_name() {
        Some(name) => Some(name.to_string_lossy().into_owned()),
        None => None,
    }
}

/// Name for the text of the path that `std::path::Path::join` makes of a
/// directory and a name given by their texts.
pub uninterp spec fn path_join_of(dir: Seq<char>, name: Seq<char>) -> Seq<char>;

/// `name` under `dir`, through `std::path::Path::join`. The contract ties the
/// result to both texts through a name, and states the two cases that the
/// documentation of `join` and `PathBuf::push` spells out: a relative name
/// extends a directory that does not end in `/` with a `/` and the name, and
/// an absolute name replaces the directory. Other cases (an empty directory,
/// one that ends in `/`, an empty name) are not stated.
#[verifier::external_body]
pub(crate) fn path_join(dir: &str, name: &str) -> (res: String)
    ensures
        res@ == path_join_of(dir@, name@),
        (dir@.len() > 0 && dir@.last() != '/' && name@.len() > 0 && name@[0] != '/') ==> res@
            == dir@ + "/"@ + name@,
        (name@.len() > 0 && name@[0] == '/') ==> res@ == name@,
{
    std::path::Path::new(dir).join(name).to_string_lossy().into_owned()
}

/// Name for what `str::to_lowercase` gives for a text: the Unicode lower-case
/// mapping of each character.
pub uninterp spec fn lowercase_of(s: Seq<char>) -> Seq<char>;

/// Every character of the text is ASCII.
pub open spec fn is_ascii_text(s: Seq<char>) -> bool {
    forall|i: int| 0 <= i < s.len() ==> (#[trigger] s[i]) as int <= 127
}

/// The ASCII lower-case form of a character: `A` to `Z` become `a` to `z`,
/// every other character stays.
pub open spec fn ascii_lower(c: char) -> char {
    if 65 <= c as int <= 90 {
        (c as int + 32) as char
    } else {
        c
    }
}

/// The lower-case form of a text, through `str::to_lowercase`. The contract
/// ties the result to the text through a name, and states the case of an ASCII
/// text, where the Unicode mapping lowers `A` to `Z` and keeps every other
/// character; the Unicode case tables beyond ASCII are not stated.
#[verifier::external_body]
pub(crate) fn to_lowercase(s: &str) -> (res: String)
    ensures
        res@ == lowercase_of(s@),
        is_ascii_text(s@) ==> res@ == s@.map_values(|c: char| ascii_lower(c)),
{
    s.to_lowercase()
}

/// Upper-case hex digit for `d`, for `0 <= d < 16`.
pub open spec fn hex_upper_char(d: int) -> char {
    if d < 10 {
        (48 + d) as char
    } else {
        (55 + d) as char
    }
}

/// An ASCII letter or digit.
pub open spec fn is_ascii_alphanumeric_byte(b: u8) -> bool {
    (48 <= b <= 57) || (65 <= b <= 90) || (97 <= b <= 122)
}

/// Percent-encoding of bytes that keeps ASCII letters and digits and writes
/// every other byte as `%` and two upper-case hex digits.
pub open spec fn percent_encoded(bytes: Seq<u8>) -> Seq<char>
    decreases bytes.len(),
{
    if bytes.len() == 0 {
        Seq::empty()
    } else {
        let b = bytes[0];
        let head = if is_ascii_alphanumeric_byte(b) {
            seq![b as char]
        } else {
            seq!['%', hex_upper_char((b / 16) as int), hex_upper_char((b % 16) as int)]
        };
        head + percent_encoded(bytes.drop_first())
    }
}

/// Percent-encodes the UTF-8 bytes of `s` with
/// `percent_encoding::utf8_percent_encode` and the set `NON_ALPHANUMERIC`: ASCII
/// letters and digits stay, every other byte becomes `%XX` (upper-case hex).
/// The contract states that text; it is trusted.
#[verifier::external_body]
pub(crate) fn percent_encode_non_alphanumeric(s: &str) -> (res: String)
    ensures
        res@ == percent_encoded(vstd::utf8::encode_utf8(s@)),
{
    percent_encoding::utf8_percent_encode(s, percent_encoding::NON_ALPHANUMERIC).to_string()
}

} // verus!
