//! Text helpers: decimal numbers and file-system paths as strings.

use vstd::prelude::*;
use vstd::string::*;

verus! {

/// The decimal digit for `d` in `0..10`.
pub open spec fn decimal_digit(d: int) -> char {
    "0123456789"@[d]
}

/// The decimal representation of `n`, most significant digit first, without
/// leading zeros (as Rust's `Display` writes unsigned integers).
pub open spec fn decimal(n: nat) -> Seq<char>
    decreases n,
{
    if n < 10 {
        seq![decimal_digit(n as int)]
    } else {
        decimal(n / 10).push(decimal_digit((n % 10) as int))
    }
}

/// Writes `n` in decimal.
pub fn decimal_string(n: u64) -> (r: String)
    ensures
        r@ == decimal(n as nat),
    decreases n,
{
    let digits = "0123456789";
    proof {
        reveal_strlit("0123456789");
    }
    let d = (n % 10) as usize;
    let digit = digits.substring_char(d, d + 1);
    assert(digit@ =~= seq![decimal_digit(d as int)]);
    if n < 10 {
        String::from_str(digit)
    } else {
        let mut s = decimal_string(n / 10);
        s.append(digit);
        s
    }
}

/// `rel` joined onto the path `base` with the client's path convention: `/`
/// separates components on every platform (Windows' file functions and the
/// glob patterns accept it too), and the rule is that of
/// `std::path::Path::join` on Unix: an absolute `rel` (one that starts at the
/// root `/`) replaces `base`; otherwise a separator is put between them unless
/// `base` is empty or already ends with one.
pub open spec fn joined_path(base: Seq<char>, rel: Seq<char>) -> Seq<char> {
    if rel.len() > 0 && rel[0] == '/' {
        rel
    } else if base.len() == 0 || base[base.len() - 1] == '/' {
        base + rel
    } else {
        base + seq!['/'] + rel
    }
}

/// Joins the path `rel` onto the path `base`, with `/` as the separator on
/// every platform.
pub fn join_path(base: &str, rel: &str) -> (r: String)
    ensures
        r@ == joined_path(base@, rel@),
{
    let rel_len = rel.unicode_len();
    if rel_len > 0 && rel.get_char(0) == '/' {
        return String::from_str(rel);
    }
    let base_len = base.unicode_len();
    let mut r = String::from_str(base);
    if base_len > 0 && base.get_char(base_len - 1) != '/' {
        let separator = "/";
        proof {
            reveal_strlit("/");
        }
        r.append(separator);
    }
    r.append(rel);
    r
}

} // verus!
