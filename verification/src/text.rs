//! Small helpers on text: comparing, counting in decimal, joining with commas.

use vstd::prelude::*;
use vstd::string::*;
use crate::decl::views;

verus! {

/// Whether `text` reads exactly `word`.
pub fn same_text(text: &String, word: &str) -> (same: bool)
    ensures
        same == (text@ == word@),
{
    let other = String::from_str(word);
    *text == other
}

/// The digit `d`, for `0 <= d <= 9`.
pub open spec fn digit(d: int) -> Seq<char> {
    if d == 0 {
        "0"@
    } else if d == 1 {
        "1"@
    } else if d == 2 {
        "2"@
    } else if d == 3 {
        "3"@
    } else if d == 4 {
        "4"@
    } else if d == 5 {
        "5"@
    } else if d == 6 {
        "6"@
    } else if d == 7 {
        "7"@
    } else if d == 8 {
        "8"@
    } else {
        "9"@
    }
}

/// `n` in decimal, without leading zeros.
pub open spec fn decimal(n: nat) -> Seq<char>
    decreases n,
{
    if n < 10 {
        digit(n as int)
    } else {
        decimal(n / 10) + digit((n % 10) as int)
    }
}

/// The digit `d`.
fn digit_text(d: usize) -> (out: &'static str)
    requires
        d <= 9,
    ensures
        out@ == digit(d as int),
{
    if d == 0 {
        "0"
    } else if d == 1 {
        "1"
    } else if d == 2 {
        "2"
    } else if d == 3 {
        "3"
    } else if d == 4 {
        "4"
    } else if d == 5 {
        "5"
    } else if d == 6 {
        "6"
    } else if d == 7 {
        "7"
    } else if d == 8 {
        "8"
    } else {
        "9"
    }
}

/// Writes `n` in decimal.
pub fn decimal_text(n: usize) -> (out: String)
    ensures
        out@ == decimal(n as nat),
    decreases n,
{
    if n < 10 {
        String::from_str(digit_text(n))
    } else {
        let mut out = decimal_text(n / 10);
        out.append(digit_text(n % 10));
        out
    }
}

/// The first `upto` items, with `", "` between neighbours.
pub open spec fn joined(items: Seq<Seq<char>>, upto: int) -> Seq<char>
    decreases upto,
{
    if upto <= 0 {
        Seq::empty()
    } else if upto == 1 {
        items[0]
    } else {
        joined(items, upto - 1) + ", "@ + items[upto - 1]
    }
}

/// A comma-separated list: the items with `", "` between neighbours, and a
/// comma after the last one if `trailing_comma` is set. An empty list is the
/// empty text either way.
pub open spec fn punctuated(items: Seq<Seq<char>>, trailing_comma: bool) -> Seq<char> {
    if items.len() == 0 {
        Seq::empty()
    } else if trailing_comma {
        joined(items, items.len() as int) + ","@
    } else {
        joined(items, items.len() as int)
    }
}

/// Writes a comma-separated list.
pub fn punctuated_text(items: &Vec<String>, trailing_comma: bool) -> (out: String)
    ensures
        out@ == punctuated(views(items@), trailing_comma),
{
    let ghost list = views(items@);
    let mut out = String::new();
    let mut i: usize = 0;
    while i < items.len()
        invariant
            i <= items.len(),
            list == views(items@),
            out@ == joined(list, i as int),
        decreases items.len() - i,
    {
        if i > 0 {
            out.append(", ");
            out.append(items[i].as_str());
        } else {
            out.append(items[i].as_str());
        }
        i += 1;
    }
    if items.len() > 0 && trailing_comma {
        out.append(",");
    }
    out
}

/// The first `upto` pieces, one after the other.
pub open spec fn concat_upto(pieces: Seq<Seq<char>>, upto: int) -> Seq<char>
    decreases upto,
{
    if upto <= 0 {
        Seq::empty()
    } else {
        concat_upto(pieces, upto - 1) + pieces[upto - 1]
    }
}

/// The pieces, one after the other.
pub open spec fn concat(pieces: Seq<Seq<char>>) -> Seq<char> {
    concat_upto(pieces, pieces.len() as int)
}

/// Writes the pieces one after the other.
pub fn concat_texts(pieces: &Vec<String>) -> (out: String)
    ensures
        out@ == concat(views(pieces@)),
{
    let ghost list = views(pieces@);
    let mut out = String::new();
    let mut i: usize = 0;
    while i < pieces.len()
        invariant
            i <= pieces.len(),
            list == views(pieces@),
            out@ == concat_upto(list, i as int),
        decreases pieces.len() - i,
    {
        out.append(pieces[i].as_str());
        i += 1;
    }
    out
}

/// A copy of each text, in the same order.
pub fn copy_texts(items: &Vec<String>) -> (out: Vec<String>)
    ensures
        views(out@) == views(items@),
{
    let mut out: Vec<String> = Vec::new();
    let mut i: usize = 0;
    while i < items.len()
        invariant
            i <= items.len(),
            out.len() == i,
            forall|k: int| 0 <= k < i ==> #[trigger] out@[k]@ == items@[k]@,
        decreases items.len() - i,
    {
        out.push(items[i].clone());
        i += 1;
    }
    out
}

} // verus!
