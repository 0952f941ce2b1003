//! Field lists for the header row and the data rows.
//!
//! A row is a statically known prefix of seven fixed fields followed by a
//! run-scoped suffix: one field per configured selector. Absent optional
//! values render as empty fields, never as a null marker or a dropped
//! column, so every row is as wide as the header.

use vstd::prelude::*;

use crate::digits::dec_of;
use crate::digits::usize_to_decimal;
use crate::record::FileRecord;

verus! {

/// The rendered form of an optional text field: the text, or empty.
pub open spec fn opt_text(o: Option<String>) -> Seq<char> {
    match o {
        Some(s) => s@,
        None => Seq::empty(),
    }
}

/// The rendered form of an optional size field: its decimal form, or empty.
pub open spec fn opt_size_text(o: Option<usize>) -> Seq<char> {
    match o {
        Some(n) => dec_of(n as nat),
        None => Seq::empty(),
    }
}

/// The seven fixed column names, in their fixed order.
pub open spec fn fixed_header() -> Seq<Seq<char>> {
    seq!["file"@, "lang"@, "title"@, "original_size"@, "processed_size"@, "error"@, "redirect"@]
}

/// The header's fields: the fixed column names, then one label per
/// configured selector, in declaration order.
pub open spec fn header_fields_spec(labels: Seq<Seq<char>>) -> Seq<Seq<char>> {
    fixed_header() + labels
}

/// A data row's fields: the record's fixed fields in header order, then one
/// count per configured selector, in declaration order, in decimal form.
pub open spec fn row_fields_spec(rec: FileRecord, counts: Seq<usize>) -> Seq<Seq<char>> {
    seq![
        rec.file@,
        opt_text(rec.lang),
        opt_text(rec.title),
        dec_of(rec.original_size as nat),
        opt_size_text(rec.processed_size),
        opt_text(rec.error),
        opt_text(rec.redirect),
    ] + counts.map_values(|c: usize| dec_of(c as nat))
}

/// Row/header width: a row built from any record and any counts has exactly
/// as many fields as the header, whenever there is one count per configured
/// selector; so for any number of selectors every data row matches the
/// header's width.
pub proof fn lemma_row_header_width(rec: FileRecord, counts: Seq<usize>, labels: Seq<Seq<char>>)
    requires
        counts.len() == labels.len(),
    ensures
        row_fields_spec(rec, counts).len() == header_fields_spec(labels).len(),
{
}

/// Selector-count shape: the selector-count columns stand after the seven
/// fixed columns, one per count, in declaration order, each the decimal
/// form of a non-negative integer.
pub proof fn lemma_selector_columns(rec: FileRecord, counts: Seq<usize>)
    ensures
        row_fields_spec(rec, counts).len() == 7 + counts.len(),
        forall|i: int|
            0 <= i < counts.len() ==> #[trigger] row_fields_spec(rec, counts)[7 + i] == dec_of(
                counts[i] as nat,
            ),
{
}

/// The rendered form of an optional text field.
fn opt_string(o: &Option<String>) -> (s: String)
    ensures
        s@ == opt_text(*o),
{
    match o {
        Some(t) => t.clone(),
        None => String::new(),
    }
}

/// The rendered form of an optional size field.
fn opt_size_string(o: &Option<usize>) -> (s: String)
    ensures
        s@ == opt_size_text(*o),
{
    match o {
        Some(n) => usize_to_decimal(*n),
        None => String::new(),
    }
}

/// Builds the header's fields: the fixed column names, then the selectors'
/// labels in declaration order.
pub fn header_fields(labels: &Vec<String>) -> (r: Vec<String>)
    ensures
        r@.map_values(|s: String| s@) == header_fields_spec(
            labels@.map_values(|s: String| s@),
        ),
        r@.len() == 7 + labels@.len(),
{
    let ghost target: Seq<Seq<char>> = header_fields_spec(labels@.map_values(|s: String| s@));
    let mut r: Vec<String> = Vec::new();
    r.push(String::from_str("file"));
    r.push(String::from_str("lang"));
    r.push(String::from_str("title"));
    r.push(String::from_str("original_size"));
    r.push(String::from_str("processed_size"));
    r.push(String::from_str("error"));
    r.push(String::from_str("redirect"));
    proof {
        assert(r@.map_values(|s: String| s@) =~= target.subrange(0, 7));
    }
    let n = labels.len();
    for i in 0..n
        invariant
            n == labels@.len(),
            r@.len() == 7 + i,
            target.len() == 7 + n,
            target == header_fields_spec(labels@.map_values(|s: String| s@)),
            r@.map_values(|s: String| s@) =~= target.subrange(0, 7 + i as int),
    {
        r.push(labels[i].clone());
        proof {
            assert(r@.map_values(|s: String| s@) =~= target.subrange(0, 7 + i + 1));
        }
    }
    proof {
        assert(target.subrange(0, target.len() as int) =~= target);
        assert(r@.map_values(|s: String| s@) == target);
    }
    r
}

/// Builds one data row's fields: the record's fixed fields in header order,
/// then the selector counts in declaration order, in decimal form.
pub fn row_fields(rec: &FileRecord, counts: &Vec<usize>) -> (r: Vec<String>)
    ensures
        r@.map_values(|s: String| s@) == row_fields_spec(*rec, counts@),
        r@.len() == 7 + counts@.len(),
{
    let ghost target: Seq<Seq<char>> = row_fields_spec(*rec, counts@);
    let mut r: Vec<String> = Vec::new();
    r.push(rec.file.clone());
    r.push(opt_string(&rec.lang));
    r.push(opt_string(&rec.title));
    r.push(usize_to_decimal(rec.original_size));
    r.push(opt_size_string(&rec.processed_size));
    r.push(opt_string(&rec.error));
    r.push(opt_string(&rec.redirect));
    proof {
        assert(r@.map_values(|s: String| s@) =~= target.subrange(0, 7));
    }
    let n = counts.len();
    for i in 0..n
        invariant
            n == counts@.len(),
            r@.len() == 7 + i,
            target.len() == 7 + n,
            target == row_fields_spec(*rec, counts@),
            r@.map_values(|s: String| s@) =~= target.subrange(0, 7 + i as int),
    {
        r.push(usize_to_decimal(counts[i]));
        proof {
            assert(r@.map_values(|s: String| s@) =~= target.subrange(0, 7 + i + 1));
        }
    }
    proof {
        assert(target.subrange(0, target.len() as int) =~= target);
        assert(r@.map_values(|s: String| s@) == target);
    }
    r
}

} // verus!
