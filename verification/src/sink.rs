//! The Tabular Sink: one header line, then one tab-delimited line per
//! record, in the order the records are handed in.

use vstd::prelude::*;

use crate::record::FileRecord;
use crate::row::header_fields;
use crate::row::header_fields_spec;
use crate::row::row_fields;
use crate::row::row_fields_spec;

verus! {

/// The serialized form of one tab-delimited line with the given fields.
pub uninterp spec fn tsv_line_of(fields: Seq<Seq<char>>) -> Seq<u8>;

/// Relies on csv's `Writer` with a tab delimiter over an in-memory buffer:
/// writing one record yields that record's fields, tab-delimited and quoted
/// as the format requires, with a terminating newline; the bytes depend on
/// the fields alone. Writing into a `Vec` cannot fail, and a fresh writer
/// writing a single record cannot see a record-length mismatch, so the two
/// `unwrap`s cannot panic.
#[verifier::external_body]
fn encode_record(fields: &Vec<String>) -> (line: Vec<u8>)
    ensures
        line@ == tsv_line_of(fields@.map_values(|s: String| s@)),
{
    let mut wtr = csv::WriterBuilder::new().delimiter(b'\t').from_writer(Vec::new());
    wtr.write_record(fields.iter()).unwrap();
    wtr.into_inner().unwrap()
}

/// The sink of a run. It renders lines for the caller to append to the one
/// output stream; the ghost `emitted` field records the data rows rendered
/// so far, in order, so that the run's output is pinned to be the header
/// line followed by those rows' lines, with no reordering.
pub struct Sink {
    n_selectors: usize,
    labels: Ghost<Seq<Seq<char>>>,
    emitted: Ghost<Seq<Seq<Seq<char>>>>,
}

impl Sink {
    /// The selector labels the run was configured with.
    pub closed spec fn labels(self) -> Seq<Seq<char>> {
        self.labels@
    }

    /// The number of configured selectors.
    pub closed spec fn selector_count(self) -> nat {
        self.n_selectors as nat
    }

    /// The data rows rendered so far, in emission order.
    pub closed spec fn rows(self) -> Seq<Seq<Seq<char>>> {
        self.emitted@
    }

    /// There is one header label per selector, and every rendered row is
    /// exactly as wide as the header: seven fixed fields plus one per
    /// selector.
    pub open spec fn wf(self) -> bool {
        &&& self.selector_count() == self.labels().len()
        &&& forall|i: int|
            0 <= i < self.rows().len() ==> (#[trigger] self.rows()[i]).len() == 7
                + self.selector_count()
    }

    /// Creates the sink for a run and renders the header line, exactly
    /// once, before any data row: the fixed column names, then one label
    /// per configured selector, in declaration order.
    pub fn new(labels: &Vec<String>) -> (r: (Sink, Vec<u8>))
        ensures
            r.0.wf(),
            r.0.labels() == labels@.map_values(|s: String| s@),
            r.0.selector_count() == labels@.len(),
            r.0.rows() == Seq::<Seq<Seq<char>>>::empty(),
            r.1@ == tsv_line_of(header_fields_spec(labels@.map_values(|s: String| s@))),
    {
        let fields = header_fields(labels);
        let line = encode_record(&fields);
        let sink = Sink {
            n_selectors: labels.len(),
            labels: Ghost(labels@.map_values(|s: String| s@)),
            emitted: Ghost(Seq::empty()),
        };
        (sink, line)
    }

    /// Runtime view of the number of configured selectors.
    pub fn width(&self) -> (n: usize)
        ensures
            n as nat == self.selector_count(),
    {
        self.n_selectors
    }

    /// Renders one record as one data row and appends it, alone, to the
    /// emission log: the log grows by exactly that row, at the end, and
    /// every earlier row keeps its place, so rows come out in the order
    /// records come in. The row is as wide as the header.
    pub fn write_row(&mut self, rec: &FileRecord, counts: &Vec<usize>) -> (line: Vec<u8>)
        requires
            old(self).wf(),
            counts@.len() == old(self).selector_count(),
        ensures
            final(self).wf(),
            final(self).labels() == old(self).labels(),
            final(self).selector_count() == old(self).selector_count(),
            final(self).rows() == old(self).rows().push(row_fields_spec(*rec, counts@)),
            line@ == tsv_line_of(row_fields_spec(*rec, counts@)),
            row_fields_spec(*rec, counts@).len() == header_fields_spec(old(self).labels()).len(),
    {
        let fields = row_fields(rec, counts);
        let line = encode_record(&fields);
        proof {
            self.emitted@ = self.emitted@.push(row_fields_spec(*rec, counts@));
            assert(row_fields_spec(*rec, counts@).len() == 7 + counts@.len());
            assert forall|i: int|
                0 <= i < self.rows().len() implies (#[trigger] self.rows()[i]).len() == 7
                + self.selector_count() by {
                if i < old(self).rows().len() {
                    assert(old(self).rows()[i].len() == 7 + old(self).selector_count());
                }
            }
        }
        line
    }
}

/// Row/header width at the sink: every data row a well-formed sink has
/// rendered is exactly as wide as the run's header, for any number of
/// configured selectors.
pub proof fn lemma_rows_match_header(s: Sink)
    requires
        s.wf(),
    ensures
        forall|i: int|
            0 <= i < s.rows().len() ==> (#[trigger] s.rows()[i]).len() == header_fields_spec(
                s.labels(),
            ).len(),
{
}

/// Order preservation: appending one row to an emission log leaves every
/// earlier row at its place and puts the new row last, so after N records
/// the log holds N rows in the order the records were handed in.
pub proof fn lemma_emission_order(rows: Seq<Seq<Seq<char>>>, row: Seq<Seq<char>>)
    ensures
        rows.push(row).len() == rows.len() + 1,
        rows.push(row)[rows.len() as int] == row,
        forall|i: int| 0 <= i < rows.len() ==> rows.push(row)[i] == rows[i],
{
}

} // verus!
