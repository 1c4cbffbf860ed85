use vstd::prelude::*;
use crate::frame::{PayloadLength, WebSocketFrame};
use crate::render::{plain_of, plain_text, spans, Cell, Span};

verus! {

/// One payload row group of a diagram: bytes `from_byte_ix..to_byte_ix`, the row
/// number shown beside it, and the number in its label.
#[derive(Clone, Copy, Debug, PartialEq, Eq, Structural)]
pub struct RowSpec {
    pub from_byte_ix: usize,
    pub to_byte_ix: usize,
    pub dword_number: usize,
    pub part_number: usize,
}

/// How many payload bytes the fixed header rows show: two for the short and long
/// encodings, none for the medium one.
pub open spec fn folded_bytes(pl: PayloadLength) -> nat {
    match pl {
        PayloadLength::Medium(_) => 0,
        _ => 2,
    }
}

/// The number of the first payload row: right after the fixed header rows.
pub open spec fn first_row_number(pl: PayloadLength) -> nat {
    match pl {
        PayloadLength::Long(_) => 4,
        _ => 3,
    }
}

/// The payload bytes left for the generic rows.
pub open spec fn remaining_bytes(len: nat, pl: PayloadLength) -> nat {
    if len >= folded_bytes(pl) {
        (len - folded_bytes(pl)) as nat
    } else {
        0
    }
}

/// The number of generic row groups: one per four remaining bytes, and one more
/// for a remainder of one to three bytes.
pub open spec fn row_count(len: nat, pl: PayloadLength) -> nat {
    let r = remaining_bytes(len, pl);
    r / 4 + if r % 4 > 0 { 1nat } else { 0nat }
}

/// Row group `k` of a payload of `len` bytes: full rows of four bytes after the
/// folded ones, then the remainder. The label number grows by two per full row:
/// `2 * k + folded`.
pub open spec fn planned_row(len: nat, pl: PayloadLength, k: nat) -> RowSpec {
    let folded = folded_bytes(pl);
    let full = remaining_bytes(len, pl) / 4;
    let rem = remaining_bytes(len, pl) % 4;
    if k < full {
        RowSpec {
            from_byte_ix: (4 * k + folded) as usize,
            to_byte_ix: (4 * k + folded + 4) as usize,
            dword_number: (k + first_row_number(pl)) as usize,
            part_number: (2 * k + folded) as usize,
        }
    } else {
        RowSpec {
            from_byte_ix: (4 * full + folded) as usize,
            to_byte_ix: (4 * full + folded + rem) as usize,
            dword_number: (full + first_row_number(pl)) as usize,
            part_number: (2 * full + folded) as usize,
        }
    }
}

/// The generic row groups of a payload of `len` bytes.
pub open spec fn planned_rows(len: nat, pl: PayloadLength) -> Seq<RowSpec> {
    Seq::new(row_count(len, pl), |k: int| planned_row(len, pl, k as nat))
}

/// Appends the cells of `more` to `out`.
pub fn append_cells(out: &mut Vec<Cell>, more: Vec<Cell>)
    ensures
        spans(final(out)@) == spans(old(out)@) + spans(more@),
{
    let ghost added = more@;
    let mut more = more;
    out.append(&mut more);
    assert(spans(final(out)@) =~= spans(old(out)@) + spans(added));
}

impl<'a> WebSocketFrame<'a> {
    /// The row groups that the rows of `rows` draw, one after the other.
    pub open spec fn rows_spans(&self, rows: Seq<RowSpec>) -> Seq<Span>
        decreases rows.len(),
    {
        if rows.len() == 0 {
            Seq::empty()
        } else {
            let r = rows.last();
            self.rows_spans(rows.drop_last()) + self.row_spans(
                r.from_byte_ix as nat,
                r.to_byte_ix as nat,
                r.dword_number as nat,
                r.part_number as nat,
            )
        }
    }

    /// The whole diagram: header block, the fixed header rows (three for the long
/// encoding, two otherwise), and the payload rows.
    pub open spec fn diagram_spans(&self) -> Seq<Span> {
        self.header_spans() + self.first_dword_spans() + self.second_dword_spans()
            + self.third_dword_spans() + self.rows_spans(
            planned_rows(self.masked_payload@.len(), self.payload_length),
        )
    }

    /// The generic payload row groups, in order. Each covers one to four payload
    /// bytes; a payload no longer than the bytes that the header rows show has none.
    pub fn payload_rows(&self) -> (r: Vec<RowSpec>)
        requires
            self.wf(),
        ensures
            r@ == planned_rows(self.masked_payload@.len(), self.payload_length),
            self.masked_payload@.len() <= folded_bytes(self.payload_length) ==> r@.len() == 0,
            forall|k: int|
                0 <= k < r@.len() ==> self.row_in_range(
                    #[trigger] r@[k].from_byte_ix as nat,
                    r@[k].to_byte_ix as nat,
                ),
    {
        let len = self.masked_payload.len();
        let ghost n = len as nat;
        let ghost pl = self.payload_length;
        let folded: usize = match self.payload_length {
            PayloadLength::Medium(_) => 0,
            _ => 2,
        };
        let dword_from: usize = match self.payload_length {
            PayloadLength::Long(_) => 4,
            _ => 3,
        };
        let remaining: usize = if len >= folded { len - folded } else { 0 };
        let full: usize = remaining / 4;
        let rem: usize = remaining % 4;
        let mut rows: Vec<RowSpec> = Vec::new();
        let mut i: usize = 0;
        while i < full
            invariant
                i <= full,
                full == remaining / 4,
                remaining as nat == remaining_bytes(n, pl),
                folded as nat == folded_bytes(pl),
                dword_from as nat == first_row_number(pl),
                len == n,
                folded + remaining <= len || remaining == 0,
                rows@ =~= Seq::new(i as nat, |k: int| planned_row(n, pl, k as nat)),
            decreases full - i,
        {
            let from = i * 4 + folded;
            rows.push(RowSpec {
                from_byte_ix: from,
                to_byte_ix: from + 4,
                dword_number: i + dword_from,
                part_number: i * 2 + folded,
            });
            i = i + 1;
        }
        if rem > 0 {
            let from = full * 4 + folded;
            rows.push(RowSpec {
                from_byte_ix: from,
                to_byte_ix: from + rem,
                dword_number: full + dword_from,
                part_number: full * 2 + folded,
            });
        }
        assert(rows@ =~= planned_rows(n, pl));
        rows
    }
}

impl<'a> WebSocketFrame<'a> {
    /// Lays out the whole diagram as coloured cells: the header block, the fixed
    /// header rows, and one row group per four remaining payload bytes.
    pub fn format_cells(&self) -> (r: Vec<Cell>)
        requires
            self.wf(),
        ensures
            spans(r@) == self.diagram_spans(),
    {
        let mut out = self.format_header();
        append_cells(&mut out, self.format_first_dword());
        append_cells(&mut out, self.format_second_dword());
        append_cells(&mut out, self.format_third_dword());
        let ghost fixed = spans(out@);
        let rows = self.payload_rows();
        let mut i: usize = 0;
        while i < rows.len()
            invariant
                self.wf(),
                i <= rows@.len(),
                rows@ == planned_rows(self.masked_payload@.len(), self.payload_length),
                spans(out@) == fixed + self.rows_spans(rows@.take(i as int)),
            decreases rows@.len() - i,
        {
            let row = rows[i];
            append_cells(
                &mut out,
                self.format_payload_dword_row(
                    row.from_byte_ix,
                    row.to_byte_ix,
                    row.dword_number,
                    row.part_number,
                ),
            );
            assert(rows@.take(i + 1).drop_last() =~= rows@.take(i as int));
            i = i + 1;
            assert(spans(out@) =~= fixed + self.rows_spans(rows@.take(i as int)));
        }
        assert(rows@.take(i as int) =~= rows@);
        out
    }

    /// The diagram as plain text, without colours.
    pub fn format_plain(&self) -> (r: String)
        requires
            self.wf(),
        ensures
            r@ == plain_of(self.diagram_spans()),
    {
        plain_text(&self.format_cells())
    }
}

/// A payload no longer than the bytes that the fixed header rows show is drawn with
/// no payload row groups: the diagram is the header block and the fixed rows.
pub proof fn lemma_folded_payload_has_no_rows(f: WebSocketFrame)
    requires
        f.wf(),
        f.masked_payload@.len() <= folded_bytes(f.payload_length),
    ensures
        planned_rows(f.masked_payload@.len(), f.payload_length).len() == 0,
        f.diagram_spans() == f.header_spans() + f.first_dword_spans() + f.second_dword_spans()
            + f.third_dword_spans(),
{
    let rows = planned_rows(f.masked_payload@.len(), f.payload_length);
    assert(rows.len() == 0);
    assert(f.rows_spans(rows) == Seq::<Span>::empty());
    assert(f.diagram_spans() =~= f.header_spans() + f.first_dword_spans() + f.second_dword_spans()
        + f.third_dword_spans());
}

} // verus!
