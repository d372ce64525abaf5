//! H.264 data in the byte stream format: units that begin with a start code.

use vstd::prelude::*;

verus! {

/// The unit type of a slice of a frame that can be decoded on its own.
pub const NAL_TYPE_IDR: u8 = 5;

/// Whether a start code of three bytes stands at `i`.
pub open spec fn short_code(data: Seq<u8>, i: int) -> bool {
    0 <= i && i + 2 < data.len() && data[i] == 0 && data[i + 1] == 0 && data[i + 2] == 1
}

/// Whether a start code of four bytes stands at `i`.
pub open spec fn long_code(data: Seq<u8>, i: int) -> bool {
    0 <= i && i + 3 < data.len() && data[i] == 0 && short_code(data, i + 1)
}

/// The unit type that a header byte announces.
pub open spec fn unit_type(header: u8) -> u8 {
    header % 32
}

/// Whether scanning from `pos` finds a unit that can be decoded on its own. The
/// scan resumes after the header of each unit, and needs five bytes to look at.
pub open spec fn finds_idr(data: Seq<u8>, pos: int) -> bool
    decreases data.len() - pos,
{
    if pos < 0 || pos + 4 >= data.len() {
        false
    } else if long_code(data, pos) {
        unit_type(data[pos + 4]) == NAL_TYPE_IDR || finds_idr(data, pos + 5)
    } else if short_code(data, pos) {
        unit_type(data[pos + 3]) == NAL_TYPE_IDR || finds_idr(data, pos + 4)
    } else {
        finds_idr(data, pos + 1)
    }
}

/// Whether data holds a unit that can be decoded on its own.
pub fn contains_idr(data: &[u8]) -> (found: bool)
    ensures
        found == finds_idr(data@, 0),
{
    let n: usize = data.len();
    let mut pos: usize = 0;
    while n >= 5 && pos < n - 4
        invariant
            n == data@.len(),
            finds_idr(data@, 0) == finds_idr(data@, pos as int),
        decreases data@.len() - pos,
    {
        if data[pos] == 0 && data[pos + 1] == 0 && data[pos + 2] == 0 && data[pos + 3] == 1 {
            if data[pos + 4] % 32 == NAL_TYPE_IDR {
                return true;
            }
            pos += 5;
        } else if data[pos] == 0 && data[pos + 1] == 0 && data[pos + 2] == 1 {
            if data[pos + 3] % 32 == NAL_TYPE_IDR {
                return true;
            }
            pos += 4;
        } else {
            pos += 1;
        }
    }
    false
}

/// Whether a start code of either length stands at `i`, with its header after it
/// and at least five bytes in all.
pub open spec fn code_at(data: Seq<u8>, i: int) -> bool {
    i + 4 < data.len() && (long_code(data, i) || short_code(data, i))
}

/// The header after the start code at `i`.
pub open spec fn header_at(data: Seq<u8>, i: int) -> u8 {
    if long_code(data, i) {
        data[i + 4]
    } else {
        data[i + 3]
    }
}

/// What a scan finds is there.
proof fn lemma_scan_is_sound(data: Seq<u8>, pos: int)
    requires
        finds_idr(data, pos),
    ensures
        exists|i: int|
            pos <= i && #[trigger] code_at(data, i) && unit_type(header_at(data, i))
                == NAL_TYPE_IDR,
    decreases data.len() - pos,
{
    if long_code(data, pos) {
        if unit_type(data[pos + 4]) == NAL_TYPE_IDR {
            assert(code_at(data, pos) && unit_type(header_at(data, pos)) == NAL_TYPE_IDR);
        } else {
            lemma_scan_is_sound(data, pos + 5);
        }
    } else if short_code(data, pos) {
        if unit_type(data[pos + 3]) == NAL_TYPE_IDR {
            assert(code_at(data, pos) && unit_type(header_at(data, pos)) == NAL_TYPE_IDR);
        } else {
            lemma_scan_is_sound(data, pos + 4);
        }
    } else {
        lemma_scan_is_sound(data, pos + 1);
    }
}

/// What is there, a scan finds, where no header is zero.
proof fn lemma_scan_is_complete(data: Seq<u8>, pos: int, i: int)
    requires
        0 <= pos <= i,
        code_at(data, i),
        unit_type(header_at(data, i)) == NAL_TYPE_IDR,
        forall|k: int| #[trigger] code_at(data, k) ==> header_at(data, k) != 0,
    ensures
        finds_idr(data, pos),
    decreases data.len() - pos,
{
    if long_code(data, pos) {
        assert(code_at(data, pos));
        if unit_type(data[pos + 4]) != NAL_TYPE_IDR {
            if i == pos + 1 {
                assert(header_at(data, i) == data[pos + 4]);
            }
            assert(i >= pos + 5);
            lemma_scan_is_complete(data, pos + 5, i);
        }
    } else if short_code(data, pos) {
        assert(code_at(data, pos));
        if unit_type(data[pos + 3]) != NAL_TYPE_IDR {
            assert(i >= pos + 4);
            lemma_scan_is_complete(data, pos + 4, i);
        }
    } else {
        lemma_scan_is_complete(data, pos + 1, i);
    }
}

/// Where no unit has a zero header, data counts as holding a frame that can be
/// decoded on its own exactly if the header after some start code says so.
pub proof fn law_idr_is_found_by_its_header(data: Seq<u8>)
    requires
        forall|k: int| #[trigger] code_at(data, k) ==> header_at(data, k) != 0,
    ensures
        finds_idr(data, 0) <==> exists|i: int| #[trigger]
            code_at(data, i) && unit_type(header_at(data, i)) == NAL_TYPE_IDR,
{
    if finds_idr(data, 0) {
        lemma_scan_is_sound(data, 0);
        let i = choose|i: int|
            0 <= i && #[trigger] code_at(data, i) && unit_type(header_at(data, i))
                == NAL_TYPE_IDR;
        assert(code_at(data, i) && unit_type(header_at(data, i)) == NAL_TYPE_IDR);
    }
    if exists|i: int| #[trigger]
        code_at(data, i) && unit_type(header_at(data, i)) == NAL_TYPE_IDR {
        let i = choose|i: int| #[trigger]
            code_at(data, i) && unit_type(header_at(data, i)) == NAL_TYPE_IDR;
        lemma_scan_is_complete(data, 0, i);
    }
}

/// Whether data is cut before `i`: at a start code that has a byte after it. A
/// short code that ends a long one is no cut of its own.
pub open spec fn is_cut(data: Seq<u8>, i: int) -> bool {
    &&& 0 <= i && i + 3 < data.len()
    &&& long_code(data, i) || (short_code(data, i) && (i == 0 || data[i - 1] != 0))
}

/// The pieces of data from `start` on, where no cut lies between `start` and `i`.
pub open spec fn pieces_from(data: Seq<u8>, start: int, i: int) -> Seq<Seq<u8>>
    decreases data.len() - i,
{
    if i + 3 >= data.len() {
        seq![data.subrange(start, data.len() as int)]
    } else if is_cut(data, i) && start < i {
        seq![data.subrange(start, i)] + pieces_from(data, i, i + 1)
    } else {
        pieces_from(data, start, i + 1)
    }
}

/// The pieces of data between its cuts; nothing has no piece.
pub open spec fn pieces(data: Seq<u8>) -> Seq<Seq<u8>> {
    if data.len() == 0 {
        Seq::empty()
    } else {
        pieces_from(data, 0, 0)
    }
}

/// Splits data into units, before each start code.
pub fn split_nal_units<'a>(data: &'a [u8]) -> (units: Vec<&'a [u8]>)
    ensures
        units@.map_values(|unit: &[u8]| unit@) == pieces(data@),
{
    let n: usize = data.len();
    let mut units: Vec<&'a [u8]> = Vec::new();
    if n == 0 {
        assert(units@.map_values(|unit: &[u8]| unit@) =~= pieces(data@));
        return units;
    }
    let mut start: usize = 0;
    let mut i: usize = 0;
    while n >= 3 && i < n - 3
        invariant
            n == data@.len(),
            n > 0,
            0 <= start <= i,
            start < n,
            i + 3 <= n || i == 0,
            pieces(data@) == units@.map_values(|unit: &[u8]| unit@) + pieces_from(
                data@,
                start as int,
                i as int,
            ),
        decreases n - i,
    {
        let long = data[i] == 0 && data[i + 1] == 0 && data[i + 2] == 0 && data[i + 3] == 1;
        let short = data[i] == 0 && data[i + 1] == 0 && data[i + 2] == 1 && (i == 0 || data[i - 1]
            != 0);
        if long || short {
            if start < i {
                let unit = vstd::slice::slice_subrange(data, start, i);
                let ghost before = units@;
                units.push(unit);
                assert(units@.map_values(|unit: &[u8]| unit@) =~= before.map_values(
                    |unit: &[u8]| unit@,
                ) + seq![unit@]);
            }
            start = i;
        }
        i += 1;
    }
    let unit = vstd::slice::slice_subrange(data, start, n);
    let ghost before = units@;
    units.push(unit);
    assert(units@.map_values(|unit: &[u8]| unit@) =~= before.map_values(|unit: &[u8]| unit@)
        + seq![unit@]);
    units
}

/// A row of byte strings as one.
pub open spec fn joined(parts: Seq<Seq<u8>>) -> Seq<u8>
    decreases parts.len(),
{
    if parts.len() == 0 {
        Seq::empty()
    } else {
        parts[0] + joined(parts.subrange(1, parts.len() as int))
    }
}

proof fn lemma_pieces_from(data: Seq<u8>, start: int, i: int)
    requires
        0 <= start <= i,
        start < data.len(),
    ensures
        joined(pieces_from(data, start, i)) == data.subrange(start, data.len() as int),
        pieces_from(data, start, i).len() > 0,
        forall|k: int|
            0 <= k < pieces_from(data, start, i).len() ==> (#[trigger] pieces_from(
                data,
                start,
                i,
            )[k]).len() > 0,
    decreases data.len() - i,
{
    let all = pieces_from(data, start, i);
    if i + 3 >= data.len() {
        assert(all.subrange(1, 1) =~= Seq::<Seq<u8>>::empty());
        assert(joined(all) =~= data.subrange(start, data.len() as int)) by {
            reveal_with_fuel(joined, 2);
        }
    } else if is_cut(data, i) && start < i {
        lemma_pieces_from(data, i, i + 1);
        let rest = pieces_from(data, i, i + 1);
        assert(all.subrange(1, all.len() as int) =~= rest);
        assert(data.subrange(start, i) + data.subrange(i, data.len() as int) =~= data.subrange(
            start,
            data.len() as int,
        ));
        assert forall|k: int| 0 <= k < all.len() implies (#[trigger] all[k]).len() > 0 by {
            if k > 0 {
                assert(all[k] == rest[k - 1]);
            }
        }
    } else {
        lemma_pieces_from(data, start, i + 1);
    }
}

/// The units of data, put one after the other, are the data again, and none of
/// them is empty.
pub proof fn law_units_join_to_the_data(data: Seq<u8>)
    ensures
        joined(pieces(data)) == data,
        forall|k: int| 0 <= k < pieces(data).len() ==> (#[trigger] pieces(data)[k]).len() > 0,
        pieces(data).len() == 0 <==> data.len() == 0,
{
    if data.len() > 0 {
        lemma_pieces_from(data, 0, 0);
        assert(data.subrange(0, data.len() as int) =~= data);
    }
}

/// Whether a unit begins with a start code.
pub open spec fn begins_with_code(unit: Seq<u8>) -> bool {
    long_code(unit, 0) || short_code(unit, 0)
}

/// A piece that was cut off at a start code holds the whole code.
proof fn lemma_piece_keeps_code(data: Seq<u8>, start: int, end: int)
    requires
        is_cut(data, start),
        start > 0,
        start < end <= data.len(),
        end == data.len() || is_cut(data, end),
    ensures
        begins_with_code(data.subrange(start, end)),
{
    let piece = data.subrange(start, end);
    if long_code(data, start) {
        assert(end >= start + 4);
        assert(long_code(piece, 0));
    } else {
        assert(end >= start + 3);
        assert(short_code(piece, 0));
    }
}

proof fn lemma_pieces_begin_with_codes(data: Seq<u8>, start: int, i: int)
    requires
        0 <= start <= i,
        start < data.len(),
    ensures
        forall|k: int|
            1 <= k < pieces_from(data, start, i).len() ==> begins_with_code(
                #[trigger] pieces_from(data, start, i)[k],
            ),
        i > start > 0 && is_cut(data, start) ==> begins_with_code(pieces_from(data, start, i)[0]),
    decreases data.len() - i,
{
    let all = pieces_from(data, start, i);
    if i + 3 >= data.len() {
        assert(all.len() == 1);
        if start > 0 && is_cut(data, start) {
            lemma_piece_keeps_code(data, start, data.len() as int);
        }
    } else if is_cut(data, i) && start < i {
        lemma_pieces_begin_with_codes(data, i, i + 1);
        lemma_pieces_from(data, i, i + 1);
        let rest = pieces_from(data, i, i + 1);
        assert(all == seq![data.subrange(start, i)] + rest);
        assert forall|k: int| 1 <= k < all.len() implies begins_with_code(#[trigger] all[k]) by {
            assert(all[k] == rest[k - 1]);
        }
        if start > 0 && is_cut(data, start) {
            lemma_piece_keeps_code(data, start, i);
        }
    } else {
        lemma_pieces_begin_with_codes(data, start, i + 1);
        assert(all == pieces_from(data, start, i + 1));
    }
}

/// Every unit but the first begins with a start code.
pub proof fn law_units_begin_with_start_codes(data: Seq<u8>)
    ensures
        forall|k: int| 1 <= k < pieces(data).len() ==> begins_with_code(#[trigger] pieces(data)[k]),
{
    if data.len() > 0 {
        lemma_pieces_begin_with_codes(data, 0, 0);
    }
}

/// A unit that begins the data, whose header has five in its five low bits, is a frame that
/// can be decoded on its own, after a long start code and after a short one; one of another
/// type, with no unit behind it, is not.
pub proof fn law_a_leading_unit_of_type_five_is_found(data: Seq<u8>)
    requires
        data.len() >= 5,
        data[0] == 0 && data[1] == 0,
    ensures
        data[2] == 0 && data[3] == 1 && data[4] % 32 == 5 ==> finds_idr(data, 0),
        data[2] == 1 && data[3] % 32 == 5 ==> finds_idr(data, 0),
        data.len() == 5 && data[2] == 0 && data[3] == 1 && data[4] % 32 != 5 ==> !finds_idr(
            data,
            0,
        ),
        data.len() == 5 && data[2] == 1 && data[3] % 32 != 5 ==> !finds_idr(data, 0),
{
    reveal_with_fuel(finds_idr, 3);
}

/// The type of a unit is in the five low bits of its header.
pub proof fn law_unit_type_is_in_the_low_bits(header: u8)
    ensures
        unit_type(header) == header & 0x1f,
{
    assert(header % 32 == header & 0x1f) by (bit_vector);
}

/// Whether a unit begins inside of `unit`, with a byte after its start code: a long code
/// does, and a short one that does not end a long one.
pub open spec fn begins_inside(unit: Seq<u8>, j: int) -> bool {
    &&& 0 < j && j + 3 < unit.len()
    &&& long_code(unit, j) || (short_code(unit, j) && unit[j - 1] != 0)
}

proof fn lemma_pieces_hold_one_unit(data: Seq<u8>, start: int, i: int)
    requires
        0 <= start <= i,
        start < data.len(),
        forall|x: int| start < x < i ==> !is_cut(data, x),
    ensures
        forall|k: int, j: int|
            0 <= k < pieces_from(data, start, i).len() ==> !#[trigger] begins_inside(
                pieces_from(data, start, i)[k],
                j,
            ),
    decreases data.len() - i,
{
    let all = pieces_from(data, start, i);
    if i + 3 >= data.len() {
        assert forall|k: int, j: int| 0 <= k < all.len() implies !#[trigger] begins_inside(
            all[k],
            j,
        ) by {
            if begins_inside(all[k], j) {
                assert(all[k] == data.subrange(start, data.len() as int));
                assert(is_cut(data, start + j));
                assert(start + j + 3 < data.len());
            }
        }
    } else if is_cut(data, i) && start < i {
        lemma_pieces_hold_one_unit(data, i, i + 1);
        let rest = pieces_from(data, i, i + 1);
        assert forall|k: int, j: int| 0 <= k < all.len() implies !#[trigger] begins_inside(
            all[k],
            j,
        ) by {
            if k > 0 {
                assert(all[k] == rest[k - 1]);
                assert(!begins_inside(rest[k - 1], j));
            } else if begins_inside(all[0], j) {
                assert(all[0] == data.subrange(start, i));
                assert(is_cut(data, start + j));
            }
        }
    } else {
        lemma_pieces_hold_one_unit(data, start, i + 1);
        assert(all == pieces_from(data, start, i + 1));
    }
}

/// No unit holds another: data is cut at every start code, so that none is left inside of
/// a unit, but for one without a byte after it.
pub proof fn law_units_hold_no_other(data: Seq<u8>, k: int, j: int)
    requires
        0 <= k < pieces(data).len(),
    ensures
        !begins_inside(pieces(data)[k], j),
{
    lemma_pieces_hold_one_unit(data, 0, 0);
    assert(begins_inside(pieces(data)[k], j) || !begins_inside(pieces(data)[k], j));
}

} // verus!
