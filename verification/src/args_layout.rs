//! Byte layout of a method's argument tuple in the single in-args buffer that the caller and
//! the handler share: fields are placed one after another, each at the next offset that is a
//! multiple of its alignment (as if the tuple were `struct { T1 a; T2 b; ... }`), and the total
//! size is rounded up to the largest field alignment. The copy path (`write_args` /
//! `read_args`) and the zero-copy allocator place fields by the same rule.
use vstd::prelude::*;

verus! {

/// Size and alignment of one argument field.
#[derive(Debug, Clone, Copy, PartialEq, Eq)]
pub struct FieldLayout {
    pub size: usize,
    pub align: usize,
}

/// Every field has a nonzero alignment (Rust alignments are powers of two).
pub open spec fn fields_wf(fields: Seq<FieldLayout>) -> bool {
    forall|i: int| 0 <= i < fields.len() ==> #[trigger] fields[i].align > 0
}

/// Bytes of padding needed to bring `offset` up to a multiple of `align`.
pub open spec fn padding_for(offset: int, align: int) -> int {
    if offset % align == 0 {
        0
    } else {
        align - offset % align
    }
}

/// The first multiple of `align` at or after `offset`.
pub open spec fn aligned_offset(offset: int, align: int) -> int {
    offset + padding_for(offset, align)
}

/// The offset just past the last field when `fields` are placed in order from offset 0.
pub open spec fn fields_end(fields: Seq<FieldLayout>) -> int
    decreases fields.len(),
{
    if fields.len() == 0 {
        0
    } else {
        aligned_offset(fields_end(fields.drop_last()), fields.last().align as int) + fields.last().size
    }
}

/// Where field `i` is placed.
pub open spec fn field_offset(fields: Seq<FieldLayout>, i: int) -> int {
    aligned_offset(fields_end(fields.take(i)), fields[i].align as int)
}

/// The largest alignment among `fields`, at least 1.
pub open spec fn max_align(fields: Seq<FieldLayout>) -> int
    decreases fields.len(),
{
    if fields.len() == 0 {
        1
    } else if fields.last().align > max_align(fields.drop_last()) {
        fields.last().align as int
    } else {
        max_align(fields.drop_last())
    }
}

/// `(size, align)` of the buffer that holds the argument tuple; the empty tuple is `(0, 0)`.
pub open spec fn args_layout_spec(fields: Seq<FieldLayout>) -> (int, int) {
    if fields.len() == 0 {
        (0, 0)
    } else {
        (aligned_offset(fields_end(fields), max_align(fields)), max_align(fields))
    }
}

/// `buf` with `bytes` written over it from `offset` on.
pub open spec fn splice(buf: Seq<u8>, offset: int, bytes: Seq<u8>) -> Seq<u8> {
    buf.take(offset) + bytes + buf.skip(offset + bytes.len())
}

/// `buf` after writing each of `values` at its field's offset, in order.
pub open spec fn write_args_spec(buf: Seq<u8>, fields: Seq<FieldLayout>, values: Seq<Seq<u8>>) -> Seq<u8>
    decreases fields.len(),
{
    if fields.len() == 0 || values.len() == 0 {
        buf
    } else {
        splice(
            write_args_spec(buf, fields.drop_last(), values.drop_last()),
            field_offset(fields, fields.len() - 1),
            values.last(),
        )
    }
}

/// The bytes of field `i` in `buf`.
pub open spec fn field_bytes(buf: Seq<u8>, fields: Seq<FieldLayout>, i: int) -> Seq<u8> {
    buf.subrange(field_offset(fields, i), field_offset(fields, i) + fields[i].size)
}

/// `values` has one byte string per field, of that field's size.
pub open spec fn values_fit(fields: Seq<FieldLayout>, values: Seq<Seq<u8>>) -> bool {
    &&& values.len() == fields.len()
    &&& forall|i: int| 0 <= i < fields.len() ==> (#[trigger] values[i]).len() == fields[i].size
}

/// Padding is smaller than the alignment, so the aligned offset lies in `[offset, offset + align)`.
pub proof fn lemma_aligned_offset_bounds(offset: int, align: int)
    requires
        offset >= 0,
        align > 0,
    ensures
        offset <= aligned_offset(offset, align) < offset + align,
        aligned_offset(offset, align) % align == 0,
{
    if offset % align != 0 {
        assert((offset + (align - offset % align)) % align == 0) by (nonlinear_arith)
            requires
                align > 0,
        {
            vstd::arithmetic::div_mod::lemma_fundamental_div_mod(offset, align);
            vstd::arithmetic::div_mod::lemma_mod_multiples_basic(offset / align + 1, align);
        }
    }
}

/// Placing a prefix of the fields never ends after placing all of them, and each field
/// starts at or after the end of the fields before it.
pub proof fn lemma_fields_end_monotone(fields: Seq<FieldLayout>, i: int)
    requires
        fields_wf(fields),
        0 <= i <= fields.len(),
    ensures
        0 <= fields_end(fields.take(i)) <= fields_end(fields),
    decreases fields.len() - i,
{
    if i == fields.len() {
        assert(fields.take(i) =~= fields);
        lemma_fields_end_nonneg(fields);
    } else {
        lemma_fields_end_monotone(fields, i + 1);
        let t = fields.take(i + 1);
        assert(t.drop_last() =~= fields.take(i));
        lemma_fields_end_nonneg(fields.take(i));
        lemma_aligned_offset_bounds(fields_end(fields.take(i)), t.last().align as int);
    }
}

/// Field ends are never negative.
pub proof fn lemma_fields_end_nonneg(fields: Seq<FieldLayout>)
    requires
        fields_wf(fields),
    ensures
        fields_end(fields) >= 0,
    decreases fields.len(),
{
    if fields.len() > 0 {
        lemma_fields_end_nonneg(fields.drop_last());
        lemma_aligned_offset_bounds(fields_end(fields.drop_last()), fields.last().align as int);
    }
}

/// Every field lies inside the buffer, is aligned, and ends before the next one starts.
pub proof fn lemma_field_placement(fields: Seq<FieldLayout>, i: int)
    requires
        fields_wf(fields),
        0 <= i < fields.len(),
    ensures
        0 <= field_offset(fields, i),
        field_offset(fields, i) % (fields[i].align as int) == 0,
        field_offset(fields, i) + fields[i].size <= fields_end(fields),
        fields_end(fields) <= args_layout_spec(fields).0,
        i + 1 < fields.len() ==> field_offset(fields, i) + fields[i].size <= field_offset(fields, i + 1),
{
    lemma_fields_end_monotone(fields, i);
    lemma_fields_end_monotone(fields, i + 1);
    let t = fields.take(i + 1);
    assert(t.drop_last() =~= fields.take(i));
    assert(t.last() == fields[i]);
    lemma_aligned_offset_bounds(fields_end(fields.take(i)), fields[i].align as int);
    lemma_max_align_positive(fields);
    lemma_fields_end_nonneg(fields);
    lemma_aligned_offset_bounds(fields_end(fields), max_align(fields));
    if i + 1 < fields.len() {
        lemma_aligned_offset_bounds(fields_end(fields.take(i + 1)), fields[i + 1].align as int);
    }
}

/// The largest alignment is positive and no smaller than any field's.
pub proof fn lemma_max_align_positive(fields: Seq<FieldLayout>)
    requires
        fields_wf(fields),
    ensures
        max_align(fields) >= 1,
        forall|i: int| 0 <= i < fields.len() ==> fields[i].align <= max_align(fields),
    decreases fields.len(),
{
    if fields.len() > 0 {
        lemma_max_align_positive(fields.drop_last());
        assert forall|i: int| 0 <= i < fields.len() implies fields[i].align <= max_align(fields) by {
            if i < fields.len() - 1 {
                assert(fields.drop_last()[i] == fields[i]);
            }
        }
    }
}

/// Computes `(size, align)` of the argument buffer for `fields`.
pub fn args_layout(fields: &[FieldLayout]) -> (r: (usize, usize))
    requires
        fields_wf(fields@),
        args_layout_spec(fields@).0 <= usize::MAX,
    ensures
        r.0 == args_layout_spec(fields@).0,
        r.1 == args_layout_spec(fields@).1,
{
    if fields.len() == 0 {
        return (0, 0);
    }
    let mut size: usize = 0;
    let mut align: usize = 1;
    let mut i: usize = 0;
    proof {
        lemma_fields_end_nonneg(fields@);
        lemma_max_align_positive(fields@);
        lemma_aligned_offset_bounds(fields_end(fields@), max_align(fields@));
    }
    while i < fields.len()
        invariant
            i <= fields@.len(),
            fields_wf(fields@),
            size == fields_end(fields@.take(i as int)),
            align == max_align(fields@.take(i as int)),
            fields_end(fields@) <= usize::MAX,
        decreases fields@.len() - i,
    {
        let f = fields[i];
        proof {
            let t = fields@.take(i + 1);
            assert(t.drop_last() =~= fields@.take(i as int));
            lemma_fields_end_monotone(fields@, i as int);
            lemma_fields_end_monotone(fields@, i + 1);
            lemma_aligned_offset_bounds(size as int, f.align as int);
        }
        let padding: usize = if size % f.align == 0 { 0 } else { f.align - (size % f.align) };
        size = size + padding + f.size;
        if f.align > align {
            align = f.align;
        }
        i = i + 1;
    }
    assert(fields@.take(fields@.len() as int) =~= fields@);
    proof {
        lemma_aligned_offset_bounds(size as int, align as int);
    }
    if size % align != 0 {
        size = size + (align - (size % align));
    }
    (size, align)
}


/// The placement of field `i` depends only on the fields before it.
pub proof fn lemma_field_offset_prefix(fields: Seq<FieldLayout>, n: int, i: int)
    requires
        0 <= i < n <= fields.len(),
    ensures
        field_offset(fields.take(n), i) == field_offset(fields, i),
{
    assert(fields.take(n).take(i) =~= fields.take(i));
}

/// Writing the arguments keeps the buffer's length.
pub proof fn lemma_write_args_len(buf: Seq<u8>, fields: Seq<FieldLayout>, values: Seq<Seq<u8>>)
    requires
        fields_wf(fields),
        values_fit(fields, values),
        fields_end(fields) <= buf.len(),
    ensures
        write_args_spec(buf, fields, values).len() == buf.len(),
    decreases fields.len(),
{
    if fields.len() > 0 {
        let n = fields.len() - 1;
        assert(fields.drop_last() =~= fields.take(n));
        lemma_fields_end_monotone(fields, n);
        lemma_field_placement(fields, n);
        assert(values_fit(fields.drop_last(), values.drop_last())) by {
            assert forall|i: int| 0 <= i < fields.drop_last().len() implies (#[trigger] values.drop_last()[i]).len()
                == fields.drop_last()[i].size by {
                assert(values.drop_last()[i] == values[i]);
            }
        }
        assert(fields_wf(fields.drop_last())) by {
            assert forall|i: int| 0 <= i < fields.drop_last().len() implies #[trigger] fields.drop_last()[i].align > 0 by {
                assert(fields.drop_last()[i] == fields[i]);
            }
        }
        lemma_write_args_len(buf, fields.drop_last(), values.drop_last());
    }
}

/// Read after write: reading the fields back from a buffer the arguments were written into
/// gives back exactly the written values.
pub proof fn lemma_read_after_write(buf: Seq<u8>, fields: Seq<FieldLayout>, values: Seq<Seq<u8>>)
    requires
        fields_wf(fields),
        values_fit(fields, values),
        fields_end(fields) <= buf.len(),
    ensures
        write_args_spec(buf, fields, values).len() == buf.len(),
        forall|i: int| 0 <= i < fields.len() ==> #[trigger] field_bytes(write_args_spec(buf, fields, values), fields, i) == values[i],
    decreases fields.len(),
{
    if fields.len() > 0 {
        lemma_field_placement(fields, 0);
        lemma_write_args_len(buf, fields, values);
        let n = fields.len() - 1;
        let fd = fields.drop_last();
        let vd = values.drop_last();
        assert(fd =~= fields.take(n));
        lemma_fields_end_monotone(fields, n);
        lemma_field_placement(fields, n);
        assert(values_fit(fd, vd)) by {
            assert forall|i: int| 0 <= i < fd.len() implies (#[trigger] vd[i]).len() == fd[i].size by {
                assert(vd[i] == values[i]);
            }
        }
        assert(fields_wf(fd)) by {
            assert forall|i: int| 0 <= i < fd.len() implies #[trigger] fd[i].align > 0 by {
                assert(fd[i] == fields[i]);
            }
        }
        if fd.len() > 0 {
            lemma_field_placement(fd, 0);
        }
        lemma_read_after_write(buf, fd, vd);
        let prev = write_args_spec(buf, fd, vd);
        let off = field_offset(fields, n);
        let whole = write_args_spec(buf, fields, values);
        assert(whole == splice(prev, off, values[n]));
        assert forall|i: int| 0 <= i < fields.len() implies #[trigger] field_bytes(whole, fields, i) == values[i] by {
            if i < n {
                lemma_field_offset_prefix(fields, n, i);
                lemma_field_placement(fields, i);
                lemma_field_placement(fd, i);
                assert(fd[i] == fields[i]);
                lemma_fields_end_monotone(fd, i + 1);
                assert(fd.take(i + 1).drop_last() =~= fd.take(i));
                lemma_aligned_offset_bounds(fields_end(fields.take(n)), fields[n].align as int);
                assert(field_bytes(prev, fd, i) == values[i]);
                assert(field_bytes(whole, fields, i) =~= field_bytes(prev, fd, i));
            } else {
                assert(field_bytes(whole, fields, i) =~= values[n]);
            }
        }
    }
}

/// Copy path: writes each argument's bytes at its field's offset in the in-args buffer.
pub fn write_args(buf: &mut Vec<u8>, fields: &[FieldLayout], values: &Vec<Vec<u8>>)
    requires
        fields_wf(fields@),
        values_fit(fields@, values.deep_view()),
        args_layout_spec(fields@).0 <= old(buf)@.len(),
    ensures
        final(buf)@ == write_args_spec(old(buf)@, fields@, values.deep_view()),
        final(buf)@.len() == old(buf)@.len(),
{
    let ghost vals = values.deep_view();
    let buf_len = buf.len();
    let mut cur: usize = 0;
    let mut i: usize = 0;
    proof {
        lemma_max_align_positive(fields@);
        if fields@.len() > 0 {
            lemma_field_placement(fields@, 0);
        }
        lemma_fields_end_nonneg(fields@);
    }
    while i < fields.len()
        invariant
            i <= fields@.len(),
            fields_wf(fields@),
            values_fit(fields@, vals),
            vals == values.deep_view(),
            fields_end(fields@) <= buf_len,
            buf_len == old(buf)@.len(),
            cur == fields_end(fields@.take(i as int)),
            buf@ == write_args_spec(old(buf)@, fields@.take(i as int), vals.take(i as int)),
            buf@.len() == old(buf)@.len(),
        decreases fields@.len() - i,
    {
        let f = fields[i];
        proof {
            lemma_field_placement(fields@, i as int);
            lemma_fields_end_monotone(fields@, i as int);
            assert(fields@.take(i + 1).drop_last() =~= fields@.take(i as int));
            assert(vals.take(i + 1).drop_last() =~= vals.take(i as int));
            lemma_field_offset_prefix(fields@, i + 1, i as int);
        }
        let padding: usize = if cur % f.align == 0 { 0 } else { f.align - (cur % f.align) };
        let off: usize = cur + padding;
        let v = &values[i];
        assert(v@ == vals[i as int]);
        let ghost before = buf@;
        let mut k: usize = 0;
        while k < f.size
            invariant
                k <= f.size,
                f.size == v@.len(),
                off + f.size <= before.len(),
                before.len() == buf_len,
                buf@.len() == before.len(),
                buf@ == splice(before, off as int, v@.take(k as int)),
            decreases f.size - k,
        {
            buf.set(off + k, v[k]);
            assert(buf@ =~= splice(before, off as int, v@.take(k + 1)));
            k = k + 1;
        }
        assert(v@.take(f.size as int) =~= v@);
        cur = off + f.size;
        i = i + 1;
        proof {
            let t = fields@.take(i as int);
            assert(t.last() == f);
            assert(vals.take(i as int).last() == vals[i - 1]);
        }
    }
    assert(fields@.take(fields@.len() as int) =~= fields@);
    assert(vals.take(fields@.len() as int) =~= vals);
}

/// Copy path: reads each argument's bytes back from its field's offset in the buffer.
pub fn read_args(buf: &[u8], fields: &[FieldLayout]) -> (values: Vec<Vec<u8>>)
    requires
        fields_wf(fields@),
        args_layout_spec(fields@).0 <= buf@.len(),
    ensures
        values@.len() == fields@.len(),
        forall|i: int| 0 <= i < fields@.len() ==> (#[trigger] values@[i])@ == field_bytes(buf@, fields@, i),
{
    let mut values: Vec<Vec<u8>> = Vec::new();
    let buf_len = buf.len();
    let mut cur: usize = 0;
    let mut i: usize = 0;
    proof {
        lemma_max_align_positive(fields@);
        if fields@.len() > 0 {
            lemma_field_placement(fields@, 0);
        }
        lemma_fields_end_nonneg(fields@);
    }
    while i < fields.len()
        invariant
            i <= fields@.len(),
            fields_wf(fields@),
            fields_end(fields@) <= buf_len,
            buf_len == buf@.len(),
            cur == fields_end(fields@.take(i as int)),
            values@.len() == i,
            forall|j: int| 0 <= j < i ==> (#[trigger] values@[j])@ == field_bytes(buf@, fields@, j),
        decreases fields@.len() - i,
    {
        let f = fields[i];
        proof {
            lemma_field_placement(fields@, i as int);
            lemma_fields_end_monotone(fields@, i as int);
            assert(fields@.take(i + 1).drop_last() =~= fields@.take(i as int));
        }
        let padding: usize = if cur % f.align == 0 { 0 } else { f.align - (cur % f.align) };
        let off: usize = cur + padding;
        let mut bytes: Vec<u8> = Vec::new();
        let mut k: usize = 0;
        while k < f.size
            invariant
                k <= f.size,
                off + f.size <= buf@.len(),
                buf@.len() == buf_len,
                bytes@ == buf@.subrange(off as int, off + k),
            decreases f.size - k,
        {
            bytes.push(buf[off + k]);
            assert(bytes@ =~= buf@.subrange(off as int, off + k + 1));
            k = k + 1;
        }
        values.push(bytes);
        cur = off + f.size;
        i = i + 1;
        proof {
            assert(fields@.take(i as int).last() == f);
        }
    }
    values
}

} // verus!
