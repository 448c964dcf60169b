use vstd::prelude::*;

use crate::bytes::{be16, be32, be64};
use crate::class_reader::Reader;
use crate::error::DecodeError;

verus! {

/// One entry of a class file's constant pool.
#[allow(inconsistent_fields)]
#[derive(Debug, Clone, PartialEq, Eq)]
pub enum ConstantInfo {
    ConstantInteger { value: u32 },
    ConstantFloat { value: u32 },
    ConstantLong { value: u64 },
    ConstantDouble { value: u64 },
    ConstantUTF8 { value: Vec<u8> },
    ConstantString { index: u16 },
    ConstantClass { index: u16 },
    ConstantNameAndType { name_index: u16, descriptor_index: u16 },
    ConstantFieldReference { class_index: u16, name_and_type_index: u16 },
    ConstantMethodReference { class_index: u16, name_and_type_index: u16 },
    ConstantInterfaceMethodReference { class_index: u16, name_and_type_index: u16 },
    ConstantMethodType { descriptor_index: u16 },
    ConstantMethodHandle { ref_kind: u8, ref_kind_index: u16 },
    ConstantInvokeDynamic { bootstrap_method_attr_index: u16, name_and_type_index: u16 },
    /// Index 0, and the index after each long or double.
    ConstantEmpty {},
}

pub const CONSTANT_UTF8: u8 = 1;
pub const CONSTANT_INTEGER: u8 = 3;
pub const CONSTANT_FLOAT: u8 = 4;
pub const CONSTANT_LONG: u8 = 5;
pub const CONSTANT_DOUBLE: u8 = 6;
pub const CONSTANT_CLASS: u8 = 7;
pub const CONSTANT_STRING: u8 = 8;
pub const CONSTANT_FIELD_REF: u8 = 9;
pub const CONSTANT_METHOD_REF: u8 = 10;
pub const CONSTANT_INTERFACE_METHOD_REF: u8 = 11;
pub const CONSTANT_NAME_AND_TYPE: u8 = 12;
pub const CONSTANT_METHOD_HANDLE: u8 = 15;
pub const CONSTANT_METHOD_TYPE: u8 = 16;
pub const CONSTANT_INVOKE_DYN: u8 = 18;

impl ConstantInfo {
    pub open spec fn is_empty(&self) -> bool {
        self is ConstantEmpty
    }

    /// Long and double entries take two pool indices.
    pub open spec fn is_wide(&self) -> bool {
        self is ConstantLong || self is ConstantDouble
    }
}

pub open spec fn known_tag(t: u8) -> bool {
    t == 1 || (3 <= t <= 12) || t == 15 || t == 16 || t == 18
}

pub open spec fn wide_tag(t: u8) -> bool {
    t == CONSTANT_LONG || t == CONSTANT_DOUBLE
}

/// How many bytes the entry at `pos` of `s` occupies, tag included.
pub open spec fn entry_size(s: Seq<u8>, pos: int) -> int {
    let t = s[pos];
    if t == CONSTANT_UTF8 {
        if pos + 3 <= s.len() { 3 + be16(s, pos + 1) } else { 3 }
    } else if t == CONSTANT_INTEGER || t == CONSTANT_FLOAT {
        5
    } else if wide_tag(t) {
        9
    } else if t == CONSTANT_CLASS || t == CONSTANT_STRING || t == CONSTANT_METHOD_TYPE {
        3
    } else if t == CONSTANT_METHOD_HANDLE {
        4
    } else {
        5
    }
}

/// `e` is the entry that the bytes of `s` at `pos` encode.
pub open spec fn entry_matches(s: Seq<u8>, pos: int, e: ConstantInfo) -> bool {
    let t = s[pos];
    let a = be16(s, pos + 1);
    let b = be16(s, pos + 3);
    match e {
        ConstantInfo::ConstantInteger { value } => t == CONSTANT_INTEGER && value == be32(s, pos + 1),
        ConstantInfo::ConstantFloat { value } => t == CONSTANT_FLOAT && value == be32(s, pos + 1),
        ConstantInfo::ConstantLong { value } => t == CONSTANT_LONG && value == be64(s, pos + 1),
        ConstantInfo::ConstantDouble { value } => t == CONSTANT_DOUBLE && value == be64(s, pos + 1),
        ConstantInfo::ConstantUTF8 { value } => t == CONSTANT_UTF8 && value@ == s.subrange(pos + 3, pos + 3 + a),
        ConstantInfo::ConstantString { index } => t == CONSTANT_STRING && index == a,
        ConstantInfo::ConstantClass { index } => t == CONSTANT_CLASS && index == a,
        ConstantInfo::ConstantNameAndType { name_index, descriptor_index } =>
            t == CONSTANT_NAME_AND_TYPE && name_index == a && descriptor_index == b,
        ConstantInfo::ConstantFieldReference { class_index, name_and_type_index } =>
            t == CONSTANT_FIELD_REF && class_index == a && name_and_type_index == b,
        ConstantInfo::ConstantMethodReference { class_index, name_and_type_index } =>
            t == CONSTANT_METHOD_REF && class_index == a && name_and_type_index == b,
        ConstantInfo::ConstantInterfaceMethodReference { class_index, name_and_type_index } =>
            t == CONSTANT_INTERFACE_METHOD_REF && class_index == a && name_and_type_index == b,
        ConstantInfo::ConstantMethodType { descriptor_index } =>
            t == CONSTANT_METHOD_TYPE && descriptor_index == a,
        ConstantInfo::ConstantMethodHandle { ref_kind, ref_kind_index } =>
            t == CONSTANT_METHOD_HANDLE && ref_kind == s[pos + 1] && ref_kind_index == be16(s, pos + 2),
        ConstantInfo::ConstantInvokeDynamic { bootstrap_method_attr_index, name_and_type_index } =>
            t == CONSTANT_INVOKE_DYN && bootstrap_method_attr_index == a && name_and_type_index == b,
        ConstantInfo::ConstantEmpty {} => false,
    }
}

/// What decoding one entry at `pos` gives: the error, or where the next entry starts.
pub open spec fn entry_outcome(s: Seq<u8>, pos: int) -> Result<int, DecodeError> {
    if !(0 <= pos < s.len()) {
        Err(DecodeError::TruncatedInput)
    } else if !known_tag(s[pos]) {
        Err(DecodeError::UnknownConstantTag(s[pos]))
    } else if pos + entry_size(s, pos) > s.len() {
        Err(DecodeError::TruncatedInput)
    } else {
        Ok(pos + entry_size(s, pos))
    }
}

/// The layout of pool indices `index..size` when their entries start at `pos`:
/// for each index the offset of the entry that sits there, or `None` for the
/// placeholder after a long or double; and the offset after the last entry.
pub open spec fn pool_layout(s: Seq<u8>, pos: int, index: int, size: int) -> Result<(Seq<Option<int>>, int), DecodeError>
    decreases size - index + 1,
{
    if index >= size {
        Ok((Seq::empty(), pos))
    } else {
        match entry_outcome(s, pos) {
            Err(e) => Err(e),
            Ok(next) => if wide_tag(s[pos]) {
                prepend(seq![Some(pos), None], pool_layout(s, next, index + 2, size))
            } else {
                prepend(seq![Some(pos)], pool_layout(s, next, index + 1, size))
            },
        }
    }
}

/// `pool` holds, index by index, what `layout` places there: the entry decoded
/// at each offset, and an empty placeholder where there is none.
pub open spec fn pool_follows(s: Seq<u8>, layout: Seq<Option<int>>, pool: Seq<ConstantInfo>) -> bool {
    &&& pool.len() == layout.len()
    &&& forall|i: int| 0 <= i < pool.len() ==> match #[trigger] layout[i] {
        Some(off) => entry_matches(s, off, pool[i]),
        None => pool[i].is_empty(),
    }
}

/// Prepends the entries decoded so far to the outcome of decoding the rest.
pub open spec fn prepend(done: Seq<Option<int>>, r: Result<(Seq<Option<int>>, int), DecodeError>) -> Result<(Seq<Option<int>>, int), DecodeError> {
    match r {
        Err(e) => Err(e),
        Ok((rest, end)) => Ok((done + rest, end)),
    }
}

/// Decodes the entry at the reader's cursor.
fn read_entry(reader: &mut Reader) -> (r: Result<ConstantInfo, DecodeError>)
    ensures
        final(reader).content@ == old(reader).content@,
        ({
            let s = old(reader).content@;
            let pos = old(reader).cursor as int;
            match entry_outcome(s, pos) {
                Ok(next) => r is Ok && entry_matches(s, pos, r->Ok_0) && final(reader).cursor == next,
                Err(e) => r == Err::<ConstantInfo, DecodeError>(e),
            }
        }),
{
    let tag = reader.read_u8()?;
    if tag == CONSTANT_INTEGER {
        let value = reader.read_u32()?;
        Ok(ConstantInfo::ConstantInteger { value })
    } else if tag == CONSTANT_FLOAT {
        let value = reader.read_u32()?;
        Ok(ConstantInfo::ConstantFloat { value })
    } else if tag == CONSTANT_LONG {
        let value = reader.read_u64()?;
        Ok(ConstantInfo::ConstantLong { value })
    } else if tag == CONSTANT_DOUBLE {
        let value = reader.read_u64()?;
        Ok(ConstantInfo::ConstantDouble { value })
    } else if tag == CONSTANT_UTF8 {
        let length = reader.read_u16()?;
        let value = reader.read_bytes(length as usize)?;
        Ok(ConstantInfo::ConstantUTF8 { value })
    } else if tag == CONSTANT_STRING {
        let index = reader.read_u16()?;
        Ok(ConstantInfo::ConstantString { index })
    } else if tag == CONSTANT_CLASS {
        let index = reader.read_u16()?;
        Ok(ConstantInfo::ConstantClass { index })
    } else if tag == CONSTANT_NAME_AND_TYPE {
        let name_index = reader.read_u16()?;
        let descriptor_index = reader.read_u16()?;
        Ok(ConstantInfo::ConstantNameAndType { name_index, descriptor_index })
    } else if tag == CONSTANT_FIELD_REF {
        let class_index = reader.read_u16()?;
        let name_and_type_index = reader.read_u16()?;
        Ok(ConstantInfo::ConstantFieldReference { class_index, name_and_type_index })
    } else if tag == CONSTANT_METHOD_REF {
        let class_index = reader.read_u16()?;
        let name_and_type_index = reader.read_u16()?;
        Ok(ConstantInfo::ConstantMethodReference { class_index, name_and_type_index })
    } else if tag == CONSTANT_INTERFACE_METHOD_REF {
        let class_index = reader.read_u16()?;
        let name_and_type_index = reader.read_u16()?;
        Ok(ConstantInfo::ConstantInterfaceMethodReference { class_index, name_and_type_index })
    } else if tag == CONSTANT_METHOD_TYPE {
        let descriptor_index = reader.read_u16()?;
        Ok(ConstantInfo::ConstantMethodType { descriptor_index })
    } else if tag == CONSTANT_METHOD_HANDLE {
        let ref_kind = reader.read_u8()?;
        let ref_kind_index = reader.read_u16()?;
        Ok(ConstantInfo::ConstantMethodHandle { ref_kind, ref_kind_index })
    } else if tag == CONSTANT_INVOKE_DYN {
        let bootstrap_method_attr_index = reader.read_u16()?;
        let name_and_type_index = reader.read_u16()?;
        Ok(ConstantInfo::ConstantInvokeDynamic { bootstrap_method_attr_index, name_and_type_index })
    } else {
        Err(DecodeError::UnknownConstantTag(tag))
    }
}

proof fn lemma_prepend_assoc(a: Seq<Option<int>>, b: Seq<Option<int>>, r: Result<(Seq<Option<int>>, int), DecodeError>)
    ensures
        prepend(a, prepend(b, r)) == prepend(a + b, r),
{
    match r {
        Ok((rest, end)) => {
            assert(a + (b + rest) =~= (a + b) + rest);
        },
        Err(_) => {},
    }
}

/// Decodes the constant pool of `size` indices (the class file's
/// `constant_pool_count`), starting at the reader's cursor. Index 0 is an empty
/// placeholder, and so is the index after each long or double.
pub fn parse_constant_pool(reader: &mut Reader, size: u16) -> (r: Result<Vec<ConstantInfo>, DecodeError>)
    ensures
        final(reader).content@ == old(reader).content@,
        ({
            let s = old(reader).content@;
            match pool_layout(s, old(reader).cursor as int, 1, size as int) {
                Ok((layout, end)) => r is Ok && pool_follows(s, seq![None] + layout, r->Ok_0@)
                    && final(reader).cursor == end,
                Err(e) => r == Err::<Vec<ConstantInfo>, DecodeError>(e),
            }
        }),
{
    let ghost s = reader.content@;
    let ghost start = reader.cursor as int;
    let mut pool: Vec<ConstantInfo> = Vec::new();
    pool.push(ConstantInfo::ConstantEmpty {});
    let ghost mut done: Seq<Option<int>> = Seq::empty();
    let mut index: u32 = 1;
    assert(pool_follows(s, seq![None] + done, pool@)) by {
        assert(seq![None] + done =~= seq![None]);
    }
    assert(prepend(done, pool_layout(s, start, 1, size as int)) == pool_layout(s, start, 1, size as int)) by {
        match pool_layout(s, start, 1, size as int) {
            Ok((rest, end)) => {
                assert(done + rest =~= rest);
            },
            Err(_) => {},
        }
    }
    while index < size as u32
        invariant
            reader.content@ == s,
            s == old(reader).content@,
            start == old(reader).cursor,
            1 <= index <= size as int + 1,
            pool_follows(s, seq![None] + done, pool@),
            pool_layout(s, start, 1, size as int) == prepend(done, pool_layout(s, reader.cursor as int, index as int, size as int)),
        decreases size + 1 - index,
    {
        let ghost pos = reader.cursor as int;
        let entry = read_entry(reader);
        let entry = match entry {
            Ok(e) => e,
            Err(e) => {
                return Err(e);
            },
        };
        let wide = match entry {
            ConstantInfo::ConstantLong { .. } => true,
            ConstantInfo::ConstantDouble { .. } => true,
            _ => false,
        };
        assert(wide == wide_tag(s[pos]));
        let ghost here: Seq<Option<int>> = if wide { seq![Some(pos), None] } else { seq![Some(pos)] };
        proof {
            lemma_prepend_assoc(done, here, pool_layout(s, reader.cursor as int, index + if wide { 2int } else { 1int }, size as int));
        }
        let ghost old_pool = pool@;
        pool.push(entry);
        if wide {
            pool.push(ConstantInfo::ConstantEmpty {});
            index = index + 2;
        } else {
            index = index + 1;
        }
        proof {
            let lay = seq![None] + done;
            assert(seq![None] + (done + here) =~= lay + here);
            done = done + here;
            assert forall|i: int| 0 <= i < pool@.len() implies match #[trigger] (seq![None] + done)[i] {
                Some(off) => entry_matches(s, off, pool@[i]),
                None => pool@[i].is_empty(),
            } by {
                if i < old_pool.len() {
                    assert((seq![None] + done)[i] == lay[i]);
                    assert(pool@[i] == old_pool[i]);
                }
            }
        }
    }
    proof {
        match pool_layout(s, reader.cursor as int, index as int, size as int) {
            Ok((rest, end)) => {
                assert(rest =~= Seq::<Option<int>>::empty());
                assert(done + rest =~= done);
            },
            Err(_) => {},
        }
    }
    Ok(pool)
}

proof fn lemma_layout_shape(s: Seq<u8>, pos: int, index: int, size: int)
    ensures
        pool_layout(s, pos, index, size) matches Ok((layout, end)) ==> {
            &&& layout.len() >= size - index
            &&& forall|i: int| 0 <= i < layout.len() && (#[trigger] layout[i] matches Some(off) && wide_tag(s[off]))
                ==> i + 1 < layout.len() && layout[i + 1] is None
        },
    decreases size - index + 1,
{
    if index < size {
        if let Ok(next) = entry_outcome(s, pos) {
            let step: int = if wide_tag(s[pos]) { 2 } else { 1 };
            lemma_layout_shape(s, next, index + step, size);
            let here: Seq<Option<int>> = if wide_tag(s[pos]) { seq![Some(pos), None] } else { seq![Some(pos)] };
            if let Ok((rest, end)) = pool_layout(s, next, index + step, size) {
                let layout = here + rest;
                assert forall|i: int| 0 <= i < layout.len() && (#[trigger] layout[i] matches Some(off) && wide_tag(s[off]))
                    implies i + 1 < layout.len() && layout[i + 1] is None by {
                    if i >= here.len() {
                        assert(layout[i] == rest[i - here.len()]);
                        assert(layout[i + 1] == rest[i + 1 - here.len()]);
                    }
                }
            }
        }
    }
}

/// A decoded constant pool keeps the class file's 1-based numbering: index 0 holds
/// an empty placeholder, and every long or double entry at index `i` is followed
/// by an empty placeholder at `i + 1`.
pub proof fn lemma_pool_keeps_numbering(s: Seq<u8>, start: int, size: int, pool: Seq<ConstantInfo>)
    requires
        pool_layout(s, start, 1, size) is Ok,
        pool_follows(s, seq![None] + pool_layout(s, start, 1, size)->Ok_0.0, pool),
    ensures
        pool.len() >= size,
        pool[0].is_empty(),
        forall|i: int| 0 <= i < pool.len() && #[trigger] pool[i].is_wide()
            ==> i + 1 < pool.len() && pool[i + 1].is_empty(),
{
    let layout = pool_layout(s, start, 1, size)->Ok_0.0;
    let full = seq![None] + layout;
    lemma_layout_shape(s, start, 1, size);
    assert(full[0] is None);
    assert forall|i: int| 0 <= i < pool.len() && #[trigger] pool[i].is_wide()
        implies i + 1 < pool.len() && pool[i + 1].is_empty() by {
        let f = full[i];
        assert(f is Some);
        assert(i >= 1);
        assert(full[i] == layout[i - 1]);
        assert(full[i + 1] == layout[i]);
    }
}

} // verus!
