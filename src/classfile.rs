use vstd::prelude::*;

use crate::attribute::{
    eq_bytes, get_utf8, lemma_known_records_len, list_decodes, list_outcome, name_at, parse_attributes,
    records_end, utf8_at, utf8_names, AttributeInfo, MAX_NESTING,
};
use crate::bytes::{be16, be32};
use crate::class_reader::Reader;
use crate::constant_pool::{entry_matches, parse_constant_pool, pool_follows, pool_layout, ConstantInfo};
use crate::error::DecodeError;

verus! {

pub struct MethodInfo {
    pub name: Vec<u8>,
    pub access_flag: u16,
    pub descriptor_index: u16,
    pub attribute_info: Vec<AttributeInfo>,
}

pub struct FieldInfo {
    pub name: Vec<u8>,
    pub access_flag: u16,
    pub descriptor_index: u16,
    pub attribute_info: Vec<AttributeInfo>,
}

/// A decoded class file. Names are the constant pool's UTF-8 bytes.
pub struct ClassFile {
    pub magic: u32,
    pub minor_version: u16,
    pub major_version: u16,
    pub constant_pool_count: u16,
    pub constant_pool: Vec<ConstantInfo>,
    pub access_flags: u16,
    pub this_class: u16,
    pub super_class: u16,
    pub interfaces_count: u16,
    pub interfaces: Vec<Vec<u8>>,
    pub fields_count: u16,
    pub fields_info: Vec<FieldInfo>,
    pub methods_count: u16,
    pub methods_info: Vec<MethodInfo>,
    pub attributes_count: u16,
    pub attributes_info: Vec<AttributeInfo>,
}

/// The name of the class that pool index `index` refers to: a class entry
/// whose own index leads to a UTF-8 entry.
pub open spec fn class_name_at(pool: Seq<ConstantInfo>, index: int) -> Option<Seq<u8>> {
    if 0 <= index < pool.len() {
        match pool[index] {
            ConstantInfo::ConstantClass { index: name } => utf8_at(pool, name as int),
            _ => None,
        }
    } else {
        None
    }
}

/// The class name that pool index `this_class` refers to, or `None` where the
/// entries are not a class entry leading to a UTF-8 entry.
pub fn get_class_name(constant_pool: &Vec<ConstantInfo>, this_class: u16) -> (r: Option<Vec<u8>>)
    ensures
        r matches Some(v) ==> class_name_at(constant_pool@, this_class as int) == Some(v@),
        r is None ==> class_name_at(constant_pool@, this_class as int) is None,
{
    if (this_class as usize) < constant_pool.len() {
        match &constant_pool[this_class as usize] {
            ConstantInfo::ConstantClass { index } => get_utf8(constant_pool, *index),
            _ => None,
        }
    } else {
        None
    }
}

/// Where the field or method record at `q` ends: flags, name index,
/// descriptor index, then an attribute count and that many attributes.
pub open spec fn member_end(s: Seq<u8>, q: int) -> int {
    records_end(s, q + 8, be16(s, q + 6) as nat)
}

/// Where the `k`-th of consecutive field or method records from `p` starts.
pub open spec fn member_offset(s: Seq<u8>, p: int, k: nat) -> int
    decreases k,
{
    if k == 0 { p } else { member_end(s, member_offset(s, p, (k - 1) as nat)) }
}

/// The record at `q` holds these flags, this name, this descriptor index and
/// these attributes.
pub open spec fn member_at(s: Seq<u8>, names: Seq<Option<Seq<u8>>>, q: int, access: u16, name: Seq<u8>, descriptor: u16, attrs: Seq<AttributeInfo>) -> bool {
    &&& access == be16(s, q)
    &&& name_at(names, be16(s, q + 2)) == Some(name)
    &&& descriptor == be16(s, q + 4)
    &&& list_decodes(names, s, q + 8, be16(s, q + 6) as nat, attrs, MAX_NESTING as nat)
}

/// Where the constant pool of the class file at `c` ends.
pub open spec fn pool_end(s: Seq<u8>, c: int) -> int {
    pool_layout(s, c + 10, 1, be16(s, c + 8))->Ok_0.1
}

/// Where the fields of the class file at `c` start (after their count).
pub open spec fn fields_start(s: Seq<u8>, c: int) -> int {
    pool_end(s, c) + 10 + 2 * be16(s, pool_end(s, c) + 6)
}

/// Where the methods of the class file at `c` start (after their count).
pub open spec fn methods_start(s: Seq<u8>, c: int) -> int {
    member_offset(s, fields_start(s, c), be16(s, fields_start(s, c) - 2) as nat) + 2
}

/// The class names of a constant pool, index by index.
pub open spec fn class_names(pool: Seq<ConstantInfo>) -> Seq<Option<Seq<u8>>> {
    Seq::new(pool.len(), |i: int| class_name_at(pool, i))
}

/// What decoding the field or method record at `q` gives: its three indices,
/// its attributes, then the resolution of its name.
pub open spec fn member_outcome(s: Seq<u8>, q: int, names: Seq<Option<Seq<u8>>>) -> Result<(), DecodeError> {
    if q + 6 > s.len() {
        Err(DecodeError::TruncatedInput)
    } else {
        match list_outcome(names, s, q + 6, MAX_NESTING as nat) {
            Err(e) => Err(e),
            Ok(()) => if name_at(names, be16(s, q + 2)) is None {
                Err(DecodeError::UnresolvedPoolReference(be16(s, q + 2) as u16))
            } else {
                Ok(())
            },
        }
    }
}

/// What decoding `k` consecutive field or method records from `q` gives.
pub open spec fn members_outcome(s: Seq<u8>, q: int, k: nat, names: Seq<Option<Seq<u8>>>) -> Result<(), DecodeError>
    decreases k,
{
    if k == 0 {
        Ok(())
    } else {
        match member_outcome(s, q, names) {
            Err(e) => Err(e),
            Ok(()) => members_outcome(s, member_end(s, q), (k - 1) as nat, names),
        }
    }
}

/// What decoding `k` interface indices from `p` gives: each must name a class.
pub open spec fn interfaces_outcome(s: Seq<u8>, p: int, k: nat, classes: Seq<Option<Seq<u8>>>) -> Result<(), DecodeError>
    decreases k,
{
    if k == 0 {
        Ok(())
    } else if p + 2 > s.len() {
        Err(DecodeError::TruncatedInput)
    } else if name_at(classes, be16(s, p)) is None {
        Err(DecodeError::UnresolvedPoolReference(be16(s, p) as u16))
    } else {
        interfaces_outcome(s, p + 2, (k - 1) as nat, classes)
    }
}

/// What decoding the rest of a class file gives, from the end `end` of its
/// constant pool, given the pool's UTF-8 entries and class names.
pub open spec fn rest_outcome(s: Seq<u8>, end: int, names: Seq<Option<Seq<u8>>>, classes: Seq<Option<Seq<u8>>>) -> Result<(), DecodeError> {
    if end + 8 > s.len() {
        Err(DecodeError::TruncatedInput)
    } else {
        match interfaces_outcome(s, end + 8, be16(s, end + 6) as nat, classes) {
            Err(e) => Err(e),
            Ok(()) => {
                let f = end + 8 + 2 * be16(s, end + 6);
                if f + 2 > s.len() {
                    Err(DecodeError::TruncatedInput)
                } else {
                    match members_outcome(s, f + 2, be16(s, f) as nat, names) {
                        Err(e) => Err(e),
                        Ok(()) => {
                            let m = member_offset(s, f + 2, be16(s, f) as nat);
                            if m + 2 > s.len() {
                                Err(DecodeError::TruncatedInput)
                            } else {
                                match members_outcome(s, m + 2, be16(s, m) as nat, names) {
                                    Err(e) => Err(e),
                                    Ok(()) => list_outcome(names, s, member_offset(s, m + 2, be16(s, m) as nat), MAX_NESTING as nat),
                                }
                            }
                        },
                    }
                }
            },
        }
    }
}

/// What decoding the class file at `c` of `s` gives: `Ok`, or the first
/// fault met (a truncation, an unknown constant tag, or an index that does
/// not resolve).
pub open spec fn class_outcome(s: Seq<u8>, c: int) -> Result<(), DecodeError> {
    if c + 10 > s.len() {
        Err(DecodeError::TruncatedInput)
    } else {
        match pool_layout(s, c + 10, 1, be16(s, c + 8)) {
            Err(e) => Err(e),
            Ok((layout, end)) => {
                let pool = choose|p: Seq<ConstantInfo>| pool_follows(s, seq![None] + layout, p);
                rest_outcome(s, end, utf8_names(pool), class_names(pool))
            },
        }
    }
}

/// Two pools decoded from the same bytes agree on their UTF-8 entries and
/// class names.
pub proof fn lemma_pools_agree(s: Seq<u8>, layout: Seq<Option<int>>, p1: Seq<ConstantInfo>, p2: Seq<ConstantInfo>)
    requires
        pool_follows(s, layout, p1),
        pool_follows(s, layout, p2),
    ensures
        utf8_names(p1) == utf8_names(p2),
        class_names(p1) == class_names(p2),
{
    assert forall|i: int| 0 <= i < p1.len() implies utf8_at(p1, i) == utf8_at(p2, i) by {
        let l = layout[i];
        if let Some(off) = l {
            assert(entry_matches(s, off, p1[i]) && entry_matches(s, off, p2[i]));
        }
    }
    assert(utf8_names(p1) =~= utf8_names(p2));
    assert forall|i: int| 0 <= i < p1.len() implies class_name_at(p1, i) == class_name_at(p2, i) by {
        let l = layout[i];
        if let Some(off) = l {
            assert(entry_matches(s, off, p1[i]) && entry_matches(s, off, p2[i]));
            if let ConstantInfo::ConstantClass { index } = p1[i] {
                assert(utf8_at(p1, index as int) == utf8_at(p2, index as int));
            }
        }
    }
    assert(class_names(p1) =~= class_names(p2));
}

/// Access flags, name index, descriptor index and attributes of one field or method.
fn read_member(reader: &mut Reader, pool: &Vec<ConstantInfo>) -> (r: Result<(u16, Vec<u8>, u16, Vec<AttributeInfo>), DecodeError>)
    ensures
        final(reader).content@ == old(reader).content@,
        r is Ok <==> member_outcome(old(reader).content@, old(reader).cursor as int, utf8_names(pool@)) is Ok,
        r matches Err(e) ==> member_outcome(old(reader).content@, old(reader).cursor as int, utf8_names(pool@)) == Err::<(), DecodeError>(e),
        r matches Ok(m) ==> member_at(old(reader).content@, utf8_names(pool@), old(reader).cursor as int, m.0, m.1@, m.2, m.3@)
            && final(reader).cursor == member_end(old(reader).content@, old(reader).cursor as int),
{
    let access_flags = reader.read_u16()?;
    let name_index = reader.read_u16()?;
    let descriptor_index = reader.read_u16()?;
    let attributes = parse_attributes(reader, pool)?;
    match get_utf8(pool, name_index) {
        Some(name) => Ok((access_flags, name, descriptor_index, attributes)),
        None => Err(DecodeError::UnresolvedPoolReference(name_index)),
    }
}

/// Reads `count` interface indices, resolving each to its class name.
fn read_interfaces(reader: &mut Reader, pool: &Vec<ConstantInfo>, count: u16) -> (r: Result<Vec<Vec<u8>>, DecodeError>)
    ensures
        final(reader).content@ == old(reader).content@,
        ({
            let s = old(reader).content@;
            let c = old(reader).cursor as int;
            let e = interfaces_outcome(s, c, count as nat, class_names(pool@));
            &&& r is Ok <==> e is Ok
            &&& r matches Err(err) ==> e == Err::<(), DecodeError>(err)
            &&& r matches Ok(v) ==> {
                &&& v@.len() == count
                &&& forall|j: int| 0 <= j < count ==> class_name_at(pool@, be16(s, c + 2 * j)) == Some((#[trigger] v@[j])@)
                &&& final(reader).cursor == c + 2 * count
            }
        }),
{
    let ghost s = reader.content@;
    let ghost c = reader.cursor as int;
    let ghost classes = class_names(pool@);
    let mut interfaces: Vec<Vec<u8>> = Vec::new();
    let mut i: u16 = 0;
    while i < count
        invariant
            reader.content@ == s,
            s == old(reader).content@,
            c == old(reader).cursor,
            classes == class_names(pool@),
            0 <= i <= count,
            interfaces@.len() == i,
            reader.cursor == c + 2 * i,
            interfaces_outcome(s, c, count as nat, classes)
                == interfaces_outcome(s, reader.cursor as int, (count - i) as nat, classes),
            forall|j: int| 0 <= j < i ==> class_name_at(pool@, be16(s, c + 2 * j)) == Some((#[trigger] interfaces@[j])@),
        decreases count - i,
    {
        let class_info_index = reader.read_u16()?;
        match get_class_name(pool, class_info_index) {
            Some(name) => interfaces.push(name),
            None => {
                return Err(DecodeError::UnresolvedPoolReference(class_info_index));
            },
        }
        i = i + 1;
    }
    Ok(interfaces)
}

/// Reads `count` field records.
fn read_fields(reader: &mut Reader, pool: &Vec<ConstantInfo>, count: u16) -> (r: Result<Vec<FieldInfo>, DecodeError>)
    ensures
        final(reader).content@ == old(reader).content@,
        ({
            let s = old(reader).content@;
            let c = old(reader).cursor as int;
            let e = members_outcome(s, c, count as nat, utf8_names(pool@));
            &&& r is Ok <==> e is Ok
            &&& r matches Err(err) ==> e == Err::<(), DecodeError>(err)
            &&& r matches Ok(v) ==> {
                &&& v@.len() == count
                &&& forall|j: int| 0 <= j < count ==> {
                    let f = #[trigger] v@[j];
                    member_at(s, utf8_names(pool@), member_offset(s, c, j as nat), f.access_flag, f.name@, f.descriptor_index, f.attribute_info@)
                }
                &&& final(reader).cursor == member_offset(s, c, count as nat)
            }
        }),
{
    let ghost s = reader.content@;
    let ghost c = reader.cursor as int;
    let ghost names = utf8_names(pool@);
    let mut fields_info: Vec<FieldInfo> = Vec::new();
    let mut i: u16 = 0;
    while i < count
        invariant
            reader.content@ == s,
            s == old(reader).content@,
            c == old(reader).cursor,
            names == utf8_names(pool@),
            0 <= i <= count,
            fields_info@.len() == i,
            reader.cursor == member_offset(s, c, i as nat),
            members_outcome(s, c, count as nat, names) == members_outcome(s, reader.cursor as int, (count - i) as nat, names),
            forall|j: int| 0 <= j < i ==> {
                let f = #[trigger] fields_info@[j];
                member_at(s, names, member_offset(s, c, j as nat), f.access_flag, f.name@, f.descriptor_index, f.attribute_info@)
            },
        decreases count - i,
    {
        let (access_flag, name, descriptor_index, attribute_info) = read_member(reader, pool)?;
        fields_info.push(FieldInfo { name, access_flag, descriptor_index, attribute_info });
        i = i + 1;
    }
    Ok(fields_info)
}

/// Reads `count` method records.
fn read_methods(reader: &mut Reader, pool: &Vec<ConstantInfo>, count: u16) -> (r: Result<Vec<MethodInfo>, DecodeError>)
    ensures
        final(reader).content@ == old(reader).content@,
        ({
            let s = old(reader).content@;
            let c = old(reader).cursor as int;
            let e = members_outcome(s, c, count as nat, utf8_names(pool@));
            &&& r is Ok <==> e is Ok
            &&& r matches Err(err) ==> e == Err::<(), DecodeError>(err)
            &&& r matches Ok(v) ==> {
                &&& v@.len() == count
                &&& forall|j: int| 0 <= j < count ==> {
                    let m = #[trigger] v@[j];
                    member_at(s, utf8_names(pool@), member_offset(s, c, j as nat), m.access_flag, m.name@, m.descriptor_index, m.attribute_info@)
                }
                &&& final(reader).cursor == member_offset(s, c, count as nat)
            }
        }),
{
    let ghost s = reader.content@;
    let ghost c = reader.cursor as int;
    let ghost names = utf8_names(pool@);
    let mut methods_info: Vec<MethodInfo> = Vec::new();
    let mut i: u16 = 0;
    while i < count
        invariant
            reader.content@ == s,
            s == old(reader).content@,
            c == old(reader).cursor,
            names == utf8_names(pool@),
            0 <= i <= count,
            methods_info@.len() == i,
            reader.cursor == member_offset(s, c, i as nat),
            members_outcome(s, c, count as nat, names) == members_outcome(s, reader.cursor as int, (count - i) as nat, names),
            forall|j: int| 0 <= j < i ==> {
                let m = #[trigger] methods_info@[j];
                member_at(s, names, member_offset(s, c, j as nat), m.access_flag, m.name@, m.descriptor_index, m.attribute_info@)
            },
        decreases count - i,
    {
        let (access_flag, name, descriptor_index, attribute_info) = read_member(reader, pool)?;
        methods_info.push(MethodInfo { name, access_flag, descriptor_index, attribute_info });
        i = i + 1;
    }
    Ok(methods_info)
}

impl Reader {
    /// Decodes a whole class file from the cursor on: header, constant pool,
    /// flags, this and super class, interfaces, fields, methods, attributes.
    /// It succeeds exactly when `class_outcome` does, and fails with the
    /// error that it names; no partial class file is returned.
    #[verifier::spinoff_prover]
    #[verifier::rlimit(50)]
    pub fn parse_classfile(&mut self) -> (r: Result<ClassFile, DecodeError>)
        ensures
            final(self).content@ == old(self).content@,
            r is Ok <==> class_outcome(old(self).content@, old(self).cursor as int) is Ok,
            r matches Err(e) ==> class_outcome(old(self).content@, old(self).cursor as int) == Err::<(), DecodeError>(e),
            ({
                let s = old(self).content@;
                let c = old(self).cursor as int;
                r matches Ok(cf) ==> {
                    let names = utf8_names(cf.constant_pool@);
                    &&& cf.magic == be32(s, c)
                    &&& cf.minor_version == be16(s, c + 4)
                    &&& cf.major_version == be16(s, c + 6)
                    &&& cf.constant_pool_count == be16(s, c + 8)
                    &&& pool_layout(s, c + 10, 1, be16(s, c + 8)) matches Ok((layout, end))
                        && pool_follows(s, seq![None] + layout, cf.constant_pool@)
                        && cf.access_flags == be16(s, end)
                        && cf.this_class == be16(s, end + 2)
                        && cf.super_class == be16(s, end + 4)
                        && cf.interfaces_count == be16(s, end + 6)
                    &&& cf.interfaces@.len() == cf.interfaces_count
                    &&& forall|i: int| 0 <= i < cf.interfaces@.len()
                        ==> class_name_at(cf.constant_pool@, be16(s, pool_end(s, c) + 8 + 2 * i)) == Some((#[trigger] cf.interfaces@[i])@)
                    &&& cf.fields_count == be16(s, fields_start(s, c) - 2)
                    &&& cf.fields_info@.len() == cf.fields_count
                    &&& forall|i: int| 0 <= i < cf.fields_info@.len() ==> {
                        let f = #[trigger] cf.fields_info@[i];
                        member_at(s, names, member_offset(s, fields_start(s, c), i as nat), f.access_flag, f.name@, f.descriptor_index, f.attribute_info@)
                    }
                    &&& cf.methods_count == be16(s, methods_start(s, c) - 2)
                    &&& cf.methods_info@.len() == cf.methods_count
                    &&& forall|i: int| 0 <= i < cf.methods_info@.len() ==> {
                        let m = #[trigger] cf.methods_info@[i];
                        member_at(s, names, member_offset(s, methods_start(s, c), i as nat), m.access_flag, m.name@, m.descriptor_index, m.attribute_info@)
                    }
                    &&& {
                        let a = member_offset(s, methods_start(s, c), cf.methods_count as nat);
                        &&& list_decodes(names, s, a + 2, be16(s, a) as nat, cf.attributes_info@, MAX_NESTING as nat)
                        &&& cf.attributes_count == cf.attributes_info@.len()
                    }
                }
            }),
    {
        let ghost s = self.content@;
        let ghost c = self.cursor as int;
        let magic = self.read_u32()?;
        let minor_version = self.read_u16()?;
        let major_version = self.read_u16()?;
        let constant_pool_size = self.read_u16()?;
        let constant_pool = parse_constant_pool(self, constant_pool_size)?;
        let ghost end = self.cursor as int;
        let ghost names = utf8_names(constant_pool@);
        let ghost classes = class_names(constant_pool@);
        proof {
            let layout = pool_layout(s, c + 10, 1, be16(s, c + 8))->Ok_0.0;
            let p = choose|p: Seq<ConstantInfo>| pool_follows(s, seq![None] + layout, p);
            lemma_pools_agree(s, seq![None] + layout, p, constant_pool@);
            assert(class_outcome(s, c) == rest_outcome(s, end, names, classes));
        }
        let access_flags = self.read_u16()?;
        let this_class = self.read_u16()?;
        let super_class = self.read_u16()?;
        let interfaces_count = self.read_u16()?;
        let interfaces = read_interfaces(self, &constant_pool, interfaces_count)?;
        let fields_count = self.read_u16()?;
        let fields_info = read_fields(self, &constant_pool, fields_count)?;
        let methods_count = self.read_u16()?;
        let methods_info = read_methods(self, &constant_pool, methods_count)?;
        let ghost apos = self.cursor as int;
        let attributes_info = parse_attributes(self, &constant_pool)?;
        proof {
            lemma_known_records_len(names, s, apos + 2, be16(s, apos) as nat);
        }
        Ok(ClassFile {
            magic,
            minor_version,
            major_version,
            constant_pool_count: constant_pool_size,
            constant_pool,
            access_flags,
            this_class,
            super_class,
            interfaces_count,
            interfaces,
            fields_count,
            fields_info,
            methods_count,
            methods_info,
            attributes_count: attributes_info.len() as u16,
            attributes_info,
        })
    }
}

impl ClassFile {
    /// The index of the first method named `name` whose descriptor (a UTF-8
    /// constant) is `descriptor`, if any.
    pub fn find_method(&self, name: &[u8], descriptor: &[u8]) -> (r: Option<usize>)
        ensures
            r matches Some(k) ==> k < self.methods_info@.len() && method_is(self, k as int, name@, descriptor@),
            r matches Some(k) ==> forall|j: int| 0 <= j < k ==> !method_is(self, j, name@, descriptor@),
            r is None ==> forall|j: int| 0 <= j < self.methods_info@.len() ==> !method_is(self, j, name@, descriptor@),
    {
        let mut k: usize = 0;
        while k < self.methods_info.len()
            invariant
                0 <= k <= self.methods_info@.len(),
                forall|j: int| 0 <= j < k ==> !method_is(self, j, name@, descriptor@),
            decreases self.methods_info@.len() - k,
        {
            let m = &self.methods_info[k];
            if eq_bytes(m.name.as_slice(), name) {
                match get_utf8(&self.constant_pool, m.descriptor_index) {
                    Some(d) => {
                        if eq_bytes(d.as_slice(), descriptor) {
                            return Some(k);
                        }
                    },
                    None => {},
                }
            }
            k = k + 1;
        }
        None
    }
}

/// Method `k` of `cf` has name `name` and descriptor `descriptor`.
pub open spec fn method_is(cf: &ClassFile, k: int, name: Seq<u8>, descriptor: Seq<u8>) -> bool {
    let m = cf.methods_info@[k];
    m.name@ == name && utf8_at(cf.constant_pool@, m.descriptor_index as int) == Some(descriptor)
}

/// Decodes a class file held in `bytes`.
pub fn parse_class(bytes: Vec<u8>) -> (r: Result<ClassFile, DecodeError>)
    ensures
        r is Ok <==> class_outcome(bytes@, 0) is Ok,
        r matches Err(e) ==> class_outcome(bytes@, 0) == Err::<(), DecodeError>(e),
        r matches Ok(cf) ==> cf.magic == be32(bytes@, 0) && cf.major_version == be16(bytes@, 6)
            && cf.minor_version == be16(bytes@, 4),
{
    let mut reader = Reader::new(bytes);
    reader.parse_classfile()
}

} // verus!
