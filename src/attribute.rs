use vstd::prelude::*;
use vstd::string::StringSliceAdditionalSpecFns;

use crate::bytes::{be16, be32};
use crate::class_reader::{u16_run, Reader};
use crate::constant_pool::ConstantInfo;
use crate::error::DecodeError;

verus! {

pub struct BootstrapMethod {
    pub bootstrap_method_ref: u16,
    pub bootstrap_arguments: Vec<u16>,
}

pub struct ExceptionTableEntry {
    pub start_pc: u16,
    pub end_pc: u16,
    pub handle_pc: u16,
    pub catch_type: u16,
}

pub struct InnerClassInfo {
    pub innner_class_index: u16,
    pub outter_class_index: u16,
    pub inner_class_name_index: u16,
    pub inner_class_access_flags: u16,
}

pub struct LineNumberEntry {
    pub start_pc: u16,
    pub line_number: u16,
}

pub struct LocalVariableTableEntry {
    pub start_pc: u16,
    pub length: u16,
    pub name_index: u16,
    pub descriptor_index: u16,
    pub index: u16,
}

pub struct LocalVariablTypeEntry {
    pub start_pc: u16,
    pub length: u16,
    pub name_index: u16,
    pub signature_index: u16,
    pub index: u16,
}

/// A decoded attribute of a class, field, method or `Code` attribute.
pub enum AttributeInfo {
    BootstrapMethodsAttribute { boostrap_methods: Vec<BootstrapMethod> },
    CodeAttribute {
        max_stacks: u16,
        max_locals: u16,
        code_length: u32,
        code: Vec<u8>,
        exception_table: Vec<ExceptionTableEntry>,
        attributes: Vec<AttributeInfo>,
    },
    ConstantValueAttribute { value_index: u16 },
    EnclosingMethodAttribute { class_index: u16, name_index: u16 },
    ExceptionsAttribute { index_table: Vec<u16> },
    InnerClassesAttribute { inner_classes: Vec<InnerClassInfo> },
    LineNumberTableAttribute { line_number_table: Vec<LineNumberEntry> },
    LocalVariableTableAttribute { local_variable_table: Vec<LocalVariableTableEntry> },
    LocalVariableTypeTableAttribute { local_variable_type_table: Vec<LocalVariablTypeEntry> },
    SignatureAttribute { signature_index: u16 },
    SourceFileAttribute { source_file: u16 },
}

/// How deep `Code` attributes may nest inside one another.
pub const MAX_NESTING: u32 = 8;

/// The UTF-8 bytes at pool index `index`, if that entry is a UTF-8 constant.
pub open spec fn utf8_at(pool: Seq<ConstantInfo>, index: int) -> Option<Seq<u8>> {
    if 0 <= index < pool.len() {
        match pool[index] {
            ConstantInfo::ConstantUTF8 { value } => Some(value@),
            _ => None,
        }
    } else {
        None
    }
}

/// The UTF-8 entries of a constant pool, index by index (`None` for the
/// other entries): all that the attribute decoder reads of the pool.
pub open spec fn utf8_names(pool: Seq<ConstantInfo>) -> Seq<Option<Seq<u8>>> {
    Seq::new(pool.len(), |i: int| utf8_at(pool, i))
}

/// The name at index `index` of `names`, if any.
pub open spec fn name_at(names: Seq<Option<Seq<u8>>>, index: int) -> Option<Seq<u8>> {
    if 0 <= index < names.len() { names[index] } else { None }
}

/// The name under which each variant is stored in a class file.
pub open spec fn attribute_named(name: Seq<u8>, a: AttributeInfo) -> bool {
    match a {
        AttributeInfo::BootstrapMethodsAttribute { .. } => name == "BootstrapMethods".spec_bytes(),
        AttributeInfo::CodeAttribute { .. } => name == "Code".spec_bytes(),
        AttributeInfo::ConstantValueAttribute { .. } => name == "ConstantValue".spec_bytes(),
        AttributeInfo::EnclosingMethodAttribute { .. } => name == "EnclosingMethod".spec_bytes(),
        AttributeInfo::ExceptionsAttribute { .. } => name == "Exceptions".spec_bytes(),
        AttributeInfo::InnerClassesAttribute { .. } => name == "InnerClasses".spec_bytes(),
        AttributeInfo::LineNumberTableAttribute { .. } => name == "LineNumberTable".spec_bytes(),
        AttributeInfo::LocalVariableTableAttribute { .. } => name == "LocalVariableTable".spec_bytes(),
        AttributeInfo::LocalVariableTypeTableAttribute { .. } => name == "LocalVariableTypeTable".spec_bytes(),
        AttributeInfo::SignatureAttribute { .. } => name == "Signature".spec_bytes(),
        AttributeInfo::SourceFileAttribute { .. } => name == "SourceFile".spec_bytes(),
    }
}

pub open spec fn known_attribute(name: Seq<u8>) -> bool {
    name == "BootstrapMethods".spec_bytes() || name == "Code".spec_bytes()
        || name == "ConstantValue".spec_bytes() || name == "EnclosingMethod".spec_bytes()
        || name == "Exceptions".spec_bytes() || name == "InnerClasses".spec_bytes()
        || name == "LineNumberTable".spec_bytes() || name == "LocalVariableTable".spec_bytes()
        || name == "LocalVariableTypeTable".spec_bytes() || name == "Signature".spec_bytes()
        || name == "SourceFile".spec_bytes()
}

/// Where the attribute record at `pos` ends: a 2-byte name index, a 4-byte
/// length, then that many bytes of body.
pub open spec fn record_end(s: Seq<u8>, pos: int) -> int {
    pos + 6 + be32(s, pos + 2)
}

/// Where `n` consecutive attribute records starting at `pos` end.
pub open spec fn records_end(s: Seq<u8>, pos: int, n: nat) -> int
    decreases n,
{
    if n == 0 { pos } else { records_end(s, record_end(s, pos), (n - 1) as nat) }
}

pub fn eq_bytes(a: &[u8], b: &[u8]) -> (r: bool)
    ensures
        r == (a@ == b@),
{
    if a.len() != b.len() {
        return false;
    }
    let mut i: usize = 0;
    while i < a.len()
        invariant
            a@.len() == b@.len(),
            0 <= i <= a@.len(),
            a@.subrange(0, i as int) == b@.subrange(0, i as int),
        decreases a@.len() - i,
    {
        if a[i] != b[i] {
            assert(a@[i as int] != b@[i as int]);
            return false;
        }
        assert(a@.subrange(0, i + 1) =~= a@.subrange(0, i as int).push(a@[i as int]));
        assert(b@.subrange(0, i + 1) =~= b@.subrange(0, i as int).push(b@[i as int]));
        i = i + 1;
    }
    assert(a@ =~= a@.subrange(0, i as int));
    assert(b@ =~= b@.subrange(0, i as int));
    true
}

fn name_is(name: &Vec<u8>, text: &str) -> (r: bool)
    ensures
        r == (name@ == text.spec_bytes()),
{
    eq_bytes(name.as_slice(), text.as_bytes())
}

/// The UTF-8 bytes at pool index `index`, or `None` where that entry is not a
/// UTF-8 constant.
pub fn get_utf8(constant_pool: &Vec<ConstantInfo>, index: u16) -> (r: Option<Vec<u8>>)
    ensures
        r matches Some(v) ==> utf8_at(constant_pool@, index as int) == Some(v@),
        r is None ==> utf8_at(constant_pool@, index as int) is None,
{
    if (index as usize) < constant_pool.len() {
        match &constant_pool[index as usize] {
            ConstantInfo::ConstantUTF8 { value } => Some(value.clone()),
            _ => None,
        }
    } else {
        None
    }
}

proof fn lemma_records_end_step(s: Seq<u8>, pos: int, n: nat)
    ensures
        records_end(s, pos, n + 1) == record_end(s, records_end(s, pos, n)),
    decreases n,
{
    let next = record_end(s, pos);
    assert(records_end(s, pos, n + 1) == records_end(s, next, n));
    if n > 0 {
        lemma_records_end_step(s, next, (n - 1) as nat);
        assert(records_end(s, pos, n) == records_end(s, next, (n - 1) as nat));
        assert(((n - 1) as nat) + 1 == n);
    } else {
        assert(records_end(s, next, 0) == next);
    }
}

/// Row `k` of a table of `u16` rows, `width` fields to a row, that starts at
/// `start` of `b`.
pub open spec fn row(b: Seq<u8>, start: int, width: int, k: int) -> Seq<u16> {
    u16_run(b, start + 2 * width * k, width as nat)
}

/// `Ok` where `b` holds at least `n` bytes, else a truncation.
pub open spec fn need(b: Seq<u8>, n: int) -> Result<(), DecodeError> {
    if n <= b.len() { Ok(()) } else { Err(DecodeError::TruncatedInput) }
}

/// A `u16` count at the start of `b`, then that many rows of `width` `u16`s.
pub open spec fn table_outcome(b: Seq<u8>, width: int) -> Result<(), DecodeError> {
    if b.len() < 2 { Err(DecodeError::TruncatedInput) } else { need(b, 2 + 2 * width * be16(b, 0)) }
}

/// Where bootstrap method `k` of a BootstrapMethods body starts: a method
/// reference, an argument count, then the arguments.
pub open spec fn bootstrap_offset(b: Seq<u8>, k: nat) -> int
    decreases k,
{
    if k == 0 {
        2
    } else {
        let p = bootstrap_offset(b, (k - 1) as nat);
        p + 4 + 2 * be16(b, p + 2)
    }
}

/// Whether the `k` bootstrap methods from `p` on lie within `b`.
pub open spec fn bootstrap_outcome(b: Seq<u8>, p: int, k: nat) -> Result<(), DecodeError>
    decreases k,
{
    if k == 0 {
        Ok(())
    } else if p + 4 > b.len() || p + 4 + 2 * be16(b, p + 2) > b.len() {
        Err(DecodeError::TruncatedInput)
    } else {
        bootstrap_outcome(b, p + 4 + 2 * be16(b, p + 2), (k - 1) as nat)
    }
}

/// What decoding an attribute list (a `u16` count, then the records) at `pos`
/// of `s` gives: `Ok`, or the first fault met. `Code` attributes may nest
/// `depth` levels further.
pub open spec fn list_outcome(names: Seq<Option<Seq<u8>>>, s: Seq<u8>, pos: int, depth: nat) -> Result<(), DecodeError>
    decreases depth, 4int, 0int,
{
    if pos + 2 > s.len() {
        Err(DecodeError::TruncatedInput)
    } else {
        records_outcome(names, s, pos + 2, be16(s, pos) as nat, depth)
    }
}

/// What decoding `n` consecutive attribute records from `pos` gives.
pub open spec fn records_outcome(names: Seq<Option<Seq<u8>>>, s: Seq<u8>, pos: int, n: nat, depth: nat) -> Result<(), DecodeError>
    decreases depth, 3int, n,
{
    if n == 0 {
        Ok(())
    } else {
        match record_outcome(names, s, pos, depth) {
            Err(e) => Err(e),
            Ok(()) => records_outcome(names, s, record_end(s, pos), (n - 1) as nat, depth),
        }
    }
}

/// What decoding the attribute record at `pos` gives: a truncated header or
/// body, a name index that is not a UTF-8 entry, or a fault in a known body.
/// A record with an unknown name is skipped whatever its body holds.
pub open spec fn record_outcome(names: Seq<Option<Seq<u8>>>, s: Seq<u8>, pos: int, depth: nat) -> Result<(), DecodeError>
    decreases depth, 2int, 0int,
{
    if pos + 6 > s.len() {
        Err(DecodeError::TruncatedInput)
    } else if name_at(names, be16(s, pos)) is None {
        Err(DecodeError::UnresolvedPoolReference(be16(s, pos) as u16))
    } else if record_end(s, pos) > s.len() {
        Err(DecodeError::TruncatedInput)
    } else if !known_attribute(name_at(names, be16(s, pos))->0) {
        Ok(())
    } else {
        body_outcome(names, s.subrange(pos + 6, record_end(s, pos)), name_at(names, be16(s, pos))->0, depth)
    }
}

/// What decoding the body `b` of a known attribute named `name` gives.
pub open spec fn body_outcome(names: Seq<Option<Seq<u8>>>, b: Seq<u8>, name: Seq<u8>, depth: nat) -> Result<(), DecodeError>
    decreases depth, 1int, 0int,
{
    if name == "BootstrapMethods".spec_bytes() {
        if b.len() < 2 { Err(DecodeError::TruncatedInput) } else { bootstrap_outcome(b, 2, be16(b, 0) as nat) }
    } else if name == "Code".spec_bytes() {
        code_outcome(names, b, depth)
    } else if name == "EnclosingMethod".spec_bytes() {
        need(b, 4)
    } else if name == "Exceptions".spec_bytes() {
        table_outcome(b, 1)
    } else if name == "InnerClasses".spec_bytes() {
        table_outcome(b, 4)
    } else if name == "LineNumberTable".spec_bytes() {
        table_outcome(b, 2)
    } else if name == "LocalVariableTable".spec_bytes() || name == "LocalVariableTypeTable".spec_bytes() {
        table_outcome(b, 5)
    } else {
        need(b, 2)
    }
}

/// What decoding a `Code` body gives: stack and locals sizes, the code, the
/// exception table, then a nested attribute list one level deeper.
pub open spec fn code_outcome(names: Seq<Option<Seq<u8>>>, b: Seq<u8>, depth: nat) -> Result<(), DecodeError>
    decreases depth, 0int, 0int,
{
    if depth == 0 {
        Err(DecodeError::NestingTooDeep)
    } else if b.len() < 8 || 10 + be32(b, 4) > b.len() {
        Err(DecodeError::TruncatedInput)
    } else {
        let t = 10 + be32(b, 4);
        if t + 8 * be16(b, t - 2) > b.len() {
            Err(DecodeError::TruncatedInput)
        } else {
            list_outcome(names, b, t + 8 * be16(b, t - 2), (depth - 1) as nat)
        }
    }
}

/// The record at `q` has a name that this decoder knows.
pub open spec fn record_known(names: Seq<Option<Seq<u8>>>, s: Seq<u8>, q: int) -> bool {
    name_at(names, be16(s, q)) is Some && known_attribute(name_at(names, be16(s, q))->0)
}

/// The offsets, in order, of the records with known names among the `n`
/// consecutive records from `pos`.
pub open spec fn known_records(names: Seq<Option<Seq<u8>>>, s: Seq<u8>, pos: int, n: nat) -> Seq<int>
    decreases n,
{
    if n == 0 {
        Seq::empty()
    } else {
        let prev = known_records(names, s, pos, (n - 1) as nat);
        let q = records_end(s, pos, (n - 1) as nat);
        if record_known(names, s, q) { prev.push(q) } else { prev }
    }
}

/// `v` holds, in order, what the records with known names among the `n`
/// records from `pos` decode to.
pub open spec fn list_decodes(names: Seq<Option<Seq<u8>>>, s: Seq<u8>, pos: int, n: nat, v: Seq<AttributeInfo>, depth: nat) -> bool
    decreases depth, 2int,
{
    let ks = known_records(names, s, pos, n);
    &&& v.len() == ks.len()
    &&& forall|j: int| 0 <= j < v.len() ==> record_decodes(names, s, ks[j], #[trigger] v[j], depth)
}

/// `a` is what the record at `q` decodes to: its name names `a`'s variant,
/// and its body gives `a`'s contents.
pub open spec fn record_decodes(names: Seq<Option<Seq<u8>>>, s: Seq<u8>, q: int, a: AttributeInfo, depth: nat) -> bool
    decreases depth, 1int,
{
    &&& name_at(names, be16(s, q)) is Some
    &&& attribute_named(name_at(names, be16(s, q))->0, a)
    &&& attribute_body(names, a, s.subrange(q + 6, record_end(s, q)), depth)
}

/// What the body `b` of an attribute, read from its start, says of the
/// decoded attribute `a`: every field, and for `Code` each nested attribute.
pub open spec fn attribute_body(names: Seq<Option<Seq<u8>>>, a: AttributeInfo, b: Seq<u8>, depth: nat) -> bool
    decreases depth, 0int,
{
    match a {
        AttributeInfo::BootstrapMethodsAttribute { boostrap_methods } => {
            &&& boostrap_methods@.len() == be16(b, 0)
            &&& forall|k: int| 0 <= k < boostrap_methods@.len() ==> {
                let m = #[trigger] boostrap_methods@[k];
                let p = bootstrap_offset(b, k as nat);
                m.bootstrap_method_ref == be16(b, p) && m.bootstrap_arguments@ == u16_run(b, p + 4, be16(b, p + 2) as nat)
            }
        },
        AttributeInfo::CodeAttribute { max_stacks, max_locals, code_length, code, exception_table, attributes } => {
            let n = be32(b, 4);
            let t = 10 + n;
            let u = t + 8 * exception_table@.len();
            &&& depth > 0
            &&& max_stacks == be16(b, 0)
            &&& max_locals == be16(b, 2)
            &&& code_length == n
            &&& code@ == b.subrange(8, 8 + n)
            &&& exception_table@.len() == be16(b, 8 + n)
            &&& forall|k: int| 0 <= k < exception_table@.len() ==> {
                let e = #[trigger] exception_table@[k];
                let r = row(b, t, 4, k);
                e.start_pc == r[0] && e.end_pc == r[1] && e.handle_pc == r[2] && e.catch_type == r[3]
            }
            &&& list_decodes(names, b, u + 2, be16(b, u) as nat, attributes@, (depth - 1) as nat)
        },
        AttributeInfo::ConstantValueAttribute { value_index } => value_index == be16(b, 0),
        AttributeInfo::EnclosingMethodAttribute { class_index, name_index } =>
            class_index == be16(b, 0) && name_index == be16(b, 2),
        AttributeInfo::ExceptionsAttribute { index_table } => index_table@ == u16_run(b, 2, be16(b, 0) as nat),
        AttributeInfo::InnerClassesAttribute { inner_classes } => {
            &&& inner_classes@.len() == be16(b, 0)
            &&& forall|k: int| 0 <= k < inner_classes@.len() ==> {
                let e = #[trigger] inner_classes@[k];
                let r = row(b, 2, 4, k);
                e.innner_class_index == r[0] && e.outter_class_index == r[1]
                    && e.inner_class_name_index == r[2] && e.inner_class_access_flags == r[3]
            }
        },
        AttributeInfo::LineNumberTableAttribute { line_number_table } => {
            &&& line_number_table@.len() == be16(b, 0)
            &&& forall|k: int| 0 <= k < line_number_table@.len() ==> {
                let e = #[trigger] line_number_table@[k];
                let r = row(b, 2, 2, k);
                e.start_pc == r[0] && e.line_number == r[1]
            }
        },
        AttributeInfo::LocalVariableTableAttribute { local_variable_table } => {
            &&& local_variable_table@.len() == be16(b, 0)
            &&& forall|k: int| 0 <= k < local_variable_table@.len() ==> {
                let e = #[trigger] local_variable_table@[k];
                let r = row(b, 2, 5, k);
                e.start_pc == r[0] && e.length == r[1] && e.name_index == r[2]
                    && e.descriptor_index == r[3] && e.index == r[4]
            }
        },
        AttributeInfo::LocalVariableTypeTableAttribute { local_variable_type_table } => {
            &&& local_variable_type_table@.len() == be16(b, 0)
            &&& forall|k: int| 0 <= k < local_variable_type_table@.len() ==> {
                let e = #[trigger] local_variable_type_table@[k];
                let r = row(b, 2, 5, k);
                e.start_pc == r[0] && e.length == r[1] && e.name_index == r[2]
                    && e.signature_index == r[3] && e.index == r[4]
            }
        },
        AttributeInfo::SignatureAttribute { signature_index } => signature_index == be16(b, 0),
        AttributeInfo::SourceFileAttribute { source_file } => source_file == be16(b, 0),
    }
}

/// Reads `count` rows of `u16` fields, `width` fields to a row.
fn read_rows(reader: &mut Reader, count: u16, width: usize) -> (r: Result<Vec<Vec<u16>>, DecodeError>)
    requires
        1 <= width <= 8,
    ensures
        final(reader).content@ == old(reader).content@,
        r is Ok <==> (count == 0 || old(reader).fits(2 * width * count)),
        r is Err ==> r->Err_0 == DecodeError::TruncatedInput,
        r matches Ok(rows) ==> {
            &&& rows@.len() == count
            &&& forall|i: int| 0 <= i < count ==> (#[trigger] rows@[i])@ == row(old(reader).content@, old(reader).cursor as int, width as int, i)
            &&& final(reader).cursor == old(reader).cursor + 2 * width * count
        },
{
    let ghost s = reader.content@;
    let ghost c = reader.cursor as int;
    let mut rows: Vec<Vec<u16>> = Vec::new();
    let mut i: u16 = 0;
    while i < count
        invariant
            reader.content@ == s,
            s == old(reader).content@,
            c == old(reader).cursor,
            1 <= width <= 8,
            0 <= i <= count,
            rows@.len() == i,
            reader.cursor == c + 2 * width * i,
            i > 0 ==> reader.cursor <= s.len(),
            forall|j: int| 0 <= j < i ==> (#[trigger] rows@[j])@ == row(s, c, width as int, j),
        decreases count - i,
    {
        let ghost base = reader.cursor as int;
        proof {
            assert(c + 2 * width * (i + 1) <= c + 2 * width * count) by (nonlinear_arith)
                requires
                    i < count,
                    width >= 1,
            ;
            assert(base + 2 * width == c + 2 * width * (i + 1)) by (nonlinear_arith)
                requires
                    base == c + 2 * width * i,
            ;
        }
        let mut cells: Vec<u16> = Vec::new();
        let mut k: usize = 0;
        while k < width
            invariant
                reader.content@ == s,
                s == old(reader).content@,
                c == old(reader).cursor,
                base == c + 2 * width * i,
                base + 2 * width <= c + 2 * width * count,
                (i > 0 || k > 0) ==> reader.cursor <= s.len(),
                0 <= k <= width,
                reader.cursor == base + 2 * k,
                cells@ == u16_run(s, base, k as nat),
            decreases width - k,
        {
            let v = match reader.read_u16() {
                Ok(v) => v,
                Err(e) => {
                    return Err(e);
                },
            };
            cells.push(v);
            k = k + 1;
            assert(cells@ =~= u16_run(s, base, k as nat));
        }
        rows.push(cells);
        i = i + 1;
    }
    Ok(rows)
}

/// Reads a table of `u16` rows: its count, then the rows.
fn read_table(body: &mut Reader, width: usize) -> (r: Result<Vec<Vec<u16>>, DecodeError>)
    requires
        old(body).cursor == 0,
        1 <= width <= 8,
    ensures
        r is Ok <==> table_outcome(old(body).content@, width as int) is Ok,
        r is Err ==> r == Err::<Vec<Vec<u16>>, DecodeError>(DecodeError::TruncatedInput),
        r matches Ok(rows) ==> {
            &&& rows@.len() == be16(old(body).content@, 0)
            &&& forall|i: int| 0 <= i < rows@.len() ==> (#[trigger] rows@[i])@ == row(old(body).content@, 2, width as int, i)
        },
{
    let number = body.read_u16()?;
    read_rows(body, number, width)
}

proof fn lemma_bootstrap_error(b: Seq<u8>, p: int, k: nat)
    ensures
        bootstrap_outcome(b, p, k) is Err ==> bootstrap_outcome(b, p, k) == Err::<(), DecodeError>(DecodeError::TruncatedInput),
    decreases k,
{
    if k > 0 {
        lemma_bootstrap_error(b, p + 4 + 2 * be16(b, p + 2), (k - 1) as nat);
    }
}

fn parse_bootstrap_methods(body: &mut Reader) -> (r: Result<AttributeInfo, DecodeError>)
    requires
        old(body).cursor == 0,
    ensures
        r is Ok <==> old(body).content@.len() >= 2 && bootstrap_outcome(old(body).content@, 2, be16(old(body).content@, 0) as nat) is Ok,
        r is Err ==> r->Err_0 == DecodeError::TruncatedInput,
        r matches Ok(a) ==> a is BootstrapMethodsAttribute && attribute_body(Seq::empty(), a, old(body).content@, 0),
{
    let ghost s = body.content@;
    proof {
        lemma_bootstrap_error(s, 2, be16(s, 0) as nat);
    }
    let number = body.read_u16()?;
    let mut boostrap_methods: Vec<BootstrapMethod> = Vec::new();
    let mut i: u16 = 0;
    while i < number
        invariant
            body.content@ == s,
            s == old(body).content@,
            number == be16(s, 0),
            0 <= i <= number,
            boostrap_methods@.len() == i,
            body.cursor == bootstrap_offset(s, i as nat),
            bootstrap_outcome(s, 2, number as nat) == bootstrap_outcome(s, body.cursor as int, (number - i) as nat),
            forall|k: int| 0 <= k < i ==> {
                let m = #[trigger] boostrap_methods@[k];
                let p = bootstrap_offset(s, k as nat);
                m.bootstrap_method_ref == be16(s, p) && m.bootstrap_arguments@ == u16_run(s, p + 4, be16(s, p + 2) as nat)
            },
        decreases number - i,
    {
        let bootstrap_method_ref = body.read_u16()?;
        let bootstrap_arguments = body.read_u16s()?;
        boostrap_methods.push(BootstrapMethod { bootstrap_method_ref, bootstrap_arguments });
        i = i + 1;
    }
    Ok(AttributeInfo::BootstrapMethodsAttribute { boostrap_methods })
}

fn parse_code(body: &mut Reader, pool: &Vec<ConstantInfo>, depth: u32) -> (r: Result<AttributeInfo, DecodeError>)
    requires
        old(body).cursor == 0,
    ensures
        r is Ok <==> code_outcome(utf8_names(pool@), old(body).content@, depth as nat) is Ok,
        r matches Err(e) ==> code_outcome(utf8_names(pool@), old(body).content@, depth as nat) == Err::<(), DecodeError>(e),
        r matches Ok(a) ==> a is CodeAttribute && attribute_body(utf8_names(pool@), a, old(body).content@, depth as nat),
    decreases depth, 0int,
{
    if depth == 0 {
        return Err(DecodeError::NestingTooDeep);
    }
    let ghost s = body.content@;
    let max_stacks = body.read_u16()?;
    let max_locals = body.read_u16()?;
    let code_length = body.read_u32()?;
    let code = body.read_bytes(code_length as usize)?;
    let exception_num = body.read_u16()?;
    let rows = read_rows(body, exception_num, 4)?;
    let mut exception_table: Vec<ExceptionTableEntry> = Vec::new();
    let mut i: usize = 0;
    while i < rows.len()
        invariant
            0 <= i <= rows@.len(),
            exception_table@.len() == i,
            forall|j: int| 0 <= j < rows@.len() ==> (#[trigger] rows@[j])@.len() == 4,
            forall|j: int| 0 <= j < i ==> {
                let e = #[trigger] exception_table@[j];
                let r = rows@[j]@;
                e.start_pc == r[0] && e.end_pc == r[1] && e.handle_pc == r[2] && e.catch_type == r[3]
            },
        decreases rows@.len() - i,
    {
        let r = &rows[i];
        exception_table.push(ExceptionTableEntry { start_pc: r[0], end_pc: r[1], handle_pc: r[2], catch_type: r[3] });
        i = i + 1;
    }
    let attributes = parse_attributes_within(body, pool, depth - 1)?;
    Ok(AttributeInfo::CodeAttribute { max_stacks, max_locals, code_length, code, exception_table, attributes })
}

fn parse_inner_classes(body: &mut Reader) -> (r: Result<AttributeInfo, DecodeError>)
    requires
        old(body).cursor == 0,
    ensures
        r is Ok <==> table_outcome(old(body).content@, 4) is Ok,
        r is Err ==> r->Err_0 == DecodeError::TruncatedInput,
        r matches Ok(a) ==> a is InnerClassesAttribute && attribute_body(Seq::empty(), a, old(body).content@, 0),
{
    let rows = read_table(body, 4)?;
    let mut inner_classes: Vec<InnerClassInfo> = Vec::new();
    let mut i: usize = 0;
    while i < rows.len()
        invariant
            0 <= i <= rows@.len(),
            inner_classes@.len() == i,
            forall|j: int| 0 <= j < rows@.len() ==> (#[trigger] rows@[j])@.len() == 4,
            forall|j: int| 0 <= j < i ==> {
                let e = #[trigger] inner_classes@[j];
                let r = rows@[j]@;
                e.innner_class_index == r[0] && e.outter_class_index == r[1]
                    && e.inner_class_name_index == r[2] && e.inner_class_access_flags == r[3]
            },
        decreases rows@.len() - i,
    {
        let r = &rows[i];
        inner_classes.push(InnerClassInfo {
            innner_class_index: r[0],
            outter_class_index: r[1],
            inner_class_name_index: r[2],
            inner_class_access_flags: r[3],
        });
        i = i + 1;
    }
    Ok(AttributeInfo::InnerClassesAttribute { inner_classes })
}

fn parse_line_numbers(body: &mut Reader) -> (r: Result<AttributeInfo, DecodeError>)
    requires
        old(body).cursor == 0,
    ensures
        r is Ok <==> table_outcome(old(body).content@, 2) is Ok,
        r is Err ==> r->Err_0 == DecodeError::TruncatedInput,
        r matches Ok(a) ==> a is LineNumberTableAttribute && attribute_body(Seq::empty(), a, old(body).content@, 0),
{
    let rows = read_table(body, 2)?;
    let mut line_number_table: Vec<LineNumberEntry> = Vec::new();
    let mut i: usize = 0;
    while i < rows.len()
        invariant
            0 <= i <= rows@.len(),
            line_number_table@.len() == i,
            forall|j: int| 0 <= j < rows@.len() ==> (#[trigger] rows@[j])@.len() == 2,
            forall|j: int| 0 <= j < i ==> {
                let e = #[trigger] line_number_table@[j];
                let r = rows@[j]@;
                e.start_pc == r[0] && e.line_number == r[1]
            },
        decreases rows@.len() - i,
    {
        let r = &rows[i];
        line_number_table.push(LineNumberEntry { start_pc: r[0], line_number: r[1] });
        i = i + 1;
    }
    Ok(AttributeInfo::LineNumberTableAttribute { line_number_table })
}

fn parse_local_variables(body: &mut Reader, with_types: bool) -> (r: Result<AttributeInfo, DecodeError>)
    requires
        old(body).cursor == 0,
    ensures
        r is Ok <==> table_outcome(old(body).content@, 5) is Ok,
        r is Err ==> r->Err_0 == DecodeError::TruncatedInput,
        r matches Ok(a) ==> (if with_types { a is LocalVariableTypeTableAttribute } else { a is LocalVariableTableAttribute })
            && attribute_body(Seq::empty(), a, old(body).content@, 0),
{
    let rows = read_table(body, 5)?;
    let mut local_variable_table: Vec<LocalVariableTableEntry> = Vec::new();
    let mut local_variable_type_table: Vec<LocalVariablTypeEntry> = Vec::new();
    let mut i: usize = 0;
    while i < rows.len()
        invariant
            0 <= i <= rows@.len(),
            local_variable_table@.len() == i,
            local_variable_type_table@.len() == i,
            forall|j: int| 0 <= j < rows@.len() ==> (#[trigger] rows@[j])@.len() == 5,
            forall|j: int| 0 <= j < i ==> {
                let e = #[trigger] local_variable_table@[j];
                let r = rows@[j]@;
                e.start_pc == r[0] && e.length == r[1] && e.name_index == r[2]
                    && e.descriptor_index == r[3] && e.index == r[4]
            },
            forall|j: int| 0 <= j < i ==> {
                let e = #[trigger] local_variable_type_table@[j];
                let r = rows@[j]@;
                e.start_pc == r[0] && e.length == r[1] && e.name_index == r[2]
                    && e.signature_index == r[3] && e.index == r[4]
            },
        decreases rows@.len() - i,
    {
        let r = &rows[i];
        local_variable_table.push(LocalVariableTableEntry {
            start_pc: r[0],
            length: r[1],
            name_index: r[2],
            descriptor_index: r[3],
            index: r[4],
        });
        local_variable_type_table.push(LocalVariablTypeEntry {
            start_pc: r[0],
            length: r[1],
            name_index: r[2],
            signature_index: r[3],
            index: r[4],
        });
        i = i + 1;
    }
    if with_types {
        Ok(AttributeInfo::LocalVariableTypeTableAttribute { local_variable_type_table })
    } else {
        Ok(AttributeInfo::LocalVariableTableAttribute { local_variable_table })
    }
}

/// Decodes the body of a known attribute, read from its own bytes.
fn parse_body(body: &mut Reader, name: &Vec<u8>, pool: &Vec<ConstantInfo>, depth: u32) -> (r: Result<AttributeInfo, DecodeError>)
    requires
        old(body).cursor == 0,
        known_attribute(name@),
    ensures
        r is Ok <==> body_outcome(utf8_names(pool@), old(body).content@, name@, depth as nat) is Ok,
        r matches Err(e) ==> body_outcome(utf8_names(pool@), old(body).content@, name@, depth as nat) == Err::<(), DecodeError>(e),
        r matches Ok(a) ==> attribute_named(name@, a) && attribute_body(utf8_names(pool@), a, old(body).content@, depth as nat),
    decreases depth, 1int,
{
    proof {
        lemma_bootstrap_error(body.content@, 2, be16(body.content@, 0) as nat);
    }
    if name_is(name, "BootstrapMethods") {
        parse_bootstrap_methods(body)
    } else if name_is(name, "Code") {
        parse_code(body, pool, depth)
    } else if name_is(name, "EnclosingMethod") {
        let class_index = body.read_u16()?;
        let name_index = body.read_u16()?;
        Ok(AttributeInfo::EnclosingMethodAttribute { class_index, name_index })
    } else if name_is(name, "Exceptions") {
        Ok(AttributeInfo::ExceptionsAttribute { index_table: body.read_u16s()? })
    } else if name_is(name, "InnerClasses") {
        parse_inner_classes(body)
    } else if name_is(name, "LineNumberTable") {
        parse_line_numbers(body)
    } else if name_is(name, "LocalVariableTable") {
        parse_local_variables(body, false)
    } else if name_is(name, "LocalVariableTypeTable") {
        parse_local_variables(body, true)
    } else if name_is(name, "ConstantValue") {
        Ok(AttributeInfo::ConstantValueAttribute { value_index: body.read_u16()? })
    } else if name_is(name, "Signature") {
        Ok(AttributeInfo::SignatureAttribute { signature_index: body.read_u16()? })
    } else {
        Ok(AttributeInfo::SourceFileAttribute { source_file: body.read_u16()? })
    }
}

/// Decodes one attribute record at the reader's cursor. The record always
/// takes exactly its 6 header bytes plus its declared length, whatever its
/// name; a record with a name this decoder does not know gives `None`, and
/// its body is never read.
pub fn parse_attribute(reader: &mut Reader, constant_pool: &Vec<ConstantInfo>, depth: u32) -> (r: Result<Option<AttributeInfo>, DecodeError>)
    ensures
        final(reader).content@ == old(reader).content@,
        ({
            let s = old(reader).content@;
            let pos = old(reader).cursor as int;
            let e = record_outcome(utf8_names(constant_pool@), s, pos, depth as nat);
            &&& r is Ok <==> e is Ok
            &&& r matches Err(err) ==> e == Err::<(), DecodeError>(err)
            &&& r matches Ok(x) ==> {
                &&& final(reader).cursor == record_end(s, pos)
                &&& (x is None <==> !record_known(utf8_names(constant_pool@), s, pos))
                &&& (x matches Some(a) ==> record_decodes(utf8_names(constant_pool@), s, pos, a, depth as nat))
            }
        }),
    decreases depth, 2int,
{
    let name_index = reader.read_u16()?;
    let length = match reader.read_u32() {
        Ok(v) => v,
        Err(e) => {
            return Err(e);
        },
    };
    let name = match get_utf8(constant_pool, name_index) {
        Some(n) => n,
        None => {
            return Err(DecodeError::UnresolvedPoolReference(name_index));
        },
    };
    let bytes = reader.read_bytes(length as usize)?;
    if !is_known(&name) {
        return Ok(None);
    }
    let mut body = Reader::new(bytes);
    let a = parse_body(&mut body, &name, constant_pool, depth)?;
    Ok(Some(a))
}

/// Whether `name` is one of the attribute names this decoder knows.
fn is_known(name: &Vec<u8>) -> (r: bool)
    ensures
        r == known_attribute(name@),
{
    name_is(name, "BootstrapMethods") || name_is(name, "Code") || name_is(name, "ConstantValue")
        || name_is(name, "EnclosingMethod") || name_is(name, "Exceptions") || name_is(name, "InnerClasses")
        || name_is(name, "LineNumberTable") || name_is(name, "LocalVariableTable")
        || name_is(name, "LocalVariableTypeTable") || name_is(name, "Signature") || name_is(name, "SourceFile")
}

/// A list of one attribute record whose name resolves to a name this decoder
/// does not know, and whose body lies within the input, decodes to an empty
/// list, and the cursor moves past the count and then by 6 + length bytes,
/// whatever the body holds.
pub proof fn lemma_unknown_attribute_skipped(names: Seq<Option<Seq<u8>>>, s: Seq<u8>, pos: int, depth: nat)
    requires
        0 <= pos,
        pos + 8 <= s.len(),
        be16(s, pos) == 1,
        name_at(names, be16(s, pos + 2)) is Some,
        !known_attribute(name_at(names, be16(s, pos + 2))->0),
        record_end(s, pos + 2) <= s.len(),
    ensures
        list_outcome(names, s, pos, depth) == Ok::<(), DecodeError>(()),
        known_records(names, s, pos + 2, 1) == Seq::<int>::empty(),
        records_end(s, pos + 2, 1) == pos + 2 + 6 + be32(s, pos + 4),
{
    assert(records_outcome(names, s, pos + 2, 1, depth) == records_outcome(names, s, record_end(s, pos + 2), 0, depth));
    assert(known_records(names, s, pos + 2, 0) == Seq::<int>::empty());
    assert(records_end(s, pos + 2, 0) == pos + 2);
    assert(records_end(s, pos + 2, 1) == records_end(s, record_end(s, pos + 2), 0));
}

/// At most `n` of `n` records have names this decoder knows.
pub proof fn lemma_known_records_len(names: Seq<Option<Seq<u8>>>, s: Seq<u8>, pos: int, n: nat)
    ensures
        known_records(names, s, pos, n).len() <= n,
    decreases n,
{
    if n > 0 {
        lemma_known_records_len(names, s, pos, (n - 1) as nat);
    }
}

/// Decodes an attribute count and then that many records, where `Code`
/// attributes may hold at most `depth` further levels of nesting. It succeeds
/// exactly when `list_outcome` does, and fails with the error it names.
pub fn parse_attributes_within(reader: &mut Reader, constant_pool: &Vec<ConstantInfo>, depth: u32) -> (r: Result<Vec<AttributeInfo>, DecodeError>)
    ensures
        final(reader).content@ == old(reader).content@,
        ({
            let s = old(reader).content@;
            let pos = old(reader).cursor as int;
            let e = list_outcome(utf8_names(constant_pool@), s, pos, depth as nat);
            &&& r is Ok <==> e is Ok
            &&& r matches Err(err) ==> e == Err::<(), DecodeError>(err)
            &&& r matches Ok(v) ==> {
                &&& list_decodes(utf8_names(constant_pool@), s, pos + 2, be16(s, pos) as nat, v@, depth as nat)
                &&& final(reader).cursor == records_end(s, pos + 2, be16(s, pos) as nat)
            }
        }),
    decreases depth, 3int,
{
    let ghost s = reader.content@;
    let attributes_count = reader.read_u16()?;
    let ghost start = reader.cursor as int;
    let mut result: Vec<AttributeInfo> = Vec::new();
    let mut i: u16 = 0;
    while i < attributes_count
        invariant
            reader.content@ == s,
            s == old(reader).content@,
            start == old(reader).cursor + 2,
            attributes_count as int == be16(s, start - 2),
            0 <= i <= attributes_count,
            reader.cursor == records_end(s, start, i as nat),
            records_outcome(utf8_names(constant_pool@), s, start, attributes_count as nat, depth as nat)
                == records_outcome(utf8_names(constant_pool@), s, reader.cursor as int, (attributes_count - i) as nat, depth as nat),
            result@.len() == known_records(utf8_names(constant_pool@), s, start, i as nat).len(),
            forall|j: int| 0 <= j < result@.len()
                ==> record_decodes(utf8_names(constant_pool@), s, known_records(utf8_names(constant_pool@), s, start, i as nat)[j], #[trigger] result@[j], depth as nat),
        decreases attributes_count - i,
    {
        proof {
            lemma_records_end_step(s, start, i as nat);
        }
        let ghost q = reader.cursor as int;
        let item = match parse_attribute(reader, constant_pool, depth) {
            Ok(x) => x,
            Err(e) => {
                return Err(e);
            },
        };
        let ghost before = result@;
        match item {
            Some(a) => result.push(a),
            None => {},
        }
        proof {
            let ks = known_records(utf8_names(constant_pool@), s, start, (i + 1) as nat);
            assert(ks == if record_known(utf8_names(constant_pool@), s, q) {
                known_records(utf8_names(constant_pool@), s, start, i as nat).push(q)
            } else {
                known_records(utf8_names(constant_pool@), s, start, i as nat)
            });
            assert forall|j: int| 0 <= j < result@.len() implies record_decodes(utf8_names(constant_pool@), s, ks[j], #[trigger] result@[j], depth as nat) by {
                if j < before.len() {
                    assert(result@[j] == before[j]);
                }
            }
        }
        i = i + 1;
    }
    Ok(result)
}

/// Decodes an attribute count and then that many records.
pub fn parse_attributes(reader: &mut Reader, constant_pool: &Vec<ConstantInfo>) -> (r: Result<Vec<AttributeInfo>, DecodeError>)
    ensures
        final(reader).content@ == old(reader).content@,
        ({
            let s = old(reader).content@;
            let pos = old(reader).cursor as int;
            let e = list_outcome(utf8_names(constant_pool@), s, pos, MAX_NESTING as nat);
            &&& r is Ok <==> e is Ok
            &&& r matches Err(err) ==> e == Err::<(), DecodeError>(err)
            &&& r matches Ok(v) ==> {
                &&& list_decodes(utf8_names(constant_pool@), s, pos + 2, be16(s, pos) as nat, v@, MAX_NESTING as nat)
                &&& final(reader).cursor == records_end(s, pos + 2, be16(s, pos) as nat)
            }
        }),
{
    parse_attributes_within(reader, constant_pool, MAX_NESTING)
}

} // verus!
