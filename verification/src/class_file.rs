//! The class-file decoder: header, constant pool, access flags, this and
//! super class, interfaces, fields and methods, with the `Code` attribute of
//! each method decoded into instructions.

use vstd::prelude::*;
use vstd::string::StrSliceExecFns;
use crate::blob::{be16, be32, in_bounds, Blob};
use crate::bytecode::ByteCode;
use crate::constant_pool::{
    all_resolvable, class_name_at, parse_pool, pool_of, raw_pool_spec, raw_view, utf8_at,
    ConstantPool, RawConstant, RawView,
};
use crate::decoder::{decode_spec, ByteCodeView, Pool};
use crate::errors::DecodeError;
use crate::java_class::{BytecodeClass, Method, StaticField};
use crate::jvm::{Value, ValueView};

verus! {

/// The four bytes that every class file starts with.
pub const MAGIC: u32 = 0xCAFE_BABE;

/// `front` put in front of the items that follow.
pub open spec fn seq_then<T>(front: Seq<T>, rest: Result<(Seq<T>, int), DecodeError>) -> Result<
    (Seq<T>, int),
    DecodeError,
> {
    match rest {
        Ok((rest, end)) => Ok((front + rest, end)),
        Err(e) => Err(e),
    }
}

/// The offset after `n` attributes that start at byte `at`. Each attribute is
/// a name index, a 32-bit length and that many bytes.
pub open spec fn attributes_end(bytes: Seq<u8>, at: int, n: int) -> Result<int, DecodeError>
    decreases n,
{
    if n <= 0 {
        Ok(at)
    } else if !in_bounds(bytes, at, 6) {
        Err(DecodeError::Truncated)
    } else if !in_bounds(bytes, at + 6, be32(bytes, at + 2)) {
        Err(DecodeError::Truncated)
    } else {
        attributes_end(bytes, at + 6 + be32(bytes, at + 2), n - 1)
    }
}

/// A field as the class file declares it.
pub struct FieldInfo {
    pub access_flags: u16,
    pub name: String,
    pub type_desc: String,
}

pub struct FieldView {
    pub access_flags: u16,
    pub name: Seq<char>,
    pub type_desc: Seq<char>,
}

impl View for FieldInfo {
    type V = FieldView;

    open spec fn view(&self) -> FieldView {
        FieldView {
            access_flags: self.access_flags,
            name: self.name@,
            type_desc: self.type_desc@,
        }
    }
}

/// The field that starts at byte `at`, and the offset after it.
pub open spec fn field_spec(bytes: Seq<u8>, at: int, pool: Seq<RawView>) -> Result<
    (FieldView, int),
    DecodeError,
> {
    if !in_bounds(bytes, at, 8) {
        Err(DecodeError::Truncated)
    } else {
        match (utf8_at(pool, be16(bytes, at + 2)), utf8_at(pool, be16(bytes, at + 4))) {
            (Some(name), Some(type_desc)) => match attributes_end(
                bytes,
                at + 8,
                be16(bytes, at + 6),
            ) {
                Err(e) => Err(e),
                Ok(end) => Ok(
                    (FieldView { access_flags: be16(bytes, at) as u16, name, type_desc }, end),
                ),
            },
            _ => Err(DecodeError::UnresolvedReference),
        }
    }
}

/// The `n` fields that start at byte `at`, and the offset after them.
pub open spec fn fields_spec(bytes: Seq<u8>, at: int, n: int, pool: Seq<RawView>) -> Result<
    (Seq<FieldView>, int),
    DecodeError,
>
    decreases n,
{
    if n <= 0 {
        Ok((Seq::empty(), at))
    } else {
        match field_spec(bytes, at, pool) {
            Err(e) => Err(e),
            Ok((field, next)) => seq_then(seq![field], fields_spec(bytes, next, n - 1, pool)),
        }
    }
}

/// Whether the access flags say `static`.
pub open spec fn is_static(access_flags: u16) -> bool {
    (access_flags / 8) % 2 == 1
}

/// The value that a field of the given type holds before it is written.
pub open spec fn default_value(type_desc: Seq<char>) -> ValueView {
    if type_desc.len() == 0 {
        ValueView::Null
    } else if type_desc[0] == 'I' || type_desc[0] == 'B' || type_desc[0] == 'S' || type_desc[0]
        == 'C' {
        ValueView::Integer(0)
    } else if type_desc[0] == 'Z' {
        ValueView::Bool(false)
    } else if type_desc[0] == 'J' {
        ValueView::Long(0)
    } else if type_desc[0] == 'F' {
        ValueView::Float(0)
    } else if type_desc[0] == 'D' {
        ValueView::Double(0)
    } else {
        ValueView::Null
    }
}

/// The static fields among `fields`, each with the default value of its
/// type, in the order of the file.
pub open spec fn statics_of(fields: Seq<FieldView>) -> Seq<(Seq<char>, ValueView)>
    decreases fields.len(),
{
    if fields.len() == 0 {
        Seq::empty()
    } else if is_static(fields.last().access_flags) {
        statics_of(fields.drop_last()).push(
            (fields.last().name, default_value(fields.last().type_desc)),
        )
    } else {
        statics_of(fields.drop_last())
    }
}

/// The names of the instance fields among `fields`, in the order of the file.
pub open spec fn instance_fields_of(fields: Seq<FieldView>) -> Seq<Seq<char>>
    decreases fields.len(),
{
    if fields.len() == 0 {
        Seq::empty()
    } else if is_static(fields.last().access_flags) {
        instance_fields_of(fields.drop_last())
    } else {
        instance_fields_of(fields.drop_last()).push(fields.last().name)
    }
}

/// The content of a `Code` attribute that the decoder reads.
pub struct CodeView {
    pub max_stack: u16,
    pub max_locals: u16,
    pub code: Seq<u8>,
}

/// The first `Code` attribute among the `n` attributes that start at byte
/// `at`, if there is one, and the offset after the `n` attributes.
pub open spec fn code_spec(bytes: Seq<u8>, at: int, n: int, pool: Seq<RawView>) -> Result<
    (Option<CodeView>, int),
    DecodeError,
>
    decreases n,
{
    if n <= 0 {
        Ok((None, at))
    } else if !in_bounds(bytes, at, 6) {
        Err(DecodeError::Truncated)
    } else if !in_bounds(bytes, at + 6, be32(bytes, at + 2)) {
        Err(DecodeError::Truncated)
    } else if utf8_at(pool, be16(bytes, at)) == Some("Code"@) {
        if be32(bytes, at + 2) < 8 || be32(bytes, at + 2) - 8 < be32(bytes, at + 10) {
            Err(DecodeError::Truncated)
        } else {
            match attributes_end(bytes, at + 6 + be32(bytes, at + 2), n - 1) {
                Err(e) => Err(e),
                Ok(end) => Ok(
                    (
                        Some(
                            CodeView {
                                max_stack: be16(bytes, at + 6) as u16,
                                max_locals: be16(bytes, at + 8) as u16,
                                code: bytes.subrange(at + 14, at + 14 + be32(bytes, at + 10)),
                            },
                        ),
                        end,
                    ),
                ),
            }
        }
    } else {
        code_spec(bytes, at + 6 + be32(bytes, at + 2), n - 1, pool)
    }
}

/// A method as its contracts see it.
pub struct MethodView {
    pub name: Seq<char>,
    pub type_desc: Seq<char>,
    pub max_stack: u16,
    pub max_locals: u16,
    pub code: ByteCodeView,
}

impl View for Method {
    type V = MethodView;

    open spec fn view(&self) -> MethodView {
        MethodView {
            name: self.name@,
            type_desc: self.type_desc@,
            max_stack: self.max_stack,
            max_locals: self.max_locals,
            code: self.code@,
        }
    }
}

/// The method that starts at byte `at`, and the offset after it. Names come
/// from the entries `pool`; the operands of the instructions come from
/// `operands`. A method without a `Code` attribute has no instructions.
pub open spec fn method_spec(bytes: Seq<u8>, at: int, pool: Seq<RawView>, operands: Pool) -> Result<
    (MethodView, int),
    DecodeError,
> {
    if !in_bounds(bytes, at, 8) {
        Err(DecodeError::Truncated)
    } else {
        match (utf8_at(pool, be16(bytes, at + 2)), utf8_at(pool, be16(bytes, at + 4))) {
            (Some(name), Some(type_desc)) => match code_spec(
                bytes,
                at + 8,
                be16(bytes, at + 6),
                pool,
            ) {
                Err(e) => Err(e),
                Ok((None, end)) => match decode_spec(Seq::empty(), operands) {
                    Err(e) => Err(e),
                    Ok(code) => Ok(
                        (MethodView { name, type_desc, max_stack: 0, max_locals: 0, code }, end),
                    ),
                },
                Ok((Some(found), end)) => match decode_spec(found.code, operands) {
                    Err(e) => Err(e),
                    Ok(code) => Ok(
                        (
                            MethodView {
                                name,
                                type_desc,
                                max_stack: found.max_stack,
                                max_locals: found.max_locals,
                                code,
                            },
                            end,
                        ),
                    ),
                },
            },
            _ => Err(DecodeError::UnresolvedReference),
        }
    }
}

/// The `n` methods that start at byte `at`, and the offset after them.
pub open spec fn methods_spec(
    bytes: Seq<u8>,
    at: int,
    n: int,
    pool: Seq<RawView>,
    operands: Pool,
) -> Result<(Seq<MethodView>, int), DecodeError>
    decreases n,
{
    if n <= 0 {
        Ok((Seq::empty(), at))
    } else {
        match method_spec(bytes, at, pool, operands) {
            Err(e) => Err(e),
            Ok((method, next)) => seq_then(
                seq![method],
                methods_spec(bytes, next, n - 1, pool, operands),
            ),
        }
    }
}

/// The names of the `n` interfaces whose class indices start at byte `at`,
/// and the offset after them.
pub open spec fn interfaces_spec(bytes: Seq<u8>, at: int, n: int, pool: Seq<RawView>) -> Result<
    (Seq<Seq<char>>, int),
    DecodeError,
>
    decreases n,
{
    if n <= 0 {
        Ok((Seq::empty(), at))
    } else if !in_bounds(bytes, at, 2) {
        Err(DecodeError::Truncated)
    } else {
        match class_name_at(pool, be16(bytes, at)) {
            None => Err(DecodeError::UnresolvedReference),
            Some(name) => seq_then(seq![name], interfaces_spec(bytes, at + 2, n - 1, pool)),
        }
    }
}

/// The name of the super class: index 0 stands for none, which is the empty
/// name.
pub open spec fn super_name_at(pool: Seq<RawView>, index: int) -> Option<Seq<char>> {
    if index == 0 {
        Some(Seq::empty())
    } else {
        class_name_at(pool, index)
    }
}

/// A compiled class as its contracts see it.
pub struct ClassView {
    pub name: Seq<char>,
    pub super_name: Seq<char>,
    pub interfaces: Seq<Seq<char>>,
    pub static_fields: Seq<(Seq<char>, ValueView)>,
    pub fields: Seq<Seq<char>>,
    pub methods: Seq<MethodView>,
}

impl View for BytecodeClass {
    type V = ClassView;

    open spec fn view(&self) -> ClassView {
        ClassView {
            name: self.name@,
            super_name: self.super_name@,
            interfaces: self.interfaces@.map_values(|n: String| n@),
            static_fields: self.static_fields@.map_values(|f: StaticField| (f.name@, f.value@)),
            fields: self.fields@.map_values(|n: String| n@),
            methods: self.methods@.map_values(|m: Method| m@),
        }
    }
}

/// What follows the constant pool `pool` in a class file, from byte `at` on:
/// access flags, this class, super class, interfaces, fields and methods.
/// The operands of the instructions come from `operands`.
pub open spec fn class_body_spec(
    bytes: Seq<u8>,
    at: int,
    pool: Seq<RawView>,
    operands: Pool,
) -> Result<ClassView, DecodeError> {
    if !in_bounds(bytes, at, 8) {
        Err(DecodeError::Truncated)
    } else {
        match (
            class_name_at(pool, be16(bytes, at + 2)),
            super_name_at(pool, be16(bytes, at + 4)),
        ) {
            (Some(name), Some(super_name)) => match interfaces_spec(
                bytes,
                at + 8,
                be16(bytes, at + 6),
                pool,
            ) {
                Err(e) => Err(e),
                Ok((interfaces, fields_at)) => if !in_bounds(bytes, fields_at, 2) {
                    Err(DecodeError::Truncated)
                } else {
                    match fields_spec(bytes, fields_at + 2, be16(bytes, fields_at), pool) {
                        Err(e) => Err(e),
                        Ok((fields, methods_at)) => if !in_bounds(bytes, methods_at, 2) {
                            Err(DecodeError::Truncated)
                        } else {
                            match methods_spec(
                                bytes,
                                methods_at + 2,
                                be16(bytes, methods_at),
                                pool,
                                operands,
                            ) {
                                Err(e) => Err(e),
                                Ok((methods, _)) => Ok(
                                    ClassView {
                                        name,
                                        super_name,
                                        interfaces,
                                        static_fields: statics_of(fields),
                                        fields: instance_fields_of(fields),
                                        methods,
                                    },
                                ),
                            }
                        },
                    }
                },
            },
            _ => Err(DecodeError::UnresolvedReference),
        }
    }
}

/// The class that a class file holds.
pub open spec fn class_spec(bytes: Seq<u8>) -> Result<ClassView, DecodeError> {
    if !in_bounds(bytes, 0, 4) {
        Err(DecodeError::Truncated)
    } else if be32(bytes, 0) != MAGIC {
        Err(DecodeError::BadMagic)
    } else if !in_bounds(bytes, 4, 6) {
        Err(DecodeError::Truncated)
    } else {
        match raw_pool_spec(bytes, 10, be16(bytes, 8)) {
            Err(e) => Err(e),
            Ok((pool, at)) => if !all_resolvable(pool) {
                Err(DecodeError::UnresolvedReference)
            } else {
                class_body_spec(bytes, at, pool, pool_of(pool))
            },
        }
    }
}

/// Moves the cursor past `n` attributes.
pub fn skip_attributes(data: &mut Blob, n: usize) -> (r: Result<(), DecodeError>)
    ensures
        final(data)@.bytes == old(data)@.bytes,
        match r {
            Ok(()) => attributes_end(old(data)@.bytes, old(data)@.offset, n as int) == Ok::<
                int,
                DecodeError,
            >(final(data)@.offset),
            Err(e) => attributes_end(old(data)@.bytes, old(data)@.offset, n as int) == Err::<
                int,
                DecodeError,
            >(e),
        },
{
    let mut i: usize = 0;
    while i < n
        invariant
            i <= n,
            data@.bytes == old(data)@.bytes,
            attributes_end(old(data)@.bytes, old(data)@.offset, n as int) == attributes_end(
                data@.bytes,
                data@.offset,
                n - i,
            ),
        decreases n - i,
    {
        if !data.has(6) {
            return Err(DecodeError::Truncated);
        }
        let _name: usize = data.get_u16size()?;
        let len: u32 = data.get_u32()?;
        data.skip(len as usize)?;
        i += 1;
    }
    Ok(())
}

/// Reads one field.
pub fn parse_field(data: &mut Blob, entries: &Vec<RawConstant>) -> (r: Result<
    FieldInfo,
    DecodeError,
>)
    ensures
        final(data)@.bytes == old(data)@.bytes,
        match r {
            Ok(field) => field_spec(old(data)@.bytes, old(data)@.offset, raw_view(entries@))
                == Ok::<(FieldView, int), DecodeError>((field@, final(data)@.offset)),
            Err(e) => field_spec(old(data)@.bytes, old(data)@.offset, raw_view(entries@)) == Err::<
                (FieldView, int),
                DecodeError,
            >(e),
        },
{
    if !data.has(8) {
        return Err(DecodeError::Truncated);
    }
    let access_flags: u16 = data.get_u16()?;
    let name_index: usize = data.get_u16size()?;
    let type_index: usize = data.get_u16size()?;
    let attributes: usize = data.get_u16size()?;
    let name = match crate::constant_pool::text_at(entries, name_index) {
        Some(name) => name,
        None => return Err(DecodeError::UnresolvedReference),
    };
    let type_desc = match crate::constant_pool::text_at(entries, type_index) {
        Some(type_desc) => type_desc,
        None => return Err(DecodeError::UnresolvedReference),
    };
    skip_attributes(data, attributes)?;
    Ok(FieldInfo { access_flags, name, type_desc })
}

/// The views of a sequence of fields, one by one.
pub open spec fn fields_view(fields: Seq<FieldInfo>) -> Seq<FieldView> {
    fields.map_values(|f: FieldInfo| f@)
}

/// Reads `n` fields.
pub fn parse_fields(data: &mut Blob, n: usize, entries: &Vec<RawConstant>) -> (r: Result<
    Vec<FieldInfo>,
    DecodeError,
>)
    ensures
        final(data)@.bytes == old(data)@.bytes,
        match r {
            Ok(fields) => fields_spec(
                old(data)@.bytes,
                old(data)@.offset,
                n as int,
                raw_view(entries@),
            ) == Ok::<(Seq<FieldView>, int), DecodeError>(
                (fields_view(fields@), final(data)@.offset),
            ),
            Err(e) => fields_spec(
                old(data)@.bytes,
                old(data)@.offset,
                n as int,
                raw_view(entries@),
            ) == Err::<(Seq<FieldView>, int), DecodeError>(e),
        },
{
    let ghost bytes = data@.bytes;
    let ghost pool = raw_view(entries@);
    let ghost whole = fields_spec(bytes, data@.offset, n as int, pool);
    let mut fields: Vec<FieldInfo> = Vec::new();
    let mut i: usize = 0;
    assert(fields_view(fields@) =~= Seq::<FieldView>::empty());
    assert(seq_then(fields_view(fields@), whole) == whole) by {
        if whole is Ok {
            assert(fields_view(fields@) + whole->Ok_0.0 =~= whole->Ok_0.0);
        }
    }
    while i < n
        invariant
            i <= n,
            data@.bytes == bytes,
            bytes == old(data)@.bytes,
            pool == raw_view(entries@),
            whole == fields_spec(old(data)@.bytes, old(data)@.offset, n as int, pool),
            whole == seq_then(
                fields_view(fields@),
                fields_spec(bytes, data@.offset, n - i, pool),
            ),
        decreases n - i,
    {
        let ghost before = fields_view(fields@);
        let field = match parse_field(data, entries) {
            Ok(field) => field,
            Err(e) => return Err(e),
        };
        let ghost added = field@;
        fields.push(field);
        i += 1;
        proof {
            let rest = fields_spec(bytes, data@.offset, n - i, pool);
            assert(fields_view(fields@) =~= before.push(added));
            if rest is Ok {
                assert(before + (seq![added] + rest->Ok_0.0) =~= fields_view(fields@)
                    + rest->Ok_0.0);
            }
        }
    }
    assert(fields_view(fields@) + Seq::<FieldView>::empty() =~= fields_view(fields@));
    Ok(fields)
}

/// The value that a field of the given type holds before it is written.
pub fn default_for(type_desc: &str) -> (value: Value)
    ensures
        value@ == default_value(type_desc@),
{
    if type_desc.unicode_len() == 0 {
        return Value::Null;
    }
    let c = type_desc.get_char(0);
    if c == 'I' || c == 'B' || c == 'S' || c == 'C' {
        Value::Integer(0)
    } else if c == 'Z' {
        Value::Bool(false)
    } else if c == 'J' {
        Value::Long(0)
    } else if c == 'F' {
        Value::Float(0)
    } else if c == 'D' {
        Value::Double(0)
    } else {
        Value::Null
    }
}

/// Splits the fields of a class into its static fields, each with the
/// default value of its type, and the names of its instance fields.
pub fn split_fields(fields: &Vec<FieldInfo>) -> (r: (Vec<StaticField>, Vec<String>))
    ensures
        r.0@.map_values(|f: StaticField| (f.name@, f.value@)) == statics_of(fields_view(fields@)),
        r.1@.map_values(|n: String| n@) == instance_fields_of(fields_view(fields@)),
{
    let mut statics: Vec<StaticField> = Vec::new();
    let mut names: Vec<String> = Vec::new();
    let mut i: usize = 0;
    let ghost all = fields_view(fields@);
    assert(statics@.map_values(|f: StaticField| (f.name@, f.value@)) =~= statics_of(all.take(0)));
    assert(names@.map_values(|n: String| n@) =~= instance_fields_of(all.take(0)));
    while i < fields.len()
        invariant
            i <= fields.len(),
            all == fields_view(fields@),
            statics@.map_values(|f: StaticField| (f.name@, f.value@)) == statics_of(
                all.take(i as int),
            ),
            names@.map_values(|n: String| n@) == instance_fields_of(all.take(i as int)),
        decreases fields.len() - i,
    {
        let field = &fields[i];
        let ghost statics_before = statics@.map_values(|f: StaticField| (f.name@, f.value@));
        let ghost names_before = names@.map_values(|n: String| n@);
        proof {
            assert(all.take(i + 1).drop_last() =~= all.take(i as int));
            assert(all.take(i + 1).last() == field@);
        }
        if (field.access_flags / 8) % 2 == 1 {
            statics.push(
                StaticField { name: field.name.clone(), value: default_for(field.type_desc.as_str()) },
            );
            assert(statics@.map_values(|f: StaticField| (f.name@, f.value@))
                =~= statics_before.push((field@.name, default_value(field@.type_desc))));
        } else {
            names.push(field.name.clone());
            assert(names@.map_values(|n: String| n@) =~= names_before.push(field@.name));
        }
        i += 1;
    }
    assert(all.take(i as int) =~= all);
    (statics, names)
}

/// What the decoder keeps of a `Code` attribute: the limits and the code
/// stream.
pub struct CodeAttribute {
    pub max_stack: u16,
    pub max_locals: u16,
    pub code: Blob,
}

/// Whether `found` is what `view` says.
pub open spec fn code_matches(found: Option<CodeAttribute>, view: Option<CodeView>) -> bool {
    match (found, view) {
        (None, None) => true,
        (Some(f), Some(v)) => f.max_stack == v.max_stack && f.max_locals == v.max_locals
            && f.code@.bytes == v.code && f.code@.offset == 0,
        _ => false,
    }
}

/// What is left to read after `found` was or was not found: the rest of the
/// attributes are skipped, or searched for the `Code` attribute.
pub open spec fn code_search(
    found: Option<CodeView>,
    bytes: Seq<u8>,
    at: int,
    n: int,
    pool: Seq<RawView>,
) -> Result<(Option<CodeView>, int), DecodeError> {
    match found {
        None => code_spec(bytes, at, n, pool),
        Some(view) => match attributes_end(bytes, at, n) {
            Ok(end) => Ok((Some(view), end)),
            Err(e) => Err(e),
        },
    }
}

/// Reads `n` attributes of a method and returns the first `Code` attribute
/// among them.
pub fn parse_code(data: &mut Blob, n: usize, entries: &Vec<RawConstant>) -> (r: Result<
    Option<CodeAttribute>,
    DecodeError,
>)
    ensures
        final(data)@.bytes == old(data)@.bytes,
        match r {
            Ok(found) => code_spec(old(data)@.bytes, old(data)@.offset, n as int, raw_view(entries@))
                matches Ok((view, end)) && end == final(data)@.offset && code_matches(found, view),
            Err(e) => code_spec(
                old(data)@.bytes,
                old(data)@.offset,
                n as int,
                raw_view(entries@),
            ) == Err::<(Option<CodeView>, int), DecodeError>(e),
        },
{
    let ghost bytes = data@.bytes;
    let ghost pool = raw_view(entries@);
    let ghost whole = code_spec(bytes, data@.offset, n as int, pool);
    let mut found: Option<CodeAttribute> = None;
    let ghost mut found_view: Option<CodeView> = None;
    let mut i: usize = 0;
    while i < n
        invariant
            i <= n,
            data@.bytes == bytes,
            bytes == old(data)@.bytes,
            pool == raw_view(entries@),
            whole == code_spec(old(data)@.bytes, old(data)@.offset, n as int, pool),
            code_matches(found, found_view),
            whole == code_search(found_view, bytes, data@.offset, n - i, pool),
        decreases n - i,
    {
        let ghost at = data@.offset;
        if !data.has(6) {
            return Err(DecodeError::Truncated);
        }
        let name_index: usize = data.get_u16size()?;
        let len: u32 = data.get_u32()?;
        if !data.has(len as usize) {
            return Err(DecodeError::Truncated);
        }
        let is_code = found.is_none() && crate::constant_pool::is_text_at(
            entries,
            name_index,
            "Code",
        );
        if is_code {
            let mut content = data.get_blob(len as usize)?;
            if len < 8 {
                return Err(DecodeError::Truncated);
            }
            let max_stack: u16 = content.get_u16()?;
            let max_locals: u16 = content.get_u16()?;
            let code_length: u32 = content.get_u32()?;
            if len - 8 < code_length {
                return Err(DecodeError::Truncated);
            }
            let code = content.get_blob(code_length as usize)?;
            proof {
                let inner = bytes.subrange(at + 6, at + 6 + len);
                assert(be16(inner, 0) == be16(bytes, at + 6));
                assert(be16(inner, 2) == be16(bytes, at + 8));
                assert(be32(inner, 4) == be32(bytes, at + 10));
                assert(inner.subrange(8, 8 + code_length) =~= bytes.subrange(
                    at + 14,
                    at + 14 + code_length,
                ));
                found_view = Some(
                    CodeView { max_stack, max_locals, code: bytes.subrange(
                        at + 14,
                        at + 14 + code_length,
                    ) },
                );
            }
            found = Some(CodeAttribute { max_stack, max_locals, code });
        } else {
            data.skip(len as usize)?;
        }
        i += 1;
    }
    Ok(found)
}

/// Reads one method and decodes its code.
pub fn parse_method(data: &mut Blob, entries: &Vec<RawConstant>, pool: &ConstantPool) -> (r: Result<
    Method,
    DecodeError,
>)
    ensures
        final(data)@.bytes == old(data)@.bytes,
        match r {
            Ok(method) => method_spec(
                old(data)@.bytes,
                old(data)@.offset,
                raw_view(entries@),
                pool.operands(),
            ) == Ok::<(MethodView, int), DecodeError>((method@, final(data)@.offset)),
            Err(e) => method_spec(
                old(data)@.bytes,
                old(data)@.offset,
                raw_view(entries@),
                pool.operands(),
            ) == Err::<(MethodView, int), DecodeError>(e),
        },
{
    if !data.has(8) {
        return Err(DecodeError::Truncated);
    }
    let _access_flags: u16 = data.get_u16()?;
    let name_index: usize = data.get_u16size()?;
    let type_index: usize = data.get_u16size()?;
    let attributes: usize = data.get_u16size()?;
    let name = match crate::constant_pool::text_at(entries, name_index) {
        Some(name) => name,
        None => return Err(DecodeError::UnresolvedReference),
    };
    let type_desc = match crate::constant_pool::text_at(entries, type_index) {
        Some(type_desc) => type_desc,
        None => return Err(DecodeError::UnresolvedReference),
    };
    let found = parse_code(data, attributes, entries)?;
    let (max_stack, max_locals, mut stream) = match found {
        Some(attribute) => (attribute.max_stack, attribute.max_locals, attribute.code),
        None => (0, 0, Blob::new(Vec::new())),
    };
    assert(stream@.bytes =~= Seq::<u8>::empty() || found is Some);
    let code = ByteCode::new(
        &mut stream,
        &pool.classes,
        &pool.strings,
        &pool.string_refs,
        &pool.methods,
        &pool.fields,
        &pool.name_types,
    )?;
    Ok(Method { name, type_desc, max_stack, max_locals, code })
}

/// The views of a sequence of methods, one by one.
pub open spec fn methods_view(methods: Seq<Method>) -> Seq<MethodView> {
    methods.map_values(|m: Method| m@)
}

/// Reads `n` methods.
pub fn parse_methods(
    data: &mut Blob,
    n: usize,
    entries: &Vec<RawConstant>,
    pool: &ConstantPool,
) -> (r: Result<Vec<Method>, DecodeError>)
    ensures
        final(data)@.bytes == old(data)@.bytes,
        match r {
            Ok(methods) => methods_spec(
                old(data)@.bytes,
                old(data)@.offset,
                n as int,
                raw_view(entries@),
                pool.operands(),
            ) == Ok::<(Seq<MethodView>, int), DecodeError>(
                (methods_view(methods@), final(data)@.offset),
            ),
            Err(e) => methods_spec(
                old(data)@.bytes,
                old(data)@.offset,
                n as int,
                raw_view(entries@),
                pool.operands(),
            ) == Err::<(Seq<MethodView>, int), DecodeError>(e),
        },
{
    let ghost bytes = data@.bytes;
    let ghost raw = raw_view(entries@);
    let ghost operands = pool.operands();
    let ghost whole = methods_spec(bytes, data@.offset, n as int, raw, operands);
    let mut methods: Vec<Method> = Vec::new();
    let mut i: usize = 0;
    assert(methods_view(methods@) =~= Seq::<MethodView>::empty());
    assert(seq_then(methods_view(methods@), whole) == whole) by {
        if whole is Ok {
            assert(methods_view(methods@) + whole->Ok_0.0 =~= whole->Ok_0.0);
        }
    }
    while i < n
        invariant
            i <= n,
            data@.bytes == bytes,
            bytes == old(data)@.bytes,
            raw == raw_view(entries@),
            operands == pool.operands(),
            whole == methods_spec(old(data)@.bytes, old(data)@.offset, n as int, raw, operands),
            whole == seq_then(
                methods_view(methods@),
                methods_spec(bytes, data@.offset, n - i, raw, operands),
            ),
        decreases n - i,
    {
        let ghost before = methods_view(methods@);
        let method = match parse_method(data, entries, pool) {
            Ok(method) => method,
            Err(e) => return Err(e),
        };
        let ghost added = method@;
        methods.push(method);
        i += 1;
        proof {
            let rest = methods_spec(bytes, data@.offset, n - i, raw, operands);
            assert(methods_view(methods@) =~= before.push(added));
            if rest is Ok {
                assert(before + (seq![added] + rest->Ok_0.0) =~= methods_view(methods@)
                    + rest->Ok_0.0);
            }
        }
    }
    assert(methods_view(methods@) + Seq::<MethodView>::empty() =~= methods_view(methods@));
    Ok(methods)
}

/// Reads the names of `n` interfaces.
pub fn parse_interfaces(data: &mut Blob, n: usize, entries: &Vec<RawConstant>) -> (r: Result<
    Vec<String>,
    DecodeError,
>)
    ensures
        final(data)@.bytes == old(data)@.bytes,
        match r {
            Ok(names) => interfaces_spec(
                old(data)@.bytes,
                old(data)@.offset,
                n as int,
                raw_view(entries@),
            ) == Ok::<(Seq<Seq<char>>, int), DecodeError>(
                (names@.map_values(|n: String| n@), final(data)@.offset),
            ),
            Err(e) => interfaces_spec(
                old(data)@.bytes,
                old(data)@.offset,
                n as int,
                raw_view(entries@),
            ) == Err::<(Seq<Seq<char>>, int), DecodeError>(e),
        },
{
    let ghost bytes = data@.bytes;
    let ghost raw = raw_view(entries@);
    let ghost whole = interfaces_spec(bytes, data@.offset, n as int, raw);
    let mut names: Vec<String> = Vec::new();
    let mut i: usize = 0;
    assert(names@.map_values(|n: String| n@) =~= Seq::<Seq<char>>::empty());
    assert(seq_then(names@.map_values(|n: String| n@), whole) == whole) by {
        if whole is Ok {
            assert(names@.map_values(|n: String| n@) + whole->Ok_0.0 =~= whole->Ok_0.0);
        }
    }
    while i < n
        invariant
            i <= n,
            data@.bytes == bytes,
            bytes == old(data)@.bytes,
            raw == raw_view(entries@),
            whole == interfaces_spec(old(data)@.bytes, old(data)@.offset, n as int, raw),
            whole == seq_then(
                names@.map_values(|n: String| n@),
                interfaces_spec(bytes, data@.offset, n - i, raw),
            ),
        decreases n - i,
    {
        let ghost before = names@.map_values(|n: String| n@);
        let index: usize = data.get_u16size()?;
        let name = match crate::constant_pool::class_text_at(entries, index) {
            Some(name) => name,
            None => return Err(DecodeError::UnresolvedReference),
        };
        let ghost added = name@;
        names.push(name);
        i += 1;
        proof {
            let rest = interfaces_spec(bytes, data@.offset, n - i, raw);
            assert(names@.map_values(|n: String| n@) =~= before.push(added));
            if rest is Ok {
                assert(before + (seq![added] + rest->Ok_0.0) =~= names@.map_values(|n: String| n@)
                    + rest->Ok_0.0);
            }
        }
    }
    assert(names@.map_values(|n: String| n@) + Seq::<Seq<char>>::empty() =~= names@.map_values(
        |n: String| n@,
    ));
    Ok(names)
}

impl BytecodeClass {
    /// Decodes the class file that `data` holds, from its first byte on.
    ///
    /// Fails with `Truncated` where the file ends inside a value, with
    /// `BadMagic` where it does not start with `CA FE BA BE`, with
    /// `UnknownTag` on a constant-pool entry of an unknown kind, with
    /// `InvalidUtf8` on a text that is not well-formed, with
    /// `UnresolvedReference` where an index names no entry of the kind it
    /// must, and with the errors of the bytecode decoder on the code of a
    /// method.
    pub fn new(data: &mut Blob) -> (r: Result<BytecodeClass, DecodeError>)
        ensures
            final(data)@.bytes == old(data)@.bytes,
            match r {
                Ok(class) => class_spec(old(data)@.bytes) == Ok::<ClassView, DecodeError>(class@),
                Err(e) => class_spec(old(data)@.bytes) == Err::<ClassView, DecodeError>(e),
            },
    {
        data.rewind();
        let magic: u32 = data.get_u32()?;
        if magic != MAGIC {
            return Err(DecodeError::BadMagic);
        }
        if !data.has(6) {
            return Err(DecodeError::Truncated);
        }
        let _minor: u16 = data.get_u16()?;
        let _major: u16 = data.get_u16()?;
        let count: u16 = data.get_u16()?;
        let entries = parse_pool(data, count)?;
        let pool = ConstantPool::resolve(&entries)?;
        proof {
            let operands = pool.operands();
            let wanted = pool_of(raw_view(entries@));
            assert(operands.classes == wanted.classes);
            assert(operands.string_refs == wanted.string_refs);
            assert(operands.methods == wanted.methods);
            assert(operands.fields == wanted.fields);
        }
        parse_class_body(data, &entries, &pool)
    }
}

/// Reads what follows the constant pool in a class file: access flags, this
/// class, super class, interfaces, fields and methods. Names come from the
/// entries `entries`; the operands of the instructions come from `pool`.
pub fn parse_class_body(data: &mut Blob, entries: &Vec<RawConstant>, pool: &ConstantPool) -> (r:
    Result<BytecodeClass, DecodeError>)
    ensures
        final(data)@.bytes == old(data)@.bytes,
        match r {
            Ok(class) => class_body_spec(
                old(data)@.bytes,
                old(data)@.offset,
                raw_view(entries@),
                pool.operands(),
            ) == Ok::<ClassView, DecodeError>(class@),
            Err(e) => class_body_spec(
                old(data)@.bytes,
                old(data)@.offset,
                raw_view(entries@),
                pool.operands(),
            ) == Err::<ClassView, DecodeError>(e),
        },
{
    if !data.has(8) {
        return Err(DecodeError::Truncated);
    }
    let _access_flags: u16 = data.get_u16()?;
    let this_class: usize = data.get_u16size()?;
    let super_class: usize = data.get_u16size()?;
    let interfaces_count: usize = data.get_u16size()?;
    let name = match crate::constant_pool::class_text_at(entries, this_class) {
        Some(name) => name,
        None => return Err(DecodeError::UnresolvedReference),
    };
    let super_name = if super_class == 0 {
        String::new()
    } else {
        match crate::constant_pool::class_text_at(entries, super_class) {
            Some(name) => name,
            None => return Err(DecodeError::UnresolvedReference),
        }
    };
    let interfaces = parse_interfaces(data, interfaces_count, entries)?;
    let fields_count: usize = data.get_u16size()?;
    let declared = parse_fields(data, fields_count, entries)?;
    let methods_count: usize = data.get_u16size()?;
    let methods = parse_methods(data, methods_count, entries, pool)?;
    let (static_fields, fields) = split_fields(&declared);
    Ok(BytecodeClass { name, super_name, interfaces, static_fields, fields, methods })
}

} // verus!
