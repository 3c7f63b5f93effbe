//! The constant pool of a class file: the entries as they stand in the file,
//! and the records that the entries resolve to once every reference between
//! them has been followed.

use vstd::prelude::*;
use vstd::utf8::{decode_utf8, valid_utf8};
use std::collections::HashMap;
use crate::blob::{be16, be32, in_bounds, Blob};
use crate::decoder::{pool_view, MemberRef, Pool};
use crate::errors::DecodeError;
use crate::java_class::{
    ConstantClass, ConstantField, ConstantMethod, ConstantNameType, ConstantString,
    ConstantStringRef,
};

verus! {

/// An entry of the constant pool as the file holds it: references are the
/// indices of other entries.
pub enum RawConstant {
    Utf8(String),
    /// The four bytes of an `Integer` entry.
    Integer(u32),
    /// The four bytes of a `Float` entry.
    Float(u32),
    /// The eight bytes of a `Long` entry.
    Long(u64),
    /// The eight bytes of a `Double` entry.
    Double(u64),
    Class(usize),
    StringRef(usize),
    FieldRef(usize, usize),
    MethodRef(usize, usize),
    NameAndType(usize, usize),
    /// Slot 0, and the slot after a `Long` or a `Double`: no entry.
    Unusable,
}

pub enum RawView {
    Utf8(Seq<char>),
    Integer(u32),
    Float(u32),
    Long(u64),
    Double(u64),
    Class(usize),
    StringRef(usize),
    FieldRef(usize, usize),
    MethodRef(usize, usize),
    NameAndType(usize, usize),
    Unusable,
}

impl View for RawConstant {
    type V = RawView;

    open spec fn view(&self) -> RawView {
        match self {
            RawConstant::Utf8(s) => RawView::Utf8(s@),
            RawConstant::Integer(v) => RawView::Integer(*v),
            RawConstant::Float(v) => RawView::Float(*v),
            RawConstant::Long(v) => RawView::Long(*v),
            RawConstant::Double(v) => RawView::Double(*v),
            RawConstant::Class(n) => RawView::Class(*n),
            RawConstant::StringRef(n) => RawView::StringRef(*n),
            RawConstant::FieldRef(c, n) => RawView::FieldRef(*c, *n),
            RawConstant::MethodRef(c, n) => RawView::MethodRef(*c, *n),
            RawConstant::NameAndType(n, t) => RawView::NameAndType(*n, *t),
            RawConstant::Unusable => RawView::Unusable,
        }
    }
}

/// The views of a sequence of entries, one by one.
pub open spec fn raw_view(entries: Seq<RawConstant>) -> Seq<RawView> {
    entries.map_values(|c: RawConstant| c@)
}

/// The big-endian value of the eight bytes at `at`.
pub open spec fn be64(bytes: Seq<u8>, at: int) -> int {
    be32(bytes, at) * 0x1_0000_0000 + be32(bytes, at + 4)
}

/// The entry that starts at byte `at`, and the offset of the byte after it.
pub open spec fn raw_constant_at(bytes: Seq<u8>, at: int) -> Result<(RawView, int), DecodeError> {
    if !in_bounds(bytes, at, 1) {
        Err(DecodeError::Truncated)
    } else if bytes[at] == 1 {
        if !in_bounds(bytes, at + 1, 2) {
            Err(DecodeError::Truncated)
        } else if !in_bounds(bytes, at + 3, be16(bytes, at + 1)) {
            Err(DecodeError::Truncated)
        } else {
            let text = bytes.subrange(at + 3, at + 3 + be16(bytes, at + 1));
            if valid_utf8(text) {
                Ok((RawView::Utf8(decode_utf8(text)), at + 3 + be16(bytes, at + 1)))
            } else {
                Err(DecodeError::InvalidUtf8)
            }
        }
    } else if bytes[at] == 3 || bytes[at] == 4 {
        if !in_bounds(bytes, at + 1, 4) {
            Err(DecodeError::Truncated)
        } else if bytes[at] == 3 {
            Ok((RawView::Integer(be32(bytes, at + 1) as u32), at + 5))
        } else {
            Ok((RawView::Float(be32(bytes, at + 1) as u32), at + 5))
        }
    } else if bytes[at] == 5 || bytes[at] == 6 {
        if !in_bounds(bytes, at + 1, 8) {
            Err(DecodeError::Truncated)
        } else if bytes[at] == 5 {
            Ok((RawView::Long(be64(bytes, at + 1) as u64), at + 9))
        } else {
            Ok((RawView::Double(be64(bytes, at + 1) as u64), at + 9))
        }
    } else if bytes[at] == 7 || bytes[at] == 8 {
        if !in_bounds(bytes, at + 1, 2) {
            Err(DecodeError::Truncated)
        } else if bytes[at] == 7 {
            Ok((RawView::Class(be16(bytes, at + 1) as usize), at + 3))
        } else {
            Ok((RawView::StringRef(be16(bytes, at + 1) as usize), at + 3))
        }
    } else if bytes[at] == 9 || bytes[at] == 10 || bytes[at] == 12 {
        if !in_bounds(bytes, at + 1, 4) {
            Err(DecodeError::Truncated)
        } else {
            let first = be16(bytes, at + 1) as usize;
            let second = be16(bytes, at + 3) as usize;
            if bytes[at] == 9 {
                Ok((RawView::FieldRef(first, second), at + 5))
            } else if bytes[at] == 10 {
                Ok((RawView::MethodRef(first, second), at + 5))
            } else {
                Ok((RawView::NameAndType(first, second), at + 5))
            }
        }
    } else {
        Err(DecodeError::UnknownTag(bytes[at]))
    }
}

/// Whether an entry takes two slots of the pool.
pub open spec fn is_wide_entry(c: RawView) -> bool {
    c is Long || c is Double
}

/// The entries of the slots `slot..count`, read from byte `at` on, and the
/// offset of the byte after them. An entry that takes two slots is followed
/// by `Unusable`.
pub open spec fn raw_pool_from(bytes: Seq<u8>, at: int, slot: int, count: int) -> Result<
    (Seq<RawView>, int),
    DecodeError,
>
    decreases count + 1 - slot,
{
    if slot >= count {
        Ok((Seq::empty(), at))
    } else {
        match raw_constant_at(bytes, at) {
            Err(e) => Err(e),
            Ok((c, next)) => if is_wide_entry(c) {
                pool_then(seq![c, RawView::Unusable], raw_pool_from(bytes, next, slot + 2, count))
            } else {
                pool_then(seq![c], raw_pool_from(bytes, next, slot + 1, count))
            },
        }
    }
}

/// `entries` put in front of the entries that follow.
pub open spec fn pool_then(entries: Seq<RawView>, rest: Result<(Seq<RawView>, int), DecodeError>) -> Result<
    (Seq<RawView>, int),
    DecodeError,
> {
    match rest {
        Ok((rest, end)) => Ok((entries + rest, end)),
        Err(e) => Err(e),
    }
}

/// The pool of `count - 1` entries that starts at byte `at`, each entry at
/// the index of its slot; slot 0 is `Unusable`.
pub open spec fn raw_pool_spec(bytes: Seq<u8>, at: int, count: int) -> Result<
    (Seq<RawView>, int),
    DecodeError,
> {
    pool_then(seq![RawView::Unusable], raw_pool_from(bytes, at, 1, count))
}

/// Reads one entry of the constant pool.
pub fn parse_constant(data: &mut Blob) -> (r: Result<RawConstant, DecodeError>)
    ensures
        final(data)@.bytes == old(data)@.bytes,
        match r {
            Ok(c) => raw_constant_at(old(data)@.bytes, old(data)@.offset) == Ok::<
                (RawView, int),
                DecodeError,
            >((c@, final(data)@.offset)),
            Err(e) => raw_constant_at(old(data)@.bytes, old(data)@.offset) == Err::<
                (RawView, int),
                DecodeError,
            >(e),
        },
{
    let tag: u8 = data.get_u8()?;
    match tag {
        1 => {
            let len: usize = data.get_u16size()?;
            let text = data.get_string(len)?;
            Ok(RawConstant::Utf8(text))
        },
        3 => {
            let v: u32 = data.get_u32()?;
            Ok(RawConstant::Integer(v))
        },
        4 => {
            let v: u32 = data.get_u32()?;
            Ok(RawConstant::Float(v))
        },
        5 => {
            if !data.has(8) {
                return Err(DecodeError::Truncated);
            }
            let hi: u32 = data.get_u32()?;
            let lo: u32 = data.get_u32()?;
            Ok(RawConstant::Long(hi as u64 * 0x1_0000_0000 + lo as u64))
        },
        6 => {
            if !data.has(8) {
                return Err(DecodeError::Truncated);
            }
            let hi: u32 = data.get_u32()?;
            let lo: u32 = data.get_u32()?;
            Ok(RawConstant::Double(hi as u64 * 0x1_0000_0000 + lo as u64))
        },
        7 => {
            let name: usize = data.get_u16size()?;
            Ok(RawConstant::Class(name))
        },
        8 => {
            let text: usize = data.get_u16size()?;
            Ok(RawConstant::StringRef(text))
        },
        9 => {
            if !data.has(4) {
                return Err(DecodeError::Truncated);
            }
            let class: usize = data.get_u16size()?;
            let name_type: usize = data.get_u16size()?;
            Ok(RawConstant::FieldRef(class, name_type))
        },
        10 => {
            if !data.has(4) {
                return Err(DecodeError::Truncated);
            }
            let class: usize = data.get_u16size()?;
            let name_type: usize = data.get_u16size()?;
            Ok(RawConstant::MethodRef(class, name_type))
        },
        12 => {
            if !data.has(4) {
                return Err(DecodeError::Truncated);
            }
            let name: usize = data.get_u16size()?;
            let type_desc: usize = data.get_u16size()?;
            Ok(RawConstant::NameAndType(name, type_desc))
        },
        _ => Err(DecodeError::UnknownTag(tag)),
    }
}

/// Reads the `count - 1` entries of a constant pool. The result holds each
/// entry at the index of its slot.
pub fn parse_pool(data: &mut Blob, count: u16) -> (r: Result<Vec<RawConstant>, DecodeError>)
    ensures
        final(data)@.bytes == old(data)@.bytes,
        match r {
            Ok(entries) => raw_pool_spec(old(data)@.bytes, old(data)@.offset, count as int) == Ok::<
                (Seq<RawView>, int),
                DecodeError,
            >((raw_view(entries@), final(data)@.offset)),
            Err(e) => raw_pool_spec(old(data)@.bytes, old(data)@.offset, count as int) == Err::<
                (Seq<RawView>, int),
                DecodeError,
            >(e),
        },
{
    let ghost bytes = data@.bytes;
    let ghost start = data@.offset;
    let mut entries: Vec<RawConstant> = Vec::new();
    entries.push(RawConstant::Unusable);
    assert(raw_view(entries@) =~= seq![RawView::Unusable]);
    let mut slot: u32 = 1;
    while slot < count as u32
        invariant
            1 <= slot <= count + 1,
            data@.bytes == bytes,
            bytes == old(data)@.bytes,
            start == old(data)@.offset,
            raw_pool_spec(bytes, start, count as int) == pool_then(
                raw_view(entries@),
                raw_pool_from(bytes, data@.offset, slot as int, count as int),
            ),
        decreases count + 1 - slot,
    {
        let ghost at = data@.offset;
        let ghost before = raw_view(entries@);
        let entry = match parse_constant(data) {
            Ok(entry) => entry,
            Err(e) => return Err(e),
        };
        let wide = match entry {
            RawConstant::Long(_) => true,
            RawConstant::Double(_) => true,
            _ => false,
        };
        let ghost c = entry@;
        entries.push(entry);
        if wide {
            entries.push(RawConstant::Unusable);
            slot = slot + 2;
        } else {
            slot = slot + 1;
        }
        proof {
            let rest = raw_pool_from(bytes, data@.offset, slot as int, count as int);
            let added = if wide {
                seq![c, RawView::Unusable]
            } else {
                seq![c]
            };
            assert(raw_view(entries@) =~= before + added);
            if rest is Ok {
                assert(before + (added + rest->Ok_0.0) =~= raw_view(entries@) + rest->Ok_0.0);
            }
        }
    }
    assert(raw_view(entries@) + Seq::<RawView>::empty() =~= raw_view(entries@));
    Ok(entries)
}

/// The text of the `Utf8` entry at `i`.
pub open spec fn utf8_at(pool: Seq<RawView>, i: int) -> Option<Seq<char>> {
    if 0 <= i < pool.len() && pool[i] is Utf8 {
        Some(pool[i]->Utf8_0)
    } else {
        None
    }
}

/// The name of the class that the `Class` entry at `i` refers to.
pub open spec fn class_name_at(pool: Seq<RawView>, i: int) -> Option<Seq<char>> {
    if 0 <= i < pool.len() && pool[i] is Class {
        utf8_at(pool, pool[i]->Class_0 as int)
    } else {
        None
    }
}

/// The text that the `String` entry at `i` refers to.
pub open spec fn string_ref_at(pool: Seq<RawView>, i: int) -> Option<Seq<char>> {
    if 0 <= i < pool.len() && pool[i] is StringRef {
        utf8_at(pool, pool[i]->StringRef_0 as int)
    } else {
        None
    }
}

/// The name and the type descriptor of the `NameAndType` entry at `i`.
pub open spec fn name_type_at(pool: Seq<RawView>, i: int) -> Option<(Seq<char>, Seq<char>)> {
    if 0 <= i < pool.len() && pool[i] is NameAndType {
        match (
            utf8_at(pool, pool[i]->NameAndType_0 as int),
            utf8_at(pool, pool[i]->NameAndType_1 as int),
        ) {
            (Some(name), Some(type_desc)) => Some((name, type_desc)),
            _ => None,
        }
    } else {
        None
    }
}

/// What a reference to a member resolves to: the name of the class at
/// `class`, and the name and type at `name_type`.
pub open spec fn member_of(pool: Seq<RawView>, class: int, name_type: int) -> Option<MemberRef> {
    match (class_name_at(pool, class), name_type_at(pool, name_type)) {
        (Some(class_name), Some((name, type_desc))) => Some(
            MemberRef { class_name, name, type_desc },
        ),
        _ => None,
    }
}

/// What the `Fieldref` entry at `i` resolves to.
pub open spec fn field_at(pool: Seq<RawView>, i: int) -> Option<MemberRef> {
    if 0 <= i < pool.len() && pool[i] is FieldRef {
        member_of(pool, pool[i]->FieldRef_0 as int, pool[i]->FieldRef_1 as int)
    } else {
        None
    }
}

/// What the `Methodref` entry at `i` resolves to.
pub open spec fn method_at(pool: Seq<RawView>, i: int) -> Option<MemberRef> {
    if 0 <= i < pool.len() && pool[i] is MethodRef {
        member_of(pool, pool[i]->MethodRef_0 as int, pool[i]->MethodRef_1 as int)
    } else {
        None
    }
}

/// Whether every reference that the entry at `i` makes leads, directly or
/// through other entries, to texts.
pub open spec fn resolvable(pool: Seq<RawView>, i: int) -> bool {
    match pool[i] {
        RawView::Class(_) => class_name_at(pool, i) is Some,
        RawView::StringRef(_) => string_ref_at(pool, i) is Some,
        RawView::NameAndType(_, _) => name_type_at(pool, i) is Some,
        RawView::FieldRef(_, _) => field_at(pool, i) is Some,
        RawView::MethodRef(_, _) => method_at(pool, i) is Some,
        _ => true,
    }
}

/// Whether every entry of the pool resolves.
pub open spec fn all_resolvable(pool: Seq<RawView>) -> bool {
    forall|i: int| 0 <= i < pool.len() ==> #[trigger] resolvable(pool, i)
}

/// The resolved records of the entries below index `n`, by kind and index.
pub struct Resolved {
    pub strings: Map<usize, Seq<char>>,
    pub string_refs: Map<usize, Seq<char>>,
    pub classes: Map<usize, Seq<char>>,
    pub name_types: Map<usize, (Seq<char>, Seq<char>)>,
    pub fields: Map<usize, MemberRef>,
    pub methods: Map<usize, MemberRef>,
}

/// What the entries below index `n` resolve to.
pub open spec fn resolved_upto(pool: Seq<RawView>, n: int) -> Resolved {
    Resolved {
        strings: Map::new(
            |i: usize| i < n && utf8_at(pool, i as int) is Some,
            |i: usize| utf8_at(pool, i as int)->Some_0,
        ),
        string_refs: Map::new(
            |i: usize| i < n && string_ref_at(pool, i as int) is Some,
            |i: usize| string_ref_at(pool, i as int)->Some_0,
        ),
        classes: Map::new(
            |i: usize| i < n && class_name_at(pool, i as int) is Some,
            |i: usize| class_name_at(pool, i as int)->Some_0,
        ),
        name_types: Map::new(
            |i: usize| i < n && name_type_at(pool, i as int) is Some,
            |i: usize| name_type_at(pool, i as int)->Some_0,
        ),
        fields: Map::new(
            |i: usize| i < n && field_at(pool, i as int) is Some,
            |i: usize| field_at(pool, i as int)->Some_0,
        ),
        methods: Map::new(
            |i: usize| i < n && method_at(pool, i as int) is Some,
            |i: usize| method_at(pool, i as int)->Some_0,
        ),
    }
}

/// What the pool resolves to.
pub open spec fn resolved(pool: Seq<RawView>) -> Resolved {
    resolved_upto(pool, pool.len() as int)
}

/// The part of a resolved pool that instructions refer to.
pub open spec fn pool_of(pool: Seq<RawView>) -> Pool {
    Pool {
        classes: resolved(pool).classes,
        string_refs: resolved(pool).string_refs,
        methods: resolved(pool).methods,
        fields: resolved(pool).fields,
    }
}

/// The resolved constant pool: for each kind of entry, the records by index,
/// with every text copied into the record.
pub struct ConstantPool {
    pub strings: HashMap<usize, ConstantString>,
    pub string_refs: HashMap<usize, ConstantStringRef>,
    pub classes: HashMap<usize, ConstantClass>,
    pub name_types: HashMap<usize, ConstantNameType>,
    pub fields: HashMap<usize, ConstantField>,
    pub methods: HashMap<usize, ConstantMethod>,
}

impl View for ConstantPool {
    type V = Resolved;

    open spec fn view(&self) -> Resolved {
        Resolved {
            strings: Map::new(
                |i: usize| self.strings@.contains_key(i),
                |i: usize| self.strings@[i].value@,
            ),
            string_refs: pool_view(
                self.classes@,
                self.string_refs@,
                self.methods@,
                self.fields@,
            ).string_refs,
            classes: pool_view(
                self.classes@,
                self.string_refs@,
                self.methods@,
                self.fields@,
            ).classes,
            name_types: Map::new(
                |i: usize| self.name_types@.contains_key(i),
                |i: usize| (self.name_types@[i].name@, self.name_types@[i].type_desc@),
            ),
            fields: pool_view(self.classes@, self.string_refs@, self.methods@, self.fields@).fields,
            methods: pool_view(
                self.classes@,
                self.string_refs@,
                self.methods@,
                self.fields@,
            ).methods,
        }
    }
}

/// The text of the `Utf8` entry at `i`.
pub fn text_at(entries: &Vec<RawConstant>, i: usize) -> (r: Option<String>)
    ensures
        match r {
            Some(text) => utf8_at(raw_view(entries@), i as int) == Some(text@),
            None => utf8_at(raw_view(entries@), i as int) is None,
        },
{
    if i >= entries.len() {
        return None;
    }
    match &entries[i] {
        RawConstant::Utf8(text) => Some(text.clone()),
        _ => None,
    }
}

/// Whether the entry at `i` is the `Utf8` entry `text`.
pub fn is_text_at(entries: &Vec<RawConstant>, i: usize, text: &str) -> (same: bool)
    ensures
        same == (utf8_at(raw_view(entries@), i as int) == Some(text@)),
{
    if i >= entries.len() {
        return false;
    }
    match &entries[i] {
        RawConstant::Utf8(found) => crate::text::same_text(found.as_str(), text),
        _ => false,
    }
}

/// The name of the class that the `Class` entry at `i` refers to.
pub fn class_text_at(entries: &Vec<RawConstant>, i: usize) -> (r: Option<String>)
    ensures
        match r {
            Some(text) => class_name_at(raw_view(entries@), i as int) == Some(text@),
            None => class_name_at(raw_view(entries@), i as int) is None,
        },
{
    if i >= entries.len() {
        return None;
    }
    match &entries[i] {
        RawConstant::Class(name) => text_at(entries, *name),
        _ => None,
    }
}

/// The name and the type descriptor of the `NameAndType` entry at `i`.
pub fn name_type_text_at(entries: &Vec<RawConstant>, i: usize) -> (r: Option<(String, String)>)
    ensures
        match r {
            Some((name, type_desc)) => name_type_at(raw_view(entries@), i as int) == Some(
                (name@, type_desc@),
            ),
            None => name_type_at(raw_view(entries@), i as int) is None,
        },
{
    if i >= entries.len() {
        return None;
    }
    match &entries[i] {
        RawConstant::NameAndType(name, type_desc) => {
            match (text_at(entries, *name), text_at(entries, *type_desc)) {
                (Some(name), Some(type_desc)) => Some((name, type_desc)),
                _ => None,
            }
        },
        _ => None,
    }
}

impl ConstantPool {
    /// Resolves the entries of a pool: every reference between entries is
    /// followed and the texts it leads to are copied into a record of the
    /// kind of the entry. Fails with `UnresolvedReference` where a reference
    /// leads outside the pool or to an entry of another kind than it must.
    pub fn resolve(entries: &Vec<RawConstant>) -> (r: Result<ConstantPool, DecodeError>)
        ensures
            match r {
                Ok(pool) => all_resolvable(raw_view(entries@)) && pool@ == resolved(
                    raw_view(entries@),
                ),
                Err(e) => !all_resolvable(raw_view(entries@)) && e
                    == DecodeError::UnresolvedReference,
            },
    {
        let ghost raw = raw_view(entries@);
        let mut pool = ConstantPool {
            strings: HashMap::new(),
            string_refs: HashMap::new(),
            classes: HashMap::new(),
            name_types: HashMap::new(),
            fields: HashMap::new(),
            methods: HashMap::new(),
        };
        let mut i: usize = 0;
        while i < entries.len()
            invariant
                i <= entries.len(),
                raw == raw_view(entries@),
                raw.len() == entries.len(),
                forall|k: int| 0 <= k < i ==> #[trigger] resolvable(raw, k),
                pool.agrees(raw, i as int),
            decreases entries.len() - i,
        {
            assert(raw[i as int] == entries@[i as int]@);
            match &entries[i] {
                RawConstant::Utf8(text) => {
                    pool.strings.insert(i, ConstantString { value: text.clone() });
                },
                RawConstant::StringRef(text) => {
                    match text_at(entries, *text) {
                        Some(value) => {
                            pool.string_refs.insert(i, ConstantStringRef { value });
                        },
                        None => {
                            assert(!resolvable(raw, i as int));
                            return Err(DecodeError::UnresolvedReference);
                        },
                    }
                },
                RawConstant::Class(_) => {
                    match class_text_at(entries, i) {
                        Some(name) => {
                            pool.classes.insert(i, ConstantClass { name });
                        },
                        None => {
                            assert(!resolvable(raw, i as int));
                            return Err(DecodeError::UnresolvedReference);
                        },
                    }
                },
                RawConstant::NameAndType(_, _) => {
                    match name_type_text_at(entries, i) {
                        Some((name, type_desc)) => {
                            pool.name_types.insert(i, ConstantNameType { name, type_desc });
                        },
                        None => {
                            assert(!resolvable(raw, i as int));
                            return Err(DecodeError::UnresolvedReference);
                        },
                    }
                },
                RawConstant::FieldRef(class, name_type) => {
                    match (class_text_at(entries, *class), name_type_text_at(entries, *name_type)) {
                        (Some(class_name), Some((field_name, type_desc))) => {
                            pool.fields.insert(
                                i,
                                ConstantField { class_name, field_name, type_desc },
                            );
                        },
                        _ => {
                            assert(!resolvable(raw, i as int));
                            return Err(DecodeError::UnresolvedReference);
                        },
                    }
                },
                RawConstant::MethodRef(class, name_type) => {
                    match (class_text_at(entries, *class), name_type_text_at(entries, *name_type)) {
                        (Some(class_name), Some((method_name, type_desc))) => {
                            pool.methods.insert(
                                i,
                                ConstantMethod { class_name, method_name, type_desc },
                            );
                        },
                        _ => {
                            assert(!resolvable(raw, i as int));
                            return Err(DecodeError::UnresolvedReference);
                        },
                    }
                },
                _ => {},
            }
            i += 1;
        }
        proof {
            pool.lemma_agrees_is_resolved(raw);
        }
        Ok(pool)
    }
}

impl ConstantPool {
    /// The records that the operands of instructions refer to.
    pub open spec fn operands(&self) -> Pool {
        pool_view(self.classes@, self.string_refs@, self.methods@, self.fields@)
    }

    /// Whether the records are those that the entries below index `n`
    /// resolve to, no more and no fewer.
    pub open spec fn agrees(&self, pool: Seq<RawView>, n: int) -> bool {
        &&& forall|k: usize| #[trigger]
            self.strings@.contains_key(k) <==> k < n && utf8_at(pool, k as int) is Some
        &&& forall|k: usize| #[trigger]
            self.strings@.contains_key(k) ==> self.strings@[k].value@ == utf8_at(
                pool,
                k as int,
            )->Some_0
        &&& forall|k: usize| #[trigger]
            self.string_refs@.contains_key(k) <==> k < n && string_ref_at(pool, k as int) is Some
        &&& forall|k: usize| #[trigger]
            self.string_refs@.contains_key(k) ==> self.string_refs@[k].value@ == string_ref_at(
                pool,
                k as int,
            )->Some_0
        &&& forall|k: usize| #[trigger]
            self.classes@.contains_key(k) <==> k < n && class_name_at(pool, k as int) is Some
        &&& forall|k: usize| #[trigger]
            self.classes@.contains_key(k) ==> self.classes@[k].name@ == class_name_at(
                pool,
                k as int,
            )->Some_0
        &&& forall|k: usize| #[trigger]
            self.name_types@.contains_key(k) <==> k < n && name_type_at(pool, k as int) is Some
        &&& forall|k: usize| #[trigger]
            self.name_types@.contains_key(k) ==> (
                self.name_types@[k].name@,
                self.name_types@[k].type_desc@,
            ) == name_type_at(pool, k as int)->Some_0
        &&& forall|k: usize| #[trigger]
            self.fields@.contains_key(k) <==> k < n && field_at(pool, k as int) is Some
        &&& forall|k: usize| #[trigger]
            self.fields@.contains_key(k) ==> (MemberRef {
                class_name: self.fields@[k].class_name@,
                name: self.fields@[k].field_name@,
                type_desc: self.fields@[k].type_desc@,
            }) == field_at(pool, k as int)->Some_0
        &&& forall|k: usize| #[trigger]
            self.methods@.contains_key(k) <==> k < n && method_at(pool, k as int) is Some
        &&& forall|k: usize| #[trigger]
            self.methods@.contains_key(k) ==> (MemberRef {
                class_name: self.methods@[k].class_name@,
                name: self.methods@[k].method_name@,
                type_desc: self.methods@[k].type_desc@,
            }) == method_at(pool, k as int)->Some_0
    }

    /// Records that agree with the whole pool are what the pool resolves to.
    pub proof fn lemma_agrees_is_resolved(&self, pool: Seq<RawView>)
        requires
            self.agrees(pool, pool.len() as int),
        ensures
            self@ == resolved(pool),
    {
        let r = resolved(pool);
        assert(self@.strings =~= r.strings);
        assert(self@.string_refs =~= r.string_refs);
        assert(self@.classes =~= r.classes);
        assert(self@.name_types =~= r.name_types);
        assert(self@.fields =~= r.fields);
        assert(self@.methods =~= r.methods);
    }
}

} // verus!
