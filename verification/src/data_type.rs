use vstd::prelude::*;
use vstd::string::StringExecFns;
use crate::fault::Fault;
use crate::memory::Pointer;
use crate::module_registry::ModuleName;
use crate::util::index::{InstructionIndex, TypeIndex};
use crate::util::text::{joined, same_text};
use crate::value::ValueType;

verus! {

/// A named component of a record.
#[derive(Debug, Clone)]
pub struct Field {
    name: String,
    value_type: ValueType,
}

impl Field {
    pub closed spec fn spec_name(&self) -> Seq<char> {
        self.name@
    }

    pub closed spec fn spec_value_type(&self) -> ValueType {
        self.value_type
    }

    pub fn new(name: String, value_type: ValueType) -> (field: Self)
        ensures
            field.spec_name() == name@,
            field.spec_value_type() == value_type,
    {
        Field { name, value_type }
    }

    pub fn name(&self) -> (r: &str)
        ensures
            r@ == self.spec_name(),
    {
        self.name.as_str()
    }

    pub fn value_type(&self) -> (r: ValueType)
        ensures
            r == self.spec_value_type(),
    {
        self.value_type
    }

    /// The byte size of the field's type.
    pub fn size(&self, type_table: &TypeTable) -> (r: u32)
        requires
            self.spec_value_type().known_in(type_table),
        ensures
            r == self.spec_value_type().spec_size(type_table),
    {
        self.value_type.size(type_table)
    }

    /// A field of the same name and type.
    pub fn duplicate(&self) -> (field: Self)
        ensures
            field.spec_name() == self.spec_name(),
            field.spec_value_type() == self.spec_value_type(),
    {
        Field { name: self.name.clone(), value_type: self.value_type }
    }
}

/// A field as a record's layout sees it: its name, its type, and its byte
/// offset from the start of the record.
pub struct FieldView {
    pub name: Seq<char>,
    pub value_type: ValueType,
    pub offset: nat,
}

/// The sum of the widths of the first `n` fields.
pub open spec fn prefix_width(fields: Seq<FieldView>, n: int) -> nat
    decreases n,
{
    if n <= 0 {
        0
    } else {
        prefix_width(fields, n - 1) + fields[n - 1].value_type.spec_width()
    }
}

/// The segments joined by `.`.
pub open spec fn dotted(segments: Seq<Seq<char>>) -> Seq<char>
    decreases segments.len(),
{
    if segments.len() == 0 {
        Seq::<char>::empty()
    } else if segments.len() == 1 {
        segments[0]
    } else {
        dotted(segments.drop_last()) + seq!['.'] + segments.last()
    }
}

/// A field paired with its byte offset.
pub type FieldOffset = (Field, u32);

/// A field's type paired with the field's address.
pub type FieldPointer = (ValueType, Pointer);

/// A record type: its name, its declared fields, and the flattened layout
/// in which every embedded record is replaced by that record's own
/// flattened fields. The flattened layout is what reads and writes use.
pub struct TypeDefinition {
    name: TypeId,
    fields: Vec<FieldOffset>,
    flattened_fields: Vec<FieldOffset>,
    paths: Vec<String>,
    total_size: u32,
}

/// The fields with their offsets as a layout sees them.
pub open spec fn field_views(fields: Seq<FieldOffset>) -> Seq<FieldView> {
    Seq::new(
        fields.len(),
        |i: int|
            FieldView {
                name: fields[i].0.spec_name(),
                value_type: fields[i].0.spec_value_type(),
                offset: fields[i].1 as nat,
            },
    )
}

/// The characters of each text.
pub open spec fn text_views(texts: Seq<String>) -> Seq<Seq<char>> {
    Seq::new(texts.len(), |i: int| texts[i]@)
}

impl TypeDefinition {
    /// The fully-qualified name.
    pub closed spec fn spec_name(&self) -> Seq<char> {
        self.name@
    }

    /// The declared fields in order, each with the offset at which it starts.
    pub closed spec fn spec_fields(&self) -> Seq<FieldView> {
        field_views(self.fields@)
    }

    /// The flattened fields in order, each with its offset.
    pub closed spec fn spec_flattened(&self) -> Seq<FieldView> {
        field_views(self.flattened_fields@)
    }

    /// The dotted path of each flattened field.
    pub closed spec fn spec_paths(&self) -> Seq<Seq<char>> {
        text_views(self.paths@)
    }

    /// The byte size of a record of this type.
    pub closed spec fn spec_total_size(&self) -> nat {
        self.total_size as nat
    }

    /// The layout is consistent: every flattened field has a path and is no
    /// embedded record, fields are packed without padding in order, the
    /// total size is the sum of the flattened widths, and a record declared
    /// without embedded records is flattened to its declared fields. Every
    /// definition is so.
    #[verifier::type_invariant]
    pub open spec fn wf(&self) -> bool {
        let flat = self.spec_flattened();
        &&& self.spec_paths().len() == flat.len()
        &&& flat.len() <= u32::MAX
        &&& self.spec_total_size() <= u32::MAX
        &&& forall|i: int| 0 <= i < flat.len() ==> !((#[trigger] flat[i]).value_type is LocalData)
        &&& forall|i: int| 0 <= i < flat.len() ==> (#[trigger] flat[i]).offset == prefix_width(flat, i)
        &&& self.spec_total_size() == prefix_width(flat, flat.len() as int)
        &&& (forall|k: int| 0 <= k < self.spec_fields().len() ==> !((#[trigger] self.spec_fields()[k]).value_type is LocalData))
            ==> flat == self.spec_fields()
    }

    /// What a field of the given name and type adds to a flattened layout
    /// that is `base` bytes long: itself, or for an embedded record the
    /// flattened fields of the record's definition, moved by `base`.
    pub open spec fn expansion(
        type_table: &TypeTable,
        name: Seq<char>,
        value_type: ValueType,
        base: nat,
    ) -> Seq<FieldView> {
        match value_type {
            ValueType::LocalData(idx) => {
                let sub = type_table.spec_get(idx@).spec_flattened();
                Seq::new(
                    sub.len(),
                    |i: int|
                        FieldView {
                            name: sub[i].name,
                            value_type: sub[i].value_type,
                            offset: base + sub[i].offset,
                        },
                )
            },
            _ => seq![FieldView { name, value_type, offset: base }],
        }
    }

    /// The paths of what `expansion` adds: the field's name, or for an
    /// embedded record each path of the record's definition behind the
    /// field's name and a dot.
    pub open spec fn expansion_paths(
        type_table: &TypeTable,
        name: Seq<char>,
        value_type: ValueType,
    ) -> Seq<Seq<char>> {
        match value_type {
            ValueType::LocalData(idx) => {
                let sub = type_table.spec_get(idx@).spec_paths();
                Seq::new(sub.len(), |i: int| name + seq!['.'] + sub[i])
            },
            _ => seq![name],
        }
    }

    pub fn new(name: TypeId) -> (r: Self)
        ensures
            r.wf(),
            r.spec_name() == name@,
            r.spec_fields() == Seq::<FieldView>::empty(),
            r.spec_flattened() == Seq::<FieldView>::empty(),
            r.spec_paths() == Seq::<Seq<char>>::empty(),
            r.spec_total_size() == 0,
    {
        let r = TypeDefinition {
            name,
            fields: Vec::new(),
            flattened_fields: Vec::new(),
            paths: Vec::new(),
            total_size: 0,
        };
        assert(r.spec_fields() =~= Seq::<FieldView>::empty());
        assert(r.spec_flattened() =~= Seq::<FieldView>::empty());
        assert(r.spec_paths() =~= Seq::<Seq<char>>::empty());
        r
    }

    /// Whether `field` can be added: its type is known to the table, and
    /// neither the size nor the number of flattened fields leaves 32 bits.
    pub open spec fn can_add(&self, type_table: &TypeTable, field: &Field) -> bool {
        let value_type = field.spec_value_type();
        &&& value_type.known_in(type_table)
        &&& self.spec_total_size() + value_type.spec_size(type_table) <= u32::MAX
        &&& self.spec_flattened().len() + Self::expansion(
            type_table,
            field.spec_name(),
            value_type,
            self.spec_total_size(),
        ).len() <= u32::MAX
    }

    /// Appends a field. The declared list gets the field at the offset that
    /// was the record's size; the flattened list gets the field's expansion
    /// from that offset on, with the matching paths; the size grows by the
    /// field's size.
    pub fn add_field(&mut self, type_table: &TypeTable, field: Field)
        requires
            old(self).can_add(type_table, &field),
        ensures
            final(self).wf(),
            final(self).spec_name() == old(self).spec_name(),
            final(self).spec_fields() == old(self).spec_fields().push(
                FieldView {
                    name: field.spec_name(),
                    value_type: field.spec_value_type(),
                    offset: old(self).spec_total_size(),
                },
            ),
            final(self).spec_flattened() == old(self).spec_flattened() + Self::expansion(
                type_table,
                field.spec_name(),
                field.spec_value_type(),
                old(self).spec_total_size(),
            ),
            final(self).spec_paths() == old(self).spec_paths() + Self::expansion_paths(
                type_table,
                field.spec_name(),
                field.spec_value_type(),
            ),
            final(self).spec_total_size() == old(self).spec_total_size()
                + field.spec_value_type().spec_size(type_table),
    {
        proof {
            use_type_invariant(&*self);
            use_type_invariant(type_table);
        }
        let mut taken = TypeDefinition::new(TypeId { fq_name: String::new() });
        core::mem::swap(self, &mut taken);
        let TypeDefinition { name, mut fields, mut flattened_fields, mut paths, total_size } = taken;
        let base: u32 = total_size;
        let ghost flat0 = field_views(flattened_fields@);
        let ghost paths0 = text_views(paths@);
        let ghost fields0 = field_views(fields@);
        let ghost added = Self::expansion(type_table, field.spec_name(), field.spec_value_type(), base as nat);
        let ghost added_paths = Self::expansion_paths(type_table, field.spec_name(), field.spec_value_type());
        let new_size: u32;
        match field.value_type {
            ValueType::LocalData(type_idx) => {
                let sub = type_table.get(type_idx);
                proof {
                    use_type_invariant(sub);
                }
                let n: usize = sub.flattened_fields.len();
                let ghost sub_flat = sub.spec_flattened();
                let mut i: usize = 0;
                proof {
                    reveal_strlit(".");
                    assert("."@ =~= seq!['.']);
                }
                while i < n
                    invariant
                        i <= n,
                        n == sub.flattened_fields@.len(),
                        n == sub.paths@.len(),
                        sub.wf(),
                        sub_flat == sub.spec_flattened(),
                        "."@ == seq!['.'],
                        added.len() == n,
                        added_paths.len() == n,
                        added == Self::expansion(type_table, field.spec_name(), field.spec_value_type(), base as nat),
                        added_paths == Self::expansion_paths(type_table, field.spec_name(), field.spec_value_type()),
                        field.value_type == ValueType::LocalData(type_idx),
                        *sub == type_table.spec_get(type_idx@),
                        base + sub.spec_total_size() <= u32::MAX,
                        flat0.len() + n <= u32::MAX,
                        field_views(flattened_fields@) == flat0 + added.subrange(0, i as int),
                        text_views(paths@) == paths0 + added_paths.subrange(0, i as int),
                    decreases n - i,
                {
                    let entry = &sub.flattened_fields[i];
                    let path = joined(field.name.as_str(), ".", sub.paths[i].as_str());
                    proof {
                        assert(sub_flat[i as int].offset == entry.1);
                        assert(sub_flat[i as int].offset == prefix_width(sub_flat, i as int));
                        lemma_prefix_width_monotone(sub_flat, i as int, n as int);
                    }
                    let moved: u32 = base + entry.1;
                    let ghost flat_before = field_views(flattened_fields@);
                    let ghost paths_before = text_views(paths@);
                    paths.push(path);
                    flattened_fields.push((entry.0.duplicate(), moved));
                    proof {
                        assert(added_paths[i as int] == field.spec_name() + seq!['.'] + sub.spec_paths()[i as int]);
                        assert(field_views(flattened_fields@) =~= flat_before.push(added[i as int]));
                        assert(text_views(paths@) =~= paths_before.push(added_paths[i as int]));
                        assert(added.subrange(0, i + 1) =~= added.subrange(0, i as int).push(added[i as int]));
                        assert(added_paths.subrange(0, i + 1) =~= added_paths.subrange(0, i as int).push(
                            added_paths[i as int],
                        ));
                        assert(field_views(flattened_fields@) =~= flat0 + added.subrange(0, i + 1));
                        assert(text_views(paths@) =~= paths0 + added_paths.subrange(0, i + 1));
                    }
                    i = i + 1;
                }
                proof {
                    assert(added.subrange(0, n as int) =~= added);
                    assert(added_paths.subrange(0, n as int) =~= added_paths);
                }
                new_size = base + sub.total_size;
            },
            _ => {
                let width: u32 = field.value_type.width();
                paths.push(field.name.clone());
                flattened_fields.push((field.duplicate(), base));
                new_size = base + width;
                proof {
                    assert(field_views(flattened_fields@) =~= flat0 + added);
                    assert(text_views(paths@) =~= paths0 + added_paths);
                }
            },
        }
        let ghost new_field = FieldView {
            name: field.spec_name(),
            value_type: field.spec_value_type(),
            offset: base as nat,
        };
        fields.push((field, base));
        proof {
            let flat = field_views(flattened_fields@);
            let declared = field_views(fields@);
            assert(flat =~= flat0 + added);
            assert(text_views(paths@) =~= paths0 + added_paths);
            assert(declared =~= fields0.push(new_field));
            lemma_expansion_layout(type_table, new_field.name, new_field.value_type, base as nat);
            lemma_extended_layout(flat0, added, base as nat);
            if forall|k: int| 0 <= k < declared.len() ==> !((#[trigger] declared[k]).value_type is LocalData) {
                assert forall|k: int| 0 <= k < fields0.len() implies !((#[trigger] fields0[k]).value_type is LocalData) by {
                    assert(declared[k] == fields0[k]);
                }
                assert(declared[fields0.len() as int] == new_field);
                assert(flat0 == fields0);
                assert(added =~= seq![new_field]);
                assert(flat =~= declared);
            }
        }
        *self = TypeDefinition { name, fields, flattened_fields, paths, total_size: new_size };
    }

    /// The fault for which `field` cannot be added, if it cannot: its type
    /// is not in the table, or the size or the number of flattened fields
    /// would leave 32 bits.
    pub open spec fn add_fault(&self, type_table: &TypeTable, field: &Field) -> Option<Fault> {
        if !field.spec_value_type().known_in(type_table) {
            Some(Fault::IndexOutOfRange)
        } else if !self.can_add(type_table, field) {
            Some(Fault::ArithmeticOverflow)
        } else {
            None
        }
    }

    /// Appends a field as `add_field` does, or rejects it and leaves the
    /// definition as it was.
    pub fn try_add_field(&mut self, type_table: &TypeTable, field: Field) -> (r: Result<(), Fault>)
        ensures
            final(self).wf(),
            match old(self).add_fault(type_table, &field) {
                Some(fault) => r == Err::<(), Fault>(fault) && *final(self) == *old(self),
                None => {
                    &&& r.is_ok()
                    &&& final(self).spec_name() == old(self).spec_name()
                    &&& final(self).spec_fields() == old(self).spec_fields().push(
                        FieldView {
                            name: field.spec_name(),
                            value_type: field.spec_value_type(),
                            offset: old(self).spec_total_size(),
                        },
                    )
                    &&& final(self).spec_flattened() == old(self).spec_flattened() + Self::expansion(
                        type_table,
                        field.spec_name(),
                        field.spec_value_type(),
                        old(self).spec_total_size(),
                    )
                    &&& final(self).spec_paths() == old(self).spec_paths() + Self::expansion_paths(
                        type_table,
                        field.spec_name(),
                        field.spec_value_type(),
                    )
                    &&& final(self).spec_total_size() == old(self).spec_total_size()
                        + field.spec_value_type().spec_size(type_table)
                },
            },
    {
        proof {
            use_type_invariant(&*self);
        }
        let added: u32 = match field.value_type {
            ValueType::LocalData(idx) => {
                if idx.as_usize() >= type_table.len() {
                    return Err(Fault::IndexOutOfRange);
                }
                type_table.get(idx).num_fields()
            },
            _ => 1,
        };
        let size: u32 = field.value_type.size(type_table);
        if size > u32::MAX - self.total_size || added > u32::MAX - self.num_fields() {
            return Err(Fault::ArithmeticOverflow);
        }
        self.add_field(type_table, field);
        Ok(())
    }

    /// The number of flattened fields.
    pub fn num_fields(&self) -> (n: u32)
        ensures
            n == self.spec_flattened().len(),
    {
        proof {
            use_type_invariant(self);
        }
        self.flattened_fields.len() as u32
    }

    /// The byte size of a record of this type: the sum of the widths of its
    /// flattened fields.
    pub fn total_size(&self, type_table: &TypeTable) -> (size: u32)
        ensures
            size == self.spec_total_size(),
    {
        self.total_size
    }

    /// The type and the address of the flattened field `field_idx` of a
    /// record that starts at `ptr`.
    pub fn field_pointer(&self, ptr: Pointer, field_idx: InstructionIndex) -> (r: FieldPointer)
        requires
            field_idx@ < self.spec_flattened().len(),
            ptr@ + self.spec_flattened()[field_idx@ as int].offset <= u64::MAX,
        ensures
            r.0 == self.spec_flattened()[field_idx@ as int].value_type,
            r.1@ == ptr@ + self.spec_flattened()[field_idx@ as int].offset,
    {
        let idx: usize = field_idx.as_usize();
        let entry = &self.flattened_fields[idx];
        (entry.0.value_type, ptr.offset(entry.1))
    }

    /// The index of the flattened field at the given path, whose segments
    /// are joined by dots: the last field added under that path, or `None`
    /// where no field has it.
    pub fn query(&self, path: &[&str]) -> (r: Option<u32>)
        ensures
            match r {
                Some(i) => {
                    &&& i < self.spec_paths().len()
                    &&& self.spec_paths()[i as int] == dotted(path@.map_values(|s: &str| s@))
                    &&& forall|j: int|
                        i < j < self.spec_paths().len() ==> self.spec_paths()[j] != dotted(
                            path@.map_values(|s: &str| s@),
                        )
                },
                None => forall|j: int|
                    0 <= j < self.spec_paths().len() ==> self.spec_paths()[j] != dotted(
                        path@.map_values(|s: &str| s@),
                    ),
            },
    {
        proof {
            use_type_invariant(self);
        }
        let pathname = join_path(path);
        let mut i: usize = self.paths.len();
        while i > 0
            invariant
                i <= self.paths@.len(),
                self.paths@.len() == self.spec_paths().len(),
                self.paths@.len() <= u32::MAX,
                pathname@ == dotted(path@.map_values(|s: &str| s@)),
                forall|j: int| i <= j < self.paths@.len() ==> self.spec_paths()[j] != pathname@,
            decreases i,
        {
            i = i - 1;
            if self.paths[i] == pathname {
                assert(self.spec_paths()[i as int] == pathname@);
                return Some(i as u32);
            }
            assert(self.spec_paths()[i as int] != pathname@);
        }
        None
    }

    /// The flattened field `field_idx` with its offset.
    pub fn get(&self, field_idx: u32) -> (r: &FieldOffset)
        requires
            field_idx < self.spec_flattened().len(),
        ensures
            r.0.spec_name() == self.spec_flattened()[field_idx as int].name,
            r.0.spec_value_type() == self.spec_flattened()[field_idx as int].value_type,
            r.1 == self.spec_flattened()[field_idx as int].offset,
    {
        &self.flattened_fields[field_idx as usize]
    }

    /// The declared field `field_idx` with its offset.
    pub fn declared(&self, field_idx: u32) -> (r: &FieldOffset)
        requires
            field_idx < self.spec_fields().len(),
        ensures
            r.0.spec_name() == self.spec_fields()[field_idx as int].name,
            r.0.spec_value_type() == self.spec_fields()[field_idx as int].value_type,
            r.1 == self.spec_fields()[field_idx as int].offset,
    {
        &self.fields[field_idx as usize]
    }

    /// The type's name.
    pub fn name(&self) -> (r: &TypeId)
        ensures
            r@ == self.spec_name(),
    {
        &self.name
    }
}

/// What a field adds to a layout is packed from `base` on, holds no
/// embedded record, has one path for each field, and is as wide as the
/// field's type is large.
pub proof fn lemma_expansion_layout(type_table: &TypeTable, name: Seq<char>, value_type: ValueType, base: nat)
    requires
        type_table.wf(),
        value_type.known_in(type_table),
    ensures
        forall|j: int|
            0 <= j < TypeDefinition::expansion(type_table, name, value_type, base).len() ==> {
                &&& (#[trigger] TypeDefinition::expansion(type_table, name, value_type, base)[j]).offset == base
                    + prefix_width(TypeDefinition::expansion(type_table, name, value_type, base), j)
                &&& !(TypeDefinition::expansion(type_table, name, value_type, base)[j].value_type is LocalData)
            },
        prefix_width(
            TypeDefinition::expansion(type_table, name, value_type, base),
            TypeDefinition::expansion(type_table, name, value_type, base).len() as int,
        ) == value_type.spec_size(type_table),
        TypeDefinition::expansion_paths(type_table, name, value_type).len() == TypeDefinition::expansion(
            type_table,
            name,
            value_type,
            base,
        ).len(),
{
    let added = TypeDefinition::expansion(type_table, name, value_type, base);
    match value_type {
        ValueType::LocalData(idx) => {
            let sub = type_table.spec_get(idx@);
            assert(sub.wf());
            let sub_flat = sub.spec_flattened();
            assert forall|j: int| 0 <= j < added.len() implies (#[trigger] added[j]).offset == base + prefix_width(
                added,
                j,
            ) && !(added[j].value_type is LocalData) by {
                assert(sub_flat[j].offset == prefix_width(sub_flat, j));
                lemma_prefix_width_moved(sub_flat, added, j);
            }
            lemma_prefix_width_moved(sub_flat, added, added.len() as int);
        },
        _ => {
            assert(prefix_width(added, 1) == prefix_width(added, 0) + added[0].value_type.spec_width());
        },
    }
}

/// A packed layout followed by fields packed from its end on is packed.
pub proof fn lemma_extended_layout(front: Seq<FieldView>, back: Seq<FieldView>, base: nat)
    requires
        forall|i: int|
            0 <= i < front.len() ==> (#[trigger] front[i]).offset == prefix_width(front, i) && !(front[i].value_type is LocalData),
        base == prefix_width(front, front.len() as int),
        forall|j: int|
            0 <= j < back.len() ==> (#[trigger] back[j]).offset == base + prefix_width(back, j)
                && !(back[j].value_type is LocalData),
    ensures
        forall|i: int|
            0 <= i < (front + back).len() ==> (#[trigger] (front + back)[i]).offset == prefix_width(
                front + back,
                i,
            ) && !((front + back)[i].value_type is LocalData),
        prefix_width(front + back, (front + back).len() as int) == base + prefix_width(
            back,
            back.len() as int,
        ),
{
    let all = front + back;
    lemma_prefix_width_concat(front, back, back.len() as int);
    assert forall|i: int| 0 <= i < all.len() implies (#[trigger] all[i]).offset == prefix_width(all, i) && !(all[i].value_type is LocalData) by {
        if i < front.len() {
            assert(all[i] == front[i]);
            lemma_prefix_width_front(front, back, i);
        } else {
            assert(all[i] == back[i - front.len()]);
            lemma_prefix_width_concat(front, back, i - front.len());
        }
    }
}

/// The segments joined by dots.
pub fn join_path(path: &[&str]) -> (r: String)
    ensures
        r@ == dotted(path@.map_values(|s: &str| s@)),
{
    let ghost segments = path@.map_values(|s: &str| s@);
    let mut r = String::new();
    let mut i: usize = 0;
    proof {
        reveal_strlit(".");
        assert("."@ =~= seq!['.']);
        assert(segments.subrange(0, 0) =~= Seq::<Seq<char>>::empty());
    }
    while i < path.len()
        invariant
            i <= path@.len(),
            segments == path@.map_values(|s: &str| s@),
            "."@ == seq!['.'],
            r@ == dotted(segments.subrange(0, i as int)),
        decreases path@.len() - i,
    {
        proof {
            let next = segments.subrange(0, i + 1);
            assert(next.drop_last() =~= segments.subrange(0, i as int));
            assert(next.last() == path@[i as int]@);
            if i == 0 {
                assert(r@ =~= Seq::<char>::empty());
            }
        }
        if i > 0 {
            r.append(".");
        }
        r.append(path[i]);
        proof {
            let next = segments.subrange(0, i + 1);
            if i == 0 {
                assert(r@ =~= next[0]);
            }
            assert(r@ =~= dotted(next));
        }
        i = i + 1;
    }
    proof {
        assert(segments.subrange(0, i as int) =~= segments);
    }
    r
}

/// The widths summed up to `n` do not exceed those summed up to `m`.
pub proof fn lemma_prefix_width_monotone(fields: Seq<FieldView>, n: int, m: int)
    requires
        n <= m,
    ensures
        prefix_width(fields, n) <= prefix_width(fields, m),
    decreases m - n,
{
    if n < m {
        lemma_prefix_width_monotone(fields, n, m - 1);
    }
}

/// Moving fields to other offsets or names does not change their widths.
pub proof fn lemma_prefix_width_moved(fields: Seq<FieldView>, moved: Seq<FieldView>, n: int)
    requires
        n <= fields.len(),
        fields.len() == moved.len(),
        forall|i: int| 0 <= i < fields.len() ==> (#[trigger] moved[i]).value_type == fields[i].value_type,
    ensures
        prefix_width(moved, n) == prefix_width(fields, n),
    decreases n,
{
    if n > 0 {
        lemma_prefix_width_moved(fields, moved, n - 1);
    }
}

/// The widths of a prefix of `front` are the same within `front + back`.
pub proof fn lemma_prefix_width_front(front: Seq<FieldView>, back: Seq<FieldView>, n: int)
    requires
        n <= front.len(),
    ensures
        prefix_width(front + back, n) == prefix_width(front, n),
    decreases n,
{
    if n > 0 {
        lemma_prefix_width_front(front, back, n - 1);
        assert((front + back)[n - 1] == front[n - 1]);
    }
}

/// Within `front + back`, the widths up to the `n`-th field of `back` are
/// those of all of `front` and of the first `n` fields of `back`.
pub proof fn lemma_prefix_width_concat(front: Seq<FieldView>, back: Seq<FieldView>, n: int)
    requires
        0 <= n <= back.len(),
    ensures
        prefix_width(front + back, front.len() + n) == prefix_width(front, front.len() as int)
            + prefix_width(back, n),
    decreases n,
{
    if n > 0 {
        lemma_prefix_width_concat(front, back, n - 1);
        assert((front + back)[front.len() + n - 1] == back[n - 1]);
    } else {
        lemma_prefix_width_front(front, back, front.len() as int);
    }
}

/// A record declared with scalar fields only is laid out as declared: its
/// flattened fields are its declared fields, the first at offset `0` and
/// each next one where the one before ends, and its total size is the sum of
/// the fields' widths.
pub proof fn lemma_scalar_record_layout(definition: &TypeDefinition)
    requires
        definition.wf(),
        forall|k: int|
            0 <= k < definition.spec_fields().len() ==> (#[trigger] definition.spec_fields()[k]).value_type.spec_is_primitive(),
    ensures
        definition.spec_flattened() == definition.spec_fields(),
        definition.spec_total_size() == prefix_width(
            definition.spec_fields(),
            definition.spec_fields().len() as int,
        ),
        forall|i: int|
            0 <= i < definition.spec_fields().len() ==> (#[trigger] definition.spec_flattened()[i]).offset
                == prefix_width(definition.spec_fields(), i),
        definition.spec_fields().len() > 0 ==> definition.spec_flattened()[0].offset == 0,
        forall|i: int|
            0 <= i < definition.spec_fields().len() - 1 ==> (#[trigger] definition.spec_flattened()[i
                + 1]).offset == definition.spec_flattened()[i].offset
                + definition.spec_fields()[i].value_type.spec_width(),
{
    let fields = definition.spec_fields();
    assert forall|k: int| 0 <= k < fields.len() implies !((#[trigger] fields[k]).value_type is LocalData) by {
        assert(fields[k].value_type.spec_is_primitive());
    }
    assert forall|i: int| 0 <= i < fields.len() - 1 implies (#[trigger] definition.spec_flattened()[i
        + 1]).offset == definition.spec_flattened()[i].offset + fields[i].value_type.spec_width() by {
        assert(definition.spec_flattened()[i].offset == prefix_width(fields, i));
        assert(prefix_width(fields, i + 1) == prefix_width(fields, i) + fields[i].value_type.spec_width());
    }
}

/// Whatever a record embeds, its flattened fields hold no embedded record,
/// are packed in order from offset `0` on, and add up to the total size.
pub proof fn lemma_flattened_layout(definition: &TypeDefinition)
    requires
        definition.wf(),
    ensures
        forall|i: int|
            0 <= i < definition.spec_flattened().len() ==> !((#[trigger] definition.spec_flattened()[i]).value_type is LocalData),
        forall|i: int, j: int|
            0 <= i <= j < definition.spec_flattened().len() ==> (#[trigger] definition.spec_flattened()[i]).offset
                <= (#[trigger] definition.spec_flattened()[j]).offset,
        forall|i: int|
            0 <= i < definition.spec_flattened().len() ==> (#[trigger] definition.spec_flattened()[i]).offset
                + definition.spec_flattened()[i].value_type.spec_width() <= definition.spec_total_size(),
        definition.spec_total_size() == prefix_width(
            definition.spec_flattened(),
            definition.spec_flattened().len() as int,
        ),
{
    let flat = definition.spec_flattened();
    assert forall|i: int, j: int| 0 <= i <= j < flat.len() implies (#[trigger] flat[i]).offset <= (#[trigger] flat[j]).offset by {
        lemma_prefix_width_monotone(flat, i, j);
    }
    assert forall|i: int| 0 <= i < flat.len() implies (#[trigger] flat[i]).offset + flat[i].value_type.spec_width()
        <= definition.spec_total_size() by {
        assert(prefix_width(flat, i + 1) == prefix_width(flat, i) + flat[i].value_type.spec_width());
        lemma_prefix_width_monotone(flat, i + 1, flat.len() as int);
    }
}

/// The fully-qualified name of a record type. Its view is the name's
/// characters.
#[derive(Debug, Clone, PartialEq, Eq, Hash)]
pub struct TypeId {
    fq_name: String,
}

impl View for TypeId {
    type V = Seq<char>;

    closed spec fn view(&self) -> Seq<char> {
        self.fq_name@
    }
}

impl TypeId {
    pub fn new(module_name: &ModuleName, symbol: &str) -> (id: Self)
        ensures
            id@ == crate::function::qualified(module_name@, symbol@),
    {
        proof {
            reveal_strlit("::");
            assert("::"@ =~= seq![':', ':']);
        }
        TypeId { fq_name: joined(module_name.name(), "::", symbol) }
    }

    /// The name as text.
    pub fn as_str(&self) -> (r: &str)
        ensures
            r@ == self@,
    {
        self.fq_name.as_str()
    }
}

/// The record types of a program, in order of insertion. A type is found by
/// its index or by its name; no two types share a name.
pub struct TypeTable {
    types: Vec<TypeDefinition>,
}

impl TypeTable {
    /// The number of types.
    pub closed spec fn spec_len(&self) -> nat {
        self.types@.len()
    }

    /// The type at `idx`.
    pub closed spec fn spec_get(&self, idx: nat) -> TypeDefinition {
        self.types@[idx as int]
    }

    /// The byte size of the type at `idx`; `0` where there is none.
    pub open spec fn spec_size(&self, idx: nat) -> nat {
        if idx < self.spec_len() {
            self.spec_get(idx).spec_total_size()
        } else {
            0
        }
    }

    /// Whether a type of that name is in the table.
    pub open spec fn spec_contains(&self, name: Seq<char>) -> bool {
        exists|i: nat| i < self.spec_len() && (#[trigger] self.spec_get(i)).spec_name() == name
    }

    /// Every type is well-formed, names are distinct, and every index fits
    /// a 24-bit immediate. Every table is so.
    #[verifier::type_invariant]
    pub open spec fn wf(&self) -> bool {
        &&& self.spec_len() <= 0x1000000
        &&& forall|i: nat| i < self.spec_len() ==> (#[trigger] self.spec_get(i)).wf()
        &&& forall|i: nat, j: nat|
            i < self.spec_len() && j < self.spec_len() && i != j ==> (#[trigger] self.spec_get(i)).spec_name()
                != (#[trigger] self.spec_get(j)).spec_name()
    }

    pub fn new() -> (r: Self)
        ensures
            r.wf(),
            r.spec_len() == 0,
    {
        TypeTable { types: Vec::new() }
    }

    /// The number of types.
    pub fn len(&self) -> (n: usize)
        ensures
            n == self.spec_len(),
    {
        self.types.len()
    }

    /// The index of the type named `fq_name`, or `None` where the table
    /// holds none of that name.
    pub fn find(&self, fq_name: &str) -> (r: Option<TypeIndex>)
        ensures
            r is Some <==> self.spec_contains(fq_name@),
            r matches Some(idx) ==> idx@ < self.spec_len() && self.spec_get(idx@).spec_name() == fq_name@,
    {
        proof {
            use_type_invariant(self);
        }
        let mut i: usize = 0;
        while i < self.types.len()
            invariant
                i <= self.types@.len(),
                self.types@.len() <= 0x1000000,
                forall|j: nat| j < i ==> (#[trigger] self.spec_get(j)).spec_name() != fq_name@,
            decreases self.types@.len() - i,
        {
            if same_text(self.types[i].name.as_str(), fq_name) {
                assert(self.spec_get(i as nat).spec_name() == fq_name@);
                return Some(TypeIndex::from_usize(i));
            }
            i = i + 1;
        }
        None
    }

    /// Appends a definition whose name is not yet in the table, and returns
    /// its index. The types already there keep their indices.
    pub fn insert(&mut self, definition: TypeDefinition) -> (idx: TypeIndex)
        requires
            old(self).spec_len() < 0x1000000,
            !old(self).spec_contains(definition.spec_name()),
        ensures
            final(self).wf(),
            idx@ == old(self).spec_len(),
            final(self).spec_len() == old(self).spec_len() + 1,
            final(self).spec_get(idx@) == definition,
            forall|i: nat| i < old(self).spec_len() ==> final(self).spec_get(i) == old(self).spec_get(i),
    {
        proof {
            use_type_invariant(&*self);
            use_type_invariant(&definition);
        }
        let mut taken = TypeTable::new();
        core::mem::swap(self, &mut taken);
        let TypeTable { mut types } = taken;
        let idx = TypeIndex::from_usize(types.len());
        types.push(definition);
        proof {
            let grown = TypeTable { types };
            let n = old(self).spec_len();
            assert(grown.spec_get(n) == definition);
            assert forall|i: nat| i < grown.spec_len() implies (#[trigger] grown.spec_get(i)).wf() by {
                if i < n {
                    assert(grown.spec_get(i) == old(self).spec_get(i));
                }
            }
            assert forall|i: nat, j: nat|
                i < grown.spec_len() && j < grown.spec_len() && i != j implies (#[trigger] grown.spec_get(
                    i,
                )).spec_name() != (#[trigger] grown.spec_get(j)).spec_name() by {
                if i < n {
                    assert(grown.spec_get(i) == old(self).spec_get(i));
                    assert(old(self).spec_get(i).spec_name() != definition.spec_name());
                }
                if j < n {
                    assert(grown.spec_get(j) == old(self).spec_get(j));
                    assert(old(self).spec_get(j).spec_name() != definition.spec_name());
                }
            }
            assert(grown.wf());
        }
        *self = TypeTable { types };
        idx
    }

    /// Appends a definition and returns its index, or rejects it and
    /// leaves the table as it was: as a duplicate where its name is in the
    /// table already, and else as out of range where the table is full.
    pub fn try_insert(&mut self, definition: TypeDefinition) -> (r: Result<TypeIndex, Fault>)
        ensures
            final(self).wf(),
            old(self).spec_contains(definition.spec_name()) ==> r == Err::<TypeIndex, Fault>(
                Fault::DuplicateRegistration,
            ) && *final(self) == *old(self),
            !old(self).spec_contains(definition.spec_name()) && old(self).spec_len() >= 0x1000000 ==> r
                == Err::<TypeIndex, Fault>(Fault::IndexOutOfRange) && *final(self) == *old(self),
            !old(self).spec_contains(definition.spec_name()) && old(self).spec_len() < 0x1000000 ==> {
                &&& r.is_ok()
                &&& r.unwrap()@ == old(self).spec_len()
                &&& final(self).spec_len() == old(self).spec_len() + 1
                &&& final(self).spec_get(old(self).spec_len()) == definition
                &&& forall|i: nat| i < old(self).spec_len() ==> final(self).spec_get(i) == old(self).spec_get(i)
            },
    {
        proof {
            use_type_invariant(&*self);
        }
        if self.find(definition.name.as_str()).is_some() {
            Err(Fault::DuplicateRegistration)
        } else if self.types.len() >= 0x1000000 {
            Err(Fault::IndexOutOfRange)
        } else {
            Ok(self.insert(definition))
        }
    }

    /// The index of the type named `fq_name`, which must be in the table.
    pub fn index_of(&self, fq_name: &str) -> (idx: TypeIndex)
        requires
            self.spec_contains(fq_name@),
        ensures
            idx@ < self.spec_len(),
            self.spec_get(idx@).spec_name() == fq_name@,
    {
        self.find(fq_name).unwrap()
    }

    /// The type at `idx`, which must be in the table.
    pub fn get(&self, idx: TypeIndex) -> (r: &TypeDefinition)
        requires
            idx@ < self.spec_len(),
        ensures
            *r == self.spec_get(idx@),
            r.wf(),
    {
        proof {
            use_type_invariant(self);
            assert(self.spec_get(idx@).wf());
        }
        &self.types[idx.as_usize()]
    }

    /// The byte size of the type at `idx`, which must be in the table.
    pub fn size(&self, idx: TypeIndex) -> (r: u32)
        requires
            idx@ < self.spec_len(),
        ensures
            r == self.spec_size(idx@),
    {
        self.types[idx.as_usize()].total_size
    }
}

impl Default for TypeTable {
    fn default() -> (r: Self)
        ensures
            r.wf(),
            r.spec_len() == 0,
    {
        Self::new()
    }
}

} // verus!
