//! The per-function state of the Cranelift back end: the builder, the type
//! context, the chain of lexical scopes and the generic definitions.
use vstd::prelude::*;
use vstd::hash_map::StringHashMap;
use vstd::string::StringExecFns;
use crate::text::str_eq;
use cranelift::prelude::{FunctionBuilder, Value};
use crate::clif::{
    appended, binary_appended, binary_ready, builder_binaries, builder_compare, builder_fdiv,
    builder_iadd, builder_iadd_imm, builder_iconst, builder_iconsts, builder_imm_adds, builder_imul,
    builder_isub, builder_positioned, builder_store, builder_stores, builder_defines, masked_imm,
    ClifInt,
};
use crate::infix::InfixInst;
use indexmap::IndexMap;
use crate::ast::{Ty, TypeContext};
use crate::generic::{CompiledGenericInfo, GenericInfo};
use crate::index_map::{
    compiled_map_entries, compiled_map_insert, compiled_map_new, compiled_map_shift_remove,
    entries_get, entries_insert, entries_shift_remove, generic_map_entries, keys_distinct,
    lemma_insert_distinct, lemma_key_index, law_remove_leaves_no_entry, lemma_update_distinct, generic_map_get, generic_map_get_mut, key_index,
    generic_map_insert, generic_map_new,
};

verus! {

/// The memory layout of a struct: its size, its fields in order and their offsets.
pub struct StructLayout {
    pub size: u32,
    pub fields: Vec<(String, Ty)>,
    pub offsets: Vec<u32>,
}

/// The position of the first field named `name`.
pub open spec fn field_position(fields: Seq<(String, Ty)>, name: Seq<char>) -> Option<int>
    decreases fields.len(),
{
    if fields.len() == 0 {
        None
    } else {
        match field_position(fields.drop_last(), name) {
            Some(i) => Some(i),
            None => if fields.last().0@ == name {
                Some(fields.len() - 1)
            } else {
                None
            },
        }
    }
}

impl StructLayout {
    /// The offset of the field named `name` (its first occurrence).
    pub fn field_offset(&self, name: &str) -> (offset: u32)
        requires
            field_position(self.fields@, name@) matches Some(i) && i < self.offsets@.len(),
        ensures
            field_position(self.fields@, name@) matches Some(i) && offset == self.offsets@[i],
    {
        let mut i: usize = 0;
        while i < self.fields.len()
            invariant
                i <= self.fields@.len(),
                field_position(self.fields@.take(i as int), name@) is None,
                field_position(self.fields@, name@) matches Some(k) && k < self.offsets@.len(),
            decreases self.fields@.len() - i,
        {
            proof {
                assert(self.fields@.take(i + 1).drop_last() =~= self.fields@.take(i as int));
            }
            if str_eq(self.fields[i].0.as_str(), name) {
                proof {
                    lemma_field_position_prefix(self.fields@, i + 1, name@);
                }
                return self.offsets[i];
            }
            i += 1;
        }
        proof {
            assert(self.fields@.take(self.fields@.len() as int) =~= self.fields@);
        }
        0
    }
}

/// Two layouts with the same size, fields and offsets.
pub open spec fn same_layout(a: StructLayout, b: StructLayout) -> bool {
    &&& a.size == b.size
    &&& a.fields@ == b.fields@
    &&& a.offsets@ == b.offsets@
}

/// Every name in `names` is a field of the layout with an offset.
pub open spec fn covers(layout: StructLayout, names: Seq<Seq<char>>) -> bool {
    forall|i: int|
        0 <= i < names.len() ==> (#[trigger] field_position(layout.fields@, names[i]) matches Some(
            k,
        ) && k < layout.offsets@.len())
}

impl StructLayout {
    /// A copy of the layout.
    pub fn duplicate(&self) -> (c: StructLayout)
        ensures
            same_layout(c, *self),
    {
        let mut fields: Vec<(String, Ty)> = Vec::new();
        let mut i: usize = 0;
        while i < self.fields.len()
            invariant
                i <= self.fields@.len(),
                fields@ == self.fields@.take(i as int),
            decreases self.fields@.len() - i,
        {
            let name = self.fields[i].0.clone();
            fields.push((name, self.fields[i].1));
            i += 1;
            assert(fields@ =~= self.fields@.take(i as int));
        }
        let mut offsets: Vec<u32> = Vec::new();
        let mut j: usize = 0;
        while j < self.offsets.len()
            invariant
                j <= self.offsets@.len(),
                offsets@ == self.offsets@.take(j as int),
            decreases self.offsets@.len() - j,
        {
            offsets.push(self.offsets[j]);
            j += 1;
            assert(offsets@ =~= self.offsets@.take(j as int));
        }
        assert(fields@ =~= self.fields@);
        assert(offsets@ =~= self.offsets@);
        StructLayout { size: self.size, fields, offsets }
    }
}

/// The first field named `name` in a prefix that has one is the first in the whole list.
pub proof fn lemma_field_position_prefix(fields: Seq<(String, Ty)>, k: int, name: Seq<char>)
    requires
        0 <= k <= fields.len(),
        field_position(fields.take(k), name) is Some,
    ensures
        field_position(fields, name) == field_position(fields.take(k), name),
    decreases fields.len(),
{
    if k < fields.len() {
        assert(fields.drop_last().take(k) =~= fields.take(k));
        lemma_field_position_prefix(fields.drop_last(), k, name);
    } else {
        assert(fields.take(k) =~= fields);
    }
}

/// What a name stands for.
pub enum SymbolTy {
    Struct(StructLayout),
    Variable(Ty),
}

/// The names defined in one lexical scope.
pub struct SymbolTable {
    symbols: StringHashMap<SymbolTy>,
}

impl View for SymbolTable {
    type V = Map<Seq<char>, SymbolTy>;

    closed spec fn view(&self) -> Map<Seq<char>, SymbolTy> {
        self.symbols@
    }
}

impl SymbolTable {
    /// A scope with no names.
    pub fn new() -> (t: Self)
        ensures
            t@ == Map::<Seq<char>, SymbolTy>::empty(),
    {
        SymbolTable { symbols: StringHashMap::new() }
    }

    /// Defines `name` as a struct with the given layout.
    pub fn define_struct_type(&mut self, name: &str, layout: StructLayout)
        ensures
            final(self)@ == old(self)@.insert(name@, SymbolTy::Struct(layout)),
    {
        self.symbols.insert(String::from_str(name), SymbolTy::Struct(layout));
    }

    /// Defines `name` as a variable of type `ty`.
    pub fn define_variable(&mut self, name: &str, ty: Ty)
        ensures
            final(self)@ == old(self)@.insert(name@, SymbolTy::Variable(ty)),
    {
        self.symbols.insert(String::from_str(name), SymbolTy::Variable(ty));
    }

    /// What `name` stands for in this scope alone.
    pub fn get_local(&self, name: &str) -> (r: Option<&SymbolTy>)
        ensures
            match r {
                Some(s) => self@.contains_key(name@) && self@[name@] == *s,
                None => !self@.contains_key(name@),
            },
    {
        self.symbols.get(name)
    }
}

/// What `name` stands for in a chain of scopes (outermost first): the
/// innermost definition.
pub open spec fn lookup_in(scopes: Seq<Map<Seq<char>, SymbolTy>>, name: Seq<char>) -> Option<SymbolTy>
    decreases scopes.len(),
{
    if scopes.len() == 0 {
        None
    } else if scopes.last().contains_key(name) {
        Some(scopes.last()[name])
    } else {
        lookup_in(scopes.drop_last(), name)
    }
}

/// The chain of scopes after entering a new, empty scope.
pub open spec fn entered(scopes: Seq<Map<Seq<char>, SymbolTy>>) -> Seq<Map<Seq<char>, SymbolTy>> {
    scopes.push(Map::empty())
}

/// Leaving the innermost scope: the scope left and the chain that remains,
/// or nothing when the innermost scope has no outer scope.
pub open spec fn left(scopes: Seq<Map<Seq<char>, SymbolTy>>) -> Option<
    (Map<Seq<char>, SymbolTy>, Seq<Map<Seq<char>, SymbolTy>>),
> {
    if scopes.len() > 1 {
        Some((scopes.last(), scopes.drop_last()))
    } else {
        None
    }
}

/// The chain of scopes after defining `name` in the innermost one.
pub open spec fn defined(
    scopes: Seq<Map<Seq<char>, SymbolTy>>,
    name: Seq<char>,
    sym: SymbolTy,
) -> Seq<Map<Seq<char>, SymbolTy>> {
    scopes.update(scopes.len() - 1, scopes.last().insert(name, sym))
}

/// The state of the function being compiled.
pub struct FunctionState<'a> {
    pub builder: FunctionBuilder<'a>,
    pub tcx: TypeContext,
    scopes: Vec<SymbolTable>,
    generic_map: IndexMap<String, GenericInfo>,
    compiled_generic_map: IndexMap<String, CompiledGenericInfo>,
}

impl<'a> FunctionState<'a> {
    /// The chain of scopes, outermost first.
    pub closed spec fn scopes(&self) -> Seq<Map<Seq<char>, SymbolTy>> {
        self.scopes@.map_values(|t: SymbolTable| t@)
    }

    /// The Cranelift builder of the function.
    pub closed spec fn fn_builder(&self) -> FunctionBuilder<'a> {
        self.builder
    }

    /// The type context.
    pub closed spec fn type_context(&self) -> TypeContext {
        self.tcx
    }

    /// There is always a current scope, and no name occurs twice in the
    /// generic tables.
    pub open spec fn wf(&self) -> bool {
        &&& self.scopes().len() > 0
        &&& keys_distinct(self.generic_defs())
        &&& keys_distinct(self.compiled_generic_defs())
    }

    /// The generic definitions, in the order they were first pushed.
    pub closed spec fn generic_defs(&self) -> Seq<(Seq<char>, GenericInfo)> {
        generic_map_entries(self.generic_map)
    }

    /// The compiled generic instances, in the order they were first pushed.
    pub closed spec fn compiled_generic_defs(&self) -> Seq<(Seq<char>, CompiledGenericInfo)> {
        compiled_map_entries(self.compiled_generic_map)
    }

    /// A state with one empty scope and no generic definitions.
    pub fn new(builder: FunctionBuilder<'a>, tcx: TypeContext) -> (s: Self)
        ensures
            s.wf(),
            s.scopes() == seq![Map::<Seq<char>, SymbolTy>::empty()],
            s.fn_builder() == builder,
            s.type_context() == tcx,
            s.generic_defs() == Seq::<(Seq<char>, GenericInfo)>::empty(),
            s.compiled_generic_defs() == Seq::<(Seq<char>, CompiledGenericInfo)>::empty(),
    {
        let mut scopes: Vec<SymbolTable> = Vec::new();
        scopes.push(SymbolTable::new());
        let s = FunctionState {
            builder,
            tcx,
            scopes,
            generic_map: generic_map_new(),
            compiled_generic_map: compiled_map_new(),
        };
        assert(s.scopes() =~= seq![Map::<Seq<char>, SymbolTy>::empty()]);
        s
    }

    /// Opens a new, empty scope inside the current one.
    pub fn enter_scope(&mut self)
        requires
            old(self).wf(),
        ensures
            final(self).wf(),
            final(self).scopes() == entered(old(self).scopes()),
            final(self).fn_builder() == old(self).fn_builder(),
            final(self).type_context() == old(self).type_context(),
            final(self).generic_defs() == old(self).generic_defs(),
            final(self).compiled_generic_defs() == old(self).compiled_generic_defs(),
    {
        self.scopes.push(SymbolTable::new());
        assert(self.scopes() =~= entered(old(self).scopes()));
    }

    /// Closes the current scope and returns it, making its outer scope
    /// current; returns `None` and changes nothing when the current scope has
    /// no outer scope.
    pub fn leave_scope(&mut self) -> (r: Option<SymbolTable>)
        requires
            old(self).wf(),
        ensures
            final(self).wf(),
            match left(old(self).scopes()) {
                Some((t, rest)) => r matches Some(table) && table@ == t && final(self).scopes()
                    == rest,
                None => r is None && final(self).scopes() == old(self).scopes(),
            },
            final(self).fn_builder() == old(self).fn_builder(),
            final(self).type_context() == old(self).type_context(),
            final(self).generic_defs() == old(self).generic_defs(),
            final(self).compiled_generic_defs() == old(self).compiled_generic_defs(),
    {
        if self.scopes.len() <= 1 {
            return None;
        }
        let before_leave_table = self.scopes.pop().unwrap();
        assert(self.scopes() =~= old(self).scopes().drop_last());
        Some(before_leave_table)
    }

    /// Defines `name` as a struct with the given layout in the current scope.
    pub fn define_struct_type(&mut self, name: &str, layout: StructLayout)
        requires
            old(self).wf(),
        ensures
            final(self).wf(),
            final(self).scopes() == defined(old(self).scopes(), name@, SymbolTy::Struct(layout)),
            final(self).fn_builder() == old(self).fn_builder(),
            final(self).type_context() == old(self).type_context(),
            final(self).generic_defs() == old(self).generic_defs(),
            final(self).compiled_generic_defs() == old(self).compiled_generic_defs(),
    {
        let ghost sym = SymbolTy::Struct(layout);
        let mut table = self.scopes.pop().unwrap();
        table.define_struct_type(name, layout);
        self.scopes.push(table);
        assert(self.scopes() =~= defined(old(self).scopes(), name@, sym));
    }

    /// Defines `name` as a variable of type `ty` in the current scope.
    pub fn define_variable(&mut self, name: &str, ty: Ty)
        requires
            old(self).wf(),
        ensures
            final(self).wf(),
            final(self).scopes() == defined(old(self).scopes(), name@, SymbolTy::Variable(ty)),
            final(self).fn_builder() == old(self).fn_builder(),
            final(self).type_context() == old(self).type_context(),
            final(self).generic_defs() == old(self).generic_defs(),
            final(self).compiled_generic_defs() == old(self).compiled_generic_defs(),
    {
        let mut table = self.scopes.pop().unwrap();
        table.define_variable(name, ty);
        self.scopes.push(table);
        assert(self.scopes() =~= defined(old(self).scopes(), name@, SymbolTy::Variable(ty)));
    }

    /// The type context.
    pub fn types(&self) -> (t: &TypeContext)
        ensures
            *t == self.type_context(),
    {
        &self.tcx
    }

    /// Inserts the integer constant `imm` of type `ty` into the current block.
    pub fn emit_iconst(&mut self, ty: ClifInt, imm: i64) -> (v: Value)
        requires
            builder_positioned(old(self).fn_builder()),
        ensures
            appended(old(self).fn_builder(), final(self).fn_builder(), v),
            builder_iconsts(final(self).fn_builder()) == builder_iconsts(old(self).fn_builder()).push(
                (ty, masked_imm(ty, imm), v),
            ),
            builder_binaries(final(self).fn_builder()) == builder_binaries(old(self).fn_builder()),
            builder_imm_adds(final(self).fn_builder()) == builder_imm_adds(old(self).fn_builder()),
            builder_stores(final(self).fn_builder()) == builder_stores(old(self).fn_builder()),
            final(self).scopes() == old(self).scopes(),
            final(self).wf() == old(self).wf(),
            final(self).type_context() == old(self).type_context(),
            final(self).generic_defs() == old(self).generic_defs(),
            final(self).compiled_generic_defs() == old(self).compiled_generic_defs(),
    {
        builder_iconst(&mut self.builder, ty, imm)
    }

    /// Inserts the instruction `inst` on `x` and `y` into the current block.
    pub fn emit_binary(&mut self, inst: InfixInst, x: Value, y: Value) -> (v: Value)
        requires
            binary_ready(old(self).fn_builder(), x, y),
        ensures
            binary_appended(old(self).fn_builder(), final(self).fn_builder(), inst, x, y, v),
            builder_imm_adds(final(self).fn_builder()) == builder_imm_adds(old(self).fn_builder()),
            builder_stores(final(self).fn_builder()) == builder_stores(old(self).fn_builder()),
            final(self).scopes() == old(self).scopes(),
            final(self).wf() == old(self).wf(),
            final(self).type_context() == old(self).type_context(),
            final(self).generic_defs() == old(self).generic_defs(),
            final(self).compiled_generic_defs() == old(self).compiled_generic_defs(),
    {
        match inst {
            InfixInst::Iadd => builder_iadd(&mut self.builder, x, y),
            InfixInst::Isub => builder_isub(&mut self.builder, x, y),
            InfixInst::Imul => builder_imul(&mut self.builder, x, y),
            InfixInst::Fdiv => builder_fdiv(&mut self.builder, x, y),
            InfixInst::Icmp(cc) => builder_compare(&mut self.builder, cc, x, y),
        }
    }

    /// Inserts the addition of the immediate `imm` to `x` into the current block.
    pub fn emit_iadd_imm(&mut self, x: Value, imm: i64) -> (v: Value)
        requires
            builder_positioned(old(self).fn_builder()),
            builder_defines(old(self).fn_builder(), x),
        ensures
            appended(old(self).fn_builder(), final(self).fn_builder(), v),
            builder_imm_adds(final(self).fn_builder()) == builder_imm_adds(old(self).fn_builder()).push(
                (x, imm, v),
            ),
            builder_stores(final(self).fn_builder()) == builder_stores(old(self).fn_builder()),
            final(self).scopes() == old(self).scopes(),
            final(self).wf() == old(self).wf(),
            final(self).type_context() == old(self).type_context(),
            final(self).generic_defs() == old(self).generic_defs(),
            final(self).compiled_generic_defs() == old(self).compiled_generic_defs(),
    {
        builder_iadd_imm(&mut self.builder, x, imm)
    }

    /// Inserts a store of `x` at the address `p` into the current block.
    pub fn emit_store(&mut self, x: Value, p: Value)
        requires
            builder_positioned(old(self).fn_builder()),
            builder_defines(old(self).fn_builder(), x),
            builder_defines(old(self).fn_builder(), p),
        ensures
            builder_positioned(final(self).fn_builder()),
            forall|w: Value|
                builder_defines(old(self).fn_builder(), w) ==> #[trigger] builder_defines(
                    final(self).fn_builder(),
                    w,
                ),
            builder_imm_adds(final(self).fn_builder()) == builder_imm_adds(old(self).fn_builder()),
            builder_stores(final(self).fn_builder()) == builder_stores(old(self).fn_builder()).push(
                (x, p),
            ),
            final(self).scopes() == old(self).scopes(),
            final(self).wf() == old(self).wf(),
            final(self).type_context() == old(self).type_context(),
            final(self).generic_defs() == old(self).generic_defs(),
            final(self).compiled_generic_defs() == old(self).compiled_generic_defs(),
    {
        builder_store(&mut self.builder, x, p)
    }

    /// What `name` stands for: its definition in the innermost scope that
    /// defines it.
    pub fn lookup(&self, name: &str) -> (r: Option<&SymbolTy>)
        ensures
            match lookup_in(self.scopes(), name@) {
                Some(s) => r matches Some(found) && *found == s,
                None => r is None,
            },
    {
        let mut i = self.scopes.len();
        assert(self.scopes().take(i as int) =~= self.scopes());
        while i > 0
            invariant
                i <= self.scopes@.len(),
                lookup_in(self.scopes(), name@) == lookup_in(self.scopes().take(i as int), name@),
            decreases i,
        {
            proof {
                assert(self.scopes().take(i as int).drop_last() =~= self.scopes().take(i - 1));
                assert(self.scopes().take(i as int).last() == self.scopes@[i - 1]@);
            }
            i -= 1;
            match self.scopes[i].get_local(name) {
                Some(sym) => {
                    return Some(sym);
                },
                None => {},
            }
        }
        assert(self.scopes().take(0) =~= Seq::<Map<Seq<char>, SymbolTy>>::empty());
        None
    }
}


/// Recording generic definitions and the compiled instances of generic functions.
pub trait PushGetGeneric {
    /// The generic definitions, by name, in the order they were first pushed.
    spec fn generic_entries(&self) -> Seq<(Seq<char>, GenericInfo)>;

    /// The compiled generic instances, by name, in the order they were first pushed.
    spec fn compiled_generic_entries(&self) -> Seq<(Seq<char>, CompiledGenericInfo)>;

    /// Records a compiled instance under `name`, replacing any earlier one in place.
    fn push_compiled_generic(&mut self, name: String, info: CompiledGenericInfo)
        ensures
            final(self).compiled_generic_entries() == entries_insert(
                old(self).compiled_generic_entries(),
                name@,
                info,
            ),
            final(self).generic_entries() == old(self).generic_entries(),
    ;

    /// Removes and returns the compiled instance recorded under `name`.
    fn pop_compiled_generic(&mut self, name: &str) -> (r: Option<CompiledGenericInfo>)
        ensures
            r == entries_get(old(self).compiled_generic_entries(), name@),
            final(self).compiled_generic_entries() == entries_shift_remove(
                old(self).compiled_generic_entries(),
                name@,
            ),
            final(self).generic_entries() == old(self).generic_entries(),
    ;

    /// Records the generic definition `name`, replacing any earlier one in place.
    fn push_generic(&mut self, name: String, info: GenericInfo)
        ensures
            final(self).generic_entries() == entries_insert(old(self).generic_entries(), name@, info),
            final(self).compiled_generic_entries() == old(self).compiled_generic_entries(),
    ;

    /// A mutable reference to the generic definition recorded under `name`;
    /// what is written through it is recorded in its place.
    fn get_mut_generic(&mut self, name: &str) -> (r: Option<&mut GenericInfo>)
        ensures
            match r {
                Some(info) => key_index(old(self).generic_entries(), name@) matches Some(i) && *info
                    == old(self).generic_entries()[i].1 && final(self).generic_entries()
                    == old(self).generic_entries().update(i, (name@, *final(info))),
                None => key_index(old(self).generic_entries(), name@) is None
                    && final(self).generic_entries() == old(self).generic_entries(),
            },
            final(self).compiled_generic_entries() == old(self).compiled_generic_entries(),
    ;

    /// The generic definition recorded under `name`.
    fn get_generic(&self, name: &str) -> (r: Option<&GenericInfo>)
        ensures
            match r {
                Some(info) => entries_get(self.generic_entries(), name@) == Some(*info),
                None => entries_get(self.generic_entries(), name@) is None,
            },
    ;
}

impl<'a> PushGetGeneric for FunctionState<'a> {
    open spec fn generic_entries(&self) -> Seq<(Seq<char>, GenericInfo)> {
        self.generic_defs()
    }

    open spec fn compiled_generic_entries(&self) -> Seq<(Seq<char>, CompiledGenericInfo)> {
        self.compiled_generic_defs()
    }

    fn push_compiled_generic(&mut self, name: String, info: CompiledGenericInfo)
        ensures
            final(self).scopes() == old(self).scopes(),
            old(self).wf() ==> final(self).wf(),
    {
        proof {
            if keys_distinct(self.compiled_generic_defs()) {
                lemma_insert_distinct(self.compiled_generic_defs(), name@, info);
            }
        }
        compiled_map_insert(&mut self.compiled_generic_map, name, info);
    }

    fn pop_compiled_generic(&mut self, name: &str) -> (r: Option<CompiledGenericInfo>)
        ensures
            final(self).scopes() == old(self).scopes(),
            old(self).wf() ==> final(self).wf(),
            old(self).wf() ==> entries_get(final(self).compiled_generic_entries(), name@) is None,
    {
        proof {
            if keys_distinct(self.compiled_generic_defs()) {
                law_remove_leaves_no_entry(self.compiled_generic_defs(), name@);
            }
        }
        compiled_map_shift_remove(&mut self.compiled_generic_map, name)
    }

    fn push_generic(&mut self, name: String, info: GenericInfo)
        ensures
            final(self).scopes() == old(self).scopes(),
            old(self).wf() ==> final(self).wf(),
    {
        proof {
            if keys_distinct(self.generic_defs()) {
                lemma_insert_distinct(self.generic_defs(), name@, info);
            }
        }
        generic_map_insert(&mut self.generic_map, name, info);
    }

    fn get_mut_generic(&mut self, name: &str) -> (r: Option<&mut GenericInfo>)
        ensures
            final(self).scopes() == old(self).scopes(),
            old(self).wf() ==> final(self).wf(),
    {
        let r = generic_map_get_mut(&mut self.generic_map, name);
        proof {
            match key_index(old(self).generic_defs(), name@) {
                Some(i) => {
                    lemma_key_index(old(self).generic_defs(), name@);
                    if keys_distinct(old(self).generic_defs()) {
                        lemma_update_distinct(
                            old(self).generic_defs(),
                            i,
                            name@,
                            *final(r->Some_0),
                        );
                    }
                },
                None => {},
            }
        }
        r
    }

    fn get_generic(&self, name: &str) -> (r: Option<&GenericInfo>) {
        generic_map_get(&self.generic_map, name)
    }
}


/// Leaving a scope right after entering it hands back the new scope, empty,
/// and restores the chain of scopes as it was.
pub proof fn law_leave_after_enter(scopes: Seq<Map<Seq<char>, SymbolTy>>)
    requires
        scopes.len() > 0,
    ensures
        left(entered(scopes)) == Some((Map::<Seq<char>, SymbolTy>::empty(), scopes)),
{
    assert(entered(scopes).drop_last() =~= scopes);
}

/// The chain of scopes after entering `k` new scopes.
pub open spec fn entered_n(scopes: Seq<Map<Seq<char>, SymbolTy>>, k: nat) -> Seq<Map<Seq<char>, SymbolTy>>
    decreases k,
{
    if k == 0 {
        scopes
    } else {
        entered(entered_n(scopes, (k - 1) as nat))
    }
}

/// The chain of scopes after leaving `k` scopes, if that many can be left.
pub open spec fn left_n(scopes: Seq<Map<Seq<char>, SymbolTy>>, k: nat) -> Option<Seq<Map<Seq<char>, SymbolTy>>>
    decreases k,
{
    if k == 0 {
        Some(scopes)
    } else {
        match left(scopes) {
            Some((_, rest)) => left_n(rest, (k - 1) as nat),
            None => None,
        }
    }
}

/// Leaving `k` scopes right after entering `k` restores the chain of scopes.
pub proof fn law_leaves_undo_enters(scopes: Seq<Map<Seq<char>, SymbolTy>>, k: nat)
    requires
        scopes.len() > 0,
    ensures
        entered_n(scopes, k).len() == scopes.len() + k,
        left_n(entered_n(scopes, k), k) == Some(scopes),
    decreases k,
{
    if k > 0 {
        law_leaves_undo_enters(scopes, (k - 1) as nat);
        law_leave_after_enter(entered_n(scopes, (k - 1) as nat));
    }
}

/// The outermost scope cannot be left.
pub proof fn law_outermost_scope_stays(scopes: Seq<Map<Seq<char>, SymbolTy>>)
    requires
        scopes.len() == 1,
    ensures
        left(scopes) is None,
{
}

/// A name defined in an inner scope hides its outer definition until that
/// scope is left; then the outer definition is visible again. Other names
/// are unaffected.
pub proof fn law_inner_definition_shadows(
    scopes: Seq<Map<Seq<char>, SymbolTy>>,
    name: Seq<char>,
    sym: SymbolTy,
    other: Seq<char>,
)
    requires
        scopes.len() > 0,
        other != name,
    ensures
        lookup_in(defined(entered(scopes), name, sym), name) == Some(sym),
        lookup_in(defined(entered(scopes), name, sym), other) == lookup_in(scopes, other),
        left(defined(entered(scopes), name, sym)) matches Some((t, rest)) && rest == scopes
            && t == Map::<Seq<char>, SymbolTy>::empty().insert(name, sym),
{
    let d = defined(entered(scopes), name, sym);
    assert(d.drop_last() =~= scopes);
    assert(d.last() == Map::<Seq<char>, SymbolTy>::empty().insert(name, sym));
}


/// The layout of the struct `name`: the one that the innermost definition of
/// `name` gives, or an error when `name` is not defined or is not a struct.
pub fn lookup_struct_layout<'s>(state: &'s FunctionState<'_>, name: &str) -> (r: Result<&'s StructLayout, String>)
    ensures
        match lookup_in(state.scopes(), name@) {
            None => r matches Err(msg) && msg@ == "undefined struct: "@ + name@,
            Some(SymbolTy::Struct(layout)) => r matches Ok(found) && *found == layout,
            Some(_) => r matches Err(msg) && msg@ == "not a struct: "@ + name@,
        },
{
    match state.lookup(name) {
        None => {
            let mut msg = String::from_str("undefined struct: ");
            msg.append(name);
            Err(msg)
        },
        Some(SymbolTy::Struct(layout)) => Ok(layout),
        Some(_) => {
            let mut msg = String::from_str("not a struct: ");
            msg.append(name);
            Err(msg)
        },
    }
}

} // verus!
