//! Building struct values: finding or laying out the struct, allocating it
//! and storing each field at its offset.
use vstd::prelude::*;
use indexmap::IndexMap;
use crate::ast::{spec_type_of, Ty, TypeContext, TypedExpression};
use cranelift::prelude::{FunctionBuilder, Value};
use crate::clif::{
    builder_iconsts, masked_imm, builder_defines, builder_imm_adds, builder_positioned, builder_stores, extends_records,
    keeps_values, ClifInt,
};
use crate::compile_state::{
    covers, defined, field_position, lookup_in, lookup_struct_layout, same_layout, FunctionState, PushGetGeneric, StructLayout,
    SymbolTy,
};
use crate::generic::GenericInfo;
use crate::index_map::{entries_get, field_map_entries, field_map_get_index, field_map_len};

verus! {

/// The names of the fields of a field map, in order.
pub open spec fn field_names(entries: Seq<(Seq<char>, TypedExpression)>) -> Seq<Seq<char>> {
    entries.map_values(|e: (Seq<char>, TypedExpression)| e.0)
}

/// Every field's expression has a type in the type context `tys`.
pub open spec fn field_types_known(entries: Seq<(Seq<char>, TypedExpression)>, tys: Seq<Ty>) -> bool {
    forall|i: int| 0 <= i < entries.len() ==> spec_type_of(#[trigger] entries[i].1) < tys.len()
}

/// `fs` is each field of `entries` with the type in `tys` of its expression,
/// in order.
pub open spec fn fields_typed(
    fs: Seq<(String, Ty)>,
    entries: Seq<(Seq<char>, TypedExpression)>,
    tys: Seq<Ty>,
) -> bool {
    &&& fs.len() == entries.len()
    &&& forall|i: int|
        0 <= i < fs.len() ==> (#[trigger] fs[i]).0@ == entries[i].0 && fs[i].1 == tys[spec_type_of(
            entries[i].1,
        ) as int]
}

/// Each field's name with the type of its expression, in order.
pub fn struct_field_types(tcx: &TypeContext, fields: &IndexMap<String, TypedExpression>) -> (v: Vec<(String, Ty)>)
    requires
        field_types_known(field_map_entries(*fields), tcx@),
    ensures
        fields_typed(v@, field_map_entries(*fields), tcx@),
{
    let ghost entries = field_map_entries(*fields);
    let n = field_map_len(fields);
    let mut v: Vec<(String, Ty)> = Vec::new();
    let mut i: usize = 0;
    while i < n
        invariant
            n == entries.len(),
            entries == field_map_entries(*fields),
            field_types_known(entries, tcx@),
            i <= n,
            v@.len() == i,
            forall|j: int|
                0 <= j < i ==> (#[trigger] v@[j]).0@ == entries[j].0 && v@[j].1 == tcx@[spec_type_of(
                    entries[j].1,
                ) as int],
        decreases n - i,
    {
        match field_map_get_index(fields, i) {
            Some((name, expr)) => {
                assert(spec_type_of(entries[i as int].1) < tcx@.len());
                let ty = *tcx.get(expr.get_type());
                v.push((name.clone(), ty));
            },
            None => {
                proof {
                    assert(false);
                }
            },
        }
        i += 1;
    }
    v
}

/// The Cranelift integer type as wide as a pointer on this machine.
pub fn platform_width_to_int_type() -> (t: ClifInt)
    ensures
        t == (if usize::BITS == 64 {
            ClifInt::I64
        } else {
            ClifInt::I32
        }),
{
    if usize::BITS == 64 {
        ClifInt::I64
    } else {
        ClifInt::I32
    }
}

/// The layout of the struct `struct_name`. A generic struct is laid out anew
/// by `compile_struct_layout` from its fields' names and types, and the
/// layout is defined under its name in the current scope; any other struct's
/// layout is the one its innermost definition gives.
pub fn get_or_build_struct_layout<'a, L>(
    state: &mut FunctionState<'a>,
    struct_name: &str,
    fields: &IndexMap<String, TypedExpression>,
    compile_struct_layout: &L,
) -> (r: Result<StructLayout, String>) where
    L: Fn(&mut FunctionState<'a>, &str, &[(String, Ty)]) -> Result<StructLayout, String>,

    requires
        old(state).wf(),
        field_types_known(field_map_entries(*fields), old(state).type_context()@),
        forall|s: &mut FunctionState<'a>, n: &str, fs: &[(String, Ty)]|
            call_requires(*compile_struct_layout, (s, n, fs)),
        forall|
            s: &mut FunctionState<'a>,
            n: &str,
            fs: &[(String, Ty)],
            res: Result<StructLayout, String>,
        |
            #[trigger] call_ensures(*compile_struct_layout, (s, n, fs), res) && s.wf() ==> {
                &&& final(s).wf()
                &&& builder_positioned(s.fn_builder()) ==> builder_positioned(final(s).fn_builder())
            },
    ensures
        final(state).wf(),
        builder_positioned(old(state).fn_builder()) ==> builder_positioned(final(state).fn_builder()),
        match entries_get(old(state).generic_defs(), struct_name@) {
            Some(GenericInfo::Struct { .. }) => exists|
                m: &mut FunctionState<'a>,
                fs: &[(String, Ty)],
                res: Result<StructLayout, String>,
            |
                #![trigger call_ensures(*compile_struct_layout, (m, struct_name, fs), res)]
                {
                    &&& *m == *old(state)
                    &&& call_ensures(*compile_struct_layout, (m, struct_name, fs), res)
                    &&& fields_typed(fs@, field_map_entries(*fields), old(state).type_context()@)
                    &&& r == res
                    &&& match res {
                        Ok(l) => {
                            &&& lookup_in(final(state).scopes(), struct_name@) matches Some(
                                SymbolTy::Struct(d),
                            ) && same_layout(d, l)
                            &&& exists|d: StructLayout|
                                #![trigger defined(final(m).scopes(), struct_name@, SymbolTy::Struct(d))]
                                same_layout(d, l) && final(state).scopes() == defined(
                                    final(m).scopes(),
                                    struct_name@,
                                    SymbolTy::Struct(d),
                                )
                            &&& final(state).fn_builder() == final(m).fn_builder()
                            &&& final(state).type_context() == final(m).type_context()
                            &&& final(state).generic_defs() == final(m).generic_defs()
                            &&& final(state).compiled_generic_defs() == final(m).compiled_generic_defs()
                        },
                        Err(_) => *final(state) == *final(m),
                    }
                },
            _ => {
                &&& *final(state) == *old(state)
                &&& match lookup_in(old(state).scopes(), struct_name@) {
                    None => r matches Err(msg) && msg@ == "undefined struct: "@ + struct_name@,
                    Some(SymbolTy::Struct(l)) => r matches Ok(c) && same_layout(c, l),
                    Some(_) => r matches Err(msg) && msg@ == "not a struct: "@ + struct_name@,
                }
            },
        },
{
    let is_generic_struct = match state.get_generic(struct_name) {
        Some(GenericInfo::Struct { .. }) => true,
        _ => false,
    };
    if is_generic_struct {
        let field_tys = struct_field_types(state.types(), fields);
        let layout = match compile_struct_layout(state, struct_name, field_tys.as_slice()) {
            Ok(layout) => layout,
            Err(e) => {
                return Err(e);
            },
        };
        let copy = layout.duplicate();
        let ghost sym = SymbolTy::Struct(copy);
        let ghost before = state.scopes();
        state.define_struct_type(struct_name, copy);
        proof {
            let sc = state.scopes();
            assert(sc.last() == before.last().insert(struct_name@, sym));
            assert(lookup_in(sc, struct_name@) == Some(sym));
            assert(same_layout(copy, layout));
            assert(sc == defined(before, struct_name@, sym));
        }
        Ok(layout)
    } else {
        match lookup_struct_layout(state, struct_name) {
            Ok(layout) => Ok(layout.duplicate()),
            Err(msg) => Err(msg),
        }
    }
}

/// The offset of the field `name` in `layout` (0 when it has none).
pub open spec fn field_offset_of(layout: StructLayout, name: Seq<char>) -> u32 {
    match field_position(layout.fields@, name) {
        Some(k) => layout.offsets@[k],
        None => 0,
    }
}

/// `addr` is the address of the field at `offset` of the struct at `base`:
/// `base` itself for offset 0, else the result of adding the offset to `base`.
pub open spec fn field_address(b: FunctionBuilder<'_>, base: Value, offset: u32, addr: Value) -> bool {
    if offset == 0 {
        addr == base
    } else {
        exists|k: int|
            0 <= k < builder_imm_adds(b).len() && #[trigger] builder_imm_adds(b)[k] == (
                base,
                offset as i64,
                addr,
            )
    }
}

/// `at` gives the position of each of the `placed` stores among `stores`,
/// in increasing order.
pub open spec fn store_positions(placed: Seq<(Value, Value)>, stores: Seq<(Value, Value)>, at: Seq<int>) -> bool {
    &&& at.len() == placed.len()
    &&& forall|j: int| 0 <= j < placed.len() ==> 0 <= #[trigger] at[j] < stores.len() && stores[at[j]] == placed[j]
    &&& forall|j: int, k: int| 0 <= j < k < placed.len() ==> #[trigger] at[j] < #[trigger] at[k]
}

/// The `placed` stores are among `stores`, in the same order.
pub open spec fn stored_in_order(placed: Seq<(Value, Value)>, stores: Seq<(Value, Value)>) -> bool {
    exists|at: Seq<int>| #[trigger] store_positions(placed, stores, at)
}

/// The struct at `base`, laid out by `layout`, had the fields of `entries`
/// stored into it in order: `placed` holds each store's value and address,
/// and each address is the field's offset from `base`.
pub open spec fn struct_built(
    b: FunctionBuilder<'_>,
    base: Value,
    layout: StructLayout,
    entries: Seq<(Seq<char>, TypedExpression)>,
    placed: Seq<(Value, Value)>,
) -> bool {
    &&& placed.len() == entries.len()
    &&& stored_in_order(placed, builder_stores(b))
    &&& forall|j: int|
        0 <= j < entries.len() ==> field_address(
            b,
            base,
            field_offset_of(layout, entries[j].0),
            (#[trigger] placed[j]).1,
        )
}

/// The integer type as wide as a pointer on this machine.
pub open spec fn pointer_int_type() -> ClifInt {
    if usize::BITS == 64 {
        ClifInt::I64
    } else {
        ClifInt::I32
    }
}

/// `l` is a layout that `f` returned when called, on the state `s0`, with
/// `name` and the fields of `entries` typed by `tys`.
pub open spec fn laid_out_by<'a, L>(
    f: L,
    s0: FunctionState<'a>,
    name: &str,
    entries: Seq<(Seq<char>, TypedExpression)>,
    tys: Seq<Ty>,
    l: StructLayout,
) -> bool where L: Fn(&mut FunctionState<'a>, &str, &[(String, Ty)]) -> Result<StructLayout, String> {
    exists|m: &mut FunctionState<'a>, fs: &[(String, Ty)], res: Result<StructLayout, String>|
        #[trigger] call_ensures(f, (m, name, fs), res) && *m == s0 && fields_typed(fs@, entries, tys)
            && res == Ok::<StructLayout, String>(l)
}

/// `p` is what `f` returned when called with a value `sz` that was the last
/// constant of the builder: the pointer-wide constant `size`.
pub open spec fn allocated_by<'a, A>(f: A, size: u32, p: Value) -> bool where
    A: Fn(&mut FunctionState<'a>, Value) -> Value,
 {
    exists|m: &mut FunctionState<'a>, sz: Value|
        #[trigger] call_ensures(f, (m, sz), p) && builder_iconsts(m.fn_builder()).len() > 0
            && builder_iconsts(m.fn_builder()).last() == (
            pointer_int_type(),
            masked_imm(pointer_int_type(), size as i64),
            sz,
        )
}

/// `v` is a value that `f` returned when called on the expression `e`.
pub open spec fn compiled_from<'a, C>(f: C, e: TypedExpression, v: Value) -> bool where
    C: Fn(&mut FunctionState<'a>, &TypedExpression) -> Result<Value, String>,
 {
    exists|m: &mut FunctionState<'a>, er: &TypedExpression, res: Result<Value, String>|
        #[trigger] call_ensures(f, (m, er), res) && *er == e && res == Ok::<Value, String>(v)
}

/// `f` returned the values `vals` for the first fields of `entries`, in
/// order, and then `err` for the next one.
pub open spec fn failed_after<'a, C>(
    f: C,
    entries: Seq<(Seq<char>, TypedExpression)>,
    vals: Seq<Value>,
    err: String,
) -> bool where C: Fn(&mut FunctionState<'a>, &TypedExpression) -> Result<Value, String> {
    &&& vals.len() < entries.len()
    &&& forall|k: int| 0 <= k < vals.len() ==> compiled_from(f, entries[k].1, #[trigger] vals[k])
    &&& exists|m: &mut FunctionState<'a>, er: &TypedExpression, res: Result<Value, String>|
        #[trigger] call_ensures(f, (m, er), res) && *er == entries[vals.len() as int].1 && res
            == Err::<Value, String>(err)
}

/// `err` is an error that `f` returned on the expression of a field of
/// `entries` after returning a value for each earlier field.
pub open spec fn failed_on<'a, C>(f: C, entries: Seq<(Seq<char>, TypedExpression)>, err: String) -> bool where
    C: Fn(&mut FunctionState<'a>, &TypedExpression) -> Result<Value, String>,
 {
    exists|vals: Seq<Value>| #[trigger] failed_after(f, entries, vals, err)
}

/// Builds a struct value: finds or lays out the struct (see
/// `get_or_build_struct_layout`), allocates its size with `emit_alloc`, and
/// for each field in order computes its address, compiles its expression
/// with `compile_expr` and stores the value there. Returns the struct's
/// address. An error in finding the layout or compiling a field is returned
/// as it is; no other error occurs.
#[verifier::spinoff_prover]
pub fn compile_build_struct<'a, L, A, C>(
    state: &mut FunctionState<'a>,
    struct_name: &str,
    fields: &IndexMap<String, TypedExpression>,
    compile_struct_layout: &L,
    emit_alloc: &A,
    compile_expr: &C,
) -> (r: Result<Value, String>) where
    L: Fn(&mut FunctionState<'a>, &str, &[(String, Ty)]) -> Result<StructLayout, String>,
    A: Fn(&mut FunctionState<'a>, Value) -> Value,
    C: Fn(&mut FunctionState<'a>, &TypedExpression) -> Result<Value, String>,

    requires
        old(state).wf(),
        builder_positioned(old(state).fn_builder()),
        field_types_known(field_map_entries(*fields), old(state).type_context()@),
        match entries_get(old(state).generic_defs(), struct_name@) {
            Some(GenericInfo::Struct { .. }) => forall|l: StructLayout|
                #[trigger] laid_out_by(
                    *compile_struct_layout,
                    *old(state),
                    struct_name,
                    field_map_entries(*fields),
                    old(state).type_context()@,
                    l,
                ) ==> covers(l, field_names(field_map_entries(*fields))),
            _ => lookup_in(old(state).scopes(), struct_name@) matches Some(SymbolTy::Struct(l)) ==> covers(
                l,
                field_names(field_map_entries(*fields)),
            ),
        },
        forall|s: &mut FunctionState<'a>, n: &str, fs: &[(String, Ty)]|
            call_requires(*compile_struct_layout, (s, n, fs)),
        forall|
            s: &mut FunctionState<'a>,
            n: &str,
            fs: &[(String, Ty)],
            res: Result<StructLayout, String>,
        |
            #[trigger] call_ensures(*compile_struct_layout, (s, n, fs), res) && s.wf() ==> {
                &&& final(s).wf()
                &&& builder_positioned(s.fn_builder()) ==> builder_positioned(final(s).fn_builder())
                &&& final(s).type_context() == s.type_context()
            },
        forall|s: &mut FunctionState<'a>, size: Value| call_requires(*emit_alloc, (s, size)),
        forall|s: &mut FunctionState<'a>, size: Value, p: Value|
            #[trigger] call_ensures(*emit_alloc, (s, size), p) && builder_positioned(s.fn_builder()) ==> {
                &&& builder_positioned(final(s).fn_builder())
                &&& s.wf() ==> final(s).wf()
                &&& final(s).type_context() == s.type_context()
                &&& builder_defines(final(s).fn_builder(), p)
                &&& keeps_values(s.fn_builder(), final(s).fn_builder())
                &&& extends_records(s.fn_builder(), final(s).fn_builder())
            },
        forall|s: &mut FunctionState<'a>, e: &TypedExpression| call_requires(*compile_expr, (s, e)),
        forall|s: &mut FunctionState<'a>, e: &TypedExpression, res: Result<Value, String>|
            #[trigger] call_ensures(*compile_expr, (s, e), res) && builder_positioned(s.fn_builder()) ==> {
                &&& builder_positioned(final(s).fn_builder())
                &&& s.wf() ==> final(s).wf()
                &&& final(s).type_context() == s.type_context()
                &&& res matches Ok(v) ==> builder_defines(final(s).fn_builder(), v)
                &&& keeps_values(s.fn_builder(), final(s).fn_builder())
                &&& extends_records(s.fn_builder(), final(s).fn_builder())
            },
    ensures
        builder_positioned(final(state).fn_builder()),
        final(state).wf(),
        final(state).type_context() == old(state).type_context(),
        r matches Ok(p) ==> exists|l: StructLayout, placed: Seq<(Value, Value)>|
            #[trigger] struct_built(final(state).fn_builder(), p, l, field_map_entries(*fields), placed)
                && {
                &&& builder_defines(final(state).fn_builder(), p)
                &&& match entries_get(old(state).generic_defs(), struct_name@) {
                    Some(GenericInfo::Struct { .. }) => laid_out_by(
                        *compile_struct_layout,
                        *old(state),
                        struct_name,
                        field_map_entries(*fields),
                        old(state).type_context()@,
                        l,
                    ),
                    _ => lookup_in(old(state).scopes(), struct_name@) matches Some(SymbolTy::Struct(l0))
                        && same_layout(l, l0),
                }
                &&& allocated_by(*emit_alloc, l.size, p)
                &&& forall|j: int|
                    0 <= j < placed.len() ==> compiled_from(
                        *compile_expr,
                        field_map_entries(*fields)[j].1,
                        (#[trigger] placed[j]).0,
                    )
            },
        match entries_get(old(state).generic_defs(), struct_name@) {
            Some(GenericInfo::Struct { .. }) => exists|
                m: &mut FunctionState<'a>,
                fs: &[(String, Ty)],
                res: Result<StructLayout, String>,
            |
                #![trigger call_ensures(*compile_struct_layout, (m, struct_name, fs), res)]
                {
                    &&& *m == *old(state)
                    &&& call_ensures(*compile_struct_layout, (m, struct_name, fs), res)
                    &&& fields_typed(fs@, field_map_entries(*fields), old(state).type_context()@)
                    &&& match res {
                        Err(e) => r == Err::<Value, String>(e) && *final(state) == *final(m),
                        Ok(_) => r matches Err(e) ==> failed_on(*compile_expr, field_map_entries(*fields), e),
                    }
                },
            _ => match lookup_in(old(state).scopes(), struct_name@) {
                None => r matches Err(msg) && msg@ == "undefined struct: "@ + struct_name@
                    && *final(state) == *old(state),
                Some(SymbolTy::Struct(_)) => r matches Err(e) ==> failed_on(
                    *compile_expr,
                    field_map_entries(*fields),
                    e,
                ),
                Some(_) => r matches Err(msg) && msg@ == "not a struct: "@ + struct_name@
                    && *final(state) == *old(state),
            },
        },
{
    let ghost entries = field_map_entries(*fields);
    let ghost generic = entries_get(state.generic_defs(), struct_name@);
    let ghost scopes = state.scopes();
    let ghost s0 = *state;
    let layout = match get_or_build_struct_layout(state, struct_name, fields, compile_struct_layout) {
        Ok(layout) => layout,
        Err(msg) => {
            return Err(msg);
        },
    };
    proof {
        if generic matches Some(GenericInfo::Struct { .. }) {
            assert(laid_out_by(*compile_struct_layout, s0, struct_name, entries, s0.type_context()@, layout));
        }
    }
    let size_val = state.emit_iconst(platform_width_to_int_type(), layout.size as i64);
    let struct_ptr = emit_alloc(state, size_val);
    proof {
        assert(allocated_by(*emit_alloc, layout.size, struct_ptr));
    }
    let n = field_map_len(fields);
    let ghost mut placed: Seq<(Value, Value)> = Seq::empty();
    let ghost mut at: Seq<int> = Seq::empty();
    let ghost mut adds_at: Seq<int> = Seq::empty();
    let mut i: usize = 0;
    while i < n
        invariant
            n == entries.len(),
            entries == field_map_entries(*fields),
            i <= n,
            covers(layout, field_names(entries)),
            generic == entries_get(old(state).generic_defs(), struct_name@),
            scopes == old(state).scopes(),
            s0 == *old(state),
            generic matches Some(GenericInfo::Struct { .. }) ==> laid_out_by(
                *compile_struct_layout,
                s0,
                struct_name,
                entries,
                s0.type_context()@,
                layout,
            ),
            !(generic matches Some(GenericInfo::Struct { .. })) ==> (lookup_in(scopes, struct_name@) matches Some(
                SymbolTy::Struct(l0),
            ) && same_layout(layout, l0)),
            allocated_by(*emit_alloc, layout.size, struct_ptr),
            builder_positioned(state.fn_builder()),
            state.wf(),
            state.type_context() == s0.type_context(),
            builder_defines(state.fn_builder(), struct_ptr),
            placed.len() == i,
            adds_at.len() == i,
            store_positions(placed, builder_stores(state.fn_builder()), at),
            forall|j: int|
                #![trigger placed[j]]
                0 <= j < i ==> {
                    let off = field_offset_of(layout, entries[j].0);
                    &&& off == 0 ==> placed[j].1 == struct_ptr
                    &&& off != 0 ==> 0 <= adds_at[j] < builder_imm_adds(state.fn_builder()).len()
                        && builder_imm_adds(state.fn_builder())[adds_at[j]] == (
                        struct_ptr,
                        off as i64,
                        placed[j].1,
                    )
                    &&& compiled_from(*compile_expr, entries[j].1, placed[j].0)
                },
            forall|s: &mut FunctionState<'a>, e: &TypedExpression| call_requires(*compile_expr, (s, e)),
            forall|s: &mut FunctionState<'a>, e: &TypedExpression, res: Result<Value, String>|
                #[trigger] call_ensures(*compile_expr, (s, e), res) && builder_positioned(s.fn_builder())
                    ==> {
                    &&& builder_positioned(final(s).fn_builder())
                    &&& s.wf() ==> final(s).wf()
                    &&& final(s).type_context() == s.type_context()
                    &&& res matches Ok(v) ==> builder_defines(final(s).fn_builder(), v)
                    &&& keeps_values(s.fn_builder(), final(s).fn_builder())
                    &&& extends_records(s.fn_builder(), final(s).fn_builder())
                },
        decreases n - i,
    {
        let (field_name, field_expr) = match field_map_get_index(fields, i) {
            Some(entry) => entry,
            None => {
                proof {
                    assert(false);
                }
                return Err(String::new());
            },
        };
        proof {
            assert(field_names(entries)[i as int] == entries[i as int].0);
        }
        let offset = layout.field_offset(field_name.as_str());
        let field_ptr = if offset == 0 {
            struct_ptr
        } else {
            state.emit_iadd_imm(struct_ptr, offset as i64)
        };
        let ghost adds_before = builder_imm_adds(state.fn_builder());
        let field_val = match compile_expr(state, field_expr) {
            Ok(v) => v,
            Err(e) => {
                proof {
                    let vals = placed.map_values(|p: (Value, Value)| p.0);
                    assert forall|k: int| 0 <= k < vals.len() implies compiled_from(
                        *compile_expr,
                        entries[k].1,
                        #[trigger] vals[k],
                    ) by {
                        assert(vals[k] == placed[k].0);
                    }
                    assert(failed_after(*compile_expr, entries, vals, e));
                    assert(failed_on(*compile_expr, entries, e));
                }
                return Err(e);
            },
        };
        proof {
            assert(compiled_from(*compile_expr, entries[i as int].1, field_val));
        }
        let ghost stores_before = builder_stores(state.fn_builder());
        state.emit_store(field_val, field_ptr);
        proof {
            placed = placed.push((field_val, field_ptr));
            at = at.push(stores_before.len() as int);
            adds_at = adds_at.push((adds_before.len() - 1) as int);
        }
        i += 1;
    }
    proof {
        assert(store_positions(placed, builder_stores(state.fn_builder()), at));
        assert forall|j: int| 0 <= j < entries.len() implies field_address(
            state.fn_builder(),
            struct_ptr,
            field_offset_of(layout, entries[j].0),
            (#[trigger] placed[j]).1,
        ) by {
            if field_offset_of(layout, entries[j].0) != 0 {
                assert(builder_imm_adds(state.fn_builder())[adds_at[j]] == (
                    struct_ptr,
                    field_offset_of(layout, entries[j].0) as i64,
                    placed[j].1,
                ));
            }
        }
        assert(struct_built(state.fn_builder(), struct_ptr, layout, entries, placed));
    }
    let result: Result<Value, String> = Ok(struct_ptr);
    proof {
        let b = state.fn_builder();
        assert(exists|l: StructLayout, pl: Seq<(Value, Value)>|
            #[trigger] struct_built(b, result->Ok_0, l, field_map_entries(*fields), pl) && {
                &&& builder_defines(b, result->Ok_0)
                &&& match entries_get(old(state).generic_defs(), struct_name@) {
                    Some(GenericInfo::Struct { .. }) => laid_out_by(
                        *compile_struct_layout,
                        *old(state),
                        struct_name,
                        field_map_entries(*fields),
                        old(state).type_context()@,
                        l,
                    ),
                    _ => lookup_in(old(state).scopes(), struct_name@) matches Some(SymbolTy::Struct(l0))
                        && same_layout(l, l0),
                }
                &&& allocated_by(*emit_alloc, l.size, result->Ok_0)
                &&& forall|j: int|
                    0 <= j < pl.len() ==> compiled_from(
                        *compile_expr,
                        field_map_entries(*fields)[j].1,
                        (#[trigger] pl[j]).0,
                    )
            }) by {
            assert(struct_built(b, result->Ok_0, layout, field_map_entries(*fields), placed));
        }
    }
    result
}

} // verus!
