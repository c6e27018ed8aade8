//! What the compiler records about generic definitions and their instances.
use vstd::prelude::*;
use indexmap::IndexMap;
use crate::ast::{TyId, TypedExpression};

verus! {

/// A generic definition.
#[derive(Debug, PartialEq, Eq)]
pub enum GenericInfo {
    Struct {
        /// T, K, V ...
        generic_params: Vec<String>,
        /// generic_field, generic_param_name
        generic_fields: IndexMap<String, String>,
    },
    Function {
        /// T, K, V
        generic: Vec<String>,
        /// item: T, k: K, v: V
        generic_params: IndexMap<String, String>,
        all_params: IndexMap<String, TyId>,
        block: Box<TypedExpression>,
        ret_ty: TyId,
    },
}

/// An instance of a generic function that has been compiled.
#[derive(Debug, PartialEq, Eq)]
pub enum CompiledGenericInfo {
    Function { new_name: String, new_params: IndexMap<String, TyId>, new_ret_ty: TyId },
}

} // verus!
