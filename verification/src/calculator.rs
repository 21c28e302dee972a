//! Calculates the SQL schema of a data model: a table for each model, a
//! column for each inline relation, a side table for each scalar list and a
//! join table for each relation that needs one.

use crate::datamodel::{Datamodel, Field, FieldArity, Model};
use crate::lowering::{
    column_arity, column_arity_of, column_default, column_type, default_literal, family_of,
    is_scalar, join, joined,
};
use crate::relation::RelationSide;
use crate::resolver::{
    calculate_relations, holder_in_range, lemma_resolved_relation_origin, resolved_relations,
    HolderManifestationView, RelationHolderView, TempManifestationHolder, TempRelationHolder,
};
use crate::seqs::{concat_range, first_index, lemma_first_index, lemma_first_index_unique};
use crate::sorting::{
    is_sorted, lemma_sort_columns_permutes, lemma_sort_columns_sorted, sort_by_name, sort_columns,
};
use crate::sql_schema::{
    Column, ColumnArity, ColumnType, ColumnTypeFamily, ColumnView, ForeignKey, ForeignKeyAction,
    ForeignKeyView, Index, IndexType, IndexView, PrimaryKey, PrimaryKeyView, SqlSchema,
    SqlSchemaView, Table, TableView,
};
use crate::text::{concat2, concat3};
use vstd::prelude::*;
use vstd::string::StringExecFns;

verus! {

/// Why no schema can be calculated for a data model.
#[derive(Clone, Debug, PartialEq)]
pub enum CalculatorError {
    /// The model has neither an id field nor a composite id, or it has no id
    /// field where a side table or a relation refers to it by one.
    MissingIdField { model: String },
    /// The field's type has no column type.
    UnsupportedType { model: String, field: String },
    /// The field's default has no literal.
    InvalidDefault { model: String, field: String },
    /// The model's composite id or one of its indexes names a field that the
    /// model lacks.
    UnknownField { model: String, field: String },
}

/// A problem with its names as texts.
pub enum CalculatorErrorView {
    MissingIdField { model: Seq<char> },
    UnsupportedType { model: Seq<char>, field: Seq<char> },
    InvalidDefault { model: Seq<char>, field: Seq<char> },
    UnknownField { model: Seq<char>, field: Seq<char> },
}

impl DeepView for CalculatorError {
    type V = CalculatorErrorView;

    open spec fn deep_view(&self) -> CalculatorErrorView {
        match self {
            CalculatorError::MissingIdField { model } => CalculatorErrorView::MissingIdField {
                model: model@,
            },
            CalculatorError::UnsupportedType {
                model,
                field,
            } => CalculatorErrorView::UnsupportedType { model: model@, field: field@ },
            CalculatorError::InvalidDefault { model, field } => CalculatorErrorView::InvalidDefault {
                model: model@,
                field: field@,
            },
            CalculatorError::UnknownField { model, field } => CalculatorErrorView::UnknownField {
                model: model@,
                field: field@,
            },
        }
    }
}

impl CalculatorError {
    /// The text shown to the user.
    pub open spec fn message_view(&self) -> Seq<char> {
        match self {
            CalculatorError::MissingIdField { model } => "Model "@ + model@
                + " does not have an id field"@,
            CalculatorError::UnsupportedType { model, field } => "Field "@ + field@ + " of model "@
                + model@ + " has a type without a column type"@,
            CalculatorError::InvalidDefault { model, field } => "Field "@ + field@ + " of model "@
                + model@ + " has a default without a literal"@,
            CalculatorError::UnknownField { model, field } => "Model "@ + model@
                + " has no field "@ + field@,
        }
    }

    /// The text shown to the user.
    pub fn message(&self) -> (r: String)
        ensures
            r@ == self.message_view(),
    {
        match self {
            CalculatorError::MissingIdField { model } => concat3(
                "Model ",
                model.as_str(),
                " does not have an id field",
            ),
            CalculatorError::UnsupportedType { model, field } => {
                let head = concat3("Field ", field.as_str(), " of model ");
                concat3(head.as_str(), model.as_str(), " has a type without a column type")
            },
            CalculatorError::InvalidDefault { model, field } => {
                let head = concat3("Field ", field.as_str(), " of model ");
                concat3(head.as_str(), model.as_str(), " has a default without a literal")
            },
            CalculatorError::UnknownField { model, field } => {
                let head = concat3("Model ", model.as_str(), " has no field ");
                concat2(head.as_str(), field.as_str())
            },
        }
    }
}

// ---------------------------------------------------------------------------
// What stands in the way of a schema
// ---------------------------------------------------------------------------
/// Position of the first of the names that is no field of the model; the
/// number of names if all are.
pub open spec fn first_unknown_name(m: &Model, names: Seq<String>) -> int {
    first_index(names.len() as int, |k: int| !m.has_field(names[k]@))
}

/// What stops the calculation at the field at `j` of model `i`: a scalar
/// type without column type, or a default without literal on a column that
/// has a default.
pub open spec fn field_problem(dm: &Datamodel, i: int, j: int) -> Option<CalculatorErrorView> {
    let m = dm.models@[i];
    let f = m.fields@[j];
    if f.is_scalar_spec() && family_of(&f) is None {
        Some(CalculatorErrorView::UnsupportedType { model: m.name@, field: f.name@ })
    } else if f.is_scalar_spec() && f.arity != FieldArity::List && !f.is_id_spec()
        && default_literal(dm, &f) is None {
        Some(CalculatorErrorView::InvalidDefault { model: m.name@, field: f.name@ })
    } else {
        None
    }
}

/// What stops the calculation at the index at `k` of model `i`: a name
/// that is no field of the model.
pub open spec fn index_problem(dm: &Datamodel, i: int, k: int) -> Option<CalculatorErrorView> {
    let m = dm.models@[i];
    let names = m.indexes@[k].fields@;
    let u = first_unknown_name(&m, names);
    if u < names.len() {
        Some(CalculatorErrorView::UnknownField { model: m.name@, field: names[u]@ })
    } else {
        None
    }
}

/// Position of the first field of model `i` that has a problem; the number of
/// fields if none has.
pub open spec fn first_field_problem(dm: &Datamodel, i: int) -> int {
    first_index(dm.models@[i].fields@.len() as int, |j: int| field_problem(dm, i, j) is Some)
}

/// Position of the first index of model `i` that has a problem; the number of
/// indexes if none has.
pub open spec fn first_index_problem(dm: &Datamodel, i: int) -> int {
    first_index(dm.models@[i].indexes@.len() as int, |k: int| index_problem(dm, i, k) is Some)
}

/// Whether a relation refers to the id of model `i`: it is kept in a
/// column that points at the model, or in a table that links the model.
pub open spec fn refers_to_id(h: RelationHolderView, i: int) -> bool {
    match inline_holder(h) {
        Some((model, field, related)) => related == i,
        None => h.model_a == i || h.model_b == i,
    }
}

/// Position of the first relation that refers to the id of model `i`; the
/// number of relations if none does.
pub open spec fn first_referring_relation(dm: &Datamodel, i: int) -> int {
    first_index(
        resolved_relations(dm).len() as int,
        |k: int| refers_to_id(resolved_relations(dm)[k], i),
    )
}

/// Position of the first field of a model that is a list of scalars; the
/// number of fields if there is none.
pub open spec fn first_scalar_list(m: &Model) -> int {
    first_index(
        m.fields@.len() as int,
        |j: int| m.fields@[j].arity == FieldArity::List && m.fields@[j].is_scalar_spec(),
    )
}

/// Whether something refers to the records of model `i` by one id: the
/// side table of a list of scalars, or a relation.
pub open spec fn needs_id_field(dm: &Datamodel, i: int) -> bool {
    first_scalar_list(&dm.models@[i]) < dm.models@[i].fields@.len() || first_referring_relation(
        dm,
        i,
    ) < resolved_relations(dm).len()
}

/// What stops the calculation at model `i`, the first of: neither an id
/// field nor a composite id, or no id field where a side table or a
/// relation refers to the model by one; an id field without column type; a
/// composite id that names an unknown field; the first field with a
/// problem; the first index with a problem.
pub open spec fn model_problem(dm: &Datamodel, i: int) -> Option<CalculatorErrorView> {
    let m = dm.models@[i];
    let u = first_unknown_name(&m, m.id_fields@);
    let j = first_field_problem(dm, i);
    let k = first_index_problem(dm, i);
    if !m.has_id_field() && (m.id_fields@.len() == 0 || needs_id_field(dm, i)) {
        Some(CalculatorErrorView::MissingIdField { model: m.name@ })
    } else if m.has_id_field() && family_of(&m.id_field_spec()) is None {
        Some(
            CalculatorErrorView::UnsupportedType { model: m.name@, field: m.id_field_spec().name@ },
        )
    } else if u < m.id_fields@.len() {
        Some(CalculatorErrorView::UnknownField { model: m.name@, field: m.id_fields@[u]@ })
    } else if j < m.fields@.len() {
        field_problem(dm, i, j)
    } else if k < m.indexes@.len() {
        index_problem(dm, i, k)
    } else {
        None
    }
}

/// Position of the first model that has a problem; the number of models if
/// none has.
pub open spec fn first_problem_model(dm: &Datamodel) -> int {
    first_index(dm.models@.len() as int, |i: int| model_problem(dm, i) is Some)
}

/// What stops the calculation: the problem of the first model that has one.
pub open spec fn first_problem(dm: &Datamodel) -> Option<CalculatorErrorView> {
    let i = first_problem_model(dm);
    if i < dm.models@.len() {
        model_problem(dm, i)
    } else {
        None
    }
}

/// Whether a schema can be calculated: no model has a problem.
pub open spec fn calculable(dm: &Datamodel) -> bool {
    forall|i: int| 0 <= i < dm.models@.len() ==> (#[trigger] model_problem(dm, i)) is None
}

/// What a model without problems is known to have.
pub proof fn lemma_calculable_model(dm: &Datamodel, i: int)
    requires
        calculable(dm),
        0 <= i < dm.models@.len(),
    ensures
        dm.models@[i].has_id_field() || (dm.models@[i].id_fields@.len() > 0 && !needs_id_field(
            dm,
            i,
        )),
        dm.models@[i].has_id_field() ==> 0 <= dm.models@[i].id_field_index()
            < dm.models@[i].fields@.len() && family_of(&dm.models@[i].id_field_spec()) is Some,
        forall|k: int|
            0 <= k < dm.models@[i].id_fields@.len() ==> dm.models@[i].has_field(
                #[trigger] dm.models@[i].id_fields@[k]@,
            ),
        forall|j: int|
            0 <= j < dm.models@[i].fields@.len() ==> (#[trigger] field_problem(dm, i, j)) is None,
        forall|k: int|
            0 <= k < dm.models@[i].indexes@.len() ==> (#[trigger] index_problem(dm, i, k)) is None,
{
    let m = dm.models@[i];
    assert(model_problem(dm, i) is None);
    lemma_first_index(m.fields@.len() as int, |j: int| m.fields@[j].is_id_spec());
    let pu = |k: int| !m.has_field(m.id_fields@[k]@);
    lemma_first_index(m.id_fields@.len() as int, pu);
    assert forall|k: int| 0 <= k < m.id_fields@.len() implies m.has_field(
        #[trigger] m.id_fields@[k]@,
    ) by {
        assert(!pu(k));
    }
    let pf = |j: int| field_problem(dm, i, j) is Some;
    lemma_first_index(m.fields@.len() as int, pf);
    assert forall|j: int| 0 <= j < m.fields@.len() implies (#[trigger] field_problem(
        dm,
        i,
        j,
    )) is None by {
        assert(!pf(j));
    }
    let pi = |k: int| index_problem(dm, i, k) is Some;
    lemma_first_index(m.indexes@.len() as int, pi);
    assert forall|k: int| 0 <= k < m.indexes@.len() implies (#[trigger] index_problem(
        dm,
        i,
        k,
    )) is None by {
        assert(!pi(k));
    }
}

/// A model whose side table holds the list at `j` has an id field.
pub proof fn lemma_list_needs_id(dm: &Datamodel, i: int, j: int)
    requires
        calculable(dm),
        0 <= i < dm.models@.len(),
        0 <= j < dm.models@[i].fields@.len(),
        dm.models@[i].fields@[j].arity == FieldArity::List,
        dm.models@[i].fields@[j].is_scalar_spec(),
    ensures
        dm.models@[i].has_id_field(),
        family_of(&dm.models@[i].id_field_spec()) is Some,
{
    let m = dm.models@[i];
    let p = |j: int| m.fields@[j].arity == FieldArity::List && m.fields@[j].is_scalar_spec();
    lemma_first_index(m.fields@.len() as int, p);
    assert(p(j));
    lemma_calculable_model(dm, i);
}

/// A model to whose id the relation at `k` refers has an id field.
pub proof fn lemma_relation_needs_id(dm: &Datamodel, k: int, i: int)
    requires
        calculable(dm),
        0 <= i < dm.models@.len(),
        0 <= k < resolved_relations(dm).len(),
        refers_to_id(resolved_relations(dm)[k], i),
    ensures
        dm.models@[i].has_id_field(),
        family_of(&dm.models@[i].id_field_spec()) is Some,
{
    let p = |k: int| refers_to_id(resolved_relations(dm)[k], i);
    lemma_first_index(resolved_relations(dm).len() as int, p);
    assert(p(k));
    lemma_calculable_model(dm, i);
}

/// The names of an index without problems are fields of the model.
pub proof fn lemma_index_names_known(dm: &Datamodel, i: int, k: int)
    requires
        0 <= i < dm.models@.len(),
        0 <= k < dm.models@[i].indexes@.len(),
        index_problem(dm, i, k) is None,
    ensures
        forall|n: int|
            0 <= n < dm.models@[i].indexes@[k].fields@.len() ==> dm.models@[i].has_field(
                #[trigger] dm.models@[i].indexes@[k].fields@[n]@,
            ),
{
    let m = dm.models@[i];
    let names = m.indexes@[k].fields@;
    let pu = |n: int| !m.has_field(names[n]@);
    lemma_first_index(names.len() as int, pu);
    assert forall|n: int| 0 <= n < names.len() implies m.has_field(#[trigger] names[n]@) by {
        assert(!pu(n));
    }
}

fn find_unknown_name(m: &Model, names: &Vec<String>) -> (r: Option<usize>)
    ensures
        match r {
            Some(u) => u == first_unknown_name(m, names@) && u < names@.len(),
            None => first_unknown_name(m, names@) == names@.len(),
        },
{
    let ghost p = |k: int| !m.has_field(names@[k]@);
    let mut k: usize = 0;
    while k < names.len()
        invariant
            0 <= k <= names@.len(),
            p == (|k: int| !m.has_field(names@[k]@)),
            forall|n: int| 0 <= n < k ==> !#[trigger] p(n),
        decreases names@.len() - k,
    {
        if m.find_field(names[k].as_str()).is_none() {
            proof {
                lemma_first_index_unique(names@.len() as int, p, k as int);
            }
            return Some(k);
        }
        k = k + 1;
    }
    proof {
        lemma_first_index_unique(names@.len() as int, p, k as int);
    }
    None
}

fn check_field(dm: &Datamodel, i: usize, j: usize) -> (r: Result<(), CalculatorError>)
    requires
        i < dm.models@.len(),
        j < dm.models@[i as int].fields@.len(),
    ensures
        match r {
            Ok(_) => field_problem(dm, i as int, j as int) is None,
            Err(e) => field_problem(dm, i as int, j as int) == Some(e.deep_view()),
        },
{
    let m = &dm.models[i];
    let f = &m.fields[j];
    if is_scalar(f) && column_type(f).is_none() {
        Err(CalculatorError::UnsupportedType { model: m.name.clone(), field: f.name.clone() })
    } else if is_scalar(f) && !f.is_list() && !f.is_id() && f.migration_value(dm).is_none() {
        Err(CalculatorError::InvalidDefault { model: m.name.clone(), field: f.name.clone() })
    } else {
        Ok(())
    }
}

fn check_index(dm: &Datamodel, i: usize, k: usize) -> (r: Result<(), CalculatorError>)
    requires
        i < dm.models@.len(),
        k < dm.models@[i as int].indexes@.len(),
    ensures
        match r {
            Ok(_) => index_problem(dm, i as int, k as int) is None,
            Err(e) => index_problem(dm, i as int, k as int) == Some(e.deep_view()),
        },
{
    let m = &dm.models[i];
    let names = &m.indexes[k].fields;
    match find_unknown_name(m, names) {
        Some(u) => Err(
            CalculatorError::UnknownField { model: m.name.clone(), field: names[u].clone() },
        ),
        None => Ok(()),
    }
}

fn has_scalar_list(m: &Model) -> (r: bool)
    ensures
        r == (first_scalar_list(m) < m.fields@.len()),
{
    let ghost p = |j: int| m.fields@[j].arity == FieldArity::List && m.fields@[j].is_scalar_spec();
    let mut j: usize = 0;
    while j < m.fields.len()
        invariant
            0 <= j <= m.fields@.len(),
            p == (|j: int| m.fields@[j].arity == FieldArity::List && m.fields@[j].is_scalar_spec()),
            forall|n: int| 0 <= n < j ==> !#[trigger] p(n),
        decreases m.fields@.len() - j,
    {
        if m.fields[j].is_list() && is_scalar(&m.fields[j]) {
            proof {
                lemma_first_index_unique(m.fields@.len() as int, p, j as int);
            }
            return true;
        }
        j = j + 1;
    }
    proof {
        lemma_first_index_unique(m.fields@.len() as int, p, j as int);
    }
    false
}

fn is_referred_to(dm: &Datamodel, relations: &Vec<TempRelationHolder>, i: usize) -> (r: bool)
    requires
        relations.deep_view() == resolved_relations(dm),
    ensures
        r == (first_referring_relation(dm, i as int) < resolved_relations(dm).len()),
{
    let ghost p = |k: int| refers_to_id(resolved_relations(dm)[k], i as int);
    let mut k: usize = 0;
    while k < relations.len()
        invariant
            relations.deep_view() == resolved_relations(dm),
            0 <= k <= relations@.len(),
            p == (|k: int| refers_to_id(resolved_relations(dm)[k], i as int)),
            forall|n: int| 0 <= n < k ==> !#[trigger] p(n),
        decreases relations@.len() - k,
    {
        let rel = &relations[k];
        assert(rel.deep_view() == resolved_relations(dm)[k as int]);
        let refers = match &rel.manifestation {
            TempManifestationHolder::Inline { side, in_table_of_model, column } => match side {
                RelationSide::A => rel.model_b == i,
                RelationSide::B => rel.model_a == i,
            },
            TempManifestationHolder::Table { .. } => rel.model_a == i || rel.model_b == i,
        };
        if refers {
            proof {
                lemma_first_index_unique(relations@.len() as int, p, k as int);
            }
            return true;
        }
        k = k + 1;
    }
    proof {
        lemma_first_index_unique(relations@.len() as int, p, k as int);
    }
    false
}

/// Says what stops the calculation at model `i`, if anything does.
pub fn check_model(dm: &Datamodel, i: usize) -> (r: Result<(), CalculatorError>)
    requires
        i < dm.models@.len(),
    ensures
        match r {
            Ok(_) => model_problem(dm, i as int) is None,
            Err(e) => model_problem(dm, i as int) == Some(e.deep_view()),
        },
{
    let relations = calculate_relations(dm);
    check_model_with(dm, &relations, i)
}

fn check_model_with(dm: &Datamodel, relations: &Vec<TempRelationHolder>, i: usize) -> (r: Result<
    (),
    CalculatorError,
>)
    requires
        i < dm.models@.len(),
        relations.deep_view() == resolved_relations(dm),
    ensures
        match r {
            Ok(_) => model_problem(dm, i as int) is None,
            Err(e) => model_problem(dm, i as int) == Some(e.deep_view()),
        },
{
    let m = &dm.models[i];
    match m.id_field() {
        Some(id) => {
            if column_type(id).is_none() {
                return Err(
                    CalculatorError::UnsupportedType {
                        model: m.name.clone(),
                        field: id.name.clone(),
                    },
                );
            }
        },
        None => {
            if m.id_fields.len() == 0 || has_scalar_list(m) || is_referred_to(dm, relations, i) {
                return Err(CalculatorError::MissingIdField { model: m.name.clone() });
            }
        },
    }
    if let Some(u) = find_unknown_name(m, &m.id_fields) {
        return Err(
            CalculatorError::UnknownField { model: m.name.clone(), field: m.id_fields[u].clone() },
        );
    }
    let ghost pf = |j: int| field_problem(dm, i as int, j) is Some;
    let mut j: usize = 0;
    while j < m.fields.len()
        invariant
            i < dm.models@.len(),
            *m == dm.models@[i as int],
            0 <= j <= m.fields@.len(),
            pf == (|j: int| field_problem(dm, i as int, j) is Some),
            forall|n: int| 0 <= n < j ==> !#[trigger] pf(n),
            m.has_id_field() || (m.id_fields@.len() > 0 && !needs_id_field(dm, i as int)),
            m.has_id_field() ==> family_of(&m.id_field_spec()) is Some,
            first_unknown_name(m, m.id_fields@) == m.id_fields@.len(),
        decreases m.fields@.len() - j,
    {
        let r = check_field(dm, i, j);
        if r.is_err() {
            proof {
                lemma_first_index_unique(m.fields@.len() as int, pf, j as int);
            }
            return r;
        }
        j = j + 1;
    }
    proof {
        lemma_first_index_unique(m.fields@.len() as int, pf, j as int);
    }
    let ghost pi = |k: int| index_problem(dm, i as int, k) is Some;
    let mut k: usize = 0;
    while k < m.indexes.len()
        invariant
            i < dm.models@.len(),
            *m == dm.models@[i as int],
            0 <= k <= m.indexes@.len(),
            pi == (|k: int| index_problem(dm, i as int, k) is Some),
            forall|n: int| 0 <= n < k ==> !#[trigger] pi(n),
            m.has_id_field() || (m.id_fields@.len() > 0 && !needs_id_field(dm, i as int)),
            m.has_id_field() ==> family_of(&m.id_field_spec()) is Some,
            first_unknown_name(m, m.id_fields@) == m.id_fields@.len(),
            first_field_problem(dm, i as int) == m.fields@.len(),
        decreases m.indexes@.len() - k,
    {
        let r = check_index(dm, i, k);
        if r.is_err() {
            proof {
                lemma_first_index_unique(m.indexes@.len() as int, pi, k as int);
            }
            return r;
        }
        k = k + 1;
    }
    proof {
        lemma_first_index_unique(m.indexes@.len() as int, pi, k as int);
    }
    Ok(())
}

/// Says what stops the calculation, if anything does: the problem of the
/// first model that has one.
pub fn check(dm: &Datamodel) -> (r: Result<(), CalculatorError>)
    ensures
        r is Ok <==> calculable(dm),
        match r {
            Ok(_) => first_problem(dm) is None,
            Err(e) => first_problem(dm) == Some(e.deep_view()),
        },
{
    let relations = calculate_relations(dm);
    let ghost p = |i: int| model_problem(dm, i) is Some;
    let mut i: usize = 0;
    while i < dm.models.len()
        invariant
            relations.deep_view() == resolved_relations(dm),
            0 <= i <= dm.models@.len(),
            p == (|i: int| model_problem(dm, i) is Some),
            forall|n: int| 0 <= n < i ==> !#[trigger] p(n),
        decreases dm.models@.len() - i,
    {
        let r = check_model_with(dm, &relations, i);
        if r.is_err() {
            proof {
                lemma_first_index_unique(dm.models@.len() as int, p, i as int);
            }
            return r;
        }
        i = i + 1;
    }
    proof {
        lemma_first_index_unique(dm.models@.len() as int, p, i as int);
        assert forall|n: int| 0 <= n < dm.models@.len() implies (#[trigger] model_problem(
            dm,
            n,
        )) is None by {
            assert(!p(n));
        }
    }
    Ok(())
}

// ---------------------------------------------------------------------------
// The tables of the models
// ---------------------------------------------------------------------------
/// The column of the field at `j` of model `i`: one for a scalar or enum
/// field that is no list, none for any other. It counts automatically where
/// it is an integer id.
pub open spec fn model_column(dm: &Datamodel, i: int, j: int) -> Seq<ColumnView> {
    let f = dm.models@[i].fields@[j];
    if f.is_scalar_spec() && f.arity != FieldArity::List {
        seq![
            ColumnView {
                name: f.db_name_view(),
                tpe: ColumnType { family: family_of(&f)->Some_0 },
                arity: column_arity_of(f.arity),
                default: column_default(dm, &f),
                auto_increment: family_of(&f) == Some(ColumnTypeFamily::Int) && f.is_id_spec(),
            },
        ]
    } else {
        Seq::empty()
    }
}

/// The columns of the first `n` fields of model `i`.
pub open spec fn model_columns_upto(dm: &Datamodel, i: int, n: int) -> Seq<ColumnView> {
    concat_range(n, |j: int| model_column(dm, i, j))
}

/// The column names of the fields that `names` lists.
pub open spec fn column_names(m: &Model, names: Seq<String>) -> Seq<Seq<char>> {
    Seq::new(names.len(), |k: int| m.fields@[m.field_index(names[k]@)].db_name_view())
}

/// The primary key of a model: the column of its id field, where it has
/// one, then those of the fields of its composite id.
pub open spec fn primary_key_of(m: &Model) -> PrimaryKeyView {
    PrimaryKeyView {
        columns: (if m.has_id_field() {
            seq![m.id_field_spec().db_name_view()]
        } else {
            Seq::empty()
        }) + column_names(m, m.id_fields@),
        sequence: None,
    }
}

/// The index of the field at `j` of model `i`: a unique one, named by table
/// and column with a dot between them, where the field is marked unique.
pub open spec fn unique_index(dm: &Datamodel, i: int, j: int) -> Seq<IndexView> {
    let m = dm.models@[i];
    let f = m.fields@[j];
    if f.is_unique {
        seq![
            IndexView {
                name: m.db_name_view() + "."@ + f.db_name_view(),
                columns: seq![f.db_name_view()],
                tpe: IndexType::Unique,
            },
        ]
    } else {
        Seq::empty()
    }
}

/// The indexes of the unique fields among the first `n` fields of model `i`.
pub open spec fn unique_indices_upto(dm: &Datamodel, i: int, n: int) -> Seq<IndexView> {
    concat_range(n, |j: int| unique_index(dm, i, j))
}

/// The index that the definition at `k` of model `i` asks for. Without a
/// name of its own it is named by the table, a dot, and its columns with
/// underscores between them.
pub open spec fn defined_index(dm: &Datamodel, i: int, k: int) -> IndexView {
    let m = dm.models@[i];
    let d = m.indexes@[k];
    let columns = column_names(&m, d.fields@);
    IndexView {
        name: match d.name {
            Some(n) => n@,
            None => m.db_name_view() + "."@ + joined(columns, "_"@),
        },
        columns,
        tpe: if d.tpe == crate::datamodel::IndexType::Unique {
            IndexType::Unique
        } else {
            IndexType::Normal
        },
    }
}

/// The indexes that the first `n` index definitions of model `i` ask for.
pub open spec fn defined_indices_upto(dm: &Datamodel, i: int, n: int) -> Seq<IndexView> {
    Seq::new(n as nat, |k: int| defined_index(dm, i, k))
}

/// The indexes of model `i`: those of its unique fields, then those that it
/// defines.
pub open spec fn model_indices(dm: &Datamodel, i: int) -> Seq<IndexView> {
    let m = dm.models@[i];
    unique_indices_upto(dm, i, m.fields@.len() as int) + defined_indices_upto(
        dm,
        i,
        m.indexes@.len() as int,
    )
}

/// The table of model `i` without the columns of its relations.
pub open spec fn plain_model_table(dm: &Datamodel, i: int) -> TableView {
    let m = dm.models@[i];
    TableView {
        name: m.db_name_view(),
        columns: model_columns_upto(dm, i, m.fields@.len() as int),
        indices: model_indices(dm, i),
        primary_key: Some(primary_key_of(&m)),
        foreign_keys: Seq::empty(),
    }
}

/// The tables of the models without the columns of their relations.
pub open spec fn plain_model_tables(dm: &Datamodel) -> Seq<TableView> {
    Seq::new(dm.models@.len(), |i: int| plain_model_table(dm, i))
}

fn column_type_of(f: &Field) -> (r: ColumnType)
    requires
        family_of(f) is Some,
    ensures
        Some(r.family) == family_of(f),
{
    match column_type(f) {
        Some(t) => t,
        None => vstd::pervasive::unreached(),
    }
}

fn id_field_of(m: &Model) -> (r: &Field)
    requires
        m.has_id_field(),
    ensures
        *r == m.id_field_spec(),
{
    match m.id_field() {
        Some(f) => f,
        None => vstd::pervasive::unreached(),
    }
}

fn names_to_columns(m: &Model, names: &Vec<String>) -> (r: Vec<String>)
    requires
        forall|k: int| 0 <= k < names@.len() ==> m.has_field(#[trigger] names@[k]@),
    ensures
        r.deep_view() == column_names(m, names@),
{
    let mut out: Vec<String> = Vec::new();
    let mut k: usize = 0;
    while k < names.len()
        invariant
            0 <= k <= names@.len(),
            forall|k: int| 0 <= k < names@.len() ==> m.has_field(#[trigger] names@[k]@),
            out@.len() == k,
            forall|n: int| 0 <= n < k ==> (#[trigger] out@[n])@ == column_names(m, names@)[n],
        decreases names@.len() - k,
    {
        let c = match m.find_field(names[k].as_str()) {
            Some(f) => f.db_name(),
            None => vstd::pervasive::unreached(),
        };
        out.push(c);
        k = k + 1;
    }
    out
}

fn model_columns(dm: &Datamodel, i: usize) -> (r: Vec<Column>)
    requires
        calculable(dm),
        i < dm.models@.len(),
    ensures
        r.deep_view() == model_columns_upto(dm, i as int, dm.models@[i as int].fields@.len() as int),
{
    let m = &dm.models[i];
    let mut out: Vec<Column> = Vec::new();
    let mut j: usize = 0;
    proof {
        lemma_calculable_model(dm, i as int);
    }
    while j < m.fields.len()
        invariant
            i < dm.models@.len(),
            *m == dm.models@[i as int],
            0 <= j <= m.fields@.len(),
            forall|j: int|
                0 <= j < dm.models@[i as int].fields@.len() ==> (#[trigger] field_problem(
                    dm,
                    i as int,
                    j,
                )) is None,
            out.deep_view() == model_columns_upto(dm, i as int, j as int),
        decreases m.fields@.len() - j,
    {
        let f = &m.fields[j];
        assert(field_problem(dm, i as int, j as int) is None);
        if is_scalar(f) && !f.is_list() {
            let tpe = column_type_of(f);
            let auto_increment = match tpe.family {
                ColumnTypeFamily::Int => f.is_id(),
                _ => false,
            };
            let c = Column {
                name: f.db_name(),
                tpe,
                arity: column_arity(f),
                default: f.migration_value_new(dm),
                auto_increment,
            };
            out.push(c);
        }
        j = j + 1;
    }
    out
}

#[verifier::rlimit(40)]
fn model_table_indices(dm: &Datamodel, i: usize) -> (r: Vec<Index>)
    requires
        calculable(dm),
        i < dm.models@.len(),
    ensures
        r.deep_view() == model_indices(dm, i as int),
{
    let m = &dm.models[i];
    let mut out: Vec<Index> = Vec::new();
    let table = m.db_name();
    let mut j: usize = 0;
    while j < m.fields.len()
        invariant
            i < dm.models@.len(),
            *m == dm.models@[i as int],
            table@ == m.db_name_view(),
            0 <= j <= m.fields@.len(),
            out.deep_view() == unique_indices_upto(dm, i as int, j as int),
        decreases m.fields@.len() - j,
    {
        let f = &m.fields[j];
        if f.is_unique {
            let column = f.db_name();
            let mut columns: Vec<String> = Vec::new();
            columns.push(column.clone());
            assert(columns.deep_view() =~= seq![f.db_name_view()]);
            let x = Index {
                name: concat3(table.as_str(), ".", column.as_str()),
                columns,
                tpe: IndexType::Unique,
            };
            out.push(x);
        }
        j = j + 1;
    }
    let ghost uniques = out.deep_view();
    let mut k: usize = 0;
    proof {
        lemma_calculable_model(dm, i as int);
    }
    while k < m.indexes.len()
        invariant
            i < dm.models@.len(),
            *m == dm.models@[i as int],
            table@ == m.db_name_view(),
            0 <= k <= m.indexes@.len(),
            forall|k: int|
                0 <= k < dm.models@[i as int].indexes@.len() ==> (#[trigger] index_problem(
                    dm,
                    i as int,
                    k,
                )) is None,
            out.deep_view() == uniques + defined_indices_upto(dm, i as int, k as int),
        decreases m.indexes@.len() - k,
    {
        let d = &m.indexes[k];
        let ghost before = out.deep_view();
        proof {
            lemma_index_names_known(dm, i as int, k as int);
        }
        let columns = names_to_columns(m, &d.fields);
        let name = match &d.name {
            Some(n) => n.clone(),
            None => {
                let tail = join(&columns, "_");
                concat3(table.as_str(), ".", tail.as_str())
            },
        };
        let tpe = match d.tpe {
            crate::datamodel::IndexType::Unique => IndexType::Unique,
            crate::datamodel::IndexType::Normal => IndexType::Normal,
        };
        let x = Index { name, columns, tpe };
        out.push(x);
        assert(out.deep_view() =~= before + seq![x.deep_view()]);
        k = k + 1;
    }
    out
}

fn model_primary_key(dm: &Datamodel, i: usize) -> (r: PrimaryKey)
    requires
        calculable(dm),
        i < dm.models@.len(),
    ensures
        r.deep_view() == primary_key_of(&dm.models@[i as int]),
{
    let m = &dm.models[i];
    proof {
        lemma_calculable_model(dm, i as int);
    }
    let mut columns: Vec<String> = Vec::new();
    if let Some(id) = m.id_field() {
        columns.push(id.db_name());
    }
    let mut more = names_to_columns(m, &m.id_fields);
    let ghost first = columns.deep_view();
    let ghost rest = more.deep_view();
    columns.append(&mut more);
    assert(columns.deep_view() =~= first + rest);
    assert(first =~= if m.has_id_field() {
        seq![m.id_field_spec().db_name_view()]
    } else {
        Seq::empty()
    });
    PrimaryKey { columns, sequence: None }
}

/// The tables of the models, one for each, without the columns of their
/// relations.
pub fn calculate_model_tables(dm: &Datamodel) -> (r: Vec<Table>)
    requires
        calculable(dm),
    ensures
        r.deep_view() == plain_model_tables(dm),
{
    let mut out: Vec<Table> = Vec::new();
    let mut i: usize = 0;
    while i < dm.models.len()
        invariant
            calculable(dm),
            0 <= i <= dm.models@.len(),
            out@.len() == i,
            forall|n: int| 0 <= n < i ==> (#[trigger] out@[n]).deep_view() == plain_model_table(dm, n),
        decreases dm.models@.len() - i,
    {
        let m = &dm.models[i];
        let t = Table {
            name: m.db_name(),
            columns: model_columns(dm, i),
            indices: model_table_indices(dm, i),
            primary_key: Some(model_primary_key(dm, i)),
            foreign_keys: Vec::new(),
        };
        assert(t.foreign_keys.deep_view() =~= Seq::empty());
        out.push(t);
        i = i + 1;
    }
    out
}

// ---------------------------------------------------------------------------
// The columns of inline relations
// ---------------------------------------------------------------------------
/// For a relation that is kept in a column: the model that has the column,
/// the relation field beside which it stands, and the model it points at.
pub open spec fn inline_holder(h: RelationHolderView) -> Option<(int, int, int)> {
    match h.manifestation {
        HolderManifestationView::Inline { side, in_table_of_model, column } => match side {
            RelationSide::A => Some((h.model_a, h.field_a, h.model_b)),
            RelationSide::B => Some((h.model_b, h.field_b, h.model_a)),
        },
        HolderManifestationView::Table { .. } => None,
    }
}

/// The name of the column in which an inline relation is kept.
pub open spec fn inline_column_name(h: RelationHolderView) -> Seq<char> {
    h.manifestation->Inline_column
}

/// The column that a relation adds to the table of model `i`: one where the
/// relation is kept in that table, none otherwise. Its type is that of the
/// id of the model it points at, its arity that of the relation field.
pub open spec fn inline_column(dm: &Datamodel, h: RelationHolderView, i: int) -> Seq<ColumnView> {
    match inline_holder(h) {
        Some((model, field, related)) => if model == i {
            seq![
                ColumnView {
                    name: inline_column_name(h),
                    tpe: ColumnType {
                        family: family_of(&dm.models@[related].id_field_spec())->Some_0,
                    },
                    arity: column_arity_of(dm.models@[model].fields@[field].arity),
                    default: None,
                    auto_increment: false,
                },
            ]
        } else {
            Seq::empty()
        },
        None => Seq::empty(),
    }
}

/// The foreign key that a relation adds to the table of model `i`: from its
/// column to the id of the model it points at. Deleting the record pointed
/// at is restricted where the column is required, and empties the column
/// otherwise.
pub open spec fn inline_foreign_key(dm: &Datamodel, h: RelationHolderView, i: int) -> Seq<
    ForeignKeyView,
> {
    match inline_holder(h) {
        Some((model, field, related)) => if model == i {
            seq![
                ForeignKeyView {
                    constraint_name: None,
                    columns: seq![inline_column_name(h)],
                    referenced_table: dm.models@[related].db_name_view(),
                    referenced_columns: seq![dm.models@[related].id_field_spec().db_name_view()],
                    on_delete_action: if dm.models@[model].fields@[field].arity
                        == FieldArity::Required {
                        ForeignKeyAction::Restrict
                    } else {
                        ForeignKeyAction::SetNull
                    },
                },
            ]
        } else {
            Seq::empty()
        },
        None => Seq::empty(),
    }
}

/// The columns that the first `n` relations add to the table of model `i`.
pub open spec fn inline_columns_upto(dm: &Datamodel, i: int, n: int) -> Seq<ColumnView> {
    concat_range(n, |k: int| inline_column(dm, resolved_relations(dm)[k], i))
}

/// The foreign keys that the first `n` relations add to the table of model `i`.
pub open spec fn inline_foreign_keys_upto(dm: &Datamodel, i: int, n: int) -> Seq<ForeignKeyView> {
    concat_range(n, |k: int| inline_foreign_key(dm, resolved_relations(dm)[k], i))
}

/// A table with the columns and foreign keys of the relations that are kept
/// in the table of model `i`, in the order of the relations.
pub open spec fn with_inline_relations(dm: &Datamodel, i: int, t: TableView) -> TableView {
    let n = resolved_relations(dm).len() as int;
    TableView {
        name: t.name,
        columns: t.columns + inline_columns_upto(dm, i, n),
        indices: t.indices,
        primary_key: t.primary_key,
        foreign_keys: t.foreign_keys + inline_foreign_keys_upto(dm, i, n),
    }
}

/// The table of model `i`.
pub open spec fn model_table(dm: &Datamodel, i: int) -> TableView {
    with_inline_relations(dm, i, plain_model_table(dm, i))
}

/// The tables of the models, in the order of the models.
pub open spec fn model_tables(dm: &Datamodel) -> Seq<TableView> {
    Seq::new(dm.models@.len(), |i: int| model_table(dm, i))
}

fn one_name(name: String) -> (r: Vec<String>)
    ensures
        r.deep_view() == seq![name@],
{
    let mut v: Vec<String> = Vec::new();
    v.push(name);
    v
}

#[verifier::rlimit(40)]
fn add_inline_relations(
    dm: &Datamodel,
    relations: &Vec<TempRelationHolder>,
    i: usize,
    table: Table,
) -> (r: Table)
    requires
        calculable(dm),
        relations.deep_view() == resolved_relations(dm),
        i < dm.models@.len(),
    ensures
        r.deep_view() == with_inline_relations(dm, i as int, table.deep_view()),
{
    let ghost t0 = table.deep_view();
    let mut t = table;
    let mut k: usize = 0;
    assert(t.deep_view().foreign_keys =~= t0.foreign_keys + inline_foreign_keys_upto(
        dm,
        i as int,
        0,
    ));
    while k < relations.len()
        invariant
            calculable(dm),
            relations.deep_view() == resolved_relations(dm),
            i < dm.models@.len(),
            0 <= k <= relations@.len(),
            t.deep_view().name == t0.name,
            t.deep_view().indices == t0.indices,
            t.deep_view().primary_key == t0.primary_key,
            t.deep_view().columns == t0.columns + inline_columns_upto(dm, i as int, k as int),
            t.deep_view().foreign_keys == t0.foreign_keys + inline_foreign_keys_upto(
                dm,
                i as int,
                k as int,
            ),
        decreases relations@.len() - k,
    {
        let rel = &relations[k];
        let ghost cols = t.deep_view().columns;
        let ghost fks = t.deep_view().foreign_keys;
        proof {
            lemma_resolved_relation_origin(dm, k as int);
        }
        match &rel.manifestation {
            TempManifestationHolder::Inline { side, in_table_of_model, column } => {
                let (model, field, related) = match side {
                    RelationSide::A => (rel.model_a, rel.field_a, rel.model_b),
                    RelationSide::B => (rel.model_b, rel.field_b, rel.model_a),
                };
                if model == i {
                    proof {
                        lemma_relation_needs_id(dm, k as int, related as int);
                    }
                    let f = &dm.models[model].fields[field];
                    let target = &dm.models[related];
                    let id = id_field_of(target);
                    let c = Column {
                        name: column.clone(),
                        tpe: column_type_of(id),
                        arity: column_arity(f),
                        default: None,
                        auto_increment: false,
                    };
                    let fk = ForeignKey {
                        constraint_name: None,
                        columns: one_name(column.clone()),
                        referenced_table: target.db_name(),
                        referenced_columns: one_name(id.db_name()),
                        on_delete_action: if c.is_required() {
                            ForeignKeyAction::Restrict
                        } else {
                            ForeignKeyAction::SetNull
                        },
                    };
                    t.columns.push(c);
                    t.foreign_keys.push(fk);
                    assert(t.deep_view().columns =~= cols + seq![c.deep_view()]);
                    assert(t.deep_view().foreign_keys =~= fks + seq![fk.deep_view()]);
                }
            },
            TempManifestationHolder::Table { .. } => {},
        }
        assert(t.deep_view().foreign_keys =~= t0.foreign_keys + inline_foreign_keys_upto(
            dm,
            i as int,
            k + 1,
        ));
        k = k + 1;
    }
    t
}

/// Adds to the table of each model the columns and foreign keys of the
/// relations that are kept in it. The tables stand in the order of the
/// models.
pub fn add_inline_relations_to_model_tables(dm: &Datamodel, model_tables: Vec<Table>) -> (r: Vec<
    Table,
>)
    requires
        calculable(dm),
        model_tables@.len() == dm.models@.len(),
    ensures
        r@.len() == model_tables@.len(),
        forall|i: int|
            0 <= i < r@.len() ==> (#[trigger] r@[i]).deep_view() == with_inline_relations(
                dm,
                i,
                model_tables@[i].deep_view(),
            ),
{
    let relations = calculate_relations(dm);
    let ghost all = model_tables@;
    let mut rest = model_tables;
    let mut out: Vec<Table> = Vec::new();
    let mut i: usize = 0;
    let n = dm.models.len();
    while rest.len() > 0
        invariant
            calculable(dm),
            relations.deep_view() == resolved_relations(dm),
            all.len() == dm.models@.len(),
            n == all.len(),
            0 <= i <= all.len(),
            rest@ == all.skip(i as int),
            out@.len() == i,
            forall|n: int|
                0 <= n < i ==> (#[trigger] out@[n]).deep_view() == with_inline_relations(
                    dm,
                    n,
                    all[n].deep_view(),
                ),
        decreases rest@.len(),
    {
        let table = rest.remove(0);
        let t = add_inline_relations(dm, &relations, i, table);
        out.push(t);
        i = i + 1;
    }
    out
}

// ---------------------------------------------------------------------------
// The side tables of scalar lists
// ---------------------------------------------------------------------------
/// A required column without default.
pub open spec fn plain_column(name: Seq<char>, family: ColumnTypeFamily) -> ColumnView {
    ColumnView {
        name,
        tpe: ColumnType { family },
        arity: ColumnArity::Required,
        default: None,
        auto_increment: false,
    }
}

/// The side table of the field at `j` of model `i`: one for a list of
/// scalars or enum values, none for any other field. It is named by table
/// and column with an underscore between them. Each row holds the id of the
/// record, the position in the list and the value; id and position make the
/// primary key, and the rows go when the record is deleted.
pub open spec fn scalar_list_table(dm: &Datamodel, i: int, j: int) -> Seq<TableView> {
    let m = dm.models@[i];
    let f = m.fields@[j];
    let id = m.id_field_spec();
    if f.arity == FieldArity::List && f.is_scalar_spec() {
        seq![
            TableView {
                name: m.db_name_view() + "_"@ + f.db_name_view(),
                columns: seq![
                    plain_column("nodeId"@, family_of(&id)->Some_0),
                    plain_column("position"@, ColumnTypeFamily::Int),
                    plain_column("value"@, family_of(&f)->Some_0),
                ],
                indices: Seq::empty(),
                primary_key: Some(
                    PrimaryKeyView { columns: seq!["nodeId"@, "position"@], sequence: None },
                ),
                foreign_keys: seq![
                    ForeignKeyView {
                        constraint_name: None,
                        columns: seq!["nodeId"@],
                        referenced_table: m.db_name_view(),
                        referenced_columns: seq![id.db_name_view()],
                        on_delete_action: ForeignKeyAction::Cascade,
                    },
                ],
            },
        ]
    } else {
        Seq::empty()
    }
}

/// The side tables of the scalar lists among the first `n` fields of model `i`.
pub open spec fn scalar_list_tables_of_model(dm: &Datamodel, i: int, n: int) -> Seq<TableView> {
    concat_range(n, |j: int| scalar_list_table(dm, i, j))
}

/// The side tables of the scalar lists of the first `n` models.
pub open spec fn scalar_list_tables_upto(dm: &Datamodel, n: int) -> Seq<TableView> {
    concat_range(
        n,
        |i: int| scalar_list_tables_of_model(dm, i, dm.models@[i].fields@.len() as int),
    )
}

/// The side tables of all scalar lists, in the order of models and fields.
pub open spec fn scalar_list_tables(dm: &Datamodel) -> Seq<TableView> {
    scalar_list_tables_upto(dm, dm.models@.len() as int)
}

fn make_plain_column(name: &str, tpe: ColumnType) -> (r: Column)
    ensures
        r.deep_view() == plain_column(name@, tpe.family),
{
    Column {
        name: String::from_str(name),
        tpe,
        arity: ColumnArity::Required,
        default: None,
        auto_increment: false,
    }
}

#[verifier::rlimit(40)]
fn make_scalar_list_table(dm: &Datamodel, i: usize, j: usize) -> (r: Table)
    requires
        calculable(dm),
        i < dm.models@.len(),
        j < dm.models@[i as int].fields@.len(),
        dm.models@[i as int].fields@[j as int].arity == FieldArity::List,
        dm.models@[i as int].fields@[j as int].is_scalar_spec(),
    ensures
        seq![r.deep_view()] == scalar_list_table(dm, i as int, j as int),
{
    let m = &dm.models[i];
    let f = &m.fields[j];
    proof {
        lemma_calculable_model(dm, i as int);
        lemma_list_needs_id(dm, i as int, j as int);
        assert(field_problem(dm, i as int, j as int) is None);
    }
    let id = id_field_of(m);
    let mut pk: Vec<String> = Vec::new();
    pk.push(String::from_str("nodeId"));
    pk.push(String::from_str("position"));
    assert(pk.deep_view() =~= seq!["nodeId"@, "position"@]);
    let fk = ForeignKey {
        constraint_name: None,
        columns: one_name(String::from_str("nodeId")),
        referenced_table: m.db_name(),
        referenced_columns: one_name(id.db_name()),
        on_delete_action: ForeignKeyAction::Cascade,
    };
    let mut foreign_keys: Vec<ForeignKey> = Vec::new();
    foreign_keys.push(fk);
    assert(foreign_keys.deep_view() =~= seq![fk.deep_view()]);
    let c0 = make_plain_column("nodeId", column_type_of(id));
    let c1 = make_plain_column("position", ColumnType::pure(ColumnTypeFamily::Int));
    let c2 = make_plain_column("value", column_type_of(f));
    let mut columns: Vec<Column> = Vec::new();
    columns.push(c0);
    columns.push(c1);
    columns.push(c2);
    assert(columns.deep_view() =~= seq![c0.deep_view(), c1.deep_view(), c2.deep_view()]);
    let t = Table {
        name: concat3(m.db_name().as_str(), "_", f.db_name().as_str()),
        columns,
        indices: Vec::new(),
        primary_key: Some(PrimaryKey { columns: pk, sequence: None }),
        foreign_keys,
    };
    assert(t.indices.deep_view() =~= Seq::empty());
    t
}

/// The side tables of all scalar lists, in the order of models and fields.
pub fn calculate_scalar_list_tables(dm: &Datamodel) -> (r: Vec<Table>)
    requires
        calculable(dm),
    ensures
        r.deep_view() == scalar_list_tables(dm),
{
    let mut out: Vec<Table> = Vec::new();
    let mut i: usize = 0;
    while i < dm.models.len()
        invariant
            calculable(dm),
            0 <= i <= dm.models@.len(),
            out.deep_view() == scalar_list_tables_upto(dm, i as int),
        decreases dm.models@.len() - i,
    {
        let m = &dm.models[i];
        let ghost before = out.deep_view();
        let mut j: usize = 0;
        while j < m.fields.len()
            invariant
                calculable(dm),
                i < dm.models@.len(),
                *m == dm.models@[i as int],
                0 <= j <= m.fields@.len(),
                out.deep_view() == before + scalar_list_tables_of_model(dm, i as int, j as int),
            decreases m.fields@.len() - j,
        {
            let f = &m.fields[j];
            let ghost mid = out.deep_view();
            if f.is_list() && is_scalar(f) {
                let t = make_scalar_list_table(dm, i, j);
                out.push(t);
                assert(out.deep_view() =~= mid + seq![t.deep_view()]);
            }
            j = j + 1;
        }
        i = i + 1;
    }
    out
}

// ---------------------------------------------------------------------------
// The join tables of relations
// ---------------------------------------------------------------------------
/// The column for the id of the rows of a join table: one of strings
/// where the relation names it, none otherwise.
pub open spec fn row_id_column(id_column: Option<Seq<char>>) -> Seq<ColumnView> {
    match id_column {
        Some(c) => seq![plain_column(c, ColumnTypeFamily::String)],
        None => Seq::empty(),
    }
}

/// The join table of a relation: one for a relation that is kept in a table
/// of its own, none for any other. Its columns `A` and `B` hold the ids of
/// the two records; no pair occurs twice; a row goes when one of its two
/// records is deleted. Where the relation names an id column the rows have
/// that column too.
pub open spec fn relation_table(dm: &Datamodel, h: RelationHolderView) -> Seq<TableView> {
    let a = dm.models@[h.model_a];
    let b = dm.models@[h.model_b];
    match h.manifestation {
        HolderManifestationView::Table { id_column } => seq![
            TableView {
                name: h.table_name(),
                columns: seq![
                    plain_column("A"@, family_of(&a.id_field_spec())->Some_0),
                    plain_column("B"@, family_of(&b.id_field_spec())->Some_0),
                ] + row_id_column(id_column),
                indices: seq![
                    IndexView {
                        name: h.table_name() + "_AB_unique"@,
                        columns: seq!["A"@, "B"@],
                        tpe: IndexType::Unique,
                    },
                ],
                primary_key: None,
                foreign_keys: seq![
                    ForeignKeyView {
                        constraint_name: None,
                        columns: seq!["A"@],
                        referenced_table: a.db_name_view(),
                        referenced_columns: seq![a.id_field_spec().db_name_view()],
                        on_delete_action: ForeignKeyAction::Cascade,
                    },
                    ForeignKeyView {
                        constraint_name: None,
                        columns: seq!["B"@],
                        referenced_table: b.db_name_view(),
                        referenced_columns: seq![b.id_field_spec().db_name_view()],
                        on_delete_action: ForeignKeyAction::Cascade,
                    },
                ],
            },
        ],
        HolderManifestationView::Inline { .. } => Seq::empty(),
    }
}

/// The join tables of the first `n` relations.
pub open spec fn relation_tables_upto(dm: &Datamodel, n: int) -> Seq<TableView> {
    concat_range(n, |k: int| relation_table(dm, resolved_relations(dm)[k]))
}

/// The join tables, in the order of the relations.
pub open spec fn relation_tables(dm: &Datamodel) -> Seq<TableView> {
    relation_tables_upto(dm, resolved_relations(dm).len() as int)
}

/// The join table of a relation that is kept in a table of its own, with
/// its columns in the order `A`, `B` and the id column, if it has one.
#[verifier::rlimit(40)]
pub fn relation_table_of(dm: &Datamodel, rel: &TempRelationHolder) -> (r: Table)
    requires
        holder_in_range(dm, rel.deep_view()),
        rel.manifestation is Table,
        dm.models@[rel.model_a as int].has_id_field(),
        dm.models@[rel.model_b as int].has_id_field(),
        family_of(&dm.models@[rel.model_a as int].id_field_spec()) is Some,
        family_of(&dm.models@[rel.model_b as int].id_field_spec()) is Some,
    ensures
        seq![r.deep_view()] == relation_table(dm, rel.deep_view()),
{
    let a = &dm.models[rel.model_a];
    let b = &dm.models[rel.model_b];
    let id_a = id_field_of(a);
    let id_b = id_field_of(b);
    let fk_a = ForeignKey {
        constraint_name: None,
        columns: one_name(rel.model_a_column()),
        referenced_table: a.db_name(),
        referenced_columns: one_name(id_a.db_name()),
        on_delete_action: ForeignKeyAction::Cascade,
    };
    let fk_b = ForeignKey {
        constraint_name: None,
        columns: one_name(rel.model_b_column()),
        referenced_table: b.db_name(),
        referenced_columns: one_name(id_b.db_name()),
        on_delete_action: ForeignKeyAction::Cascade,
    };
    let mut foreign_keys: Vec<ForeignKey> = Vec::new();
    foreign_keys.push(fk_a);
    foreign_keys.push(fk_b);
    assert(foreign_keys.deep_view() =~= seq![fk_a.deep_view(), fk_b.deep_view()]);
    let c_a = make_plain_column(rel.model_a_column().as_str(), column_type_of(id_a));
    let c_b = make_plain_column(rel.model_b_column().as_str(), column_type_of(id_b));
    let mut columns: Vec<Column> = Vec::new();
    columns.push(c_a);
    columns.push(c_b);
    assert(columns.deep_view() =~= seq![c_a.deep_view(), c_b.deep_view()]);
    if let TempManifestationHolder::Table { id_column: Some(name) } = &rel.manifestation {
        let c_id = make_plain_column(name.as_str(), ColumnType::pure(ColumnTypeFamily::String));
        columns.push(c_id);
        assert(columns.deep_view() =~= seq![c_a.deep_view(), c_b.deep_view()] + seq![
            c_id.deep_view(),
        ]);
    }
    assert(columns.deep_view() =~= seq![c_a.deep_view(), c_b.deep_view()] + row_id_column(
        rel.deep_view().manifestation->Table_id_column,
    ));
    let mut index_columns: Vec<String> = Vec::new();
    index_columns.push(rel.model_a_column());
    index_columns.push(rel.model_b_column());
    assert(index_columns.deep_view() =~= seq!["A"@, "B"@]);
    let index = Index {
        name: concat2(rel.table_name().as_str(), "_AB_unique"),
        columns: index_columns,
        tpe: IndexType::Unique,
    };
    let mut indices: Vec<Index> = Vec::new();
    indices.push(index);
    assert(indices.deep_view() =~= seq![index.deep_view()]);
    let t = Table { name: rel.table_name(), columns, indices, primary_key: None, foreign_keys };
    t
}

/// The join tables, in the order of the relations.
pub fn calculate_relation_tables(dm: &Datamodel) -> (r: Vec<Table>)
    requires
        calculable(dm),
    ensures
        r.deep_view() == relation_tables(dm),
{
    let relations = calculate_relations(dm);
    let mut out: Vec<Table> = Vec::new();
    let mut k: usize = 0;
    while k < relations.len()
        invariant
            calculable(dm),
            relations.deep_view() == resolved_relations(dm),
            0 <= k <= relations@.len(),
            out.deep_view() == relation_tables_upto(dm, k as int),
        decreases relations@.len() - k,
    {
        let rel = &relations[k];
        proof {
            lemma_resolved_relation_origin(dm, k as int);
        }
        match &rel.manifestation {
            TempManifestationHolder::Table { .. } => {
                proof {
                    lemma_relation_needs_id(dm, k as int, rel.model_a as int);
                    lemma_relation_needs_id(dm, k as int, rel.model_b as int);
                }
                let t = relation_table_of(dm, rel);
                out.push(t);
            },
            _ => {},
        }
        k = k + 1;
    }
    out
}

// ---------------------------------------------------------------------------
// The schema
// ---------------------------------------------------------------------------
/// A table with its columns in ascending order of their names.
pub open spec fn sorted_table(t: TableView) -> TableView {
    TableView {
        name: t.name,
        columns: sort_columns(t.columns),
        indices: t.indices,
        primary_key: t.primary_key,
        foreign_keys: t.foreign_keys,
    }
}

/// The tables, each with its columns in ascending order of their names.
pub open spec fn sorted_tables(ts: Seq<TableView>) -> Seq<TableView> {
    Seq::new(ts.len(), |i: int| sorted_table(ts[i]))
}

/// The schema of a data model: the tables of the models, then the side
/// tables of the scalar lists, then the join tables; in each table the
/// columns ascend by name. It has no enums and no sequences.
pub open spec fn schema_of(dm: &Datamodel) -> SqlSchemaView {
    SqlSchemaView {
        tables: sorted_tables(model_tables(dm) + scalar_list_tables(dm) + relation_tables(dm)),
        enums: Seq::empty(),
        sequences: Seq::empty(),
    }
}

/// What the calculation gives for a data model: its schema where nothing
/// stops the calculation, and else the first problem.
pub open spec fn is_calculated(dm: &Datamodel, r: Result<SqlSchema, CalculatorError>) -> bool {
    match r {
        Ok(s) => calculable(dm) && s.deep_view() == schema_of(dm),
        Err(e) => !calculable(dm) && first_problem(dm) == Some(e.deep_view()),
    }
}

fn sort_table_columns(tables: Vec<Table>) -> (r: Vec<Table>)
    ensures
        r.deep_view() == sorted_tables(tables.deep_view()),
{
    let ghost all = tables@;
    let mut rest = tables;
    let mut out: Vec<Table> = Vec::new();
    let ghost mut done: int = 0;
    while rest.len() > 0
        invariant
            0 <= done <= all.len(),
            rest@ == all.skip(done),
            out@.len() == done,
            forall|n: int|
                0 <= n < done ==> (#[trigger] out@[n]).deep_view() == sorted_table(
                    all[n].deep_view(),
                ),
        decreases rest@.len(),
    {
        let t = rest.remove(0);
        let Table { name, columns, indices, primary_key, foreign_keys } = t;
        let s = Table { name, columns: sort_by_name(columns), indices, primary_key, foreign_keys };
        out.push(s);
        proof {
            done = done + 1;
        }
    }
    out
}

/// Calculates the SQL schema of a data model.
pub struct SqlSchemaCalculator<'a> {
    pub data_model: &'a Datamodel,
}

impl<'a> SqlSchemaCalculator<'a> {
    /// The schema of the data model, or what stops its calculation.
    pub fn calculate(data_model: &Datamodel) -> (r: Result<SqlSchema, CalculatorError>)
        ensures
            is_calculated(data_model, r),
    {
        match check(data_model) {
            Ok(_) => {
                let calculator = SqlSchemaCalculator { data_model };
                Ok(calculator.calculate_internal())
            },
            Err(e) => Err(e),
        }
    }

    /// The schema of a data model that has no problem.
    #[verifier::rlimit(40)]
    pub fn calculate_internal(&self) -> (r: SqlSchema)
        requires
            calculable(self.data_model),
        ensures
            r.deep_view() == schema_of(self.data_model),
    {
        let dm = self.data_model;
        let plain = calculate_model_tables(dm);
        let ghost plain_view = plain.deep_view();
        let ghost plain_raw = plain@;
        assert(plain_view.len() == plain_raw.len());
        let mut model_tables = add_inline_relations_to_model_tables(dm, plain);
        let mut scalar_list_tables = calculate_scalar_list_tables(dm);
        let mut relation_tables = calculate_relation_tables(dm);
        assert(model_tables.deep_view() =~= crate::calculator::model_tables(dm)) by {
            assert forall|i: int| 0 <= i < model_tables@.len() implies model_tables.deep_view()[i]
                == model_table(dm, i) by {
                assert(plain_view[i] == plain_raw[i].deep_view());
            }
        }
        let ghost a = model_tables.deep_view();
        let ghost b = scalar_list_tables.deep_view();
        let ghost c = relation_tables.deep_view();
        let mut tables: Vec<Table> = Vec::new();
        tables.append(&mut model_tables);
        tables.append(&mut scalar_list_tables);
        tables.append(&mut relation_tables);
        assert(tables.deep_view() =~= a + b + c);
        let tables = sort_table_columns(tables);
        let s = SqlSchema { tables, enums: Vec::new(), sequences: Vec::new() };
        assert(s.enums.deep_view() =~= Seq::empty());
        assert(s.sequences.deep_view() =~= Seq::empty());
        s
    }
}

// ---------------------------------------------------------------------------
// What holds of every schema
// ---------------------------------------------------------------------------
/// The calculation is a function of the data model: two results for one data
/// model are the same, whether schema or problem.
pub proof fn lemma_calculation_is_deterministic(
    dm: &Datamodel,
    r1: Result<SqlSchema, CalculatorError>,
    r2: Result<SqlSchema, CalculatorError>,
)
    requires
        is_calculated(dm, r1),
        is_calculated(dm, r2),
    ensures
        r1 is Ok <==> r2 is Ok,
        r1 is Ok ==> r1->Ok_0.deep_view() == r2->Ok_0.deep_view(),
        r1 is Err ==> r1->Err_0.deep_view() == r2->Err_0.deep_view(),
{
}

/// In every table of a schema the columns ascend by name.
pub proof fn lemma_columns_ascend(dm: &Datamodel, t: int)
    requires
        0 <= t < schema_of(dm).tables.len(),
    ensures
        is_sorted(schema_of(dm).tables[t].columns),
{
    let unsorted = model_tables(dm) + scalar_list_tables(dm) + relation_tables(dm);
    lemma_sort_columns_sorted(unsorted[t].columns);
}

/// Sorting keeps every column.
proof fn lemma_sorted_contains(s: Seq<ColumnView>, c: ColumnView)
    requires
        s.contains(c),
    ensures
        sort_columns(s).contains(c),
{
    broadcast use vstd::seq_lib::group_to_multiset_ensures;

    lemma_sort_columns_permutes(s);
    assert(s.to_multiset().count(c) > 0);
}

/// An inline relation whose field is no list puts into the table of its
/// model a column that is nullable exactly when the field is optional, and a
/// foreign key on that column that empties it on delete exactly when the
/// column is nullable, and restricts the delete otherwise.
#[verifier::rlimit(40)]
pub proof fn lemma_inline_foreign_key(dm: &Datamodel, k: int)
    requires
        0 <= k < resolved_relations(dm).len(),
        inline_holder(resolved_relations(dm)[k]) is Some,
        ({
            let (model, field, related) = inline_holder(resolved_relations(dm)[k])->Some_0;
            dm.models@[model].fields@[field].arity != FieldArity::List
        }),
    ensures
        ({
            let h = resolved_relations(dm)[k];
            let (model, field, related) = inline_holder(h)->Some_0;
            let f = dm.models@[model].fields@[field];
            let column = inline_column(dm, h, model)[0];
            let key = inline_foreign_key(dm, h, model)[0];
            let table = schema_of(dm).tables[model];
            &&& 0 <= model < dm.models@.len()
            &&& table.name == dm.models@[model].db_name_view()
            &&& table.columns.contains(column)
            &&& table.foreign_keys.contains(key)
            &&& key.columns == seq![column.name]
            &&& column.arity == ColumnArity::Nullable <==> f.arity == FieldArity::Optional
            &&& key.on_delete_action == ForeignKeyAction::SetNull <==> column.arity
                == ColumnArity::Nullable
            &&& key.on_delete_action == ForeignKeyAction::Restrict <==> column.arity
                != ColumnArity::Nullable
        }),
{
    let rels = resolved_relations(dm);
    let h = rels[k];
    let (model, field, related) = inline_holder(h)->Some_0;
    lemma_resolved_relation_origin(dm, k);
    let n = rels.len() as int;
    let column = inline_column(dm, h, model)[0];
    let fc = |x: int| inline_column(dm, resolved_relations(dm)[x], model);
    let ff = |x: int| inline_foreign_key(dm, resolved_relations(dm)[x], model);
    let ic = crate::seqs::lemma_concat_range_member(n, fc, k, 0);
    crate::seqs::lemma_concat_range_member(n, ff, k, 0);
    let mt = model_table(dm, model);
    let plain = plain_model_table(dm, model);
    assert(mt.columns[plain.columns.len() + ic] == column);
    lemma_sorted_contains(mt.columns, column);
}

/// A relation that is kept in a table of its own has that table in the
/// schema: its two foreign keys remove the row when the record at either
/// end is deleted, and a unique index lies on its columns `A` and `B`.
pub proof fn lemma_relation_table_keys(dm: &Datamodel, k: int) -> (t: int)
    requires
        0 <= k < resolved_relations(dm).len(),
        resolved_relations(dm)[k].manifestation is Table,
    ensures
        0 <= t < schema_of(dm).tables.len(),
        schema_of(dm).tables[t] == sorted_table(relation_table(dm, resolved_relations(dm)[k])[0]),
        schema_of(dm).tables[t].name == resolved_relations(dm)[k].table_name(),
        schema_of(dm).tables[t].foreign_keys.len() == 2,
        schema_of(dm).tables[t].foreign_keys[0].columns == seq!["A"@],
        schema_of(dm).tables[t].foreign_keys[1].columns == seq!["B"@],
        schema_of(dm).tables[t].foreign_keys[0].on_delete_action == ForeignKeyAction::Cascade,
        schema_of(dm).tables[t].foreign_keys[1].on_delete_action == ForeignKeyAction::Cascade,
        schema_of(dm).tables[t].indices.len() == 1,
        schema_of(dm).tables[t].indices[0].tpe == IndexType::Unique,
        schema_of(dm).tables[t].indices[0].columns == seq!["A"@, "B"@],
        schema_of(dm).tables[t].indices[0].name == resolved_relations(dm)[k].table_name()
            + "_AB_unique"@,
{
    let rels = resolved_relations(dm);
    let f = |x: int| relation_table(dm, resolved_relations(dm)[x]);
    let pos = crate::seqs::lemma_concat_range_member(rels.len() as int, f, k, 0);
    let head = model_tables(dm) + scalar_list_tables(dm);
    head.len() + pos
}

/// A list of scalars has its side table in the schema: the primary key is
/// exactly `nodeId` and `position`, and the foreign key on `nodeId` removes
/// the rows when the record is deleted.
pub proof fn lemma_scalar_list_table_keys(dm: &Datamodel, i: int, j: int) -> (t: int)
    requires
        0 <= i < dm.models@.len(),
        0 <= j < dm.models@[i].fields@.len(),
        dm.models@[i].fields@[j].arity == FieldArity::List,
        dm.models@[i].fields@[j].is_scalar_spec(),
    ensures
        0 <= t < schema_of(dm).tables.len(),
        schema_of(dm).tables[t] == sorted_table(scalar_list_table(dm, i, j)[0]),
        schema_of(dm).tables[t].name == dm.models@[i].db_name_view() + "_"@
            + dm.models@[i].fields@[j].db_name_view(),
        schema_of(dm).tables[t].primary_key == Some(
            PrimaryKeyView { columns: seq!["nodeId"@, "position"@], sequence: None },
        ),
        schema_of(dm).tables[t].foreign_keys.len() == 1,
        schema_of(dm).tables[t].foreign_keys[0].columns == seq!["nodeId"@],
        schema_of(dm).tables[t].foreign_keys[0].referenced_table == dm.models@[i].db_name_view(),
        schema_of(dm).tables[t].foreign_keys[0].on_delete_action == ForeignKeyAction::Cascade,
{
    let inner = |y: int| scalar_list_table(dm, i, y);
    let p1 = crate::seqs::lemma_concat_range_member(
        dm.models@[i].fields@.len() as int,
        inner,
        j,
        0,
    );
    let outer = |x: int| scalar_list_tables_of_model(dm, x, dm.models@[x].fields@.len() as int);
    let p2 = crate::seqs::lemma_concat_range_member(dm.models@.len() as int, outer, i, p1);
    let head = model_tables(dm);
    head.len() + p2
}

} // verus!
