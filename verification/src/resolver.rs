//! Resolves the relation fields of a data model into relations, one for each
//! pair of fields that point at each other, and decides how each is stored.

use crate::datamodel::{Datamodel, Field, FieldArity, FieldType, Model};
use crate::relation::{
    InlineRelation, ManifestationView, OnDelete, RelationLinkManifestation, RelationSide,
    RelationTable, RelationTemplate,
};
use crate::seqs::concat_range;
use crate::text::{concat2, concat3, str_le, text_le};
use vstd::prelude::*;
use vstd::string::StringExecFns;

verus! {

/// How a relation is stored: in a column beside one of its fields, or in a
/// table of its own, whose rows may have an id column of the given name.
#[derive(Clone, Debug, PartialEq)]
pub enum TempManifestationHolder {
    Inline { side: RelationSide, in_table_of_model: String, column: String },
    Table { id_column: Option<String> },
}

/// How a relation is stored, with its names as texts.
pub enum HolderManifestationView {
    Inline { side: RelationSide, in_table_of_model: Seq<char>, column: Seq<char> },
    Table { id_column: Option<Seq<char>> },
}

impl DeepView for TempManifestationHolder {
    type V = HolderManifestationView;

    open spec fn deep_view(&self) -> HolderManifestationView {
        match self {
            TempManifestationHolder::Inline {
                side,
                in_table_of_model,
                column,
            } => HolderManifestationView::Inline {
                side: *side,
                in_table_of_model: in_table_of_model@,
                column: column@,
            },
            TempManifestationHolder::Table { id_column } => HolderManifestationView::Table {
                id_column: match id_column {
                    Some(c) => Some(c@),
                    None => None,
                },
            },
        }
    }
}

/// A resolved relation. Its two fields are given by position: the model in
/// the data model and the field in the model. Model A is the one whose name
/// comes first.
#[derive(Clone, Debug, PartialEq)]
pub struct TempRelationHolder {
    pub name: String,
    pub model_a: usize,
    pub field_a: usize,
    pub model_b: usize,
    pub field_b: usize,
    pub model_a_name: String,
    pub model_b_name: String,
    pub manifestation: TempManifestationHolder,
}

/// A resolved relation with its names as texts.
pub struct RelationHolderView {
    pub name: Seq<char>,
    pub model_a: int,
    pub field_a: int,
    pub model_b: int,
    pub field_b: int,
    pub model_a_name: Seq<char>,
    pub model_b_name: Seq<char>,
    pub manifestation: HolderManifestationView,
}

impl DeepView for TempRelationHolder {
    type V = RelationHolderView;

    open spec fn deep_view(&self) -> RelationHolderView {
        RelationHolderView {
            name: self.name@,
            model_a: self.model_a as int,
            field_a: self.field_a as int,
            model_b: self.model_b as int,
            field_b: self.field_b as int,
            model_a_name: self.model_a_name@,
            model_b_name: self.model_b_name@,
            manifestation: self.manifestation.deep_view(),
        }
    }
}

impl RelationHolderView {
    /// The name of the join table: an underscore and the relation's name.
    pub open spec fn table_name(self) -> Seq<char> {
        "_"@ + self.name
    }

    /// How the relation is stored, in the form that the query engine reads.
    pub open spec fn link_manifestation(self) -> ManifestationView {
        match self.manifestation {
            HolderManifestationView::Inline {
                side,
                in_table_of_model,
                column,
            } => ManifestationView::Inline {
                in_table_of_model_name: in_table_of_model,
                referencing_column: column,
            },
            HolderManifestationView::Table { id_column } => ManifestationView::RelationTable {
                table: self.table_name(),
                model_a_column: "A"@,
                model_b_column: "B"@,
                id_column,
            },
        }
    }
}

impl TempRelationHolder {
    /// The name of the join table: an underscore and the relation's name.
    pub fn table_name(&self) -> (r: String)
        ensures
            r@ == self.deep_view().table_name(),
    {
        concat2("_", self.name.as_str())
    }

    /// The name of the column of model A in the join table.
    pub fn model_a_column(&self) -> (r: String)
        ensures
            r@ == "A"@,
    {
        String::from_str("A")
    }

    /// The name of the column of model B in the join table.
    pub fn model_b_column(&self) -> (r: String)
        ensures
            r@ == "B"@,
    {
        String::from_str("B")
    }

    /// The relation as it is stored with the data model. Deleting a record
    /// empties what points at it.
    pub fn template(&self) -> (r: RelationTemplate)
        ensures
            r.name == self.name,
            r.model_a_name == self.model_a_name,
            r.model_b_name == self.model_b_name,
            r.model_a_on_delete == OnDelete::SetNull,
            r.model_b_on_delete == OnDelete::SetNull,
            r.manifestation matches Some(m) && m.deep_view()
                == self.deep_view().link_manifestation(),
    {
        RelationTemplate {
            name: self.name.clone(),
            model_a_on_delete: OnDelete::SetNull,
            model_b_on_delete: OnDelete::SetNull,
            manifestation: Some(self.link_manifestation()),
            model_a_name: self.model_a_name.clone(),
            model_b_name: self.model_b_name.clone(),
        }
    }

    /// How the relation is stored, in the form that the query engine reads.
    pub fn link_manifestation(&self) -> (r: RelationLinkManifestation)
        ensures
            r.deep_view() == self.deep_view().link_manifestation(),
    {
        match &self.manifestation {
            TempManifestationHolder::Inline {
                side,
                in_table_of_model,
                column,
            } => RelationLinkManifestation::Inline(
                InlineRelation {
                    in_table_of_model_name: in_table_of_model.clone(),
                    referencing_column: column.clone(),
                },
            ),
            TempManifestationHolder::Table { id_column } => RelationLinkManifestation::RelationTable(
                RelationTable {
                    table: self.table_name(),
                    model_a_column: self.model_a_column(),
                    model_b_column: self.model_b_column(),
                    id_column: match id_column {
                        Some(c) => Some(c.clone()),
                        None => None,
                    },
                },
            ),
        }
    }
}

/// Where the other end of the relation field at `(i, j)` stands: the first
/// model called as the field's target, and in it the first relation field
/// back to model `i` under the same relation name.
pub open spec fn opposite_position(dm: &Datamodel, i: int, j: int) -> Option<(int, int)> {
    let m = dm.models@[i];
    let f = m.fields@[j];
    match f.field_type {
        FieldType::Relation(info) => {
            let i2 = dm.model_index(info.to@);
            if i2 < dm.models@.len() {
                let j2 = dm.models@[i2].related_field_index(m.name@, info.name@, f.name@);
                if j2 < dm.models@[i2].fields@.len() {
                    Some((i2, j2))
                } else {
                    None
                }
            } else {
                None
            }
        },
        _ => None,
    }
}

/// Whether the field references fields of its target.
pub open spec fn references_fields(f: &Field) -> bool {
    f.field_type matches FieldType::Relation(info) && info.to_fields@.len() > 0
}

/// On which side a relation that is not a join table keeps its column.
/// A field that references fields of its target keeps it. Else, where one
/// field is a list, the other keeps it. Else the one required field keeps
/// it, and where both or neither are required, side A.
pub open spec fn inline_side(fa: &Field, fb: &Field) -> RelationSide {
    if references_fields(fa) {
        RelationSide::A
    } else if references_fields(fb) {
        RelationSide::B
    } else if fa.arity == FieldArity::List {
        RelationSide::B
    } else if fb.arity == FieldArity::List {
        RelationSide::A
    } else if fb.arity == FieldArity::Required && fa.arity != FieldArity::Required {
        RelationSide::B
    } else {
        RelationSide::A
    }
}

/// Whether the relation of two fields is stored in a join table: both are
/// lists and neither references fields of its target.
pub open spec fn is_join_table(fa: &Field, fb: &Field) -> bool {
    fa.arity == FieldArity::List && fb.arity == FieldArity::List && !references_fields(fa)
        && !references_fields(fb)
}

/// The relation of the field at `(i, j)` and its other end at `(i2, j2)`.
pub open spec fn holder_of(dm: &Datamodel, i: int, j: int, i2: int, j2: int) -> RelationHolderView {
    let visiting_first = text_le(dm.models@[i].name@, dm.models@[i2].name@);
    let (ma, fa, mb, fb) = if visiting_first {
        (i, j, i2, j2)
    } else {
        (i2, j2, i, j)
    };
    let model_a = dm.models@[ma];
    let model_b = dm.models@[mb];
    let field_a = model_a.fields@[fa];
    let field_b = model_b.fields@[fb];
    let given = dm.models@[i].fields@[j].field_type->Relation_0.name@;
    RelationHolderView {
        name: if given.len() == 0 {
            model_a.name@ + "To"@ + model_b.name@
        } else {
            given
        },
        model_a: ma,
        field_a: fa,
        model_b: mb,
        field_b: fb,
        model_a_name: model_a.name@,
        model_b_name: model_b.name@,
        manifestation: if is_join_table(&field_a, &field_b) {
            HolderManifestationView::Table { id_column: None }
        } else {
            match inline_side(&field_a, &field_b) {
                RelationSide::A => HolderManifestationView::Inline {
                    side: RelationSide::A,
                    in_table_of_model: model_a.name@,
                    column: field_a.db_name_view(),
                },
                RelationSide::B => HolderManifestationView::Inline {
                    side: RelationSide::B,
                    in_table_of_model: model_b.name@,
                    column: field_b.db_name_view(),
                },
            }
        },
    }
}

/// The relation that starts at the field at `(i, j)`: one where the field
/// has its other end and stands before it, none otherwise. So each pair of
/// fields gives one relation.
pub open spec fn relation_at(dm: &Datamodel, i: int, j: int) -> Seq<RelationHolderView> {
    match opposite_position(dm, i, j) {
        Some((i2, j2)) => if i < i2 || (i == i2 && j < j2) {
            seq![holder_of(dm, i, j, i2, j2)]
        } else {
            Seq::empty()
        },
        None => Seq::empty(),
    }
}

/// The relations that start in model `i`, in the order of its fields.
pub open spec fn relations_of_model(dm: &Datamodel, i: int) -> Seq<RelationHolderView> {
    concat_range(dm.models@[i].fields@.len() as int, |j: int| relation_at(dm, i, j))
}

/// All relations of a data model, in the order of models and fields.
pub open spec fn resolved_relations(dm: &Datamodel) -> Seq<RelationHolderView> {
    concat_range(dm.models@.len() as int, |i: int| relations_of_model(dm, i))
}

fn has_to_fields(f: &Field) -> (r: bool)
    ensures
        r == references_fields(f),
{
    match &f.field_type {
        FieldType::Relation(info) => info.to_fields.len() > 0,
        _ => false,
    }
}

fn decide_inline_side(fa: &Field, fb: &Field) -> (r: RelationSide)
    ensures
        r == inline_side(fa, fb),
{
    if has_to_fields(fa) {
        RelationSide::A
    } else if has_to_fields(fb) {
        RelationSide::B
    } else if fa.is_list() {
        RelationSide::B
    } else if fb.is_list() {
        RelationSide::A
    } else if fb.is_required() && !fa.is_required() {
        RelationSide::B
    } else {
        RelationSide::A
    }
}

fn build_holder(dm: &Datamodel, i: usize, j: usize, i2: usize, j2: usize) -> (r: TempRelationHolder)
    requires
        i < dm.models@.len(),
        j < dm.models@[i as int].fields@.len(),
        i2 < dm.models@.len(),
        j2 < dm.models@[i2 as int].fields@.len(),
        dm.models@[i as int].fields@[j as int].field_type is Relation,
    ensures
        r.deep_view() == holder_of(dm, i as int, j as int, i2 as int, j2 as int),
{
    let visiting_first = str_le(dm.models[i].name.as_str(), dm.models[i2].name.as_str());
    let (ma, fa, mb, fb) = if visiting_first {
        (i, j, i2, j2)
    } else {
        (i2, j2, i, j)
    };
    let model_a = &dm.models[ma];
    let model_b = &dm.models[mb];
    let field_a = &model_a.fields[fa];
    let field_b = &model_b.fields[fb];
    let name = match &dm.models[i].fields[j].field_type {
        FieldType::Relation(info) => {
            if info.name.as_str().unicode_len() == 0 {
                concat3(model_a.name.as_str(), "To", model_b.name.as_str())
            } else {
                info.name.clone()
            }
        },
        _ => String::from_str(""),
    };
    let manifestation = if field_a.is_list() && field_b.is_list() && !has_to_fields(field_a)
        && !has_to_fields(field_b) {
        TempManifestationHolder::Table { id_column: None }
    } else {
        match decide_inline_side(field_a, field_b) {
            RelationSide::A => TempManifestationHolder::Inline {
                side: RelationSide::A,
                in_table_of_model: model_a.name.clone(),
                column: field_a.db_name(),
            },
            RelationSide::B => TempManifestationHolder::Inline {
                side: RelationSide::B,
                in_table_of_model: model_b.name.clone(),
                column: field_b.db_name(),
            },
        }
    };
    TempRelationHolder {
        name,
        model_a: ma,
        field_a: fa,
        model_b: mb,
        field_b: fb,
        model_a_name: model_a.name.clone(),
        model_b_name: model_b.name.clone(),
        manifestation,
    }
}

fn find_opposite(dm: &Datamodel, i: usize, j: usize) -> (r: Option<(usize, usize)>)
    requires
        i < dm.models@.len(),
        j < dm.models@[i as int].fields@.len(),
    ensures
        match r {
            Some((i2, j2)) => opposite_position(dm, i as int, j as int) == Some(
                (i2 as int, j2 as int),
            ) && i2 < dm.models@.len() && j2 < dm.models@[i2 as int].fields@.len(),
            None => opposite_position(dm, i as int, j as int) is None,
        },
{
    let m = &dm.models[i];
    let f = &m.fields[j];
    match &f.field_type {
        FieldType::Relation(info) => {
            match dm.model_position(info.to.as_str()) {
                Some(i2) => {
                    proof {
                        crate::seqs::lemma_first_index(
                            dm.models@.len() as int,
                            |k: int| dm.models@[k].name@ == info.to@,
                        );
                    }
                    match dm.models[i2].related_field_position(
                        m.name.as_str(),
                        info.name.as_str(),
                        f.name.as_str(),
                    ) {
                        Some(j2) => Some((i2, j2)),
                        None => None,
                    }
                },
                None => None,
            }
        },
        _ => None,
    }
}

/// Resolves the relations of a data model: one for each pair of relation
/// fields that point at each other, in the order of the models and fields at
/// which they start.
pub fn calculate_relations(dm: &Datamodel) -> (r: Vec<TempRelationHolder>)
    ensures
        r.deep_view() == resolved_relations(dm),
{
    let mut result: Vec<TempRelationHolder> = Vec::new();
    let ghost outer = |i: int| relations_of_model(dm, i);
    let mut i: usize = 0;
    while i < dm.models.len()
        invariant
            0 <= i <= dm.models@.len(),
            outer == (|i: int| relations_of_model(dm, i)),
            result.deep_view() == concat_range(i as int, outer),
        decreases dm.models@.len() - i,
    {
        let ghost before = result.deep_view();
        let ghost inner = |j: int| relation_at(dm, i as int, j);
        let n = dm.models[i].fields.len();
        let mut j: usize = 0;
        while j < n
            invariant
                0 <= i < dm.models@.len(),
                n == dm.models@[i as int].fields@.len(),
                0 <= j <= n,
                inner == (|j: int| relation_at(dm, i as int, j)),
                result.deep_view() == before + concat_range(j as int, inner),
            decreases n - j,
        {
            let ghost mid = result.deep_view();
            match find_opposite(dm, i, j) {
                Some((i2, j2)) => {
                    if i < i2 || (i == i2 && j < j2) {
                        let h = build_holder(dm, i, j, i2, j2);
                        result.push(h);
                        assert(result.deep_view() =~= mid + seq![h.deep_view()]);
                    }
                },
                None => {},
            }
            j = j + 1;
        }
        i = i + 1;
    }
    result
}

/// Whether the positions of a relation's two fields lie in the data model,
/// and its names are those of the models there.
pub open spec fn holder_in_range(dm: &Datamodel, h: RelationHolderView) -> bool {
    &&& 0 <= h.model_a < dm.models@.len()
    &&& 0 <= h.model_b < dm.models@.len()
    &&& 0 <= h.field_a < dm.models@[h.model_a].fields@.len()
    &&& 0 <= h.field_b < dm.models@[h.model_b].fields@.len()
    &&& h.model_a_name == dm.models@[h.model_a].name@
    &&& h.model_b_name == dm.models@[h.model_b].name@
    &&& match h.manifestation {
        HolderManifestationView::Inline { side, in_table_of_model, column } => match side {
            RelationSide::A => in_table_of_model == h.model_a_name
                && column == dm.models@[h.model_a].fields@[h.field_a].db_name_view(),
            RelationSide::B => in_table_of_model == h.model_b_name
                && column == dm.models@[h.model_b].fields@[h.field_b].db_name_view(),
        },
        HolderManifestationView::Table { .. } => true,
    }
}

/// Every resolved relation starts at a relation field that has its other
/// end, and is the relation of these two.
pub proof fn lemma_resolved_relation_origin(dm: &Datamodel, k: int) -> (r: (int, int, int, int))
    requires
        0 <= k < resolved_relations(dm).len(),
    ensures
        0 <= r.0 < dm.models@.len(),
        0 <= r.1 < dm.models@[r.0].fields@.len(),
        opposite_position(dm, r.0, r.1) == Some((r.2, r.3)),
        0 <= r.2 < dm.models@.len(),
        0 <= r.3 < dm.models@[r.2].fields@.len(),
        resolved_relations(dm)[k] == holder_of(dm, r.0, r.1, r.2, r.3),
        holder_in_range(dm, resolved_relations(dm)[k]),
{
    let outer = |i: int| relations_of_model(dm, i);
    let (i, k2) = crate::seqs::lemma_concat_range_origin(dm.models@.len() as int, outer, k);
    let inner = |j: int| relation_at(dm, i, j);
    let (j, k3) = crate::seqs::lemma_concat_range_origin(
        dm.models@[i].fields@.len() as int,
        inner,
        k2,
    );
    let (i2, j2) = opposite_position(dm, i, j)->Some_0;
    let info = dm.models@[i].fields@[j].field_type->Relation_0;
    crate::seqs::lemma_first_index(
        dm.models@.len() as int,
        |n: int| dm.models@[n].name@ == info.to@,
    );
    crate::seqs::lemma_first_index(
        dm.models@[i2].fields@.len() as int,
        |n: int|
            dm.models@[i2].is_related_field(
                n,
                dm.models@[i].name@,
                info.name@,
                dm.models@[i].fields@[j].name@,
            ),
    );
    (i, j, i2, j2)
}

} // verus!
