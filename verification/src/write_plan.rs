//! The plan of a write request: its operations in the order in which they
//! run, with the nesting depth of each.
//!
//! The writes nested in a write run kind by kind: creates, updates, upserts,
//! deletes, connects, sets, disconnects, update-manys, delete-manys. A create
//! or update is followed at once by the writes nested in it.

use crate::seqs::{concat_range, lemma_concat_range_origin};
use crate::write_ast::{
    CreateRecord, DeleteManyRecords, DeleteRecord, NestedConnect, NestedCreateRecord,
    NestedDeleteManyRecords, NestedDeleteRecord, NestedDisconnect, NestedSet,
    NestedUpdateManyRecords, NestedUpdateRecord, NestedUpsertRecord, NestedWriteQueries,
    RecordFinder, RelationFieldRef, ResetData, RootWriteQuery, UpdateManyRecords, UpdateRecord,
    UpsertRecord,
};
use vstd::prelude::*;

verus! {

/// The kind of write that a step belongs to.
#[derive(Clone, Copy, Debug, PartialEq, Eq, Structural)]
pub enum WriteKind {
    Root,
    Create,
    Update,
    Upsert,
    Delete,
    Connect,
    SetChildren,
    Disconnect,
    UpdateMany,
    DeleteMany,
}

impl WriteKind {
    /// The place of a kind in the order in which nested writes run.
    pub open spec fn rank(self) -> int {
        match self {
            WriteKind::Root => 0,
            WriteKind::Create => 1,
            WriteKind::Update => 2,
            WriteKind::Upsert => 3,
            WriteKind::Delete => 4,
            WriteKind::Connect => 5,
            WriteKind::SetChildren => 6,
            WriteKind::Disconnect => 7,
            WriteKind::UpdateMany => 8,
            WriteKind::DeleteMany => 9,
        }
    }
}

/// One operation on the database, or a step that only directs the run.
#[derive(Clone, Copy, Debug, PartialEq)]
pub enum Operation<'a> {
    CreateRecord(&'a CreateRecord),
    UpdateRecord(&'a UpdateRecord),
    /// Looks for the record of a root upsert.
    FindRecord(&'a RecordFinder),
    UpdateManyRecords(&'a UpdateManyRecords),
    DeleteRecord(&'a DeleteRecord),
    /// Finds the ids of the records that a root delete-many removes.
    FilterIds(&'a DeleteManyRecords),
    ResetData(&'a ResetData),
    NestedCreate(&'a NestedCreateRecord),
    NestedUpdate(&'a NestedUpdateRecord),
    /// Looks for the child of a nested upsert.
    FindIdByParent(&'a NestedUpsertRecord),
    NestedDelete(&'a NestedDeleteRecord),
    NestedUpdateMany(&'a NestedUpdateManyRecords),
    /// Finds the ids of the children that a nested delete-many removes.
    FilterIdsByParents(&'a NestedDeleteManyRecords),
    /// Checks that deleting the found records of the model breaks no relation.
    CheckRelationViolations(&'a String),
    /// Deletes the found records of the model.
    DeleteMany(&'a String),
    /// Asks whether a row exists that makes the write break a required
    /// relation.
    RequiredCheck(&'a RelationFieldRef),
    /// The write breaks a required relation whatever the database holds.
    Violation(&'a RelationFieldRef),
    /// Looks for the child that a finder names.
    FindChild(&'a RecordFinder),
    /// Asks whether the parent has a child. Without one the steps that
    /// follow are passed over.
    EnsureParentIsConnected(&'a RelationFieldRef),
    /// Asks whether parent and child are connected.
    EnsureConnected(&'a RelationFieldRef),
    RemoveByParent(&'a RelationFieldRef),
    RemoveByChild(&'a RelationFieldRef),
    RemoveByParentAndChild(&'a RelationFieldRef),
    CreateRelation(&'a RelationFieldRef),
    /// Passes over the steps that follow.
    Skip,
}

/// A step of a plan.
#[derive(Clone, Copy, Debug, PartialEq)]
pub struct Step<'a> {
    pub op: Operation<'a>,
    /// How deep the step is nested. The root is at depth 0; a step at depth
    /// `d > 0` works on the record that the step above it at depth `d - 1`
    /// gave.
    pub depth: usize,
    /// The kind of write that the step is a part of.
    pub kind: WriteKind,
    /// How many of the following steps are passed over: always for `Skip`,
    /// for a lookup when the record is missing, for a search when it finds
    /// nothing, for a parent that has no child.
    pub skip: usize,
}

/// What a connect, set or disconnect has to check before it changes anything.
#[derive(Clone, Copy, Debug, PartialEq, Eq, Structural)]
pub enum Precheck {
    /// Nothing.
    Nothing,
    /// The database, for a row that forbids the change.
    Query,
    /// Nothing: the change is forbidden.
    Violation,
}

/// What a connect checks: it is forbidden where parent and child both hold
/// one record and demand one; the database is asked where only the parent
/// demands one.
pub open spec fn connect_precheck(f: &RelationFieldRef) -> Precheck {
    if !f.is_list && f.is_required && !f.related_is_list && f.related_is_required {
        Precheck::Violation
    } else if !f.is_list && f.is_required && !f.related_is_list && !f.related_is_required {
        Precheck::Query
    } else {
        Precheck::Nothing
    }
}

/// What a disconnect checks: it is forbidden where either side demands a
/// record.
pub open spec fn disconnect_precheck(f: &RelationFieldRef) -> Precheck {
    if f.is_required || f.related_is_required {
        Precheck::Violation
    } else {
        Precheck::Nothing
    }
}

/// Whether a connect first removes the link to the child that the parent
/// had: where the parent holds one child and is not new.
pub open spec fn connect_removes_by_parent(f: &RelationFieldRef, top_is_create: bool) -> bool {
    !top_is_create && !f.is_list
}

/// Whether a connect or set first removes the link to the parent that the
/// child had: where the child holds one parent.
pub open spec fn removes_by_child(f: &RelationFieldRef) -> bool {
    !f.related_is_list
}

/// The step of the given parts.
pub open spec fn mk<'a>(op: Operation<'a>, depth: usize, kind: WriteKind, skip: usize) -> Step<'a> {
    Step { op, depth, kind, skip }
}

/// The step that a check takes: none, the question to the database, or the
/// refusal.
pub open spec fn precheck_steps<'a>(
    p: Precheck,
    f: &'a RelationFieldRef,
    d: usize,
    kind: WriteKind,
) -> Seq<Step<'a>> {
    match p {
        Precheck::Nothing => Seq::empty(),
        Precheck::Query => seq![mk(Operation::RequiredCheck(f), d, kind, 0)],
        Precheck::Violation => seq![mk(Operation::Violation(f), d, kind, 0)],
    }
}

/// The steps of a connect: the check, the lookup of the child, the removal
/// of the links that parent and child had, and the new link.
pub open spec fn plan_connect<'a>(x: &'a NestedConnect, d: usize) -> Seq<Step<'a>> {
    let f = &x.relation_field;
    let k = WriteKind::Connect;
    precheck_steps(connect_precheck(f), f, d, k) + seq![mk(Operation::FindChild(&x.where_), d, k, 0)]
        + (if connect_removes_by_parent(f, x.top_is_create) {
        seq![mk(Operation::RemoveByParent(f), d, k, 0)]
    } else {
        Seq::empty()
    }) + (if removes_by_child(f) {
        seq![mk(Operation::RemoveByChild(f), d, k, 0)]
    } else {
        Seq::empty()
    }) + seq![mk(Operation::CreateRelation(f), d, k, 0)]
}

/// The steps that a set takes for one child: the lookup, the removal of the
/// link that the child had, and the new link.
pub open spec fn plan_set_child<'a>(x: &'a NestedSet, d: usize, i: int) -> Seq<Step<'a>> {
    let f = &x.relation_field;
    let k = WriteKind::SetChildren;
    seq![mk(Operation::FindChild(&x.wheres@[i]), d, k, 0)] + (if removes_by_child(f) {
        seq![mk(Operation::RemoveByChild(f), d, k, 0)]
    } else {
        Seq::empty()
    }) + seq![mk(Operation::CreateRelation(f), d, k, 0)]
}

/// The steps that a set takes for its first `n` children.
pub open spec fn plan_set_children<'a>(x: &'a NestedSet, d: usize, n: int) -> Seq<Step<'a>> {
    concat_range(n, |i: int| plan_set_child(x, d, i))
}

/// The steps of a set: the check, the removal of all links of the parent,
/// and then the steps for each child.
pub open spec fn plan_set<'a>(x: &'a NestedSet, d: usize) -> Seq<Step<'a>> {
    let f = &x.relation_field;
    let k = WriteKind::SetChildren;
    precheck_steps(connect_precheck(f), f, d, k) + seq![mk(Operation::RemoveByParent(f), d, k, 0)]
        + plan_set_children(x, d, x.wheres@.len() as int)
}

/// The steps of a disconnect: the check, then either the one child of the
/// parent is unlinked, if the parent has one, or the child that the finder
/// names is looked up, made sure of and unlinked.
pub open spec fn plan_disconnect<'a>(x: &'a NestedDisconnect, d: usize) -> Seq<Step<'a>> {
    let f = &x.relation_field;
    let k = WriteKind::Disconnect;
    precheck_steps(disconnect_precheck(f), f, d, k) + (match &x.where_ {
        None => seq![
            mk(Operation::EnsureParentIsConnected(f), d, k, 1),
            mk(Operation::RemoveByParent(f), d, k, 0),
        ],
        Some(finder) => seq![
            mk(Operation::FindChild(finder), d, k, 0),
            mk(Operation::EnsureConnected(f), d, k, 0),
            mk(Operation::RemoveByParentAndChild(f), d, k, 0),
        ],
    })
}

/// The steps of a nested delete-many: the search for the children, and,
/// unless it finds none, the check of the relations and the deletion.
pub open spec fn plan_delete_many<'a>(x: &'a NestedDeleteManyRecords, d: usize) -> Seq<Step<'a>> {
    let k = WriteKind::DeleteMany;
    seq![
        mk(Operation::FilterIdsByParents(x), d, k, 2),
        mk(Operation::CheckRelationViolations(&x.relation_field.model), d, k, 0),
        mk(Operation::DeleteMany(&x.relation_field.related_model), d, k, 0),
    ]
}

/// The steps of a nested create: the create, then the writes nested in it.
pub open spec fn plan_create<'a>(c: &'a NestedCreateRecord, d: usize, kind: WriteKind) -> Seq<
    Step<'a>,
>
    decreases c, 1int, 0int,
{
    seq![mk(Operation::NestedCreate(c), d, kind, 0)] + plan_nested(
        &c.nested_writes,
        (d + 1) as usize,
    )
}

/// The steps of a nested update: the update, then the writes nested in it.
pub open spec fn plan_update<'a>(u: &'a NestedUpdateRecord, d: usize, kind: WriteKind) -> Seq<
    Step<'a>,
>
    decreases u, 1int, 0int,
{
    seq![mk(Operation::NestedUpdate(u), d, kind, 0)] + plan_nested(
        &u.nested_writes,
        (d + 1) as usize,
    )
}

/// The steps of a nested upsert: the lookup of the child; the update, which
/// is passed over when the child is missing; and the create, which is
/// passed over when the update has run.
pub open spec fn plan_upsert<'a>(s: &'a NestedUpsertRecord, d: usize) -> Seq<Step<'a>>
    decreases s, 1int, 0int,
{
    let update = plan_update(&s.update, d, WriteKind::Upsert);
    let create = plan_create(&s.create, d, WriteKind::Upsert);
    seq![mk(Operation::FindIdByParent(s), d, WriteKind::Upsert, (update.len() + 1) as usize)]
        + update + seq![mk(Operation::Skip, d, WriteKind::Upsert, create.len() as usize)] + create
}

/// The steps of the first `n` nested creates.
pub open spec fn plan_creates<'a>(w: &'a NestedWriteQueries, d: usize, n: int) -> Seq<Step<'a>>
    decreases w, 0int, n,
{
    if n <= 0 || n > w.creates@.len() {
        Seq::empty()
    } else {
        plan_creates(w, d, n - 1) + plan_create(&w.creates@[n - 1], d, WriteKind::Create)
    }
}

/// The steps of the first `n` nested updates.
pub open spec fn plan_updates<'a>(w: &'a NestedWriteQueries, d: usize, n: int) -> Seq<Step<'a>>
    decreases w, 0int, n,
{
    if n <= 0 || n > w.updates@.len() {
        Seq::empty()
    } else {
        plan_updates(w, d, n - 1) + plan_update(&w.updates@[n - 1], d, WriteKind::Update)
    }
}

/// The steps of the first `n` nested upserts.
pub open spec fn plan_upserts<'a>(w: &'a NestedWriteQueries, d: usize, n: int) -> Seq<Step<'a>>
    decreases w, 0int, n,
{
    if n <= 0 || n > w.upserts@.len() {
        Seq::empty()
    } else {
        plan_upserts(w, d, n - 1) + plan_upsert(&w.upserts@[n - 1], d)
    }
}

/// The steps of the first `n` nested deletes.
pub open spec fn plan_deletes<'a>(w: &'a NestedWriteQueries, d: usize, n: int) -> Seq<Step<'a>> {
    Seq::new(
        n as nat,
        |i: int| mk(Operation::NestedDelete(&w.deletes@[i]), d, WriteKind::Delete, 0),
    )
}

/// The steps of the first `n` connects.
pub open spec fn plan_connects<'a>(w: &'a NestedWriteQueries, d: usize, n: int) -> Seq<Step<'a>> {
    concat_range(n, |i: int| plan_connect(&w.connects@[i], d))
}

/// The steps of the first `n` sets.
pub open spec fn plan_sets<'a>(w: &'a NestedWriteQueries, d: usize, n: int) -> Seq<Step<'a>> {
    concat_range(n, |i: int| plan_set(&w.sets@[i], d))
}

/// The steps of the first `n` disconnects.
pub open spec fn plan_disconnects<'a>(w: &'a NestedWriteQueries, d: usize, n: int) -> Seq<
    Step<'a>,
> {
    concat_range(n, |i: int| plan_disconnect(&w.disconnects@[i], d))
}

/// The steps of the first `n` nested update-manys.
pub open spec fn plan_update_manys<'a>(w: &'a NestedWriteQueries, d: usize, n: int) -> Seq<
    Step<'a>,
> {
    Seq::new(
        n as nat,
        |i: int| mk(Operation::NestedUpdateMany(&w.update_manys@[i]), d, WriteKind::UpdateMany, 0),
    )
}

/// The steps of the first `n` nested delete-manys.
pub open spec fn plan_delete_manys<'a>(w: &'a NestedWriteQueries, d: usize, n: int) -> Seq<
    Step<'a>,
> {
    concat_range(n, |i: int| plan_delete_many(&w.delete_manys@[i], d))
}

/// The steps of the writes nested in a write, kind by kind: creates,
/// updates, upserts, deletes, connects, sets, disconnects, update-manys,
/// delete-manys.
pub open spec fn plan_nested<'a>(w: &'a NestedWriteQueries, d: usize) -> Seq<Step<'a>>
    decreases w, 1int, 0int,
{
    plan_creates(w, d, w.creates@.len() as int) + plan_updates(w, d, w.updates@.len() as int)
        + plan_upserts(w, d, w.upserts@.len() as int) + plan_deletes(
        w,
        d,
        w.deletes@.len() as int,
    ) + plan_connects(w, d, w.connects@.len() as int) + plan_sets(w, d, w.sets@.len() as int)
        + plan_disconnects(w, d, w.disconnects@.len() as int) + plan_update_manys(
        w,
        d,
        w.update_manys@.len() as int,
    ) + plan_delete_manys(w, d, w.delete_manys@.len() as int)
}

/// The steps of a root create: the create, then the writes nested in it.
pub open spec fn plan_root_create<'a>(c: &'a CreateRecord) -> Seq<Step<'a>> {
    seq![mk(Operation::CreateRecord(c), 0, WriteKind::Root, 0)] + plan_nested(&c.nested_writes, 1)
}

/// The steps of a root update: the update, then the writes nested in it.
pub open spec fn plan_root_update<'a>(u: &'a UpdateRecord) -> Seq<Step<'a>> {
    seq![mk(Operation::UpdateRecord(u), 0, WriteKind::Root, 0)] + plan_nested(&u.nested_writes, 1)
}

/// The steps of a write request. A root create or update is followed by
/// the writes nested in it. A root upsert looks for its record, and updates
/// or, when the record is missing, creates. A root delete-many searches, and
/// checks and deletes unless it found nothing.
pub open spec fn plan_root<'a>(q: &'a RootWriteQuery) -> Seq<Step<'a>> {
    match q {
        RootWriteQuery::CreateRecord(c) => plan_root_create(&**c),
        RootWriteQuery::UpdateRecord(u) => plan_root_update(&**u),
        RootWriteQuery::UpsertRecord(s) => {
            let update = plan_root_update(&s.update);
            let create = plan_root_create(&s.create);
            seq![
                mk(
                    Operation::FindRecord(&s.where_),
                    0,
                    WriteKind::Root,
                    (update.len() + 1) as usize,
                ),
            ] + update + seq![mk(Operation::Skip, 0, WriteKind::Root, create.len() as usize)]
                + create
        },
        RootWriteQuery::UpdateManyRecords(u) => seq![
            mk(Operation::UpdateManyRecords(u), 0, WriteKind::Root, 0),
        ],
        RootWriteQuery::DeleteRecord(x) => seq![
            mk(Operation::DeleteRecord(x), 0, WriteKind::Root, 0),
        ],
        RootWriteQuery::DeleteManyRecords(x) => seq![
            mk(Operation::FilterIds(x), 0, WriteKind::Root, 2),
            mk(Operation::CheckRelationViolations(&x.model), 0, WriteKind::Root, 0),
            mk(Operation::DeleteMany(&x.model), 0, WriteKind::Root, 0),
        ],
        RootWriteQuery::ResetData(x) => seq![mk(Operation::ResetData(x), 0, WriteKind::Root, 0)],
    }
}

fn push_step<'a>(
    out: &mut Vec<Step<'a>>,
    op: Operation<'a>,
    depth: usize,
    kind: WriteKind,
    skip: usize,
)
    ensures
        final(out)@ == old(out)@.push(mk(op, depth, kind, skip)),
{
    out.push(Step { op, depth, kind, skip });
}

fn decide_connect_precheck(f: &RelationFieldRef) -> (r: Precheck)
    ensures
        r == connect_precheck(f),
{
    if !f.is_list && f.is_required && !f.related_is_list && f.related_is_required {
        Precheck::Violation
    } else if !f.is_list && f.is_required && !f.related_is_list && !f.related_is_required {
        Precheck::Query
    } else {
        Precheck::Nothing
    }
}

fn decide_disconnect_precheck(f: &RelationFieldRef) -> (r: Precheck)
    ensures
        r == disconnect_precheck(f),
{
    if f.is_required || f.related_is_required {
        Precheck::Violation
    } else {
        Precheck::Nothing
    }
}

fn push_precheck<'a>(
    out: &mut Vec<Step<'a>>,
    p: Precheck,
    f: &'a RelationFieldRef,
    d: usize,
    kind: WriteKind,
)
    ensures
        final(out)@ == old(out)@ + precheck_steps(p, f, d, kind),
{
    match p {
        Precheck::Nothing => {
        },
        Precheck::Query => {
            push_step(out, Operation::RequiredCheck(f), d, kind, 0);
        },
        Precheck::Violation => {
            push_step(out, Operation::Violation(f), d, kind, 0);
        },
    }
}

fn build_connect<'a>(x: &'a NestedConnect, d: usize, out: &mut Vec<Step<'a>>)
    ensures
        final(out)@ == old(out)@ + plan_connect(x, d),
{
    let f = &x.relation_field;
    let k = WriteKind::Connect;
    push_precheck(out, decide_connect_precheck(f), f, d, k);
    push_step(out, Operation::FindChild(&x.where_), d, k, 0);
    if !x.top_is_create && !f.is_list {
        push_step(out, Operation::RemoveByParent(f), d, k, 0);
    }
    if !f.related_is_list {
        push_step(out, Operation::RemoveByChild(f), d, k, 0);
    }
    push_step(out, Operation::CreateRelation(f), d, k, 0);
}

fn build_set<'a>(x: &'a NestedSet, d: usize, out: &mut Vec<Step<'a>>)
    ensures
        final(out)@ == old(out)@ + plan_set(x, d),
{
    let f = &x.relation_field;
    let k = WriteKind::SetChildren;
    push_precheck(out, decide_connect_precheck(f), f, d, k);
    push_step(out, Operation::RemoveByParent(f), d, k, 0);
    let ghost head = out@;
    let mut i: usize = 0;
    while i < x.wheres.len()
        invariant
            0 <= i <= x.wheres@.len(),
            f == &x.relation_field,
            k == WriteKind::SetChildren,
            out@ == head + plan_set_children(x, d, i as int),
        decreases x.wheres@.len() - i,
    {
        push_step(out, Operation::FindChild(&x.wheres[i]), d, k, 0);
        if !f.related_is_list {
            push_step(out, Operation::RemoveByChild(f), d, k, 0);
        }
        push_step(out, Operation::CreateRelation(f), d, k, 0);
        i = i + 1;
    }
}

fn build_disconnect<'a>(x: &'a NestedDisconnect, d: usize, out: &mut Vec<Step<'a>>)
    ensures
        final(out)@ == old(out)@ + plan_disconnect(x, d),
{
    let f = &x.relation_field;
    let k = WriteKind::Disconnect;
    push_precheck(out, decide_disconnect_precheck(f), f, d, k);
    match &x.where_ {
        None => {
            push_step(out, Operation::EnsureParentIsConnected(f), d, k, 1);
            push_step(out, Operation::RemoveByParent(f), d, k, 0);
        },
        Some(finder) => {
            push_step(out, Operation::FindChild(finder), d, k, 0);
            push_step(out, Operation::EnsureConnected(f), d, k, 0);
            push_step(out, Operation::RemoveByParentAndChild(f), d, k, 0);
        },
    }
}

fn build_delete_many<'a>(x: &'a NestedDeleteManyRecords, d: usize, out: &mut Vec<Step<'a>>)
    ensures
        final(out)@ == old(out)@ + plan_delete_many(x, d),
{
    let k = WriteKind::DeleteMany;
    push_step(out, Operation::FilterIdsByParents(x), d, k, 2);
    push_step(out, Operation::CheckRelationViolations(&x.relation_field.model), d, k, 0);
    push_step(out, Operation::DeleteMany(&x.relation_field.related_model), d, k, 0);
}

fn build_create<'a>(c: &'a NestedCreateRecord, d: usize, kind: WriteKind, out: &mut Vec<Step<'a>>)
    requires
        d <= old(out)@.len(),
    ensures
        final(out)@ == old(out)@ + plan_create(c, d, kind),
    decreases c, 1int, 0int,
{
    push_step(out, Operation::NestedCreate(c), d, kind, 0);
    let n = out.len();
    assert(d < n);
    build_nested(&c.nested_writes, d + 1, out);
}

fn build_update<'a>(u: &'a NestedUpdateRecord, d: usize, kind: WriteKind, out: &mut Vec<Step<'a>>)
    requires
        d <= old(out)@.len(),
    ensures
        final(out)@ == old(out)@ + plan_update(u, d, kind),
    decreases u, 1int, 0int,
{
    push_step(out, Operation::NestedUpdate(u), d, kind, 0);
    let n = out.len();
    assert(d < n);
    build_nested(&u.nested_writes, d + 1, out);
}

#[verifier::rlimit(40)]
fn build_upsert<'a>(s: &'a NestedUpsertRecord, d: usize, out: &mut Vec<Step<'a>>)
    requires
        d <= old(out)@.len(),
    ensures
        final(out)@ == old(out)@ + plan_upsert(s, d),
    decreases s, 1int, 0int,
{
    let k = WriteKind::Upsert;
    let at_find = out.len();
    push_step(out, Operation::FindIdByParent(s), d, k, 0);
    build_update(&s.update, d, k, out);
    let after_update = out.len();
    out.set(
        at_find,
        Step { op: Operation::FindIdByParent(s), depth: d, kind: k, skip: after_update - at_find },
    );
    let at_skip = out.len();
    push_step(out, Operation::Skip, d, k, 0);
    build_create(&s.create, d, k, out);
    let after_create = out.len();
    out.set(
        at_skip,
        Step { op: Operation::Skip, depth: d, kind: k, skip: after_create - at_skip - 1 },
    );
}

/// Appends the steps of the writes nested in a write at depth `d`.
#[verifier::rlimit(40)]
fn build_nested<'a>(w: &'a NestedWriteQueries, d: usize, out: &mut Vec<Step<'a>>)
    requires
        d <= old(out)@.len(),
    ensures
        final(out)@ == old(out)@ + plan_nested(w, d),
    decreases w, 1int, 0int,
{
    let ghost s0 = out@;
    let mut i: usize = 0;
    while i < w.creates.len()
        invariant
            0 <= i <= w.creates@.len(),
            d <= out@.len(),
            out@ == s0 + plan_creates(w, d, i as int),
        decreases w.creates@.len() - i,
    {
        build_create(&w.creates[i], d, WriteKind::Create, out);
        i = i + 1;
    }
    let ghost s1 = out@;
    let mut i: usize = 0;
    while i < w.updates.len()
        invariant
            0 <= i <= w.updates@.len(),
            d <= out@.len(),
            out@ == s1 + plan_updates(w, d, i as int),
        decreases w.updates@.len() - i,
    {
        build_update(&w.updates[i], d, WriteKind::Update, out);
        i = i + 1;
    }
    let ghost s2 = out@;
    let mut i: usize = 0;
    while i < w.upserts.len()
        invariant
            0 <= i <= w.upserts@.len(),
            d <= out@.len(),
            out@ == s2 + plan_upserts(w, d, i as int),
        decreases w.upserts@.len() - i,
    {
        build_upsert(&w.upserts[i], d, out);
        i = i + 1;
    }
    let ghost s3 = out@;
    let mut i: usize = 0;
    while i < w.deletes.len()
        invariant
            0 <= i <= w.deletes@.len(),
            out@ == s3 + plan_deletes(w, d, i as int),
        decreases w.deletes@.len() - i,
    {
        push_step(out, Operation::NestedDelete(&w.deletes[i]), d, WriteKind::Delete, 0);
        i = i + 1;
    }
    let ghost s4 = out@;
    let mut i: usize = 0;
    while i < w.connects.len()
        invariant
            0 <= i <= w.connects@.len(),
            out@ == s4 + plan_connects(w, d, i as int),
        decreases w.connects@.len() - i,
    {
        build_connect(&w.connects[i], d, out);
        i = i + 1;
    }
    let ghost s5 = out@;
    let mut i: usize = 0;
    while i < w.sets.len()
        invariant
            0 <= i <= w.sets@.len(),
            out@ == s5 + plan_sets(w, d, i as int),
        decreases w.sets@.len() - i,
    {
        build_set(&w.sets[i], d, out);
        i = i + 1;
    }
    let ghost s6 = out@;
    let mut i: usize = 0;
    while i < w.disconnects.len()
        invariant
            0 <= i <= w.disconnects@.len(),
            out@ == s6 + plan_disconnects(w, d, i as int),
        decreases w.disconnects@.len() - i,
    {
        build_disconnect(&w.disconnects[i], d, out);
        i = i + 1;
    }
    let ghost s7 = out@;
    let mut i: usize = 0;
    while i < w.update_manys.len()
        invariant
            0 <= i <= w.update_manys@.len(),
            out@ == s7 + plan_update_manys(w, d, i as int),
        decreases w.update_manys@.len() - i,
    {
        push_step(
            out,
            Operation::NestedUpdateMany(&w.update_manys[i]),
            d,
            WriteKind::UpdateMany,
            0,
        );
        i = i + 1;
    }
    let ghost s8 = out@;
    let mut i: usize = 0;
    while i < w.delete_manys.len()
        invariant
            0 <= i <= w.delete_manys@.len(),
            out@ == s8 + plan_delete_manys(w, d, i as int),
        decreases w.delete_manys@.len() - i,
    {
        build_delete_many(&w.delete_manys[i], d, out);
        i = i + 1;
    }
}

fn build_root_create<'a>(c: &'a CreateRecord, out: &mut Vec<Step<'a>>)
    ensures
        final(out)@ == old(out)@ + plan_root_create(c),
{
    push_step(out, Operation::CreateRecord(c), 0, WriteKind::Root, 0);
    build_nested(&c.nested_writes, 1, out);
}

fn build_root_update<'a>(u: &'a UpdateRecord, out: &mut Vec<Step<'a>>)
    ensures
        final(out)@ == old(out)@ + plan_root_update(u),
{
    push_step(out, Operation::UpdateRecord(u), 0, WriteKind::Root, 0);
    build_nested(&u.nested_writes, 1, out);
}

#[verifier::rlimit(40)]
fn build_root_upsert<'a>(s: &'a UpsertRecord, out: &mut Vec<Step<'a>>)
    requires
        old(out)@.len() == 0,
    ensures
        final(out)@ == plan_root(&RootWriteQuery::UpsertRecord(Box::new(*s))),
{
    let k = WriteKind::Root;
    push_step(out, Operation::FindRecord(&s.where_), 0, k, 0);
    build_root_update(&s.update, out);
    let after_update = out.len();
    out.set(
        0,
        Step { op: Operation::FindRecord(&s.where_), depth: 0, kind: k, skip: after_update },
    );
    let at_skip = out.len();
    push_step(out, Operation::Skip, 0, k, 0);
    build_root_create(&s.create, out);
    let after_create = out.len();
    out.set(
        at_skip,
        Step { op: Operation::Skip, depth: 0, kind: k, skip: after_create - at_skip - 1 },
    );
}

/// The steps of a write request, in the order in which they run.
#[verifier::rlimit(40)]
pub fn build_plan<'a>(q: &'a RootWriteQuery) -> (r: Vec<Step<'a>>)
    ensures
        r@ == plan_root(q),
{
    let mut out: Vec<Step<'a>> = Vec::new();
    let k = WriteKind::Root;
    match q {
        RootWriteQuery::CreateRecord(c) => {
            build_root_create(c, &mut out);
        },
        RootWriteQuery::UpdateRecord(u) => {
            build_root_update(u, &mut out);
        },
        RootWriteQuery::UpsertRecord(s) => {
            build_root_upsert(s, &mut out);
        },
        RootWriteQuery::UpdateManyRecords(u) => {
            push_step(&mut out, Operation::UpdateManyRecords(u), 0, k, 0);
        },
        RootWriteQuery::DeleteRecord(x) => {
            push_step(&mut out, Operation::DeleteRecord(x), 0, k, 0);
        },
        RootWriteQuery::DeleteManyRecords(x) => {
            push_step(&mut out, Operation::FilterIds(x), 0, k, 2);
            push_step(&mut out, Operation::CheckRelationViolations(&x.model), 0, k, 0);
            push_step(&mut out, Operation::DeleteMany(&x.model), 0, k, 0);
        },
        RootWriteQuery::ResetData(x) => {
            push_step(&mut out, Operation::ResetData(x), 0, k, 0);
        },
    }
    out
}

// ---------------------------------------------------------------------------
// The order of nested writes
// ---------------------------------------------------------------------------
/// Whether every step lies at depth `d` or deeper, and those at depth `d`
/// belong to kinds whose ranks lie between `lo` and `hi`.
pub open spec fn ranked(s: Seq<Step>, d: int, lo: int, hi: int) -> bool {
    forall|i: int|
        0 <= i < s.len() ==> (#[trigger] s[i]).depth >= d && (s[i].depth == d ==> lo
            <= s[i].kind.rank() <= hi)
}

/// Whether the steps at depth `d` stand in the order of their kinds.
pub open spec fn ordered(s: Seq<Step>, d: int) -> bool {
    forall|i: int, j: int|
        0 <= i <= j < s.len() && (#[trigger] s[i]).depth == d && (#[trigger] s[j]).depth == d
            ==> s[i].kind.rank() <= s[j].kind.rank()
}

proof fn lemma_join(a: Seq<Step>, b: Seq<Step>, d: int, lo: int, mid: int, hi: int)
    requires
        lo <= mid <= hi,
        ranked(a, d, lo, mid),
        ordered(a, d),
        ranked(b, d, mid, hi),
        ordered(b, d),
    ensures
        ranked(a + b, d, lo, hi),
        ordered(a + b, d),
{
}

proof fn lemma_one_kind_is_ordered(s: Seq<Step>, d: int, r: int)
    requires
        ranked(s, d, r, r),
    ensures
        ordered(s, d),
{
}

proof fn lemma_deeper_has_any_rank(s: Seq<Step>, d: int, r: int)
    requires
        ranked(s, d + 1, 0, 9),
    ensures
        ranked(s, d, r, r),
{
}

proof fn lemma_create_ranked(c: &NestedCreateRecord, d: usize, kind: WriteKind)
    requires
        d + plan_create(c, d, kind).len() <= usize::MAX,
    ensures
        ranked(plan_create(c, d, kind), d as int, kind.rank(), kind.rank()),
    decreases c, 1int, 0int,
{
    let rest = plan_nested(&c.nested_writes, (d + 1) as usize);
    lemma_nested_ranked(&c.nested_writes, (d + 1) as usize);
    lemma_deeper_has_any_rank(rest, d as int, kind.rank());
}

proof fn lemma_update_ranked(u: &NestedUpdateRecord, d: usize, kind: WriteKind)
    requires
        d + plan_update(u, d, kind).len() <= usize::MAX,
    ensures
        ranked(plan_update(u, d, kind), d as int, kind.rank(), kind.rank()),
    decreases u, 1int, 0int,
{
    let rest = plan_nested(&u.nested_writes, (d + 1) as usize);
    lemma_nested_ranked(&u.nested_writes, (d + 1) as usize);
    lemma_deeper_has_any_rank(rest, d as int, kind.rank());
}

proof fn lemma_upsert_ranked(x: &NestedUpsertRecord, d: usize)
    requires
        d + plan_upsert(x, d).len() <= usize::MAX,
    ensures
        ranked(plan_upsert(x, d), d as int, 3, 3),
    decreases x, 1int, 0int,
{
    let update = plan_update(&x.update, d, WriteKind::Upsert);
    let create = plan_create(&x.create, d, WriteKind::Upsert);
    lemma_update_ranked(&x.update, d, WriteKind::Upsert);
    lemma_create_ranked(&x.create, d, WriteKind::Upsert);
}

proof fn lemma_creates_ranked(w: &NestedWriteQueries, d: usize, n: int)
    requires
        0 <= n <= w.creates@.len(),
        d + plan_creates(w, d, n).len() <= usize::MAX,
    ensures
        ranked(plan_creates(w, d, n), d as int, 1, 1),
    decreases w, 0int, n,
{
    if n > 0 {
        lemma_creates_ranked(w, d, n - 1);
        lemma_create_ranked(&w.creates@[n - 1], d, WriteKind::Create);
        lemma_one_kind_is_ordered(plan_creates(w, d, n - 1), d as int, 1);
        lemma_one_kind_is_ordered(plan_create(&w.creates@[n - 1], d, WriteKind::Create), d as int, 1);
        lemma_join(
            plan_creates(w, d, n - 1),
            plan_create(&w.creates@[n - 1], d, WriteKind::Create),
            d as int,
            1,
            1,
            1,
        );
    }
}

proof fn lemma_updates_ranked(w: &NestedWriteQueries, d: usize, n: int)
    requires
        0 <= n <= w.updates@.len(),
        d + plan_updates(w, d, n).len() <= usize::MAX,
    ensures
        ranked(plan_updates(w, d, n), d as int, 2, 2),
    decreases w, 0int, n,
{
    if n > 0 {
        lemma_updates_ranked(w, d, n - 1);
        lemma_update_ranked(&w.updates@[n - 1], d, WriteKind::Update);
        lemma_one_kind_is_ordered(plan_updates(w, d, n - 1), d as int, 2);
        lemma_one_kind_is_ordered(plan_update(&w.updates@[n - 1], d, WriteKind::Update), d as int, 2);
        lemma_join(
            plan_updates(w, d, n - 1),
            plan_update(&w.updates@[n - 1], d, WriteKind::Update),
            d as int,
            2,
            2,
            2,
        );
    }
}

proof fn lemma_upserts_ranked(w: &NestedWriteQueries, d: usize, n: int)
    requires
        0 <= n <= w.upserts@.len(),
        d + plan_upserts(w, d, n).len() <= usize::MAX,
    ensures
        ranked(plan_upserts(w, d, n), d as int, 3, 3),
    decreases w, 0int, n,
{
    if n > 0 {
        lemma_upserts_ranked(w, d, n - 1);
        lemma_upsert_ranked(&w.upserts@[n - 1], d);
        lemma_one_kind_is_ordered(plan_upserts(w, d, n - 1), d as int, 3);
        lemma_one_kind_is_ordered(plan_upsert(&w.upserts@[n - 1], d), d as int, 3);
        lemma_join(
            plan_upserts(w, d, n - 1),
            plan_upsert(&w.upserts@[n - 1], d),
            d as int,
            3,
            3,
            3,
        );
    }
}

proof fn lemma_runs_ranked(n: int, f: spec_fn(int) -> Seq<Step>, d: int, r: int)
    requires
        forall|i: int| 0 <= i < n ==> ranked(#[trigger] f(i), d, r, r),
    ensures
        ranked(concat_range(n, f), d, r, r),
{
    let s = concat_range(n, f);
    assert forall|k: int| 0 <= k < s.len() implies (#[trigger] s[k]).depth >= d && (s[k].depth == d
        ==> r <= s[k].kind.rank() <= r) by {
        let (i, j) = lemma_concat_range_origin(n, f, k);
    }
}

proof fn lemma_set_ranked(x: &NestedSet, d: usize)
    ensures
        ranked(plan_set(x, d), d as int, 6, 6),
{
    let f = |i: int| plan_set_child(x, d, i);
    lemma_runs_ranked(x.wheres@.len() as int, f, d as int, 6);
    let children = plan_set_children(x, d, x.wheres@.len() as int);
    let field = &x.relation_field;
    let head = precheck_steps(connect_precheck(field), field, d, WriteKind::SetChildren) + seq![
        mk(Operation::RemoveByParent(field), d, WriteKind::SetChildren, 0),
    ];
    lemma_one_kind_is_ordered(head, d as int, 6);
    lemma_one_kind_is_ordered(children, d as int, 6);
    lemma_join(head, children, d as int, 6, 6, 6);
}

/// Within the writes nested in one write, the steps of an earlier kind stand
/// before those of a later kind: creates, updates, upserts, deletes,
/// connects, sets, disconnects, update-manys, delete-manys. Whatever is
/// nested deeper stands with the create or update that it is nested in.
#[verifier::rlimit(40)]
pub proof fn lemma_nested_ranked(w: &NestedWriteQueries, d: usize)
    requires
        d + plan_nested(w, d).len() <= usize::MAX,
    ensures
        ranked(plan_nested(w, d), d as int, 1, 9),
        ordered(plan_nested(w, d), d as int),
    decreases w, 1int, 0int,
{
    let s1 = plan_creates(w, d, w.creates@.len() as int);
    let s2 = plan_updates(w, d, w.updates@.len() as int);
    let s3 = plan_upserts(w, d, w.upserts@.len() as int);
    let s4 = plan_deletes(w, d, w.deletes@.len() as int);
    let s5 = plan_connects(w, d, w.connects@.len() as int);
    let s6 = plan_sets(w, d, w.sets@.len() as int);
    let s7 = plan_disconnects(w, d, w.disconnects@.len() as int);
    let s8 = plan_update_manys(w, d, w.update_manys@.len() as int);
    let s9 = plan_delete_manys(w, d, w.delete_manys@.len() as int);
    let di = d as int;
    lemma_creates_ranked(w, d, w.creates@.len() as int);
    lemma_updates_ranked(w, d, w.updates@.len() as int);
    lemma_upserts_ranked(w, d, w.upserts@.len() as int);
    let f5 = |i: int| plan_connect(&w.connects@[i], d);
    lemma_runs_ranked(w.connects@.len() as int, f5, di, 5);
    let f6 = |i: int| plan_set(&w.sets@[i], d);
    assert forall|i: int| 0 <= i < w.sets@.len() implies ranked(#[trigger] f6(i), di, 6, 6) by {
        lemma_set_ranked(&w.sets@[i], d);
    }
    lemma_runs_ranked(w.sets@.len() as int, f6, di, 6);
    let f7 = |i: int| plan_disconnect(&w.disconnects@[i], d);
    lemma_runs_ranked(w.disconnects@.len() as int, f7, di, 7);
    let f9 = |i: int| plan_delete_many(&w.delete_manys@[i], d);
    lemma_runs_ranked(w.delete_manys@.len() as int, f9, di, 9);
    lemma_one_kind_is_ordered(s1, di, 1);
    lemma_one_kind_is_ordered(s2, di, 2);
    lemma_one_kind_is_ordered(s3, di, 3);
    lemma_one_kind_is_ordered(s4, di, 4);
    lemma_one_kind_is_ordered(s5, di, 5);
    lemma_one_kind_is_ordered(s6, di, 6);
    lemma_one_kind_is_ordered(s7, di, 7);
    lemma_one_kind_is_ordered(s8, di, 8);
    lemma_one_kind_is_ordered(s9, di, 9);
    lemma_join(s1, s2, di, 1, 1, 2);
    lemma_join(s1 + s2, s3, di, 1, 2, 3);
    lemma_join(s1 + s2 + s3, s4, di, 1, 3, 4);
    lemma_join(s1 + s2 + s3 + s4, s5, di, 1, 4, 5);
    lemma_join(s1 + s2 + s3 + s4 + s5, s6, di, 1, 5, 6);
    lemma_join(s1 + s2 + s3 + s4 + s5 + s6, s7, di, 1, 6, 7);
    lemma_join(s1 + s2 + s3 + s4 + s5 + s6 + s7, s8, di, 1, 7, 8);
    lemma_join(s1 + s2 + s3 + s4 + s5 + s6 + s7 + s8, s9, di, 1, 8, 9);
}

} // verus!
