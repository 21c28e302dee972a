use prisma_core::error::SqlError;
use prisma_core::values::{GraphqlId, PrismaArgs, PrismaValue, SingleRecord};
use prisma_core::write_ast::{
    CreateRecord, DeleteManyRecords, DeleteRecord, Filter, Identifier, NestedConnect,
    NestedCreateRecord, NestedDeleteManyRecords, NestedDeleteRecord, NestedDisconnect, NestedSet,
    NestedUpdateManyRecords, NestedUpdateRecord, NestedUpsertRecord, NestedWriteQueries,
    RecordFinder, RelationFieldRef, ResetData, RootWriteQuery, UpdateManyRecords, UpdateRecord,
    UpsertRecord, WriteQueryResult, WriteQueryResultType,
};
use prisma_core::write_engine::{Action, Event, Outcome, Phase, WriteMachine};
use prisma_core::write_plan::{build_plan, Operation, Step, WriteKind};

fn field(
    name: &str,
    is_list: bool,
    is_required: bool,
    c_list: bool,
    c_required: bool,
) -> RelationFieldRef {
    RelationFieldRef {
        model: "User".to_string(),
        name: name.to_string(),
        db_name: name.to_string(),
        relation_name: "PostToUser".to_string(),
        is_list,
        is_required,
        related_model: "Post".to_string(),
        related_is_list: c_list,
        related_is_required: c_required,
    }
}

fn posts() -> RelationFieldRef {
    field("posts", true, false, false, true)
}

fn title(t: &str) -> PrismaArgs {
    let mut a = PrismaArgs::new();
    a.insert("title".to_string(), PrismaValue::String(t.to_string()));
    a
}

fn finder(v: i64) -> RecordFinder {
    RecordFinder {
        model: "Post".to_string(),
        field: "id".to_string(),
        value: PrismaValue::Int(v),
    }
}

fn nested_create(t: &str, nested: NestedWriteQueries) -> NestedCreateRecord {
    NestedCreateRecord {
        relation_field: posts(),
        non_list_args: title(t),
        list_args: Vec::new(),
        top_is_create: true,
        nested_writes: nested,
    }
}

fn nested_update(t: &str, nested: NestedWriteQueries) -> NestedUpdateRecord {
    NestedUpdateRecord {
        relation_field: posts(),
        where_: Some(finder(1)),
        non_list_args: title(t),
        list_args: Vec::new(),
        nested_writes: nested,
    }
}

fn create_user(nested: NestedWriteQueries) -> RootWriteQuery {
    RootWriteQuery::CreateRecord(Box::new(CreateRecord {
        model: "User".to_string(),
        non_list_args: PrismaArgs::new(),
        list_args: Vec::new(),
        nested_writes: nested,
    }))
}

fn some_filter() -> Filter {
    Filter::And(Vec::new())
}

fn kind_name(op: &Operation) -> &'static str {
    match op {
        Operation::CreateRecord(_) => "CreateRecord",
        Operation::UpdateRecord(_) => "UpdateRecord",
        Operation::FindRecord(_) => "FindRecord",
        Operation::UpdateManyRecords(_) => "UpdateManyRecords",
        Operation::DeleteRecord(_) => "DeleteRecord",
        Operation::FilterIds(_) => "FilterIds",
        Operation::ResetData(_) => "ResetData",
        Operation::NestedCreate(_) => "NestedCreate",
        Operation::NestedUpdate(_) => "NestedUpdate",
        Operation::FindIdByParent(_) => "FindIdByParent",
        Operation::NestedDelete(_) => "NestedDelete",
        Operation::NestedUpdateMany(_) => "NestedUpdateMany",
        Operation::FilterIdsByParents(_) => "FilterIdsByParents",
        Operation::CheckRelationViolations(_) => "CheckRelationViolations",
        Operation::DeleteMany(_) => "DeleteMany",
        Operation::RequiredCheck(_) => "RequiredCheck",
        Operation::Violation(_) => "Violation",
        Operation::FindChild(_) => "FindChild",
        Operation::EnsureParentIsConnected(_) => "EnsureParentIsConnected",
        Operation::EnsureConnected(_) => "EnsureConnected",
        Operation::RemoveByParent(_) => "RemoveByParent",
        Operation::RemoveByChild(_) => "RemoveByChild",
        Operation::RemoveByParentAndChild(_) => "RemoveByParentAndChild",
        Operation::CreateRelation(_) => "CreateRelation",
        Operation::Skip => "Skip",
    }
}

fn shape(plan: &[Step]) -> Vec<(&'static str, usize, usize)> {
    plan.iter()
        .map(|s| (kind_name(&s.op), s.depth, s.skip))
        .collect()
}

/// Runs the machine to its end. Every operation succeeds, unless `fail`
/// names a failure for it by the number of the run, counted from zero.
/// Creates and updates give the ids 100, 101, ... in the order in which
/// they run.
fn run<'a>(
    query: &'a RootWriteQuery,
    fail: &dyn Fn(usize, &Operation) -> Option<SqlError>,
) -> (Vec<String>, Result<WriteQueryResult, SqlError>) {
    let (mut machine, mut action) = WriteMachine::new(query);
    let mut trace = Vec::new();
    let mut next_id = 100;
    let mut runs = 0;
    loop {
        let event = match &action {
            Action::Begin => {
                trace.push("begin".to_string());
                Event::Succeeded(Outcome::Unit)
            }
            Action::Commit => {
                trace.push("commit".to_string());
                Event::Succeeded(Outcome::Unit)
            }
            Action::Rollback => {
                trace.push("rollback".to_string());
                Event::Succeeded(Outcome::Unit)
            }
            Action::Finish(_) => break,
            Action::Run(req) => {
                let parent = match &req.parent_id {
                    Some(GraphqlId::Int(i)) => format!("{}", i),
                    Some(other) => format!("{:?}", other),
                    None => "-".to_string(),
                };
                trace.push(format!("{}({})", kind_name(&req.op), parent));
                let n = runs;
                runs += 1;
                match fail(n, &req.op) {
                    Some(e) => Event::Failed(e),
                    None => Event::Succeeded(match &req.op {
                        Operation::CreateRecord(_)
                        | Operation::UpdateRecord(_)
                        | Operation::NestedCreate(_)
                        | Operation::NestedUpdate(_)
                        | Operation::FindChild(_)
                        | Operation::FindRecord(_)
                        | Operation::FindIdByParent(_) => {
                            next_id += 1;
                            Outcome::Id(GraphqlId::Int(next_id - 1))
                        }
                        Operation::FilterIds(_) | Operation::FilterIdsByParents(_) => {
                            Outcome::Ids(vec![GraphqlId::Int(1), GraphqlId::Int(2)])
                        }
                        Operation::RequiredCheck(_) => Outcome::Found(false),
                        Operation::EnsureParentIsConnected(_) | Operation::EnsureConnected(_) => {
                            Outcome::Found(true)
                        }
                        Operation::UpdateManyRecords(_) => Outcome::Count(3),
                        Operation::DeleteRecord(_) => Outcome::Record(SingleRecord {
                            field_names: vec!["id".to_string()],
                            values: vec![PrismaValue::Int(1)],
                        }),
                        _ => Outcome::Unit,
                    }),
                }
            }
        };
        action = machine.next(event);
    }
    assert!(machine.is_finished());
    match action {
        Action::Finish(r) => (trace, r),
        _ => unreachable!(),
    }
}

fn never(_: usize, _: &Operation) -> Option<SqlError> {
    None
}

fn connection_error() -> SqlError {
    SqlError::ConnectionError {
        cause: "gone".to_string(),
    }
}

#[test]
fn nested_creates_run_after_the_root_in_one_transaction() {
    let mut nested = NestedWriteQueries::empty();
    nested
        .creates
        .push(nested_create("a", NestedWriteQueries::empty()));
    nested
        .creates
        .push(nested_create("b", NestedWriteQueries::empty()));
    let query = create_user(nested);
    let (trace, result) = run(&query, &never);
    assert_eq!(
        trace,
        vec![
            "begin",
            "CreateRecord(-)",
            "NestedCreate(100)",
            "NestedCreate(100)",
            "commit"
        ]
    );
    assert_eq!(
        result,
        Ok(WriteQueryResult {
            identifier: Identifier::Id(GraphqlId::Int(100)),
            typ: WriteQueryResultType::Create
        })
    );
}

#[test]
fn a_failing_nested_create_rolls_the_transaction_back() {
    let mut nested = NestedWriteQueries::empty();
    nested
        .creates
        .push(nested_create("a", NestedWriteQueries::empty()));
    nested
        .creates
        .push(nested_create("b", NestedWriteQueries::empty()));
    nested
        .creates
        .push(nested_create("c", NestedWriteQueries::empty()));
    let query = create_user(nested);
    let (trace, result) = run(&query, &|n, _| {
        if n == 2 {
            Some(connection_error())
        } else {
            None
        }
    });
    assert_eq!(
        trace,
        vec![
            "begin",
            "CreateRecord(-)",
            "NestedCreate(100)",
            "NestedCreate(100)",
            "rollback"
        ]
    );
    assert_eq!(result, Err(connection_error()));
}

#[test]
fn a_failing_begin_ends_the_request() {
    let query = create_user(NestedWriteQueries::empty());
    let (mut machine, action) = WriteMachine::new(&query);
    assert!(matches!(action, Action::Begin));
    assert_eq!(machine.phase, Phase::Starting);
    let action = machine.next(Event::Failed(connection_error()));
    assert_eq!(action, Action::Finish(Err(connection_error())));
    assert!(machine.is_finished());
    match machine.next(Event::Succeeded(Outcome::Unit)) {
        Action::Finish(Err(SqlError::InternalInvariant { message })) => {
            assert_eq!(message, "the request is finished")
        }
        other => panic!("unexpected action {:?}", other),
    }
}

#[test]
fn a_failed_commit_is_the_result_and_a_failed_rollback_keeps_the_first_failure() {
    let query = create_user(NestedWriteQueries::empty());
    let (mut machine, _) = WriteMachine::new(&query);
    assert!(matches!(
        machine.next(Event::Succeeded(Outcome::Unit)),
        Action::Run(_)
    ));
    assert!(matches!(
        machine.next(Event::Succeeded(Outcome::Id(GraphqlId::Int(1)))),
        Action::Commit
    ));
    assert_eq!(machine.phase, Phase::Committing);
    assert_eq!(
        machine.next(Event::Failed(connection_error())),
        Action::Finish(Err(connection_error()))
    );

    let (mut machine, _) = WriteMachine::new(&query);
    machine.next(Event::Succeeded(Outcome::Unit));
    let first = SqlError::FieldCannotBeNull {
        field: "title".to_string(),
    };
    assert!(matches!(
        machine.next(Event::Failed(first.clone())),
        Action::Rollback
    ));
    assert_eq!(machine.phase, Phase::RollingBack);
    assert_eq!(machine.failure, Some(first.clone()));
    assert_eq!(
        machine.next(Event::Failed(connection_error())),
        Action::Finish(Err(first))
    );
}

#[test]
fn an_unexpected_outcome_is_a_bug() {
    let query = create_user(NestedWriteQueries::empty());
    let (mut machine, _) = WriteMachine::new(&query);
    machine.next(Event::Succeeded(Outcome::Unit));
    assert!(matches!(
        machine.next(Event::Succeeded(Outcome::Count(1))),
        Action::Rollback
    ));
    match machine.next(Event::Succeeded(Outcome::Unit)) {
        Action::Finish(Err(SqlError::InternalInvariant { message })) => {
            assert_eq!(message, "the operation gave no id")
        }
        other => panic!("unexpected action {:?}", other),
    }
}

fn full_bag() -> NestedWriteQueries {
    let mut inner = NestedWriteQueries::empty();
    inner.deletes.push(NestedDeleteRecord {
        relation_field: posts(),
        where_: None,
    });
    let mut w = NestedWriteQueries::empty();
    // Filled in an order that is not the order of execution.
    w.delete_manys.push(NestedDeleteManyRecords {
        relation_field: posts(),
        filter: None,
    });
    w.update_manys.push(NestedUpdateManyRecords {
        relation_field: posts(),
        filter: None,
        non_list_args: title("m"),
        list_args: Vec::new(),
    });
    w.disconnects.push(NestedDisconnect {
        relation_field: field("posts", true, false, true, false),
        where_: Some(finder(4)),
    });
    w.sets.push(NestedSet {
        relation_field: field("posts", true, false, true, false),
        wheres: vec![finder(5), finder(6)],
    });
    w.connects.push(NestedConnect {
        relation_field: posts(),
        where_: finder(3),
        top_is_create: true,
    });
    w.deletes.push(NestedDeleteRecord {
        relation_field: posts(),
        where_: Some(finder(2)),
    });
    w.upserts.push(NestedUpsertRecord {
        relation_field: posts(),
        where_: Some(finder(1)),
        create: nested_create("uc", NestedWriteQueries::empty()),
        update: nested_update("uu", NestedWriteQueries::empty()),
    });
    w.updates
        .push(nested_update("u", NestedWriteQueries::empty()));
    w.creates.push(nested_create("c", inner));
    w
}

#[test]
fn the_plan_runs_the_kinds_in_their_order() {
    let query = create_user(full_bag());
    let plan = build_plan(&query);
    assert_eq!(
        shape(&plan),
        vec![
            ("CreateRecord", 0, 0),
            ("NestedCreate", 1, 0),
            ("NestedDelete", 2, 0),
            ("NestedUpdate", 1, 0),
            ("FindIdByParent", 1, 2),
            ("NestedUpdate", 1, 0),
            ("Skip", 1, 1),
            ("NestedCreate", 1, 0),
            ("NestedDelete", 1, 0),
            ("FindChild", 1, 0),
            ("RemoveByChild", 1, 0),
            ("CreateRelation", 1, 0),
            ("RemoveByParent", 1, 0),
            ("FindChild", 1, 0),
            ("CreateRelation", 1, 0),
            ("FindChild", 1, 0),
            ("CreateRelation", 1, 0),
            ("FindChild", 1, 0),
            ("EnsureConnected", 1, 0),
            ("RemoveByParentAndChild", 1, 0),
            ("NestedUpdateMany", 1, 0),
            ("FilterIdsByParents", 1, 2),
            ("CheckRelationViolations", 1, 0),
            ("DeleteMany", 1, 0),
        ]
    );
    let kinds: Vec<WriteKind> = plan
        .iter()
        .filter(|s| s.depth == 1)
        .map(|s| s.kind)
        .collect();
    let mut last = WriteKind::Create;
    let order = [
        WriteKind::Create,
        WriteKind::Update,
        WriteKind::Upsert,
        WriteKind::Delete,
        WriteKind::Connect,
        WriteKind::SetChildren,
        WriteKind::Disconnect,
        WriteKind::UpdateMany,
        WriteKind::DeleteMany,
    ];
    let rank = |k: WriteKind| order.iter().position(|o| *o == k).unwrap();
    for k in kinds {
        assert!(rank(last) <= rank(k));
        last = k;
    }
    assert_eq!(last, WriteKind::DeleteMany);
}

#[test]
fn the_trace_follows_the_plan() {
    let query = create_user(full_bag());
    let (trace, result) = run(&query, &never);
    assert_eq!(
        trace,
        vec![
            "begin",
            "CreateRecord(-)",
            "NestedCreate(100)",
            "NestedDelete(101)",
            "NestedUpdate(100)",
            "FindIdByParent(100)",
            "NestedUpdate(100)",
            "NestedDelete(100)",
            "FindChild(100)",
            "RemoveByChild(100)",
            "CreateRelation(100)",
            "RemoveByParent(100)",
            "FindChild(100)",
            "CreateRelation(100)",
            "FindChild(100)",
            "CreateRelation(100)",
            "FindChild(100)",
            "EnsureConnected(100)",
            "RemoveByParentAndChild(100)",
            "NestedUpdateMany(100)",
            "FilterIdsByParents(100)",
            "CheckRelationViolations(100)",
            "DeleteMany(100)",
            "commit",
        ]
    );
    assert!(result.is_ok());
}

#[test]
fn upsert_creates_when_the_child_is_not_connected() {
    let mut update_nested = NestedWriteQueries::empty();
    update_nested.deletes.push(NestedDeleteRecord {
        relation_field: posts(),
        where_: None,
    });
    let mut create_nested = NestedWriteQueries::empty();
    create_nested.update_manys.push(NestedUpdateManyRecords {
        relation_field: posts(),
        filter: None,
        non_list_args: title("m"),
        list_args: Vec::new(),
    });
    let mut w = NestedWriteQueries::empty();
    w.upserts.push(NestedUpsertRecord {
        relation_field: posts(),
        where_: Some(finder(1)),
        create: nested_create("uc", create_nested),
        update: nested_update("uu", update_nested),
    });
    w.deletes.push(NestedDeleteRecord {
        relation_field: posts(),
        where_: None,
    });
    let query = create_user(w);

    let (trace, _) = run(&query, &never);
    assert_eq!(
        trace,
        vec![
            "begin",
            "CreateRecord(-)",
            "FindIdByParent(100)",
            "NestedUpdate(100)",
            "NestedDelete(102)",
            "NestedDelete(100)",
            "commit"
        ]
    );

    let not_connected = |_: usize, op: &Operation| match op {
        Operation::FindIdByParent(_) => Some(SqlError::RecordsNotConnected {
            relation: "PostToUser".to_string(),
            parent: "User".to_string(),
            child: "Post".to_string(),
        }),
        _ => None,
    };
    let (trace, result) = run(&query, &not_connected);
    assert_eq!(
        trace,
        vec![
            "begin",
            "CreateRecord(-)",
            "FindIdByParent(100)",
            "NestedCreate(100)",
            "NestedUpdateMany(101)",
            "NestedDelete(100)",
            "commit"
        ]
    );
    assert!(result.is_ok());

    let other = |_: usize, op: &Operation| match op {
        Operation::FindIdByParent(_) => Some(connection_error()),
        _ => None,
    };
    let (trace, result) = run(&query, &other);
    assert_eq!(
        trace,
        vec![
            "begin",
            "CreateRecord(-)",
            "FindIdByParent(100)",
            "rollback"
        ]
    );
    assert_eq!(result, Err(connection_error()));
}

#[test]
fn root_upsert_updates_or_creates() {
    let query = RootWriteQuery::UpsertRecord(Box::new(UpsertRecord {
        where_: finder(1),
        create: CreateRecord {
            model: "Post".to_string(),
            non_list_args: title("c"),
            list_args: Vec::new(),
            nested_writes: NestedWriteQueries::empty(),
        },
        update: UpdateRecord {
            where_: finder(1),
            non_list_args: title("u"),
            list_args: Vec::new(),
            nested_writes: NestedWriteQueries::empty(),
        },
    }));
    assert_eq!(
        shape(&build_plan(&query)),
        vec![
            ("FindRecord", 0, 2),
            ("UpdateRecord", 0, 0),
            ("Skip", 0, 1),
            ("CreateRecord", 0, 0)
        ]
    );
    let (trace, result) = run(&query, &never);
    assert_eq!(
        trace,
        vec!["begin", "FindRecord(-)", "UpdateRecord(-)", "commit"]
    );
    assert_eq!(result.unwrap().typ, WriteQueryResultType::Update);

    let missing = |_: usize, op: &Operation| match op {
        Operation::FindRecord(f) => Some(SqlError::RecordNotFound {
            finder: prisma_core::transaction::make_finder_info(f),
        }),
        _ => None,
    };
    let (trace, result) = run(&query, &missing);
    assert_eq!(
        trace,
        vec!["begin", "FindRecord(-)", "CreateRecord(-)", "commit"]
    );
    assert_eq!(
        result,
        Ok(WriteQueryResult {
            identifier: Identifier::Id(GraphqlId::Int(100)),
            typ: WriteQueryResultType::Create
        })
    );
}

#[test]
fn other_root_writes() {
    let update_many = RootWriteQuery::UpdateManyRecords(UpdateManyRecords {
        model: "Post".to_string(),
        filter: some_filter(),
        non_list_args: title("x"),
        list_args: Vec::new(),
    });
    let (trace, result) = run(&update_many, &never);
    assert_eq!(trace, vec!["begin", "UpdateManyRecords(-)", "commit"]);
    assert_eq!(
        result,
        Ok(WriteQueryResult {
            identifier: Identifier::Count(3),
            typ: WriteQueryResultType::Many
        })
    );

    let delete = RootWriteQuery::DeleteRecord(DeleteRecord { where_: finder(1) });
    let (trace, result) = run(&delete, &never);
    assert_eq!(trace, vec!["begin", "DeleteRecord(-)", "commit"]);
    assert_eq!(result.unwrap().typ, WriteQueryResultType::Delete);

    let reset = RootWriteQuery::ResetData(ResetData {});
    let (trace, result) = run(&reset, &never);
    assert_eq!(trace, vec!["begin", "ResetData(-)", "commit"]);
    assert_eq!(
        result,
        Ok(WriteQueryResult {
            identifier: Identifier::Nothing,
            typ: WriteQueryResultType::Unit
        })
    );
}

#[test]
fn delete_many_checks_and_deletes_what_it_found() {
    let query = RootWriteQuery::DeleteManyRecords(DeleteManyRecords {
        model: "Post".to_string(),
        filter: some_filter(),
    });
    let (mut machine, _) = WriteMachine::new(&query);
    assert!(matches!(
        machine.next(Event::Succeeded(Outcome::Unit)),
        Action::Run(_)
    ));
    let found = vec![GraphqlId::Int(4), GraphqlId::Int(5)];
    match machine.next(Event::Succeeded(Outcome::Ids(found.clone()))) {
        Action::Run(req) => {
            assert_eq!(kind_name(&req.op), "CheckRelationViolations");
            assert_eq!(req.ids, found);
        }
        other => panic!("unexpected action {:?}", other),
    }
    match machine.next(Event::Succeeded(Outcome::Unit)) {
        Action::Run(req) => {
            assert_eq!(kind_name(&req.op), "DeleteMany");
            assert_eq!(req.ids, found);
        }
        other => panic!("unexpected action {:?}", other),
    }
    assert!(matches!(
        machine.next(Event::Succeeded(Outcome::Unit)),
        Action::Commit
    ));
    assert_eq!(
        machine.next(Event::Succeeded(Outcome::Unit)),
        Action::Finish(Ok(WriteQueryResult {
            identifier: Identifier::Count(2),
            typ: WriteQueryResultType::Many
        }))
    );

    // Nothing found: nothing is checked or deleted.
    let (mut machine, _) = WriteMachine::new(&query);
    machine.next(Event::Succeeded(Outcome::Unit));
    assert!(matches!(
        machine.next(Event::Succeeded(Outcome::Ids(Vec::new()))),
        Action::Commit
    ));
    assert_eq!(
        machine.next(Event::Succeeded(Outcome::Unit)),
        Action::Finish(Ok(WriteQueryResult {
            identifier: Identifier::Count(0),
            typ: WriteQueryResultType::Many
        }))
    );
}

fn connect(f: RelationFieldRef, top_is_create: bool) -> RootWriteQuery {
    let mut w = NestedWriteQueries::empty();
    w.connects.push(NestedConnect {
        relation_field: f,
        where_: finder(3),
        top_is_create,
    });
    create_user(w)
}

#[test]
fn connect_checks_and_detaches() {
    // Parent and child both hold one record and demand one: forbidden.
    let query = connect(field("post", false, true, false, true), false);
    let (trace, result) = run(&query, &never);
    assert_eq!(trace, vec!["begin", "CreateRecord(-)", "rollback"]);
    assert_eq!(
        result,
        Err(SqlError::RelationViolation {
            relation: "PostToUser".to_string()
        })
    );

    // Only the parent demands one: the database is asked.
    let query = connect(field("post", false, true, false, false), false);
    let (trace, result) = run(&query, &never);
    assert_eq!(
        trace,
        vec![
            "begin",
            "CreateRecord(-)",
            "RequiredCheck(100)",
            "FindChild(100)",
            "RemoveByParent(100)",
            "RemoveByChild(100)",
            "CreateRelation(100)",
            "commit"
        ]
    );
    assert!(result.is_ok());

    // Under a new parent nothing is removed by parent.
    let query = connect(field("post", false, false, false, false), true);
    let (trace, _) = run(&query, &never);
    assert_eq!(
        trace,
        vec![
            "begin",
            "CreateRecord(-)",
            "FindChild(100)",
            "RemoveByChild(100)",
            "CreateRelation(100)",
            "commit"
        ]
    );

    // Lists on both sides: only the new link.
    let query = connect(field("posts", true, false, true, false), false);
    let (trace, _) = run(&query, &never);
    assert_eq!(
        trace,
        vec![
            "begin",
            "CreateRecord(-)",
            "FindChild(100)",
            "CreateRelation(100)",
            "commit"
        ]
    );
}

#[test]
fn the_child_of_a_connect_is_handed_to_the_later_steps() {
    let query = connect(field("post", false, false, false, false), true);
    let (mut machine, _) = WriteMachine::new(&query);
    machine.next(Event::Succeeded(Outcome::Unit));
    machine.next(Event::Succeeded(Outcome::Id(GraphqlId::Int(1))));
    match machine.next(Event::Succeeded(Outcome::Id(GraphqlId::Int(9)))) {
        Action::Run(req) => {
            assert_eq!(kind_name(&req.op), "RemoveByChild");
            assert_eq!(req.parent_id, Some(GraphqlId::Int(1)));
            assert_eq!(req.child_id, Some(GraphqlId::Int(9)));
            assert!(req.ids.is_empty());
        }
        other => panic!("unexpected action {:?}", other),
    }
}

#[test]
fn a_failed_required_check_is_a_relation_violation() {
    let query = connect(field("post", false, true, false, false), false);
    let (mut machine, _) = WriteMachine::new(&query);
    machine.next(Event::Succeeded(Outcome::Unit));
    machine.next(Event::Succeeded(Outcome::Id(GraphqlId::Int(1))));
    assert!(matches!(
        machine.next(Event::Succeeded(Outcome::Found(true))),
        Action::Rollback
    ));
    assert_eq!(
        machine.next(Event::Succeeded(Outcome::Unit)),
        Action::Finish(Err(SqlError::RelationViolation {
            relation: "PostToUser".to_string()
        }))
    );
}

#[test]
fn disconnect_makes_sure_of_the_connection() {
    let mut w = NestedWriteQueries::empty();
    w.disconnects.push(NestedDisconnect {
        relation_field: field("posts", true, false, true, false),
        where_: None,
    });
    let query = create_user(w);
    let (trace, _) = run(&query, &never);
    assert_eq!(
        trace,
        vec![
            "begin",
            "CreateRecord(-)",
            "EnsureParentIsConnected(100)",
            "RemoveByParent(100)",
            "commit"
        ]
    );

    // A parent without child has nothing to unlink.
    let (mut machine, _) = WriteMachine::new(&query);
    machine.next(Event::Succeeded(Outcome::Unit));
    machine.next(Event::Succeeded(Outcome::Id(GraphqlId::Int(1))));
    assert!(matches!(
        machine.next(Event::Succeeded(Outcome::Found(false))),
        Action::Commit
    ));

    // The child that a finder names must be connected.
    let mut w = NestedWriteQueries::empty();
    w.disconnects.push(NestedDisconnect {
        relation_field: field("posts", true, false, true, false),
        where_: Some(finder(4)),
    });
    let with_finder = create_user(w);
    let (mut machine, _) = WriteMachine::new(&with_finder);
    machine.next(Event::Succeeded(Outcome::Unit));
    machine.next(Event::Succeeded(Outcome::Id(GraphqlId::Int(1))));
    machine.next(Event::Succeeded(Outcome::Id(GraphqlId::Int(4))));
    assert!(matches!(
        machine.next(Event::Succeeded(Outcome::Found(false))),
        Action::Rollback
    ));
    assert_eq!(
        machine.next(Event::Succeeded(Outcome::Unit)),
        Action::Finish(Err(SqlError::RecordsNotConnected {
            relation: "PostToUser".to_string(),
            parent: "User".to_string(),
            child: "Post".to_string(),
        }))
    );

    // A required side forbids the disconnect.
    let mut w = NestedWriteQueries::empty();
    w.disconnects.push(NestedDisconnect {
        relation_field: posts(),
        where_: None,
    });
    let query = create_user(w);
    let (trace, result) = run(&query, &never);
    assert_eq!(trace, vec!["begin", "CreateRecord(-)", "rollback"]);
    assert_eq!(
        result,
        Err(SqlError::RelationViolation {
            relation: "PostToUser".to_string()
        })
    );
}

#[test]
fn set_detaches_the_children_of_a_single_sided_relation() {
    let mut w = NestedWriteQueries::empty();
    w.sets.push(NestedSet {
        relation_field: field("posts", true, false, false, false),
        wheres: vec![finder(5)],
    });
    let query = create_user(w);
    let (trace, _) = run(&query, &never);
    assert_eq!(
        trace,
        vec![
            "begin",
            "CreateRecord(-)",
            "RemoveByParent(100)",
            "FindChild(100)",
            "RemoveByChild(100)",
            "CreateRelation(100)",
            "commit"
        ]
    );
}
