//! The decisions of a write request. The machine here says which operation
//! runs next; whoever drives it performs the operation on the database and
//! hands back what came of it.
//!
//! A request runs in one transaction. It begins, runs the steps of its plan
//! in order, and commits. The first operation that fails ends the run: the
//! transaction is rolled back and the failure is the result. Only the lookup
//! of an upsert may miss its record without failing: the upsert then creates.

use crate::error::SqlError;
use crate::values::{GraphqlId, SingleRecord};
use crate::write_ast::{Identifier, RootWriteQuery, WriteQueryResult, WriteQueryResultType};
use crate::write_plan::{build_plan, plan_root, Operation, Step};
use vstd::prelude::*;

verus! {

/// Where a request stands.
#[derive(Clone, Copy, Debug, PartialEq, Eq, Structural)]
pub enum Phase {
    /// The transaction is being started.
    Starting,
    /// The step at the program counter is being run.
    Running,
    Committing,
    RollingBack,
    Finished,
}

/// What came of an operation that succeeded.
#[derive(Clone, Debug, PartialEq)]
pub enum Outcome {
    Unit,
    Id(GraphqlId),
    Ids(Vec<GraphqlId>),
    Count(usize),
    Record(SingleRecord),
    Found(bool),
}

/// What came of an action.
#[derive(Clone, Debug, PartialEq)]
pub enum Event {
    Succeeded(Outcome),
    Failed(SqlError),
}

/// An operation to run, with the ids it works on.
#[derive(Debug, PartialEq)]
pub struct Request<'a> {
    pub op: Operation<'a>,
    /// The id of the record that the step above gave.
    pub parent_id: Option<GraphqlId>,
    /// The id of the child that an earlier step of the same write found.
    pub child_id: Option<GraphqlId>,
    /// The ids that the search of a delete-many found.
    pub ids: Vec<GraphqlId>,
}

/// What the driver is to do next.
#[derive(Debug, PartialEq)]
pub enum Action<'a> {
    /// Take a connection and start a transaction.
    Begin,
    Run(Request<'a>),
    Commit,
    Rollback,
    /// Hand the result to the caller. Nothing is left to do.
    Finish(Result<WriteQueryResult, SqlError>),
}

/// The state of a write request between two actions.
pub struct WriteMachine<'a> {
    pub plan: Vec<Step<'a>>,
    /// Position of the step that runs.
    pub pc: usize,
    /// The ids on the way down: at `d` the id that the step at depth `d` gave.
    pub ids: Vec<GraphqlId>,
    /// The ids that the last search found.
    pub found: Vec<GraphqlId>,
    pub phase: Phase,
    /// The result of the root write, once it has run.
    pub result: Option<WriteQueryResult>,
    /// The failure that ended the run.
    pub failure: Option<SqlError>,
}

/// The state of a machine with its lists as sequences.
pub struct MachineState<'a> {
    pub plan: Seq<Step<'a>>,
    pub pc: int,
    pub ids: Seq<GraphqlId>,
    pub found: Seq<GraphqlId>,
    pub phase: Phase,
    pub result: Option<WriteQueryResult>,
    pub failure: Option<SqlError>,
}

/// The first step at or after `pc` that is no `Skip`, where each `Skip` on
/// the way passes over as many steps as it says; the length of the plan if
/// there is none.
pub open spec fn landing(plan: Seq<Step>, pc: int) -> int
    decreases plan.len() - pc,
{
    if pc < 0 || pc >= plan.len() {
        plan.len() as int
    } else if plan[pc].op is Skip {
        if pc + 1 + plan[pc].skip >= plan.len() {
            plan.len() as int
        } else {
            landing(plan, pc + 1 + plan[pc].skip)
        }
    } else {
        pc
    }
}

/// Whether the operation gives the id of a record that later steps work on.
pub open spec fn stores_id(op: Operation) -> bool {
    op is CreateRecord || op is UpdateRecord || op is NestedCreate || op is NestedUpdate
        || op is FindChild
}

/// Whether the operation works on the ids that a search found.
pub open spec fn uses_found(op: Operation) -> bool {
    op is CheckRelationViolations || op is DeleteMany
}

/// Whether the operation is a lookup that may miss its record with the
/// given failure, so that the steps behind it are passed over.
pub open spec fn may_miss(op: Operation, e: SqlError) -> bool {
    (op is FindRecord && e is RecordNotFound) || (op is FindIdByParent && e is RecordsNotConnected)
}

/// The id that a step at depth `depth` works on as parent.
pub open spec fn parent_at(ids: Seq<GraphqlId>, depth: int) -> Option<GraphqlId> {
    if 1 <= depth <= ids.len() {
        Some(ids[depth - 1])
    } else {
        None
    }
}

/// The id that a step at depth `depth` works on as child.
pub open spec fn child_at(ids: Seq<GraphqlId>, depth: int) -> Option<GraphqlId> {
    if 0 <= depth < ids.len() {
        Some(ids[depth])
    } else {
        None
    }
}

/// Whether `req` asks for the step at the program counter of `st`.
pub open spec fn is_request(st: MachineState, req: Request) -> bool {
    let step = st.plan[st.pc];
    &&& req.op == step.op
    &&& req.parent_id == parent_at(st.ids, step.depth as int)
    &&& req.child_id == child_at(st.ids, step.depth as int)
    &&& req.ids@ == if uses_found(step.op) {
        st.found
    } else {
        Seq::empty()
    }
}

/// The run ends in failure: the transaction is rolled back.
pub open spec fn fails_with(st: MachineState, e: SqlError, post: MachineState, action: Action) -> bool {
    &&& post == MachineState { phase: Phase::RollingBack, failure: Some(e), ..st }
    &&& action is Rollback
}

/// The run ends on a bug: the transaction is rolled back.
pub open spec fn breaks_with(
    st: MachineState,
    message: Seq<char>,
    post: MachineState,
    action: Action,
) -> bool {
    &&& post.failure matches Some(e)
    &&& e.is_internal(message)
    &&& post == MachineState { phase: Phase::RollingBack, failure: post.failure, ..st }
    &&& action is Rollback
}

/// The run goes on at the first step at or after `target` that is no
/// `Skip`. Behind the last step comes the commit. A step that is a violation
/// fails without touching the database.
pub open spec fn goes_on(st: MachineState, target: int, post: MachineState, action: Action) -> bool {
    let pc = landing(st.plan, target);
    if pc >= st.plan.len() {
        post == MachineState { pc, phase: Phase::Committing, ..st } && action is Commit
    } else if st.plan[pc].op is Violation {
        fails_with(
            MachineState { pc, ..st },
            SqlError::RelationViolation { relation: st.plan[pc].op->Violation_0.relation_name },
            post,
            action,
        )
    } else {
        &&& post == MachineState { pc, phase: Phase::Running, ..st }
        &&& action matches Action::Run(req)
        &&& is_request(post, req)
    }
}

/// The failure of a check: a required check that found a row, or a
/// connection of parent and child that is not there.
pub open spec fn check_failure(op: Operation, found: bool) -> Option<SqlError> {
    match op {
        Operation::RequiredCheck(f) => if found {
            Some(SqlError::RelationViolation { relation: f.relation_name })
        } else {
            None
        },
        Operation::EnsureConnected(f) => if !found {
            Some(
                SqlError::RecordsNotConnected {
                    relation: f.relation_name,
                    parent: f.model,
                    child: f.related_model,
                },
            )
        } else {
            None
        },
        _ => None,
    }
}

/// How many steps a check passes over: those behind the question whether
/// the parent has a child, where it has none.
pub open spec fn passed_over(step: Step, found: bool) -> int {
    if step.op is EnsureParentIsConnected && !found {
        step.skip as int
    } else {
        0
    }
}

/// Whether the operation asks the database a question about links.
pub open spec fn is_check(op: Operation) -> bool {
    op is RequiredCheck || op is EnsureParentIsConnected || op is EnsureConnected
}

/// What the machine does when the step at its program counter has
/// succeeded with `o`.
pub open spec fn after_success(st: MachineState, o: Outcome, post: MachineState, action: Action) -> bool {
    let step = st.plan[st.pc];
    let next = st.pc + 1;
    if stores_id(step.op) {
        match o {
            Outcome::Id(id) => if step.depth <= st.ids.len() {
                let ids = st.ids.take(step.depth as int).push(id);
                let result = if step.op is CreateRecord {
                    Some(
                        WriteQueryResult {
                            identifier: Identifier::Id(id),
                            typ: WriteQueryResultType::Create,
                        },
                    )
                } else if step.op is UpdateRecord {
                    Some(
                        WriteQueryResult {
                            identifier: Identifier::Id(id),
                            typ: WriteQueryResultType::Update,
                        },
                    )
                } else {
                    st.result
                };
                goes_on(MachineState { ids, result, ..st }, next, post, action)
            } else {
                breaks_with(st, "a step lies deeper than the ids reach"@, post, action)
            },
            _ => breaks_with(st, "the operation gave no id"@, post, action),
        }
    } else if step.op is FilterIds || step.op is FilterIdsByParents {
        match o {
            Outcome::Ids(v) => {
                let result = if step.op is FilterIds {
                    Some(
                        WriteQueryResult {
                            identifier: Identifier::Count(v@.len() as usize),
                            typ: WriteQueryResultType::Many,
                        },
                    )
                } else {
                    st.result
                };
                goes_on(
                    MachineState { found: v@, result, ..st },
                    if v@.len() == 0 {
                        next + step.skip
                    } else {
                        next
                    },
                    post,
                    action,
                )
            },
            _ => breaks_with(st, "the search gave no ids"@, post, action),
        }
    } else if is_check(step.op) {
        match o {
            Outcome::Found(b) => match check_failure(step.op, b) {
                Some(e) => fails_with(st, e, post, action),
                None => goes_on(st, next + passed_over(step, b), post, action),
            },
            _ => breaks_with(st, "the check gave no answer"@, post, action),
        }
    } else if step.op is UpdateManyRecords {
        match o {
            Outcome::Count(c) => goes_on(
                MachineState {
                    result: Some(
                        WriteQueryResult {
                            identifier: Identifier::Count(c),
                            typ: WriteQueryResultType::Many,
                        },
                    ),
                    ..st
                },
                next,
                post,
                action,
            ),
            _ => breaks_with(st, "the update gave no count"@, post, action),
        }
    } else if step.op is DeleteRecord {
        match o {
            Outcome::Record(r) => goes_on(
                MachineState {
                    result: Some(
                        WriteQueryResult {
                            identifier: Identifier::Record(r),
                            typ: WriteQueryResultType::Delete,
                        },
                    ),
                    ..st
                },
                next,
                post,
                action,
            ),
            _ => breaks_with(st, "the delete gave no record"@, post, action),
        }
    } else if step.op is ResetData {
        goes_on(
            MachineState {
                result: Some(
                    WriteQueryResult {
                        identifier: Identifier::Nothing,
                        typ: WriteQueryResultType::Unit,
                    },
                ),
                ..st
            },
            next,
            post,
            action,
        )
    } else {
        goes_on(st, next, post, action)
    }
}

/// What the machine does on an event: the state that it moves to, and the
/// action that it asks for.
pub open spec fn moves(st: MachineState, event: Event, post: MachineState, action: Action) -> bool {
    match st.phase {
        Phase::Starting => match event {
            Event::Succeeded(_) => goes_on(st, 0, post, action),
            Event::Failed(e) => post == MachineState { phase: Phase::Finished, ..st }
                && action == Action::Finish(Err(e)),
        },
        Phase::Running => if 0 <= st.pc < st.plan.len() {
            match event {
                Event::Succeeded(o) => after_success(st, o, post, action),
                Event::Failed(e) => if may_miss(st.plan[st.pc].op, e) {
                    goes_on(st, st.pc + 1 + st.plan[st.pc].skip, post, action)
                } else {
                    fails_with(st, e, post, action)
                },
            }
        } else {
            breaks_with(st, "no step is running"@, post, action)
        },
        Phase::Committing => {
            &&& post == MachineState { phase: Phase::Finished, result: None, ..st }
            &&& match event {
                Event::Succeeded(_) => match st.result {
                    Some(r) => action == Action::Finish(Ok(r)),
                    None => {
                        &&& action matches Action::Finish(Err(e))
                        &&& e.is_internal("the root write gave no result"@)
                    },
                },
                Event::Failed(e) => action == Action::Finish(Err(e)),
            }
        },
        Phase::RollingBack => {
            &&& post == MachineState { phase: Phase::Finished, failure: None, ..st }
            &&& match st.failure {
                Some(first) => action == Action::Finish(Err(first)),
                None => match event {
                    Event::Succeeded(_) => {
                        &&& action matches Action::Finish(Err(e))
                        &&& e.is_internal("a rollback without failure"@)
                    },
                    Event::Failed(e) => action == Action::Finish(Err(e)),
                },
            }
        },
        Phase::Finished => {
            &&& post == st
            &&& action matches Action::Finish(Err(e))
            &&& e.is_internal("the request is finished"@)
        },
    }
}

fn copy_ids(v: &Vec<GraphqlId>) -> (r: Vec<GraphqlId>)
    ensures
        r@ == v@,
{
    let mut out: Vec<GraphqlId> = Vec::new();
    let mut i: usize = 0;
    while i < v.len()
        invariant
            0 <= i <= v@.len(),
            out@ == v@.take(i as int),
        decreases v@.len() - i,
    {
        out.push(v[i].duplicate());
        i = i + 1;
    }
    out
}

fn uses_found_ids(op: &Operation) -> (r: bool)
    ensures
        r == uses_found(*op),
{
    match op {
        Operation::CheckRelationViolations(_) => true,
        Operation::DeleteMany(_) => true,
        _ => false,
    }
}

fn gives_id(op: &Operation) -> (r: bool)
    ensures
        r == stores_id(*op),
{
    match op {
        Operation::CreateRecord(_) => true,
        Operation::UpdateRecord(_) => true,
        Operation::NestedCreate(_) => true,
        Operation::NestedUpdate(_) => true,
        Operation::FindChild(_) => true,
        _ => false,
    }
}

fn can_miss(op: &Operation, e: &SqlError) -> (r: bool)
    ensures
        r == may_miss(*op, *e),
{
    match op {
        Operation::FindRecord(_) => e.is_record_not_found(),
        Operation::FindIdByParent(_) => e.is_records_not_connected(),
        _ => false,
    }
}

impl<'a> WriteMachine<'a> {
    /// The state with its lists as sequences.
    pub open spec fn state(&self) -> MachineState<'a> {
        MachineState {
            plan: self.plan@,
            pc: self.pc as int,
            ids: self.ids@,
            found: self.found@,
            phase: self.phase,
            result: self.result,
            failure: self.failure,
        }
    }

    /// A machine for the request, and its first action: to begin.
    pub fn new(query: &'a RootWriteQuery) -> (r: (WriteMachine<'a>, Action<'a>))
        ensures
            r.0.state() == (MachineState {
                plan: plan_root(query),
                pc: 0,
                ids: Seq::empty(),
                found: Seq::empty(),
                phase: Phase::Starting,
                result: None,
                failure: None,
            }),
            r.1 is Begin,
    {
        let m = WriteMachine {
            plan: build_plan(query),
            pc: 0,
            ids: Vec::new(),
            found: Vec::new(),
            phase: Phase::Starting,
            result: None,
            failure: None,
        };
        (m, Action::Begin)
    }

    /// Whether the request has finished.
    pub fn is_finished(&self) -> (r: bool)
        ensures
            r == (self.phase == Phase::Finished),
    {
        match self.phase {
            Phase::Finished => true,
            _ => false,
        }
    }

    fn find_landing(&self, target: usize) -> (r: usize)
        ensures
            r == landing(self.plan@, target as int),
            r <= self.plan@.len(),
    {
        let n = self.plan.len();
        let mut pc = target;
        while pc < n
            invariant
                n == self.plan@.len(),
                landing(self.plan@, pc as int) == landing(self.plan@, target as int),
            decreases n - pc,
        {
            let step = &self.plan[pc];
            match step.op {
                Operation::Skip => {
                    if step.skip >= n - pc - 1 {
                        return n;
                    }
                    pc = pc + 1 + step.skip;
                },
                _ => {
                    return pc;
                },
            }
        }
        n
    }

    fn fail(&mut self, e: SqlError) -> (action: Action<'a>)
        ensures
            fails_with(old(self).state(), e, final(self).state(), action),
    {
        self.phase = Phase::RollingBack;
        self.failure = Some(e);
        Action::Rollback
    }

    fn break_off(&mut self, message: &str) -> (action: Action<'a>)
        ensures
            breaks_with(old(self).state(), message@, final(self).state(), action),
    {
        self.phase = Phase::RollingBack;
        self.failure = Some(SqlError::internal(message));
        Action::Rollback
    }

    fn request(&self) -> (req: Request<'a>)
        requires
            self.pc < self.plan@.len(),
        ensures
            is_request(self.state(), req),
    {
        let step = &self.plan[self.pc];
        let parent_id = if 1 <= step.depth && step.depth <= self.ids.len() {
            Some(self.ids[step.depth - 1].duplicate())
        } else {
            None
        };
        let child_id = if step.depth < self.ids.len() {
            Some(self.ids[step.depth].duplicate())
        } else {
            None
        };
        let ids = if uses_found_ids(&step.op) {
            copy_ids(&self.found)
        } else {
            Vec::new()
        };
        Request { op: step.op, parent_id, child_id, ids }
    }

    #[verifier::rlimit(40)]
    fn go_on(&mut self, target: usize) -> (action: Action<'a>)
        ensures
            goes_on(old(self).state(), target as int, final(self).state(), action),
    {
        let pc = self.find_landing(target);
        self.pc = pc;
        if pc >= self.plan.len() {
            self.phase = Phase::Committing;
            Action::Commit
        } else {
            match self.plan[pc].op {
                Operation::Violation(f) => {
                    let e = SqlError::RelationViolation { relation: f.relation_name.clone() };
                    self.fail(e)
                },
                _ => {
                    self.phase = Phase::Running;
                    Action::Run(self.request())
                },
            }
        }
    }

    fn go_past(&mut self, skip: usize) -> (action: Action<'a>)
        requires
            old(self).pc < old(self).plan@.len(),
        ensures
            goes_on(old(self).state(), old(self).pc + 1 + skip, final(self).state(), action),
    {
        let n = self.plan.len();
        if skip >= n - self.pc - 1 {
            self.go_on(n)
        } else {
            self.go_on(self.pc + 1 + skip)
        }
    }

    fn check(op: &Operation, found: bool) -> (r: Option<SqlError>)
        ensures
            r == check_failure(*op, found),
    {
        match op {
            Operation::RequiredCheck(f) => if found {
                Some(SqlError::RelationViolation { relation: f.relation_name.clone() })
            } else {
                None
            },
            Operation::EnsureConnected(f) => if !found {
                Some(
                    SqlError::RecordsNotConnected {
                        relation: f.relation_name.clone(),
                        parent: f.model.clone(),
                        child: f.related_model.clone(),
                    },
                )
            } else {
                None
            },
            _ => None,
        }
    }

    #[verifier::rlimit(40)]
    fn succeed(&mut self, o: Outcome) -> (action: Action<'a>)
        requires
            old(self).pc < old(self).plan@.len(),
        ensures
            after_success(old(self).state(), o, final(self).state(), action),
    {
        let step = self.plan[self.pc];
        if gives_id(&step.op) {
            match o {
                Outcome::Id(id) => {
                    if step.depth <= self.ids.len() {
                        self.ids.truncate(step.depth);
                        match step.op {
                            Operation::CreateRecord(_) => {
                                self.result = Some(
                                    WriteQueryResult {
                                        identifier: Identifier::Id(id.duplicate()),
                                        typ: WriteQueryResultType::Create,
                                    },
                                );
                            },
                            Operation::UpdateRecord(_) => {
                                self.result = Some(
                                    WriteQueryResult {
                                        identifier: Identifier::Id(id.duplicate()),
                                        typ: WriteQueryResultType::Update,
                                    },
                                );
                            },
                            _ => {},
                        }
                        self.ids.push(id);
                        self.go_past(0)
                    } else {
                        self.break_off("a step lies deeper than the ids reach")
                    }
                },
                _ => self.break_off("the operation gave no id"),
            }
        } else {
            match step.op {
                Operation::FilterIds(_) => match o {
                    Outcome::Ids(v) => {
                        let none = v.len() == 0;
                        self.result = Some(
                            WriteQueryResult {
                                identifier: Identifier::Count(v.len()),
                                typ: WriteQueryResultType::Many,
                            },
                        );
                        self.found = v;
                        if none {
                            self.go_past(step.skip)
                        } else {
                            self.go_past(0)
                        }
                    },
                    _ => self.break_off("the search gave no ids"),
                },
                Operation::FilterIdsByParents(_) => match o {
                    Outcome::Ids(v) => {
                        let none = v.len() == 0;
                        self.found = v;
                        if none {
                            self.go_past(step.skip)
                        } else {
                            self.go_past(0)
                        }
                    },
                    _ => self.break_off("the search gave no ids"),
                },
                Operation::RequiredCheck(_) | Operation::EnsureConnected(_) => match o {
                    Outcome::Found(b) => match Self::check(&step.op, b) {
                        Some(e) => self.fail(e),
                        None => self.go_past(0),
                    },
                    _ => self.break_off("the check gave no answer"),
                },
                Operation::EnsureParentIsConnected(_) => match o {
                    Outcome::Found(b) => if b {
                        self.go_past(0)
                    } else {
                        self.go_past(step.skip)
                    },
                    _ => self.break_off("the check gave no answer"),
                },
                Operation::UpdateManyRecords(_) => match o {
                    Outcome::Count(c) => {
                        self.result = Some(
                            WriteQueryResult {
                                identifier: Identifier::Count(c),
                                typ: WriteQueryResultType::Many,
                            },
                        );
                        self.go_past(0)
                    },
                    _ => self.break_off("the update gave no count"),
                },
                Operation::DeleteRecord(_) => match o {
                    Outcome::Record(r) => {
                        self.result = Some(
                            WriteQueryResult {
                                identifier: Identifier::Record(r),
                                typ: WriteQueryResultType::Delete,
                            },
                        );
                        self.go_past(0)
                    },
                    _ => self.break_off("the delete gave no record"),
                },
                Operation::ResetData(_) => {
                    self.result = Some(
                        WriteQueryResult {
                            identifier: Identifier::Nothing,
                            typ: WriteQueryResultType::Unit,
                        },
                    );
                    self.go_past(0)
                },
                _ => self.go_past(0),
            }
        }
    }

    /// Takes what came of the last action and says what to do next.
    #[verifier::rlimit(40)]
    pub fn next(&mut self, event: Event) -> (action: Action<'a>)
        ensures
            moves(old(self).state(), event, final(self).state(), action),
    {
        match self.phase {
            Phase::Starting => match event {
                Event::Succeeded(_) => self.go_on(0),
                Event::Failed(e) => {
                    self.phase = Phase::Finished;
                    Action::Finish(Err(e))
                },
            },
            Phase::Running => {
                if self.pc < self.plan.len() {
                    match event {
                        Event::Succeeded(o) => self.succeed(o),
                        Event::Failed(e) => {
                            let step = self.plan[self.pc];
                            if can_miss(&step.op, &e) {
                                self.go_past(step.skip)
                            } else {
                                self.fail(e)
                            }
                        },
                    }
                } else {
                    self.break_off("no step is running")
                }
            },
            Phase::Committing => {
                self.phase = Phase::Finished;
                let result = self.result.take();
                match event {
                    Event::Succeeded(_) => match result {
                        Some(r) => Action::Finish(Ok(r)),
                        None => Action::Finish(
                            Err(SqlError::internal("the root write gave no result")),
                        ),
                    },
                    Event::Failed(e) => Action::Finish(Err(e)),
                }
            },
            Phase::RollingBack => {
                self.phase = Phase::Finished;
                let failure = self.failure.take();
                match failure {
                    Some(first) => Action::Finish(Err(first)),
                    None => match event {
                        Event::Succeeded(_) => Action::Finish(
                            Err(SqlError::internal("a rollback without failure")),
                        ),
                        Event::Failed(e) => Action::Finish(Err(e)),
                    },
                }
            },
            Phase::Finished => Action::Finish(Err(SqlError::internal("the request is finished"))),
        }
    }
}

/// The landing of a target lies at or behind it, and within the plan.
pub proof fn lemma_landing_bounds(plan: Seq<Step>, target: int)
    requires
        0 <= target,
    ensures
        target <= landing(plan, target) || landing(plan, target) == plan.len(),
        landing(plan, target) <= plan.len(),
        landing(plan, target) < plan.len() ==> !(plan[landing(plan, target)].op is Skip),
    decreases plan.len() - target,
{
    if target < plan.len() && plan[target].op is Skip && target + 1 + plan[target].skip
        < plan.len() {
        lemma_landing_bounds(plan, target + 1 + plan[target].skip);
    }
}

/// The steps run in the order of the plan: when one step has run and the
/// machine asks for another, that one stands behind the first.
pub proof fn lemma_steps_run_in_order(
    st: MachineState,
    event: Event,
    post: MachineState,
    action: Action,
)
    requires
        st.phase == Phase::Running,
        0 <= st.pc < st.plan.len(),
        moves(st, event, post, action),
        action is Run,
    ensures
        st.pc < post.pc < st.plan.len(),
        post.plan == st.plan,
        post.phase == Phase::Running,
        action->Run_0.op == st.plan[post.pc].op,
{
    let step = st.plan[st.pc];
    lemma_landing_bounds(st.plan, st.pc + 1);
    lemma_landing_bounds(st.plan, st.pc + 1 + step.skip);
}

/// The first failure ends the run. When the running step fails, and is no
/// lookup of an upsert that misses its record, the machine asks for the
/// rollback and keeps the failure; no further step runs.
pub proof fn lemma_failure_rolls_back(
    st: MachineState,
    e: SqlError,
    post: MachineState,
    action: Action,
)
    requires
        st.phase == Phase::Running,
        0 <= st.pc < st.plan.len(),
        !may_miss(st.plan[st.pc].op, e),
        moves(st, Event::Failed(e), post, action),
    ensures
        action is Rollback,
        post.phase == Phase::RollingBack,
        post.failure == Some(e),
        post.pc == st.pc,
{
}

/// After the rollback the failure that caused it is the result, unchanged,
/// whether the rollback succeeds or fails itself. From a failure on, the
/// machine asks for no operation and no commit.
pub proof fn lemma_rollback_reports_failure(
    st: MachineState,
    event: Event,
    post: MachineState,
    action: Action,
)
    requires
        st.phase == Phase::RollingBack,
        st.failure is Some,
        moves(st, event, post, action),
    ensures
        post.phase == Phase::Finished,
        action == Action::Finish(Err(st.failure->Some_0)),
{
}

/// The commit comes only behind the last step: when the machine asks for
/// it, every step of the plan has run or been passed over, and nothing has
/// failed.
pub proof fn lemma_commit_follows_last_step(
    st: MachineState,
    event: Event,
    post: MachineState,
    action: Action,
)
    requires
        moves(st, event, post, action),
        action is Commit,
        st.failure is None,
    ensures
        st.phase == Phase::Starting || st.phase == Phase::Running,
        post.phase == Phase::Committing,
        post.pc == st.plan.len(),
        post.failure is None,
{
    if st.phase == Phase::Running && 0 <= st.pc < st.plan.len() {
        lemma_landing_bounds(st.plan, st.pc + 1);
        lemma_landing_bounds(st.plan, st.pc + 1 + st.plan[st.pc].skip);
    } else if st.phase == Phase::Starting {
        lemma_landing_bounds(st.plan, 0);
    }
}

/// A successful commit hands out the result of the root write.
pub proof fn lemma_commit_reports_result(
    st: MachineState,
    o: Outcome,
    post: MachineState,
    action: Action,
)
    requires
        st.phase == Phase::Committing,
        st.result is Some,
        moves(st, Event::Succeeded(o), post, action),
    ensures
        post.phase == Phase::Finished,
        action == Action::Finish(Ok(st.result->Some_0)),
{
}

/// Once the machine commits, rolls back or has finished, it asks for no
/// further operation: whatever comes back, it finishes.
pub proof fn lemma_ending_only_finishes(
    st: MachineState,
    event: Event,
    post: MachineState,
    action: Action,
)
    requires
        st.phase == Phase::Committing || st.phase == Phase::RollingBack || st.phase
            == Phase::Finished,
        moves(st, event, post, action),
    ensures
        action is Finish,
        post.phase == Phase::Finished,
        st.phase == Phase::RollingBack ==> action->Finish_0 is Err,
{
}

/// Whether the states, events and actions are a run of the machine: on each
/// event a state moves to the next and asks for an action.
pub open spec fn is_run(states: Seq<MachineState>, events: Seq<Event>, actions: Seq<Action>) -> bool {
    &&& states.len() == events.len() + 1
    &&& actions.len() == events.len()
    &&& forall|i: int|
        0 <= i < events.len() ==> moves(states[i], #[trigger] events[i], states[i + 1], actions[i])
}

/// Whether the phase is one in which the transaction ends or has ended.
pub open spec fn is_ending_phase(p: Phase) -> bool {
    p == Phase::Committing || p == Phase::RollingBack || p == Phase::Finished
}

/// The phase that an action leaves the machine in: the commit, the
/// rollback and the end each have their own, and the rollback keeps the
/// failure that caused it; a step leaves the machine running that step.
pub proof fn lemma_action_shows_phase(
    st: MachineState,
    event: Event,
    post: MachineState,
    action: Action,
)
    requires
        moves(st, event, post, action),
    ensures
        !(action is Begin),
        action is Commit ==> post.phase == Phase::Committing,
        action is Rollback ==> post.phase == Phase::RollingBack && post.failure is Some,
        action is Finish ==> post.phase == Phase::Finished,
        action is Run ==> post.phase == Phase::Running && 0 <= post.pc < post.plan.len()
            && post.plan == st.plan && action->Run_0.op == post.plan[post.pc].op && (st.phase
            == Phase::Starting || (st.phase == Phase::Running && st.pc < post.pc)),
{
    if st.phase == Phase::Starting {
        lemma_landing_bounds(st.plan, 0);
    }
    if st.phase == Phase::Running && 0 <= st.pc < st.plan.len() {
        let step = st.plan[st.pc];
        lemma_landing_bounds(st.plan, st.pc + 1);
        lemma_landing_bounds(st.plan, st.pc + 1 + step.skip);
    }
}

proof fn lemma_ended_stays_ended(
    states: Seq<MachineState>,
    events: Seq<Event>,
    actions: Seq<Action>,
    i: int,
    j: int,
)
    requires
        is_run(states, events, actions),
        0 <= i <= j <= events.len(),
        is_ending_phase(states[i].phase),
    ensures
        is_ending_phase(states[j].phase),
        i < j ==> states[j].phase == Phase::Finished,
    decreases j - i,
{
    if i < j {
        lemma_ended_stays_ended(states, events, actions, i, j - 1);
        assert(moves(states[j - 1], events[j - 1], states[j], actions[j - 1]));
        lemma_ending_only_finishes(states[j - 1], events[j - 1], states[j], actions[j - 1]);
    }
}

/// A run ends once. After the machine has asked for the commit or the
/// rollback, or has finished, it asks for nothing but the end: no step
/// runs, and neither commit nor rollback follows. What follows the rollback
/// at once is the end with the failure that caused the rollback.
pub proof fn lemma_run_ends_once(
    states: Seq<MachineState>,
    events: Seq<Event>,
    actions: Seq<Action>,
    i: int,
    j: int,
)
    requires
        is_run(states, events, actions),
        0 <= i < j < events.len(),
        actions[i] is Commit || actions[i] is Rollback || actions[i] is Finish,
    ensures
        actions[j] is Finish,
        actions[i] is Rollback ==> states[i + 1].failure is Some && actions[i + 1]
            == Action::Finish(Err(states[i + 1].failure->Some_0)),
{
    assert(moves(states[i], events[i], states[i + 1], actions[i]));
    lemma_action_shows_phase(states[i], events[i], states[i + 1], actions[i]);
    lemma_ended_stays_ended(states, events, actions, i + 1, j);
    assert(moves(states[j], events[j], states[j + 1], actions[j]));
    lemma_ending_only_finishes(states[j], events[j], states[j + 1], actions[j]);
    assert(moves(states[i + 1], events[i + 1], states[i + 2], actions[i + 1]));
}

/// In a run the steps are asked for in the order of the plan: of two
/// steps that the machine asks for, the later one stands behind the
/// earlier one in the plan, and each is the step of the plan at its place.
pub proof fn lemma_run_keeps_order(
    states: Seq<MachineState>,
    events: Seq<Event>,
    actions: Seq<Action>,
    i: int,
    j: int,
)
    requires
        is_run(states, events, actions),
        0 <= i < j < events.len(),
        actions[i] is Run,
        actions[j] is Run,
    ensures
        states[j + 1].plan == states[i + 1].plan,
        0 <= states[i + 1].pc < states[j + 1].pc < states[i + 1].plan.len(),
        actions[i]->Run_0.op == states[i + 1].plan[states[i + 1].pc].op,
        actions[j]->Run_0.op == states[i + 1].plan[states[j + 1].pc].op,
    decreases j - i,
{
    assert(moves(states[i], events[i], states[i + 1], actions[i]));
    lemma_action_shows_phase(states[i], events[i], states[i + 1], actions[i]);
    assert(moves(states[i + 1], events[i + 1], states[i + 2], actions[i + 1]));
    lemma_action_shows_phase(states[i + 1], events[i + 1], states[i + 2], actions[i + 1]);
    if i + 1 < j {
        if !(actions[i + 1] is Run) {
            lemma_run_ends_once(states, events, actions, i + 1, j);
        }
        lemma_run_keeps_order(states, events, actions, i + 1, j);
    }
}

} // verus!
