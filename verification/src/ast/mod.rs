//! The syntax tree: two append-only tables of nodes that refer to each
//! other by index.

pub mod laws;
pub mod printer;
pub mod style;
pub mod visitor;

use crate::text::TextSpan;
use crate::typings::Type;
use vstd::prelude::*;

verus! {

/// Key of an expression in the expression table.
#[derive(Debug, Clone, Copy, PartialEq, Eq, Structural)]
pub struct ExprId {
    pub index: usize,
}

/// Key of a statement in the statement table.
#[derive(Debug, Clone, Copy, PartialEq, Eq, Structural)]
pub struct StmtId {
    pub index: usize,
}

#[derive(Debug, Clone, Copy)]
pub struct NumberExpr {
    pub number: i64,
}

#[derive(Debug, Clone, Copy)]
pub struct BoolExpr {
    pub value: bool,
}

#[derive(Debug, Clone)]
pub struct VarExpr {
    pub identifier: TextSpan,
}

#[derive(Debug, Clone)]
pub struct UnaryExpr {
    /// The operator token.
    pub operator: TextSpan,
    pub operand: ExprId,
}

#[derive(Debug, Clone)]
pub struct BinaryExpr {
    pub left: ExprId,
    /// The operator token.
    pub operator: TextSpan,
    pub right: ExprId,
}

#[derive(Debug, Clone, Copy)]
pub struct ParenthesizedExpr {
    pub expression: ExprId,
}

#[derive(Debug, Clone)]
pub struct AssignExpr {
    pub identifier: TextSpan,
    pub expression: ExprId,
}

#[derive(Debug, Clone)]
pub struct CallExpr {
    pub callee: ExprId,
    pub arguments: Vec<ExprId>,
}

#[derive(Debug, Clone)]
pub struct BlockExpr {
    pub stmts: Vec<StmtId>,
}

#[derive(Debug, Clone, Copy)]
pub struct IfExpr {
    pub condition: ExprId,
    pub then_branch: ExprId,
    pub else_branch: Option<ExprId>,
}

#[derive(Debug, Clone, Copy)]
pub struct WhileExpr {
    pub condition: ExprId,
    pub body: ExprId,
}

/// A type as the source names it, with the tag it resolved to.
#[derive(Debug, Clone)]
pub struct StaticTypeAnnotation {
    /// The spelling in the source; kept even where resolution failed.
    pub name: TextSpan,
    pub ty: Type,
}

#[derive(Debug, Clone)]
pub struct FuncParameter {
    pub identifier: TextSpan,
    pub type_annotation: StaticTypeAnnotation,
}

#[derive(Debug, Clone)]
pub struct FuncExpr {
    pub parameters: Vec<FuncParameter>,
    pub body: ExprId,
}

/// Marker by which a function refers to itself.
#[derive(Debug, Clone, Copy)]
pub struct RecExpr {}

#[derive(Debug, Clone)]
pub enum ExprKind {
    Number(NumberExpr),
    Boolean(BoolExpr),
    Variable(VarExpr),
    Unary(UnaryExpr),
    Binary(BinaryExpr),
    Parenthesized(ParenthesizedExpr),
    Assignment(AssignExpr),
    Call(CallExpr),
    Block(BlockExpr),
    If(IfExpr),
    While(WhileExpr),
    Func(FuncExpr),
    Rec(RecExpr),
    /// Source text that could not be shaped into an expression.
    Error(TextSpan),
}

/// An expression node: its shape, and the type a later pass gave it.
#[derive(Debug, Clone)]
pub struct Expr {
    pub kind: ExprKind,
    pub ty: Type,
}

#[derive(Debug, Clone, Copy)]
pub struct ReturnStmt {
    pub return_value: Option<ExprId>,
}

#[derive(Debug, Clone, Copy)]
pub enum StmtKind {
    Expr(ExprId),
    Return(ReturnStmt),
}

#[derive(Debug, Clone, Copy)]
pub struct Stmt {
    pub kind: StmtKind,
}

/// Owner of the nodes of one tree.
#[derive(Debug, Clone)]
pub struct Ast {
    pub statements: Vec<Stmt>,
    pub expressions: Vec<Expr>,
}

/// Whether each of `ids` lies below `bound`.
pub open spec fn exprs_below(ids: Seq<ExprId>, bound: int) -> bool {
    forall|k: int| 0 <= k < ids.len() ==> (#[trigger] ids[k]).index < bound
}

/// Whether each of `ids` is a statement of `statements` whose expression
/// lies below `bound`.
pub open spec fn stmts_placed(statements: Seq<Stmt>, ids: Seq<StmtId>, bound: int) -> bool {
    forall|k: int|
        0 <= k < ids.len() ==> {
            &&& (#[trigger] ids[k]).index < statements.len()
            &&& statements[ids[k].index as int].kind.children_below(bound)
        }
}

impl StmtKind {
    /// Whether the expression of the statement, if it has one, lies
    /// below `bound`.
    pub open spec fn children_below(self, bound: int) -> bool {
        match self {
            StmtKind::Expr(expr) => expr.index < bound,
            StmtKind::Return(ret) => match ret.return_value {
                Some(expr) => expr.index < bound,
                None => true,
            },
        }
    }

    /// One more than the index of the statement's expression, or zero
    /// where it has none.
    pub open spec fn rank(self) -> int {
        match self {
            StmtKind::Expr(expr) => expr.index + 1,
            StmtKind::Return(ret) => match ret.return_value {
                Some(expr) => expr.index + 1,
                None => 0,
            },
        }
    }

    fn has_children_below(&self, bound: usize) -> (below: bool)
        ensures
            below == self.children_below(bound as int),
    {
        match self {
            StmtKind::Expr(expr) => expr.index < bound,
            StmtKind::Return(ret) => match ret.return_value {
                Some(expr) => expr.index < bound,
                None => true,
            },
        }
    }
}

impl ExprKind {
    /// Whether every expression that this one refers to lies below
    /// `bound`.
    pub open spec fn children_below(self, bound: int) -> bool {
        match self {
            ExprKind::Number(_) => true,
            ExprKind::Boolean(_) => true,
            ExprKind::Variable(_) => true,
            ExprKind::Unary(unary) => unary.operand.index < bound,
            ExprKind::Binary(binary) => binary.left.index < bound && binary.right.index < bound,
            ExprKind::Parenthesized(inner) => inner.expression.index < bound,
            ExprKind::Assignment(assign) => assign.expression.index < bound,
            ExprKind::Call(call) => call.callee.index < bound && exprs_below(
                call.arguments@,
                bound,
            ),
            ExprKind::Block(_) => true,
            ExprKind::If(branch) => {
                &&& branch.condition.index < bound
                &&& branch.then_branch.index < bound
                &&& match branch.else_branch {
                    Some(expr) => expr.index < bound,
                    None => true,
                }
            },
            ExprKind::While(repeat) => repeat.condition.index < bound && repeat.body.index < bound,
            ExprKind::Func(func) => func.body.index < bound,
            ExprKind::Rec(_) => true,
            ExprKind::Error(_) => true,
        }
    }

    /// Whether `other` holds what this shape holds: the same fields,
    /// where a list counts by its items.
    pub open spec fn same_payload(self, other: ExprKind) -> bool {
        match (self, other) {
            (ExprKind::Call(mine), ExprKind::Call(theirs)) => {
                &&& mine.callee == theirs.callee
                &&& mine.arguments@ == theirs.arguments@
            },
            (ExprKind::Block(mine), ExprKind::Block(theirs)) => mine.stmts@ == theirs.stmts@,
            (ExprKind::Func(mine), ExprKind::Func(theirs)) => {
                &&& mine.body == theirs.body
                &&& mine.parameters@ == theirs.parameters@
            },
            _ => self == other,
        }
    }

    /// A copy of the shape, to hold beside a tree that is lent out.
    pub fn duplicate(&self) -> (copy: ExprKind)
        ensures
            self.same_payload(copy),
    {
        match self {
            ExprKind::Number(number) => ExprKind::Number(*number),
            ExprKind::Boolean(boolean) => ExprKind::Boolean(*boolean),
            ExprKind::Variable(variable) => ExprKind::Variable(
                VarExpr { identifier: variable.identifier.duplicate() },
            ),
            ExprKind::Unary(unary) => ExprKind::Unary(
                UnaryExpr { operator: unary.operator.duplicate(), operand: unary.operand },
            ),
            ExprKind::Binary(binary) => ExprKind::Binary(
                BinaryExpr {
                    left: binary.left,
                    operator: binary.operator.duplicate(),
                    right: binary.right,
                },
            ),
            ExprKind::Parenthesized(inner) => ExprKind::Parenthesized(*inner),
            ExprKind::Assignment(assign) => ExprKind::Assignment(
                AssignExpr {
                    identifier: assign.identifier.duplicate(),
                    expression: assign.expression,
                },
            ),
            ExprKind::Call(call) => ExprKind::Call(
                CallExpr { callee: call.callee, arguments: call.arguments.clone() },
            ),
            ExprKind::Block(block) => ExprKind::Block(BlockExpr { stmts: block.stmts.clone() }),
            ExprKind::If(branch) => ExprKind::If(*branch),
            ExprKind::While(repeat) => ExprKind::While(*repeat),
            ExprKind::Func(func) => ExprKind::Func(
                FuncExpr { parameters: duplicate_parameters(&func.parameters), body: func.body },
            ),
            ExprKind::Rec(rec) => ExprKind::Rec(*rec),
            ExprKind::Error(span) => ExprKind::Error(span.duplicate()),
        }
    }

    /// The statements of a block; empty for any other shape.
    pub open spec fn block_stmts(self) -> Seq<StmtId> {
        match self {
            ExprKind::Block(block) => block.stmts@,
            _ => Seq::empty(),
        }
    }

    /// Whether a node of this shape may stand at index `bound` of the
    /// expression table, beside the statement table `statements`:
    /// everything it refers to exists, and every expression below it in
    /// the tree lies before it in the table.
    pub open spec fn well_placed(self, statements: Seq<Stmt>, bound: int) -> bool {
        &&& self.children_below(bound)
        &&& stmts_placed(statements, self.block_stmts(), bound)
    }
}

fn duplicate_parameters(parameters: &Vec<FuncParameter>) -> (copy: Vec<FuncParameter>)
    ensures
        copy@ == parameters@,
{
    let mut copy: Vec<FuncParameter> = Vec::new();
    let mut k: usize = 0;
    while k < parameters.len()
        invariant
            k <= parameters.len(),
            copy@ == parameters@.take(k as int),
        decreases parameters.len() - k,
    {
        let parameter = &parameters[k];
        copy.push(
            FuncParameter {
                identifier: parameter.identifier.duplicate(),
                type_annotation: StaticTypeAnnotation {
                    name: parameter.type_annotation.name.duplicate(),
                    ty: parameter.type_annotation.ty,
                },
            },
        );
        assert(parameters@.take(k + 1) =~= parameters@.take(k as int).push(parameters@[k as int]));
        k += 1;
    }
    assert(parameters@.take(parameters.len() as int) =~= parameters@);
    copy
}

fn all_exprs_below(ids: &Vec<ExprId>, bound: usize) -> (below: bool)
    ensures
        below == exprs_below(ids@, bound as int),
{
    let mut k: usize = 0;
    while k < ids.len()
        invariant
            k <= ids.len(),
            forall|j: int| 0 <= j < k ==> (#[trigger] ids@[j]).index < bound,
        decreases ids.len() - k,
    {
        if ids[k].index >= bound {
            return false;
        }
        k += 1;
    }
    true
}

impl Ast {
    /// Every node refers only to nodes that were appended before it, so
    /// that the two tables hold a forest: no index dangles and no node
    /// lies below itself.
    pub open spec fn well_formed(&self) -> bool {
        &&& forall|i: int|
            0 <= i < self.statements@.len() ==> (#[trigger] self.statements@[i]).kind.children_below(
                self.expressions@.len() as int,
            )
        &&& forall|i: int|
            0 <= i < self.expressions@.len() ==> (#[trigger] self.expressions@[i]).kind.well_placed(
                self.statements@,
                i,
            )
    }

    /// Whether `id` names an expression of this tree.
    pub open spec fn has_expr(&self, id: ExprId) -> bool {
        id.index < self.expressions@.len()
    }

    /// Whether `id` names a statement of this tree.
    pub open spec fn has_stmt(&self, id: StmtId) -> bool {
        id.index < self.statements@.len()
    }

    /// Whether the two trees have the same nodes up to the types that
    /// are attached to expressions.
    pub open spec fn same_shape(&self, other: &Ast) -> bool {
        &&& self.statements@ == other.statements@
        &&& self.expressions@.len() == other.expressions@.len()
        &&& forall|i: int|
            0 <= i < self.expressions@.len() ==> (#[trigger] self.expressions@[i]).kind
                == other.expressions@[i].kind
    }

    pub fn new() -> (ast: Ast)
        ensures
            ast.statements@.len() == 0,
            ast.expressions@.len() == 0,
            ast.well_formed(),
    {
        Ast { statements: Vec::new(), expressions: Vec::new() }
    }

    pub fn query_expr(&self, id: ExprId) -> (expr: &Expr)
        requires
            self.has_expr(id),
        ensures
            *expr == self.expressions@[id.index as int],
    {
        &self.expressions[id.index]
    }

    pub fn query_stmt(&self, id: StmtId) -> (stmt: &Stmt)
        requires
            self.has_stmt(id),
        ensures
            *stmt == self.statements@[id.index as int],
    {
        &self.statements[id.index]
    }

    fn all_stmts_placed(&self, ids: &Vec<StmtId>, bound: usize) -> (placed: bool)
        ensures
            placed == stmts_placed(self.statements@, ids@, bound as int),
    {
        let mut k: usize = 0;
        while k < ids.len()
            invariant
                k <= ids.len(),
                forall|j: int|
                    0 <= j < k ==> {
                        &&& (#[trigger] ids@[j]).index < self.statements@.len()
                        &&& self.statements@[ids@[j].index as int].kind.children_below(bound as int)
                    },
            decreases ids.len() - k,
        {
            let id = ids[k];
            if id.index >= self.statements.len() {
                return false;
            }
            if !self.statements[id.index].kind.has_children_below(bound) {
                return false;
            }
            k += 1;
        }
        true
    }

    fn is_well_placed(&self, kind: &ExprKind, bound: usize) -> (placed: bool)
        ensures
            placed == kind.well_placed(self.statements@, bound as int),
    {
        match kind {
            ExprKind::Number(_) => true,
            ExprKind::Boolean(_) => true,
            ExprKind::Variable(_) => true,
            ExprKind::Unary(unary) => unary.operand.index < bound,
            ExprKind::Binary(binary) => binary.left.index < bound && binary.right.index < bound,
            ExprKind::Parenthesized(inner) => inner.expression.index < bound,
            ExprKind::Assignment(assign) => assign.expression.index < bound,
            ExprKind::Call(call) => call.callee.index < bound && all_exprs_below(
                &call.arguments,
                bound,
            ),
            ExprKind::Block(block) => self.all_stmts_placed(&block.stmts, bound),
            ExprKind::If(branch) => {
                branch.condition.index < bound && branch.then_branch.index < bound
                    && match branch.else_branch {
                    Some(expr) => expr.index < bound,
                    None => true,
                }
            },
            ExprKind::While(repeat) => repeat.condition.index < bound && repeat.body.index < bound,
            ExprKind::Func(func) => func.body.index < bound,
            ExprKind::Rec(_) => true,
            ExprKind::Error(_) => true,
        }
    }

    /// Attaches a type to an expression. The shape of the tree stays as
    /// it is.
    pub fn set_type(&mut self, id: ExprId, ty: Type)
        requires
            old(self).has_expr(id),
        ensures
            final(self).same_shape(old(self)),
            final(self).expressions@[id.index as int].ty == ty,
            forall|i: int|
                0 <= i < old(self).expressions@.len() && i != id.index ==> #[trigger] final(self)
                    .expressions@[i] == old(self).expressions@[i],
    {
        self.expressions[id.index].ty = ty;
    }

    /// Appends an expression of the given shape, with its type yet
    /// unresolved, and returns its key. Refuses a shape that refers to a
    /// node that the tree does not hold yet, and then leaves the tree as
    /// it was.
    pub fn add_expression(&mut self, kind: ExprKind) -> (id: Option<ExprId>)
        ensures
            old(self).well_formed() ==> final(self).well_formed(),
            final(self).statements@ == old(self).statements@,
            match id {
                Some(id) => {
                    &&& kind.well_placed(old(self).statements@, old(self).expressions@.len() as int)
                    &&& id.index == old(self).expressions@.len()
                    &&& final(self).expressions@ == old(self).expressions@.push(
                        Expr { kind, ty: Type::Unresolved },
                    )
                },
                None => {
                    &&& !kind.well_placed(old(self).statements@, old(self).expressions@.len() as int)
                    &&& final(self).expressions@ == old(self).expressions@
                },
            },
    {
        let index = self.expressions.len();
        if !self.is_well_placed(&kind, index) {
            return None;
        }
        self.expressions.push(Expr { kind, ty: Type::Unresolved });
        Some(ExprId { index })
    }

    /// Appends a statement of the given shape and returns its key.
    /// Refuses a shape that refers to an expression that the tree does
    /// not hold, and then leaves the tree as it was.
    pub fn add_statement(&mut self, kind: StmtKind) -> (id: Option<StmtId>)
        ensures
            old(self).well_formed() ==> final(self).well_formed(),
            final(self).expressions@ == old(self).expressions@,
            match id {
                Some(id) => {
                    &&& kind.children_below(old(self).expressions@.len() as int)
                    &&& id.index == old(self).statements@.len()
                    &&& final(self).statements@ == old(self).statements@.push(Stmt { kind })
                },
                None => {
                    &&& !kind.children_below(old(self).expressions@.len() as int)
                    &&& final(self).statements@ == old(self).statements@
                },
            },
    {
        let index = self.statements.len();
        if !kind.has_children_below(self.expressions.len()) {
            return None;
        }
        self.statements.push(Stmt { kind });
        Some(StmtId { index })
    }

    /// Whether the tree is well formed, found by a walk over both
    /// tables.
    pub fn is_well_formed(&self) -> (ok: bool)
        ensures
            ok == self.well_formed(),
    {
        let mut s: usize = 0;
        while s < self.statements.len()
            invariant
                s <= self.statements@.len(),
                forall|i: int|
                    0 <= i < s ==> (#[trigger] self.statements@[i]).kind.children_below(
                        self.expressions@.len() as int,
                    ),
            decreases self.statements@.len() - s,
        {
            if !self.statements[s].kind.has_children_below(self.expressions.len()) {
                return false;
            }
            s += 1;
        }
        let mut e: usize = 0;
        while e < self.expressions.len()
            invariant
                e <= self.expressions@.len(),
                forall|i: int|
                    0 <= i < e ==> (#[trigger] self.expressions@[i]).kind.well_placed(
                        self.statements@,
                        i,
                    ),
                forall|i: int|
                    0 <= i < self.statements@.len() ==> (
                    #[trigger] self.statements@[i]).kind.children_below(
                        self.expressions@.len() as int,
                    ),
            decreases self.expressions@.len() - e,
        {
            if !self.is_well_placed(&self.expressions[e].kind, e) {
                return false;
            }
            e += 1;
        }
        true
    }
}

} // verus!
