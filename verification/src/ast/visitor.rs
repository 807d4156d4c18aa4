//! The protocol by which a pass walks a tree: one entry point for each
//! shape of node, and two that find the shape of a node and hand it to
//! the entry point of that shape.

use crate::ast::{
    AssignExpr, Ast, BinaryExpr, BlockExpr, BoolExpr, CallExpr, ExprId, ExprKind, FuncExpr,
    IfExpr, NumberExpr, ParenthesizedExpr, RecExpr, ReturnStmt, StmtId, StmtKind, UnaryExpr,
    VarExpr, WhileExpr,
};
use crate::text::TextSpan;
use vstd::prelude::*;

verus! {

/// A pass over the tree. Every shape has its entry point, and a pass
/// has to provide each of them: none can be left out.
///
/// An entry point is handed a copy of the payload of the node, and its
/// key. It is called only on a well formed tree, on a node that the
/// tree holds and whose payload is the one handed over, and from a state
/// that admits the node. It may attach types to the expressions of the
/// tree, and leaves the shape of the tree as it is.
pub trait ASTVisitor {
    /// What the pass asks of its own state before it visits expression
    /// `id`.
    spec fn admits_expr(&self, ast: &Ast, id: ExprId) -> bool;

    /// What the pass asks of its own state before it visits statement
    /// `id`.
    spec fn admits_stmt(&self, ast: &Ast, id: StmtId) -> bool;

    /// Visits a statement as one of a sequence of statements.
    fn visit_statement(&mut self, ast: &mut Ast, statement: StmtId)
        requires
            old(ast).well_formed(),
            old(ast).has_stmt(statement),
            old(self).admits_stmt(old(ast), statement),
        ensures
            final(ast).same_shape(old(ast)),
    ;

    /// Finds the shape of a statement and visits it by that shape.
    fn do_visit_statement(&mut self, ast: &mut Ast, statement: StmtId)
        requires
            old(ast).well_formed(),
            old(ast).has_stmt(statement),
            old(self).admits_stmt(old(ast), statement),
        ensures
            final(ast).same_shape(old(ast)),
    ;

    /// Finds the shape of an expression and visits it by that shape.
    fn visit_expression(&mut self, ast: &mut Ast, id: ExprId)
        requires
            old(ast).well_formed(),
            old(ast).has_expr(id),
            old(self).admits_expr(old(ast), id),
        ensures
            final(ast).same_shape(old(ast)),
    ;

    fn visit_return_statement(
        &mut self,
        ast: &mut Ast,
        return_statement: &ReturnStmt,
        statement: StmtId,
    )
        requires
            old(ast).well_formed(),
            old(ast).has_stmt(statement),
            old(ast).statements@[statement.index as int].kind == StmtKind::Return(
                *return_statement,
            ),
            old(self).admits_stmt(old(ast), statement),
        ensures
            final(ast).same_shape(old(ast)),
    ;

    fn visit_func_expr(&mut self, ast: &mut Ast, func_expr: &FuncExpr, expr_id: ExprId)
        requires
            old(ast).well_formed(),
            old(ast).has_expr(expr_id),
            old(ast).expressions@[expr_id.index as int].kind.same_payload(
                ExprKind::Func(*func_expr),
            ),
            old(self).admits_expr(old(ast), expr_id),
        ensures
            final(ast).same_shape(old(ast)),
    ;

    fn visit_while_statment(&mut self, ast: &mut Ast, while_statement: &WhileExpr, expr: ExprId)
        requires
            old(ast).well_formed(),
            old(ast).has_expr(expr),
            old(ast).expressions@[expr.index as int].kind.same_payload(
                ExprKind::While(*while_statement),
            ),
            old(self).admits_expr(old(ast), expr),
        ensures
            final(ast).same_shape(old(ast)),
    ;

    fn visit_block_expr(&mut self, ast: &mut Ast, block_statement: &BlockExpr, expr: ExprId)
        requires
            old(ast).well_formed(),
            old(ast).has_expr(expr),
            old(ast).expressions@[expr.index as int].kind.same_payload(
                ExprKind::Block(*block_statement),
            ),
            old(self).admits_expr(old(ast), expr),
        ensures
            final(ast).same_shape(old(ast)),
    ;

    fn visit_if_expression(&mut self, ast: &mut Ast, if_statement: &IfExpr, expr: ExprId)
        requires
            old(ast).well_formed(),
            old(ast).has_expr(expr),
            old(ast).expressions@[expr.index as int].kind.same_payload(
                ExprKind::If(*if_statement),
            ),
            old(self).admits_expr(old(ast), expr),
        ensures
            final(ast).same_shape(old(ast)),
    ;

    fn visit_rec_expression(&mut self, ast: &mut Ast, expr: &RecExpr, expr_id: ExprId)
        requires
            old(ast).well_formed(),
            old(ast).has_expr(expr_id),
            old(ast).expressions@[expr_id.index as int].kind.same_payload(
                ExprKind::Rec(*expr),
            ),
            old(self).admits_expr(old(ast), expr_id),
        ensures
            final(ast).same_shape(old(ast)),
    ;

    fn visit_call_expression(&mut self, ast: &mut Ast, call_expression: &CallExpr, expr: ExprId)
        requires
            old(ast).well_formed(),
            old(ast).has_expr(expr),
            old(ast).expressions@[expr.index as int].kind.same_payload(
                ExprKind::Call(*call_expression),
            ),
            old(self).admits_expr(old(ast), expr),
        ensures
            final(ast).same_shape(old(ast)),
    ;

    fn visit_assignment_expression(
        &mut self,
        ast: &mut Ast,
        assignment_expression: &AssignExpr,
        expr: ExprId,
    )
        requires
            old(ast).well_formed(),
            old(ast).has_expr(expr),
            old(ast).expressions@[expr.index as int].kind.same_payload(
                ExprKind::Assignment(*assignment_expression),
            ),
            old(self).admits_expr(old(ast), expr),
        ensures
            final(ast).same_shape(old(ast)),
    ;

    fn visit_variable_expression(
        &mut self,
        ast: &mut Ast,
        variable_expression: &VarExpr,
        expr: ExprId,
    )
        requires
            old(ast).well_formed(),
            old(ast).has_expr(expr),
            old(ast).expressions@[expr.index as int].kind.same_payload(
                ExprKind::Variable(*variable_expression),
            ),
            old(self).admits_expr(old(ast), expr),
        ensures
            final(ast).same_shape(old(ast)),
    ;

    fn visit_number_expression(&mut self, ast: &mut Ast, number: &NumberExpr, expr: ExprId)
        requires
            old(ast).well_formed(),
            old(ast).has_expr(expr),
            old(ast).expressions@[expr.index as int].kind.same_payload(
                ExprKind::Number(*number),
            ),
            old(self).admits_expr(old(ast), expr),
        ensures
            final(ast).same_shape(old(ast)),
    ;

    fn visit_boolean_expression(&mut self, ast: &mut Ast, boolean: &BoolExpr, expr: ExprId)
        requires
            old(ast).well_formed(),
            old(ast).has_expr(expr),
            old(ast).expressions@[expr.index as int].kind.same_payload(
                ExprKind::Boolean(*boolean),
            ),
            old(self).admits_expr(old(ast), expr),
        ensures
            final(ast).same_shape(old(ast)),
    ;

    /// Visits source text that could not be shaped into an expression.
    fn visit_error(&mut self, ast: &mut Ast, span: &TextSpan)
        ensures
            final(ast).same_shape(old(ast)),
    ;

    fn visit_unary_expression(&mut self, ast: &mut Ast, unary_expression: &UnaryExpr, expr: ExprId)
        requires
            old(ast).well_formed(),
            old(ast).has_expr(expr),
            old(ast).expressions@[expr.index as int].kind.same_payload(
                ExprKind::Unary(*unary_expression),
            ),
            old(self).admits_expr(old(ast), expr),
        ensures
            final(ast).same_shape(old(ast)),
    ;

    fn visit_binary_expression(
        &mut self,
        ast: &mut Ast,
        binary_expression: &BinaryExpr,
        expr: ExprId,
    )
        requires
            old(ast).well_formed(),
            old(ast).has_expr(expr),
            old(ast).expressions@[expr.index as int].kind.same_payload(
                ExprKind::Binary(*binary_expression),
            ),
            old(self).admits_expr(old(ast), expr),
        ensures
            final(ast).same_shape(old(ast)),
    ;

    fn visit_parenthesized_expression(
        &mut self,
        ast: &mut Ast,
        parenthesized_expression: &ParenthesizedExpr,
        expr: ExprId,
    )
        requires
            old(ast).well_formed(),
            old(ast).has_expr(expr),
            old(ast).expressions@[expr.index as int].kind.same_payload(
                ExprKind::Parenthesized(*parenthesized_expression),
            ),
            old(self).admits_expr(old(ast), expr),
        ensures
            final(ast).same_shape(old(ast)),
    ;
}

} // verus!
