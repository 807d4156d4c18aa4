//! What holds of the formatter's output on every well formed tree.

use crate::ast::printer::{
    render_arguments, render_expr, render_line, render_lines, render_stmt,
};
use crate::ast::style::{lemma_markers_open_with_escape, Style};
use crate::ast::{Ast, ExprKind, StmtKind};
use vstd::prelude::*;

verus! {

/// No expression is dropped from the output: whatever its shape, its
/// text is not empty and opens with a style marker.
pub proof fn lemma_expr_opens_with_marker(ast: &Ast, id: int, indent: nat)
    requires
        ast.well_formed(),
        0 <= id < ast.expressions@.len(),
    ensures
        render_expr(ast, id, indent).len() > 0,
        render_expr(ast, id, indent)[0] == '\x1b',
    decreases id,
{
    lemma_markers_open_with_escape(Style::Number);
    lemma_markers_open_with_escape(Style::Text);
    lemma_markers_open_with_escape(Style::Keyword);
    lemma_markers_open_with_escape(Style::Variable);
    lemma_markers_open_with_escape(Style::Boolean);
    match ast.expressions@[id].kind {
        ExprKind::Binary(binary) => {
            lemma_expr_opens_with_marker(ast, binary.left.index as int, indent);
        },
        ExprKind::Call(call) => {
            lemma_expr_opens_with_marker(ast, call.callee.index as int, indent);
        },
        _ => {},
    }
}

/// No statement is dropped from the output: whatever its shape, its
/// text is not empty and opens with a style marker.
pub proof fn lemma_stmt_opens_with_marker(ast: &Ast, id: int, indent: nat)
    requires
        ast.well_formed(),
        0 <= id < ast.statements@.len(),
    ensures
        render_stmt(ast, id, indent).len() > 0,
        render_stmt(ast, id, indent)[0] == '\x1b',
{
    lemma_markers_open_with_escape(Style::Keyword);
    match ast.statements@[id].kind {
        StmtKind::Expr(expr) => {
            lemma_expr_opens_with_marker(ast, expr.index as int, indent);
        },
        StmtKind::Return(_) => {},
    }
}

/// Whether `text` opens with a style marker and goes on otherwise than
/// a return statement does: the marker is not that of a keyword, or the
/// three letters behind it are not `ret`.
pub open spec fn opens_unlike_return(text: Seq<char>) -> bool {
    &&& text.len() >= 9
    &&& text[7] != '5' || (text.len() >= 12 && (text[9] != 'r' || text[10] != 'e' || text[11]
        != 't'))
}

/// No expression opens as a return statement does.
pub proof fn lemma_expr_opens_unlike_return(ast: &Ast, id: int, indent: nat)
    requires
        ast.well_formed(),
        0 <= id < ast.expressions@.len(),
    ensures
        opens_unlike_return(render_expr(ast, id, indent)),
    decreases id,
{
    reveal_strlit("\x1b[38;5;6m");
    reveal_strlit("\x1b[38;5;15m");
    reveal_strlit("\x1b[38;5;5m");
    reveal_strlit("\x1b[38;5;2m");
    reveal_strlit("\x1b[38;5;3m");
    reveal_strlit("if");
    reveal_strlit("while");
    reveal_strlit("func");
    reveal_strlit("rec");
    reveal_strlit(" ");
    match ast.expressions@[id].kind {
        ExprKind::Binary(binary) => {
            lemma_expr_opens_unlike_return(ast, binary.left.index as int, indent);
        },
        ExprKind::Call(call) => {
            lemma_expr_opens_unlike_return(ast, call.callee.index as int, indent);
        },
        _ => {},
    }
}

/// The two shapes of statement are told apart by their text: that of a
/// return statement is never that of an expression statement.
pub proof fn lemma_return_differs_from_expression(ast: &Ast, ret: int, other: int, indent: nat)
    requires
        ast.well_formed(),
        0 <= ret < ast.statements@.len(),
        0 <= other < ast.statements@.len(),
        ast.statements@[ret].kind is Return,
        ast.statements@[other].kind is Expr,
    ensures
        render_stmt(ast, ret, indent) != render_stmt(ast, other, indent),
{
    reveal_strlit("\x1b[38;5;5m");
    reveal_strlit("return");
    lemma_expr_opens_unlike_return(ast, ast.statements@[other].kind->Expr_0.index as int, indent);
    let text = render_stmt(ast, ret, indent);
    assert(text.len() >= 15);
    assert(text[7] == '5' && text[9] == 'r' && text[10] == 'e' && text[11] == 't');
}

/// The line of a statement at nesting depth `indent` has a padding of
/// exactly `indent` blanks: that many blanks, and then a style marker.
/// It ends with a line break.
pub proof fn lemma_line_padding(ast: &Ast, id: int, indent: nat)
    requires
        ast.well_formed(),
        0 <= id < ast.statements@.len(),
    ensures
        render_line(ast, id, indent).len() > indent,
        forall|i: int| 0 <= i < indent ==> render_line(ast, id, indent)[i] == ' ',
        render_line(ast, id, indent)[indent as int] == '\x1b',
        render_line(ast, id, indent).last() == '\n',
{
    lemma_stmt_opens_with_marker(ast, id, indent);
    reveal_strlit("\n");
}

/// Inside a block at nesting depth `indent`, statement `k` is written
/// as its line at depth `indent + 1`, after the lines of the statements
/// before it, and that line has a padding of exactly `indent + 1` blanks.
pub proof fn lemma_block_line_padding(ast: &Ast, id: int, indent: nat, k: int)
    requires
        ast.well_formed(),
        0 <= id < ast.expressions@.len(),
        0 <= k < ast.expressions@[id].kind.block_stmts().len(),
    ensures
        ({
            let statement = ast.expressions@[id].kind.block_stmts()[k].index as int;
            let line = render_line(ast, statement, indent + 1);
            &&& 0 <= statement < ast.statements@.len()
            &&& render_lines(ast, id, k + 1, indent + 1) == render_lines(ast, id, k, indent + 1)
                + line
            &&& line.len() > indent + 1
            &&& forall|i: int| 0 <= i < indent + 1 ==> line[i] == ' '
            &&& line[(indent + 1) as int] == '\x1b'
        }),
{
    let statement = ast.expressions@[id].kind.block_stmts()[k].index as int;
    lemma_line_padding(ast, statement, indent + 1);
}

/// A tree of the same shape as a well formed one is well formed.
pub proof fn lemma_same_shape_well_formed(ast: &Ast, other: &Ast)
    requires
        ast.well_formed(),
        ast.same_shape(other),
    ensures
        other.well_formed(),
{
    assert forall|i: int| 0 <= i < other.expressions@.len() implies (
    #[trigger] other.expressions@[i]).kind.well_placed(other.statements@, i) by {
        assert(ast.expressions@[i].kind == other.expressions@[i].kind);
    }
}

/// The text of an expression depends on the shape of the tree alone:
/// the types attached to the expressions do not change it.
pub proof fn lemma_expr_ignores_types(ast: &Ast, other: &Ast, id: int, indent: nat)
    requires
        ast.well_formed(),
        ast.same_shape(other),
        0 <= id < ast.expressions@.len(),
    ensures
        render_expr(ast, id, indent) == render_expr(other, id, indent),
    decreases id + 1, 1int, 0int,
{
    lemma_same_shape_well_formed(ast, other);
    assert(ast.expressions@[id].kind == other.expressions@[id].kind);
    match ast.expressions@[id].kind {
        ExprKind::Unary(unary) => {
            lemma_expr_ignores_types(ast, other, unary.operand.index as int, indent);
        },
        ExprKind::Binary(binary) => {
            lemma_expr_ignores_types(ast, other, binary.left.index as int, indent);
            lemma_expr_ignores_types(ast, other, binary.right.index as int, indent);
        },
        ExprKind::Parenthesized(inner) => {
            lemma_expr_ignores_types(ast, other, inner.expression.index as int, indent);
        },
        ExprKind::Assignment(assign) => {
            lemma_expr_ignores_types(ast, other, assign.expression.index as int, indent);
        },
        ExprKind::Call(call) => {
            lemma_expr_ignores_types(ast, other, call.callee.index as int, indent);
            lemma_arguments_ignore_types(
                ast,
                other,
                id,
                call.arguments@.len() as int,
                indent,
            );
        },
        ExprKind::Block(block) => {
            lemma_lines_ignore_types(ast, other, id, block.stmts@.len() as int, indent + 1);
        },
        ExprKind::If(branch) => {
            lemma_expr_ignores_types(ast, other, branch.condition.index as int, indent);
            lemma_expr_ignores_types(ast, other, branch.then_branch.index as int, indent);
            match branch.else_branch {
                Some(expr) => {
                    lemma_expr_ignores_types(ast, other, expr.index as int, indent);
                },
                None => {},
            }
        },
        ExprKind::While(repeat) => {
            lemma_expr_ignores_types(ast, other, repeat.condition.index as int, indent);
            lemma_expr_ignores_types(ast, other, repeat.body.index as int, indent);
        },
        ExprKind::Func(func) => {
            lemma_expr_ignores_types(ast, other, func.body.index as int, indent);
        },
        _ => {},
    }
}

/// The text of the arguments of a call depends on the shape of the tree
/// alone.
pub proof fn lemma_arguments_ignore_types(ast: &Ast, other: &Ast, id: int, n: int, indent: nat)
    requires
        ast.well_formed(),
        ast.same_shape(other),
        0 <= id < ast.expressions@.len(),
        ast.expressions@[id].kind is Call,
        n <= ast.expressions@[id].kind->Call_0.arguments@.len(),
    ensures
        render_arguments(ast, id, n, indent) == render_arguments(other, id, n, indent),
    decreases id + 1, 0int, n,
{
    lemma_same_shape_well_formed(ast, other);
    assert(ast.expressions@[id].kind == other.expressions@[id].kind);
    if n > 0 {
        let argument = ast.expressions@[id].kind->Call_0.arguments@[n - 1];
        lemma_arguments_ignore_types(ast, other, id, n - 1, indent);
        lemma_expr_ignores_types(ast, other, argument.index as int, indent);
    }
}

/// The text of the statements of a block depends on the shape of the
/// tree alone.
pub proof fn lemma_lines_ignore_types(ast: &Ast, other: &Ast, id: int, n: int, indent: nat)
    requires
        ast.well_formed(),
        ast.same_shape(other),
        0 <= id < ast.expressions@.len(),
        n <= ast.expressions@[id].kind.block_stmts().len(),
    ensures
        render_lines(ast, id, n, indent) == render_lines(other, id, n, indent),
    decreases id + 1, 0int, n,
{
    lemma_same_shape_well_formed(ast, other);
    assert(ast.expressions@[id].kind == other.expressions@[id].kind);
    if n > 0 {
        let statement = ast.expressions@[id].kind.block_stmts()[n - 1];
        lemma_lines_ignore_types(ast, other, id, n - 1, indent);
        lemma_stmt_ignores_types(ast, other, statement.index as int, indent);
    }
}

/// The text of a statement, and its line, depend on the shape of the
/// tree alone.
pub proof fn lemma_stmt_ignores_types(ast: &Ast, other: &Ast, id: int, indent: nat)
    requires
        ast.well_formed(),
        ast.same_shape(other),
        0 <= id < ast.statements@.len(),
    ensures
        render_stmt(ast, id, indent) == render_stmt(other, id, indent),
        render_line(ast, id, indent) == render_line(other, id, indent),
    decreases ast.statements@[id].kind.rank(), 2int, 0int,
{
    lemma_same_shape_well_formed(ast, other);
    match ast.statements@[id].kind {
        StmtKind::Expr(expr) => {
            lemma_expr_ignores_types(ast, other, expr.index as int, indent);
        },
        StmtKind::Return(ret) => match ret.return_value {
            Some(expr) => {
                lemma_expr_ignores_types(ast, other, expr.index as int, indent);
            },
            None => {},
        },
    }
}

} // verus!
