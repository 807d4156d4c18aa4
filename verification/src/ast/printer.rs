//! A formatter that reconstructs source text from a tree, each fragment
//! preceded by the marker of its style.

use crate::ast::visitor::ASTVisitor;
use crate::ast::style::{reset, reset_marker, style_marker, Style};
use crate::ast::{
    AssignExpr, Ast, BinaryExpr, BlockExpr, BoolExpr, CallExpr, ExprId, ExprKind, FuncExpr,
    FuncParameter, IfExpr, NumberExpr, ParenthesizedExpr, RecExpr, ReturnStmt,
    StaticTypeAnnotation, StmtId, StmtKind, UnaryExpr, VarExpr, WhileExpr,
};
use crate::text::{integer_text, push_integer, TextSpan};
use vstd::prelude::*;
use vstd::string::*;

verus! {

/// `text` in the given style: the style's marker, then the text.
pub open spec fn styled(style: Style, text: Seq<char>) -> Seq<char> {
    style_marker(style) + text
}

pub open spec fn space() -> Seq<char> {
    " "@
}

pub open spec fn newline() -> Seq<char> {
    "\n"@
}

/// The leading padding of a statement line at nesting depth `indent`:
/// one blank for each level.
pub open spec fn padding(indent: nat) -> Seq<char> {
    Seq::new(indent, |i: int| ' ')
}

/// What stands between two items of a list.
pub open spec fn separator() -> Seq<char> {
    styled(Style::Text, ","@) + space()
}

pub open spec fn bool_text(value: bool) -> Seq<char> {
    if value {
        "true"@
    } else {
        "false"@
    }
}

/// A type annotation: a colon, a blank, and the type as the source
/// spelled it.
pub open spec fn render_type_annotation(annotation: StaticTypeAnnotation) -> Seq<char> {
    styled(Style::Text, ":"@) + space() + styled(Style::Type, annotation.name.literal@)
}

/// A parameter: its name as a variable, a blank, and its type
/// annotation.
pub open spec fn render_parameter(parameter: FuncParameter) -> Seq<char> {
    styled(Style::Variable, parameter.identifier.literal@) + space() + render_type_annotation(
        parameter.type_annotation,
    )
}

/// The first `n` parameters, separated.
pub open spec fn render_parameters(parameters: Seq<FuncParameter>, n: int) -> Seq<char>
    decreases n,
{
    if n <= 0 {
        Seq::empty()
    } else {
        render_parameters(parameters, n - 1) + (if n > 1 {
            separator()
        } else {
            Seq::empty()
        }) + render_parameter(parameters[n - 1])
    }
}

/// What stands between `func` and the body: the parameters in
/// parentheses and a blank, or a lone blank where there are none.
pub open spec fn render_signature(parameters: Seq<FuncParameter>) -> Seq<char> {
    if parameters.len() == 0 {
        space()
    } else {
        styled(Style::Text, "("@) + render_parameters(parameters, parameters.len() as int) + styled(
            Style::Text,
            ")"@,
        ) + space()
    }
}

/// The text of expression `id` at nesting depth `indent`.
pub open spec fn render_expr(ast: &Ast, id: int, indent: nat) -> Seq<char>
    decreases id + 1, 1int, 0int,
    when ast.well_formed() && 0 <= id < ast.expressions@.len()
{
    match ast.expressions@[id].kind {
        ExprKind::Number(number) => styled(Style::Number, integer_text(number.number as int)),
        ExprKind::Boolean(boolean) => styled(Style::Boolean, bool_text(boolean.value)),
        ExprKind::Variable(variable) => styled(Style::Variable, variable.identifier.literal@),
        ExprKind::Unary(unary) => styled(Style::Text, unary.operator.literal@) + render_expr(
            ast,
            unary.operand.index as int,
            indent,
        ),
        ExprKind::Binary(binary) => render_expr(ast, binary.left.index as int, indent) + space()
            + styled(Style::Text, binary.operator.literal@) + space() + render_expr(
            ast,
            binary.right.index as int,
            indent,
        ),
        ExprKind::Parenthesized(inner) => styled(Style::Text, "("@) + render_expr(
            ast,
            inner.expression.index as int,
            indent,
        ) + styled(Style::Text, ")"@),
        ExprKind::Assignment(assign) => styled(Style::Variable, assign.identifier.literal@)
            + space() + styled(Style::Text, "="@) + space() + render_expr(
            ast,
            assign.expression.index as int,
            indent,
        ),
        ExprKind::Call(call) => render_expr(ast, call.callee.index as int, indent) + styled(
            Style::Text,
            "("@,
        ) + render_arguments(ast, id, call.arguments@.len() as int, indent) + styled(
            Style::Text,
            ")"@,
        ),
        ExprKind::Block(block) => styled(Style::Text, "{"@) + newline() + render_lines(
            ast,
            id,
            block.stmts@.len() as int,
            indent + 1,
        ) + padding(indent) + styled(Style::Text, "}"@),
        ExprKind::If(branch) => styled(Style::Keyword, "if"@) + space() + render_expr(
            ast,
            branch.condition.index as int,
            indent,
        ) + space() + render_expr(ast, branch.then_branch.index as int, indent)
            + match branch.else_branch {
            Some(other) => space() + styled(Style::Keyword, "else"@) + space() + render_expr(
                ast,
                other.index as int,
                indent,
            ),
            None => Seq::empty(),
        },
        ExprKind::While(repeat) => styled(Style::Keyword, "while"@) + space() + render_expr(
            ast,
            repeat.condition.index as int,
            indent,
        ) + space() + render_expr(ast, repeat.body.index as int, indent),
        ExprKind::Func(func) => styled(Style::Keyword, "func"@) + space() + render_signature(
            func.parameters@,
        ) + render_expr(ast, func.body.index as int, indent),
        ExprKind::Rec(_) => styled(Style::Keyword, "rec"@),
        ExprKind::Error(span) => styled(Style::Text, span.literal@),
    }
}

/// The arguments of call `id`; empty for a node of any other shape.
pub open spec fn call_arguments(ast: &Ast, id: int) -> Seq<ExprId> {
    match ast.expressions@[id].kind {
        ExprKind::Call(call) => call.arguments@,
        _ => Seq::empty(),
    }
}

/// The first `n` arguments of call `id`, separated.
pub open spec fn render_arguments(ast: &Ast, id: int, n: int, indent: nat) -> Seq<char>
    decreases id + 1, 0int, n,
    when ast.well_formed() && 0 <= id < ast.expressions@.len() && n <= call_arguments(ast, id).len()
{
    if n <= 0 {
        Seq::empty()
    } else {
        render_arguments(ast, id, n - 1, indent) + (if n > 1 {
            separator()
        } else {
            Seq::empty()
        }) + render_expr(ast, call_arguments(ast, id)[n - 1].index as int, indent)
    }
}

/// The lines of the first `n` statements of block `id`, each at nesting
/// depth `indent`.
pub open spec fn render_lines(ast: &Ast, id: int, n: int, indent: nat) -> Seq<char>
    decreases id + 1, 0int, n,
    when ast.well_formed() && 0 <= id < ast.expressions@.len() && n
        <= ast.expressions@[id].kind.block_stmts().len()
{
    if n <= 0 {
        Seq::empty()
    } else {
        render_lines(ast, id, n - 1, indent) + render_line(
            ast,
            ast.expressions@[id].kind.block_stmts()[n - 1].index as int,
            indent,
        )
    }
}

/// The line of statement `id` at nesting depth `indent`: the padding,
/// the statement, the reset marker and a line break.
pub open spec fn render_line(ast: &Ast, id: int, indent: nat) -> Seq<char>
    decreases ast.statements@[id].kind.rank(), 3int, 0int,
    when ast.well_formed() && 0 <= id < ast.statements@.len()
{
    padding(indent) + render_stmt(ast, id, indent) + reset_marker() + newline()
}

/// The text of statement `id`, without what frames its line.
pub open spec fn render_stmt(ast: &Ast, id: int, indent: nat) -> Seq<char>
    decreases ast.statements@[id].kind.rank(), 2int, 0int,
    when ast.well_formed() && 0 <= id < ast.statements@.len()
{
    match ast.statements@[id].kind {
        StmtKind::Expr(expr) => render_expr(ast, expr.index as int, indent),
        StmtKind::Return(ret) => styled(Style::Keyword, "return"@) + match ret.return_value {
            Some(value) => space() + render_expr(ast, value.index as int, indent),
            None => Seq::empty(),
        },
    }
}

/// Formatter state: the text written so far and the current nesting
/// depth.
pub struct ASTPrinter {
    pub indent: usize,
    pub result: String,
}

impl ASTPrinter {
    /// Whether this state is `before` with `text` appended, at the same
    /// nesting depth.
    pub open spec fn appended(&self, before: &ASTPrinter, text: Seq<char>) -> bool {
        &&& self.result@ =~= before.result@ + text
        &&& self.indent == before.indent
    }

    pub fn add_whitespace(&mut self)
        ensures
            final(self).appended(old(self), space()),
    {
        self.result.append(" ")
    }

    pub fn add_newline(&mut self)
        ensures
            final(self).appended(old(self), newline()),
    {
        self.result.append("\n");
    }

    pub fn add_keyword(&mut self, keyword: &str)
        ensures
            final(self).appended(old(self), styled(Style::Keyword, keyword@)),
    {
        self.result.append(Style::Keyword.marker());
        self.result.append(keyword);
    }

    pub fn add_text(&mut self, text: &str)
        ensures
            final(self).appended(old(self), styled(Style::Text, text@)),
    {
        self.result.append(Style::Text.marker());
        self.result.append(text);
    }

    pub fn add_variable(&mut self, variable: &str)
        ensures
            final(self).appended(old(self), styled(Style::Variable, variable@)),
    {
        self.result.append(Style::Variable.marker());
        self.result.append(variable);
    }

    pub fn add_padding(&mut self)
        ensures
            final(self).appended(old(self), padding(old(self).indent as nat)),
    {
        let ghost before = self.result@;
        let mut i: usize = 0;
        while i < self.indent
            invariant
                i <= self.indent,
                self.indent == old(self).indent,
                self.result@ == before + padding(i as nat),
            decreases self.indent - i,
        {
            self.result.append(" ");
            proof {
                reveal_strlit(" ");
                assert(padding(i as nat) + " "@ =~= padding((i + 1) as nat));
            }
            i += 1;
        }
    }

    pub fn add_boolean(&mut self, boolean: bool)
        ensures
            final(self).appended(old(self), styled(Style::Boolean, bool_text(boolean))),
    {
        self.result.append(Style::Boolean.marker());
        self.result.append(if boolean { "true" } else { "false" });
    }

    pub fn add_type(&mut self, type_: &str)
        ensures
            final(self).appended(old(self), styled(Style::Type, type_@)),
    {
        self.result.append(Style::Type.marker());
        self.result.append(type_);
    }

    pub fn add_type_annotation(&mut self, type_annotation: &StaticTypeAnnotation)
        ensures
            final(self).appended(old(self), render_type_annotation(*type_annotation)),
    {
        self.add_text(":");
        self.add_whitespace();
        self.add_type(type_annotation.name.literal.as_str());
    }

    pub fn new() -> (printer: Self)
        ensures
            printer.indent == 0,
            printer.result@ == Seq::<char>::empty(),
    {
        Self { indent: 0, result: String::new() }
    }
}

impl ASTVisitor for ASTPrinter {
    /// The nesting depth stays within `usize` however deep the blocks
    /// below expression `id` nest. It holds at depth zero for every
    /// expression of a tree.
    open spec fn admits_expr(&self, ast: &Ast, id: ExprId) -> bool {
        self.indent + id.index < usize::MAX
    }

    /// The nesting depth stays within `usize` however deep the blocks
    /// below statement `id` nest. It holds at depth zero for every
    /// statement of a well formed tree.
    open spec fn admits_stmt(&self, ast: &Ast, id: StmtId) -> bool {
        self.indent + ast.statements@[id.index as int].kind.rank() <= usize::MAX
    }

    fn visit_func_expr(&mut self, ast: &mut Ast, func_expr: &FuncExpr, expr_id: ExprId)
        ensures
            *final(ast) == *old(ast),
            final(self).appended(
                old(self),
                render_expr(old(ast), expr_id.index as int, old(self).indent as nat),
            ),
        decreases expr_id.index + 1, 0int,
    {
        self.add_keyword("func");
        self.add_whitespace();
        let are_parameters_empty = func_expr.parameters.len() == 0;
        if !are_parameters_empty {
            self.add_text("(");
        } else {
            self.add_whitespace();
        }
        let ghost opened = self.result@;
        let ghost depth = self.indent;
        let mut i: usize = 0;
        while i < func_expr.parameters.len()
            invariant
                i <= func_expr.parameters.len(),
                self.indent == depth,
                self.result@ == opened + render_parameters(func_expr.parameters@, i as int),
            decreases func_expr.parameters.len() - i,
        {
            if i != 0 {
                self.add_text(",");
                self.add_whitespace();
            }
            let parameter = &func_expr.parameters[i];
            self.add_variable(parameter.identifier.literal.as_str());
            self.add_whitespace();
            self.add_type_annotation(&parameter.type_annotation);
            i += 1;
        }
        if !are_parameters_empty {
            self.add_text(")");
            self.add_whitespace();
        }
        self.visit_expression(ast, func_expr.body);
    }

    fn visit_return_statement(
        &mut self,
        ast: &mut Ast,
        return_statement: &ReturnStmt,
        statement: StmtId,
    )
        ensures
            *final(ast) == *old(ast),
            final(self).appended(
                old(self),
                render_stmt(old(ast), statement.index as int, old(self).indent as nat),
            ),
        decreases old(ast).statements@[statement.index as int].kind.rank(), 2int,
    {
        self.add_keyword("return");
        if let Some(expression) = &return_statement.return_value {
            self.add_whitespace();
            self.visit_expression(ast, *expression);
        }
    }

    fn visit_while_statment(&mut self, ast: &mut Ast, while_statement: &WhileExpr, expr: ExprId)
        ensures
            *final(ast) == *old(ast),
            final(self).appended(
                old(self),
                render_expr(old(ast), expr.index as int, old(self).indent as nat),
            ),
        decreases expr.index + 1, 0int,
    {
        self.add_keyword("while");
        self.add_whitespace();
        self.visit_expression(ast, while_statement.condition);
        self.add_whitespace();
        self.visit_expression(ast, while_statement.body);
    }

    fn visit_block_expr(&mut self, ast: &mut Ast, block_statement: &BlockExpr, expr: ExprId)
        ensures
            *final(ast) == *old(ast),
            final(self).appended(
                old(self),
                render_expr(old(ast), expr.index as int, old(self).indent as nat),
            ),
        decreases expr.index + 1, 0int,
    {
        let ghost depth = self.indent;
        self.add_text("{");
        self.add_newline();
        self.indent += 1;
        let ghost opened = self.result@;
        let mut i: usize = 0;
        while i < block_statement.stmts.len()
            invariant
                i <= block_statement.stmts.len(),
                *ast == *old(ast),
                ast.well_formed(),
                ast.has_expr(expr),
                ast.expressions@[expr.index as int].kind.same_payload(
                    ExprKind::Block(*block_statement),
                ),
                depth + expr.index < usize::MAX,
                self.indent == depth + 1,
                self.result@ == opened + render_lines(
                    ast,
                    expr.index as int,
                    i as int,
                    (depth + 1) as nat,
                ),
            decreases block_statement.stmts.len() - i,
        {
            self.visit_statement(ast, block_statement.stmts[i]);
            i += 1;
        }
        self.indent -= 1;
        self.add_padding();
        self.add_text("}");
    }

    fn visit_if_expression(&mut self, ast: &mut Ast, if_statement: &IfExpr, expr: ExprId)
        ensures
            *final(ast) == *old(ast),
            final(self).appended(
                old(self),
                render_expr(old(ast), expr.index as int, old(self).indent as nat),
            ),
        decreases expr.index + 1, 0int,
    {
        self.add_keyword("if");
        self.add_whitespace();
        self.visit_expression(ast, if_statement.condition);
        self.add_whitespace();
        self.visit_expression(ast, if_statement.then_branch);
        if let Some(else_branch) = &if_statement.else_branch {
            self.add_whitespace();
            self.add_keyword("else");
            self.add_whitespace();
            self.visit_expression(ast, *else_branch);
        }
    }

    /// Writes the line of a statement: the padding of the current depth,
    /// the statement, the reset marker and a line break.
    fn visit_statement(&mut self, ast: &mut Ast, statement: StmtId)
        ensures
            *final(ast) == *old(ast),
            final(self).appended(
                old(self),
                render_line(old(ast), statement.index as int, old(self).indent as nat),
            ),
        decreases old(ast).statements@[statement.index as int].kind.rank(), 4int,
    {
        self.add_padding();
        self.do_visit_statement(ast, statement);
        self.result.append(reset().as_str());
        self.result.append("\n");
    }

    /// Writes a statement by its shape, without what frames its line.
    fn do_visit_statement(&mut self, ast: &mut Ast, statement: StmtId)
        ensures
            *final(ast) == *old(ast),
            final(self).appended(
                old(self),
                render_stmt(old(ast), statement.index as int, old(self).indent as nat),
            ),
        decreases old(ast).statements@[statement.index as int].kind.rank(), 3int,
    {
        let kind = ast.query_stmt(statement).kind;
        match &kind {
            StmtKind::Expr(expr) => self.visit_expression(ast, *expr),
            StmtKind::Return(ret) => self.visit_return_statement(ast, ret, statement),
        }
    }

    /// Writes an expression by its shape.
    fn visit_expression(&mut self, ast: &mut Ast, id: ExprId)
        ensures
            *final(ast) == *old(ast),
            final(self).appended(
                old(self),
                render_expr(old(ast), id.index as int, old(self).indent as nat),
            ),
        decreases id.index + 1, 1int,
    {
        let kind = ast.query_expr(id).kind.duplicate();
        match &kind {
            ExprKind::Number(number) => self.visit_number_expression(ast, number, id),
            ExprKind::Boolean(boolean) => self.visit_boolean_expression(ast, boolean, id),
            ExprKind::Variable(variable) => self.visit_variable_expression(ast, variable, id),
            ExprKind::Unary(unary) => self.visit_unary_expression(ast, unary, id),
            ExprKind::Binary(binary) => self.visit_binary_expression(ast, binary, id),
            ExprKind::Parenthesized(inner) => self.visit_parenthesized_expression(ast, inner, id),
            ExprKind::Assignment(assign) => self.visit_assignment_expression(ast, assign, id),
            ExprKind::Call(call) => self.visit_call_expression(ast, call, id),
            ExprKind::Block(block) => self.visit_block_expr(ast, block, id),
            ExprKind::If(branch) => self.visit_if_expression(ast, branch, id),
            ExprKind::While(repeat) => self.visit_while_statment(ast, repeat, id),
            ExprKind::Func(func) => self.visit_func_expr(ast, func, id),
            ExprKind::Rec(rec) => self.visit_rec_expression(ast, rec, id),
            ExprKind::Error(span) => self.visit_error(ast, span),
        }
    }

    /// Writes the self-reference marker. It is not unfolded into the
    /// function it refers to.
    fn visit_rec_expression(&mut self, ast: &mut Ast, expr: &RecExpr, expr_id: ExprId)
        ensures
            *final(ast) == *old(ast),
            final(self).appended(old(self), styled(Style::Keyword, "rec"@)),
    {
        self.add_keyword("rec");
    }

    fn visit_call_expression(&mut self, ast: &mut Ast, call_expression: &CallExpr, expr: ExprId)
        ensures
            *final(ast) == *old(ast),
            final(self).appended(
                old(self),
                render_expr(old(ast), expr.index as int, old(self).indent as nat),
            ),
        decreases expr.index + 1, 0int,
    {
        self.visit_expression(ast, call_expression.callee);
        self.add_text("(");
        let ghost opened = self.result@;
        let ghost depth = self.indent;
        let mut i: usize = 0;
        while i < call_expression.arguments.len()
            invariant
                i <= call_expression.arguments.len(),
                *ast == *old(ast),
                ast.well_formed(),
                ast.has_expr(expr),
                ast.expressions@[expr.index as int].kind.same_payload(
                    ExprKind::Call(*call_expression),
                ),
                depth + expr.index < usize::MAX,
                self.indent == depth,
                self.result@ == opened + render_arguments(
                    ast,
                    expr.index as int,
                    i as int,
                    depth as nat,
                ),
            decreases call_expression.arguments.len() - i,
        {
            if i != 0 {
                self.add_text(",");
                self.add_whitespace();
            }
            self.visit_expression(ast, call_expression.arguments[i]);
            i += 1;
        }
        self.add_text(")");
    }

    fn visit_assignment_expression(
        &mut self,
        ast: &mut Ast,
        assignment_expression: &AssignExpr,
        expr: ExprId,
    )
        ensures
            *final(ast) == *old(ast),
            final(self).appended(
                old(self),
                render_expr(old(ast), expr.index as int, old(self).indent as nat),
            ),
        decreases expr.index + 1, 0int,
    {
        self.add_variable(assignment_expression.identifier.literal.as_str());
        self.add_whitespace();
        self.add_text("=");
        self.add_whitespace();
        self.visit_expression(ast, assignment_expression.expression);
    }

    fn visit_variable_expression(
        &mut self,
        ast: &mut Ast,
        variable_expression: &VarExpr,
        expr: ExprId,
    )
        ensures
            *final(ast) == *old(ast),
            final(self).appended(
                old(self),
                styled(Style::Variable, variable_expression.identifier.literal@),
            ),
    {
        self.add_variable(variable_expression.identifier.literal.as_str());
    }

    fn visit_number_expression(&mut self, ast: &mut Ast, number: &NumberExpr, expr: ExprId)
        ensures
            *final(ast) == *old(ast),
            final(self).appended(
                old(self),
                styled(Style::Number, integer_text(number.number as int)),
            ),
    {
        self.result.append(Style::Number.marker());
        push_integer(&mut self.result, number.number);
    }

    fn visit_boolean_expression(&mut self, ast: &mut Ast, boolean: &BoolExpr, expr: ExprId)
        ensures
            *final(ast) == *old(ast),
            final(self).appended(old(self), styled(Style::Boolean, bool_text(boolean.value))),
    {
        self.add_boolean(boolean.value);
    }

    /// Writes the source text of a span that could not be shaped into an
    /// expression, as plain text.
    fn visit_error(&mut self, ast: &mut Ast, span: &TextSpan)
        ensures
            *final(ast) == *old(ast),
            final(self).appended(old(self), styled(Style::Text, span.literal@)),
    {
        self.add_text(span.literal.as_str());
    }

    fn visit_unary_expression(&mut self, ast: &mut Ast, unary_expression: &UnaryExpr, expr: ExprId)
        ensures
            *final(ast) == *old(ast),
            final(self).appended(
                old(self),
                render_expr(old(ast), expr.index as int, old(self).indent as nat),
            ),
        decreases expr.index + 1, 0int,
    {
        self.add_text(unary_expression.operator.literal.as_str());
        self.visit_expression(ast, unary_expression.operand);
    }

    fn visit_binary_expression(
        &mut self,
        ast: &mut Ast,
        binary_expression: &BinaryExpr,
        expr: ExprId,
    )
        ensures
            *final(ast) == *old(ast),
            final(self).appended(
                old(self),
                render_expr(old(ast), expr.index as int, old(self).indent as nat),
            ),
        decreases expr.index + 1, 0int,
    {
        self.visit_expression(ast, binary_expression.left);
        self.add_whitespace();
        self.add_text(binary_expression.operator.literal.as_str());
        self.add_whitespace();
        self.visit_expression(ast, binary_expression.right);
    }

    fn visit_parenthesized_expression(
        &mut self,
        ast: &mut Ast,
        parenthesized_expression: &ParenthesizedExpr,
        expr: ExprId,
    )
        ensures
            *final(ast) == *old(ast),
            final(self).appended(
                old(self),
                render_expr(old(ast), expr.index as int, old(self).indent as nat),
            ),
        decreases expr.index + 1, 0int,
    {
        self.add_text("(");
        self.visit_expression(ast, parenthesized_expression.expression);
        self.add_text(")");
    }
}

} // verus!
