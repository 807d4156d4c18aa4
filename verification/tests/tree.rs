use syntax_core::ast::printer::ASTPrinter;
use syntax_core::ast::visitor::ASTVisitor;
use syntax_core::ast::{
    Ast, BinaryExpr, BlockExpr, CallExpr, Expr, ExprId, ExprKind, FuncExpr, FuncParameter,
    NumberExpr, ReturnStmt, StaticTypeAnnotation, Stmt, StmtId, StmtKind, UnaryExpr, VarExpr,
};
use syntax_core::text::TextSpan;
use syntax_core::typings::Type;

fn token(text: &str) -> TextSpan {
    TextSpan::new(0, text.len(), text.to_string())
}

fn number(value: i64) -> ExprKind {
    ExprKind::Number(NumberExpr { number: value })
}

#[test]
fn new_tree_is_empty_and_well_formed() {
    let ast = Ast::new();
    assert_eq!(ast.expressions.len(), 0);
    assert_eq!(ast.statements.len(), 0);
    assert!(ast.is_well_formed());
}

#[test]
fn text_span_keeps_what_it_is_given() {
    let span = TextSpan::new(3, 8, "hello".to_string());
    assert_eq!(span.start, 3);
    assert_eq!(span.end, 8);
    assert_eq!(span.literal, "hello");
}

#[test]
fn add_expression_hands_out_keys_in_order() {
    let mut ast = Ast::new();
    assert_eq!(ast.add_expression(number(1)), Some(ExprId { index: 0 }));
    assert_eq!(ast.add_expression(number(2)), Some(ExprId { index: 1 }));
    let sum = ExprKind::Binary(BinaryExpr {
        left: ExprId { index: 0 },
        operator: token("+"),
        right: ExprId { index: 1 },
    });
    assert_eq!(ast.add_expression(sum), Some(ExprId { index: 2 }));
    assert_eq!(ast.expressions.len(), 3);
    assert!(matches!(ast.expressions[2].kind, ExprKind::Binary(_)));
    assert_eq!(ast.expressions[2].ty, Type::Unresolved);
    assert!(ast.is_well_formed());
}

#[test]
fn add_expression_refuses_a_dangling_child() {
    let mut ast = Ast::new();
    let dangling = ExprKind::Unary(UnaryExpr { operator: token("-"), operand: ExprId { index: 0 } });
    assert_eq!(ast.add_expression(dangling), None);
    assert_eq!(ast.expressions.len(), 0);
    ast.add_expression(number(1)).expect("a leaf");
    let ahead = ExprKind::Binary(BinaryExpr {
        left: ExprId { index: 0 },
        operator: token("+"),
        right: ExprId { index: 1 },
    });
    assert_eq!(ast.add_expression(ahead), None);
    assert_eq!(ast.expressions.len(), 1);
    assert!(ast.is_well_formed());
}

#[test]
fn add_expression_refuses_a_dangling_argument_or_statement() {
    let mut ast = Ast::new();
    let callee = ast
        .add_expression(ExprKind::Variable(VarExpr { identifier: token("f") }))
        .expect("a leaf");
    let call = ExprKind::Call(CallExpr { callee, arguments: vec![callee, ExprId { index: 1 }] });
    assert_eq!(ast.add_expression(call), None);
    let block = ExprKind::Block(BlockExpr { stmts: vec![StmtId { index: 0 }] });
    assert_eq!(ast.add_expression(block), None);
    assert_eq!(ast.expressions.len(), 1);
    let statement = ast.add_statement(StmtKind::Expr(callee)).expect("the expression exists");
    let block = ExprKind::Block(BlockExpr { stmts: vec![statement] });
    assert_eq!(ast.add_expression(block), Some(ExprId { index: 1 }));
}

#[test]
fn add_statement_refuses_a_dangling_expression() {
    let mut ast = Ast::new();
    assert_eq!(ast.add_statement(StmtKind::Expr(ExprId { index: 0 })), None);
    let dangling = StmtKind::Return(ReturnStmt { return_value: Some(ExprId { index: 0 }) });
    assert_eq!(ast.add_statement(dangling), None);
    assert_eq!(ast.statements.len(), 0);
    let bare = StmtKind::Return(ReturnStmt { return_value: None });
    assert_eq!(ast.add_statement(bare), Some(StmtId { index: 0 }));
    let value = ast.add_expression(number(7)).expect("a leaf");
    assert_eq!(ast.add_statement(StmtKind::Expr(value)), Some(StmtId { index: 1 }));
    assert!(ast.is_well_formed());
}

#[test]
fn query_finds_the_node_of_a_key() {
    let mut ast = Ast::new();
    let first = ast.add_expression(number(10)).expect("a leaf");
    let second = ast.add_expression(number(20)).expect("a leaf");
    let statement = ast.add_statement(StmtKind::Expr(second)).expect("the expression exists");
    assert!(matches!(ast.query_expr(first).kind, ExprKind::Number(NumberExpr { number: 10 })));
    assert!(matches!(ast.query_expr(second).kind, ExprKind::Number(NumberExpr { number: 20 })));
    assert!(matches!(ast.query_stmt(statement).kind, StmtKind::Expr(ExprId { index: 1 })));
}

#[test]
fn a_node_that_refers_to_itself_is_not_well_formed() {
    let ast = Ast {
        statements: vec![],
        expressions: vec![Expr {
            kind: ExprKind::Unary(UnaryExpr { operator: token("-"), operand: ExprId { index: 0 } }),
            ty: Type::Unresolved,
        }],
    };
    assert!(!ast.is_well_formed());
}

#[test]
fn a_node_that_refers_ahead_is_not_well_formed() {
    let ast = Ast {
        statements: vec![],
        expressions: vec![
            Expr {
                kind: ExprKind::Unary(UnaryExpr {
                    operator: token("-"),
                    operand: ExprId { index: 1 },
                }),
                ty: Type::Unresolved,
            },
            Expr { kind: number(1), ty: Type::Unresolved },
        ],
    };
    assert!(!ast.is_well_formed());
}

#[test]
fn a_block_below_its_own_statement_is_not_well_formed() {
    let ast = Ast {
        statements: vec![Stmt { kind: StmtKind::Expr(ExprId { index: 0 }) }],
        expressions: vec![Expr {
            kind: ExprKind::Block(BlockExpr { stmts: vec![StmtId { index: 0 }] }),
            ty: Type::Unresolved,
        }],
    };
    assert!(!ast.is_well_formed());
}

#[test]
fn a_dangling_statement_is_not_well_formed() {
    let dangling_expression =
        Ast { statements: vec![Stmt { kind: StmtKind::Expr(ExprId { index: 0 }) }], expressions: vec![] };
    assert!(!dangling_expression.is_well_formed());
    let dangling_statement = Ast {
        statements: vec![],
        expressions: vec![Expr {
            kind: ExprKind::Block(BlockExpr { stmts: vec![StmtId { index: 0 }] }),
            ty: Type::Unresolved,
        }],
    };
    assert!(!dangling_statement.is_well_formed());
}

#[test]
fn a_tree_written_by_hand_in_order_is_well_formed() {
    let ast = Ast {
        statements: vec![
            Stmt { kind: StmtKind::Expr(ExprId { index: 0 }) },
            Stmt { kind: StmtKind::Return(ReturnStmt { return_value: None }) },
        ],
        expressions: vec![
            Expr { kind: number(1), ty: Type::Int },
            Expr {
                kind: ExprKind::Block(BlockExpr {
                    stmts: vec![StmtId { index: 0 }, StmtId { index: 1 }],
                }),
                ty: Type::Void,
            },
        ],
    };
    assert!(ast.is_well_formed());
}

#[test]
fn set_type_changes_the_type_and_nothing_else() {
    let mut ast = Ast::new();
    let one = ast.add_expression(number(1)).expect("a leaf");
    let two = ast.add_expression(number(2)).expect("a leaf");
    ast.set_type(one, Type::Int);
    assert_eq!(ast.query_expr(one).ty, Type::Int);
    assert_eq!(ast.query_expr(two).ty, Type::Unresolved);
    assert!(matches!(ast.query_expr(one).kind, ExprKind::Number(NumberExpr { number: 1 })));
    assert_eq!(ast.expressions.len(), 2);
    assert!(ast.is_well_formed());
}

#[test]
fn attached_types_do_not_change_the_text() {
    let mut ast = Ast::new();
    let one = ast.add_expression(number(1)).expect("a leaf");
    let two = ast.add_expression(number(2)).expect("a leaf");
    let sum = ast
        .add_expression(ExprKind::Binary(BinaryExpr { left: one, operator: token("+"), right: two }))
        .expect("the operands exist");
    let mut before = ASTPrinter::new();
    before.visit_expression(&mut ast, sum);
    ast.set_type(one, Type::Int);
    ast.set_type(two, Type::Error);
    ast.set_type(sum, Type::Function(syntax_core::typings::FunctionIdx { index: 9 }));
    let mut after = ASTPrinter::new();
    after.visit_expression(&mut ast, sum);
    assert_eq!(before.result, after.result);
}

#[test]
fn formatting_leaves_the_tree_as_it_was() {
    let mut ast = Ast::new();
    let one = ast.add_expression(number(1)).expect("a leaf");
    let line = ast.add_statement(StmtKind::Expr(one)).expect("the expression exists");
    let body = ast
        .add_expression(ExprKind::Block(BlockExpr { stmts: vec![line] }))
        .expect("the statement exists");
    ast.set_type(one, Type::Int);
    let mut printer = ASTPrinter::new();
    printer.visit_expression(&mut ast, body);
    assert_eq!(ast.expressions.len(), 2);
    assert_eq!(ast.statements.len(), 1);
    assert_eq!(ast.query_expr(one).ty, Type::Int);
    assert_eq!(ast.query_expr(body).ty, Type::Unresolved);
    assert!(matches!(ast.query_expr(one).kind, ExprKind::Number(NumberExpr { number: 1 })));
    assert!(matches!(&ast.query_expr(body).kind, ExprKind::Block(block) if block.stmts == vec![line]));
    assert!(matches!(ast.query_stmt(line).kind, StmtKind::Expr(ExprId { index: 0 })));
}

#[test]
fn duplicate_holds_what_the_shape_holds() {
    let span = TextSpan::new(2, 5, "abc".to_string());
    let copy = span.duplicate();
    assert_eq!((copy.start, copy.end, copy.literal.as_str()), (2, 5, "abc"));
    let call = ExprKind::Call(CallExpr {
        callee: ExprId { index: 4 },
        arguments: vec![ExprId { index: 1 }, ExprId { index: 3 }],
    });
    match call.duplicate() {
        ExprKind::Call(copy) => {
            assert_eq!(copy.callee, ExprId { index: 4 });
            assert_eq!(copy.arguments, vec![ExprId { index: 1 }, ExprId { index: 3 }]);
        }
        other => panic!("{:?}", other),
    }
    let func = ExprKind::Func(FuncExpr {
        parameters: vec![
            FuncParameter {
                identifier: token("a"),
                type_annotation: StaticTypeAnnotation { name: token("int"), ty: Type::Int },
            },
            FuncParameter {
                identifier: token("b"),
                type_annotation: StaticTypeAnnotation { name: token("T"), ty: Type::Error },
            },
        ],
        body: ExprId { index: 7 },
    });
    match func.duplicate() {
        ExprKind::Func(copy) => {
            assert_eq!(copy.body, ExprId { index: 7 });
            assert_eq!(copy.parameters.len(), 2);
            assert_eq!(copy.parameters[0].identifier.literal, "a");
            assert_eq!(copy.parameters[0].type_annotation.name.literal, "int");
            assert_eq!(copy.parameters[0].type_annotation.ty, Type::Int);
            assert_eq!(copy.parameters[1].identifier.literal, "b");
            assert_eq!(copy.parameters[1].type_annotation.name.literal, "T");
            assert_eq!(copy.parameters[1].type_annotation.ty, Type::Error);
        }
        other => panic!("{:?}", other),
    }
    let unary = ExprKind::Unary(UnaryExpr { operator: token("!"), operand: ExprId { index: 2 } });
    match unary.duplicate() {
        ExprKind::Unary(copy) => {
            assert_eq!(copy.operator.literal, "!");
            assert_eq!(copy.operand, ExprId { index: 2 });
        }
        other => panic!("{:?}", other),
    }
}
