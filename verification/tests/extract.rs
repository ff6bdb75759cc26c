use ts_sqlx::ast::{
    BlockStmtOrExpr, Callee, CatchClause, Class, ClassDecl, ClassMember, Decl, DefaultDecl, Expr,
    ForHead, Function, ImportDecl, ImportSpecifier, Lit, Module, ModuleDecl, ModuleExportName,
    ModuleItem, ObjectPatProp, OptChainBase, Param, Pat, PatOrExpr, Prop, PropOrSpread, Stmt,
    SwitchCase, Tpl, VarDeclOrExpr, VarDeclarator,
};
use ts_sqlx::parse_source::{
    find_sqlx_import_alias, get_sql_from_expr, get_sql_from_var_decl, get_var_decl_name,
    parse_source, process_block_stmt_as_expr, process_class_decl, process_decl,
    process_default_decl, recurse_and_find_sql, SqlOccurrence,
};

fn ident(name: &str) -> Expr {
    Expr::Ident(name.to_string())
}

fn text(value: &str) -> Expr {
    Expr::Lit(Lit::Str(value.to_string()))
}

fn call(name: &str, args: Vec<Expr>) -> Expr {
    Expr::Call { callee: Callee::Expr(Box::new(ident(name))), args }
}

fn marker(sql: &str) -> Expr {
    call("sqlx", vec![text(sql)])
}

fn template(quasis: &[&str], exprs: Vec<Expr>) -> Tpl {
    Tpl { quasis: quasis.iter().map(|q| q.to_string()).collect(), exprs }
}

fn function(body: Vec<Stmt>) -> Function {
    Function { decorators: vec![], params: vec![], body: Some(body) }
}

fn module(stmts: Vec<Stmt>) -> Module {
    Module { body: stmts.into_iter().map(ModuleItem::Stmt).collect() }
}

fn queries(module: &Module) -> Vec<String> {
    parse_source(module).into_iter().map(|o| o.query).collect()
}

fn of_expr(expr: &Expr) -> Vec<String> {
    let mut sqls = Vec::new();
    get_sql_from_expr(&mut sqls, expr, &"sqlx".to_string());
    sqls
}

fn of_stmt(stmt: &Stmt) -> Vec<String> {
    let mut sqls = Vec::new();
    recurse_and_find_sql(&mut sqls, stmt, &"sqlx".to_string());
    sqls
}

#[test]
fn string_literal_argument_is_one_occurrence() {
    let m = module(vec![Stmt::Expr(marker("SELECT 1"))]);
    assert_eq!(
        parse_source(&m),
        vec![SqlOccurrence { query: "SELECT 1".to_string(), database: None, index: 0 }]
    );
}

#[test]
fn extracting_twice_gives_the_same_list() {
    let m = module(vec![
        Stmt::Expr(marker("a")),
        Stmt::If {
            test: marker("b"),
            cons: Box::new(Stmt::Expr(marker("c"))),
            alt: Some(Box::new(Stmt::Expr(marker("d")))),
        },
    ]);
    let first = parse_source(&m);
    let second = parse_source(&m);
    assert_eq!(first, second);
    assert_eq!(queries(&m), vec!["a", "b", "c", "d"]);
    assert_eq!(first.iter().map(|o| o.index).collect::<Vec<_>>(), vec![0, 1, 2, 3]);
    assert!(first.iter().all(|o| o.database.is_none()));
}

#[test]
fn marker_call_three_levels_deep_is_found() {
    let innermost = Stmt::Try {
        block: vec![Stmt::Expr(marker("SELECT deep"))],
        handler: None,
        finalizer: None,
    };
    let looped = Stmt::While { test: ident("going"), body: Box::new(Stmt::Block(vec![innermost])) };
    let conditional = Stmt::If { test: ident("ready"), cons: Box::new(looped), alt: None };
    assert_eq!(queries(&module(vec![conditional])), vec!["SELECT deep"]);
}

#[test]
fn every_branch_of_a_conditional_and_a_try_is_searched() {
    let stmt = Stmt::If {
        test: marker("test"),
        cons: Box::new(Stmt::Empty),
        alt: Some(Box::new(Stmt::Try {
            block: vec![Stmt::Expr(marker("block"))],
            handler: Some(CatchClause {
                param: Some(Pat::Assign {
                    left: Box::new(Pat::Ident("e".to_string())),
                    right: Box::new(marker("param")),
                }),
                body: vec![Stmt::Expr(marker("handler"))],
            }),
            finalizer: Some(vec![Stmt::Expr(marker("finalizer"))]),
        })),
    };
    assert_eq!(of_stmt(&stmt), vec!["test", "block", "param", "handler", "finalizer"]);
}

#[test]
fn template_argument_gives_one_occurrence_for_each_chunk() {
    let arg = Expr::Tpl(template(&["select ", " from t"], vec![ident("x")]));
    assert_eq!(of_expr(&call("sqlx", vec![arg])), vec!["select ", " from t"]);
}

#[test]
fn tagged_template_argument_is_split_and_its_interpolations_are_searched() {
    let arg = Expr::TaggedTpl {
        tag: Box::new(ident("sql")),
        tpl: template(&["select ", " from t"], vec![marker("nested")]),
    };
    assert_eq!(of_expr(&call("sqlx", vec![arg])), vec!["select ", "nested", " from t"]);
}

#[test]
fn tagged_template_outside_a_marker_call_gives_only_what_is_nested() {
    let tagged = Expr::TaggedTpl {
        tag: Box::new(ident("sqlx")),
        tpl: template(&["select ", " from t"], vec![marker("inner")]),
    };
    assert_eq!(of_expr(&tagged), vec!["inner"]);
    let plain = Expr::Tpl(template(&["a", "b"], vec![marker("in template")]));
    assert_eq!(of_expr(&plain), vec!["in template"]);
}

#[test]
fn a_call_is_a_marker_call_only_with_the_alias_and_one_argument() {
    assert_eq!(of_expr(&call("other", vec![text("x")])), Vec::<String>::new());
    assert_eq!(of_expr(&call("sqlx", vec![text("x"), text("y")])), Vec::<String>::new());
    assert_eq!(of_expr(&call("sqlx", vec![])), Vec::<String>::new());
    assert_eq!(of_expr(&call("sqlx", vec![ident("x")])), Vec::<String>::new());
    let member_callee = Expr::Call {
        callee: Callee::Expr(Box::new(Expr::Member {
            obj: Box::new(ident("db")),
            computed: None,
        })),
        args: vec![text("x")],
    };
    assert_eq!(of_expr(&member_callee), Vec::<String>::new());
    let super_call = Expr::Call { callee: Callee::Super, args: vec![marker("in super")] };
    assert_eq!(of_expr(&super_call), vec!["in super"]);
}

#[test]
fn marker_calls_nest_in_the_arguments_of_other_calls() {
    let outer = call("run", vec![marker("first"), call("wrap", vec![marker("second")])]);
    assert_eq!(of_expr(&outer), vec!["first", "second"]);
    let in_marker = call("sqlx", vec![call("pick", vec![marker("inside")])]);
    assert_eq!(of_expr(&in_marker), vec!["inside"]);
}

#[test]
fn expressions_are_searched_in_source_order() {
    let assign = Expr::Assign {
        left: PatOrExpr::Expr(Box::new(Expr::Member {
            obj: Box::new(marker("target")),
            computed: Some(Box::new(marker("key"))),
        })),
        right: Box::new(marker("value")),
    };
    assert_eq!(of_expr(&assign), vec!["target", "key", "value"]);
    let created = Expr::New { callee: Box::new(marker("callee")), args: Some(vec![marker("arg")]) };
    assert_eq!(of_expr(&created), vec!["callee", "arg"]);
    let arrow = Expr::Arrow {
        params: vec![Pat::Assign {
            left: Box::new(Pat::Ident("p".to_string())),
            right: Box::new(marker("default")),
        }],
        body: BlockStmtOrExpr::Expr(Box::new(marker("body"))),
    };
    assert_eq!(of_expr(&arrow), vec!["default", "body"]);
    let cond = Expr::Cond {
        test: Box::new(marker("t")),
        cons: Box::new(marker("c")),
        alt: Box::new(marker("a")),
    };
    assert_eq!(of_expr(&cond), vec!["t", "c", "a"]);
}

#[test]
fn every_expression_form_that_holds_an_expression_is_searched() {
    let forms: Vec<Expr> = vec![
        Expr::Array(vec![None, Some(marker("q"))]),
        Expr::Object(vec![PropOrSpread::Spread(marker("q"))]),
        Expr::Object(vec![PropOrSpread::Prop(Prop::KeyValue { key: None, value: marker("q") })]),
        Expr::Object(vec![PropOrSpread::Prop(Prop::KeyValue {
            key: Some(marker("q")),
            value: ident("v"),
        })]),
        Expr::Object(vec![PropOrSpread::Prop(Prop::Assign { value: marker("q") })]),
        Expr::Object(vec![PropOrSpread::Prop(Prop::Getter {
            key: None,
            body: Some(vec![Stmt::Return(Some(marker("q")))]),
        })]),
        Expr::Object(vec![PropOrSpread::Prop(Prop::Setter {
            key: None,
            param: Pat::Ident("v".to_string()),
            body: Some(vec![Stmt::Expr(marker("q"))]),
        })]),
        Expr::Object(vec![PropOrSpread::Prop(Prop::Method {
            key: None,
            function: function(vec![Stmt::Expr(marker("q"))]),
        })]),
        Expr::Fn(Box::new(function(vec![Stmt::Expr(marker("q"))]))),
        Expr::Unary(Box::new(marker("q"))),
        Expr::Update(Box::new(marker("q"))),
        Expr::Bin { left: Box::new(ident("a")), right: Box::new(marker("q")) },
        Expr::Member { obj: Box::new(marker("q")), computed: None },
        Expr::SuperProp { computed: Some(Box::new(marker("q"))) },
        Expr::Sequence(vec![ident("a"), marker("q")]),
        Expr::Arrow {
            params: vec![],
            body: BlockStmtOrExpr::BlockStmt(vec![Stmt::Expr(marker("q"))]),
        },
        Expr::Class(Box::new(Class {
            decorators: vec![],
            super_class: Some(Box::new(marker("q"))),
            body: vec![],
        })),
        Expr::Yield(Some(Box::new(marker("q")))),
        Expr::Await(Box::new(marker("q"))),
        Expr::Paren(Box::new(marker("q"))),
        Expr::TsTypeAssertion(Box::new(marker("q"))),
        Expr::TsConstAssertion(Box::new(marker("q"))),
        Expr::TsNonNull(Box::new(marker("q"))),
        Expr::TsAs(Box::new(marker("q"))),
        Expr::TsInstantiation(Box::new(marker("q"))),
        Expr::TsSatisfies(Box::new(marker("q"))),
        Expr::OptChain(OptChainBase::Member { obj: Box::new(marker("q")), computed: None }),
        Expr::OptChain(OptChainBase::Call { callee: Box::new(ident("f")), args: vec![marker("q")] }),
    ];
    for form in &forms {
        assert_eq!(of_expr(form), vec!["q"], "{:?}", form);
    }
}

#[test]
fn nodes_that_hold_no_expression_give_nothing() {
    let leaves: Vec<Expr> = vec![
        Expr::This,
        ident("sqlx"),
        text("SELECT 1"),
        Expr::Lit(Lit::Num),
        Expr::MetaProp,
        Expr::JSXMember,
        Expr::JSXNamespacedName,
        Expr::JSXEmpty,
        Expr::JSXElement,
        Expr::JSXFragment,
        Expr::PrivateName,
        Expr::Invalid,
        Expr::Yield(None),
    ];
    for leaf in &leaves {
        assert_eq!(of_expr(leaf), Vec::<String>::new(), "{:?}", leaf);
    }
}

#[test]
fn every_statement_form_is_searched() {
    let body = || Box::new(Stmt::Expr(marker("body")));
    let declared = || vec![VarDeclarator { name: Pat::Ident("v".to_string()), init: Some(marker("init")) }];
    assert_eq!(of_stmt(&Stmt::With { obj: marker("obj"), body: body() }), vec!["obj", "body"]);
    assert_eq!(of_stmt(&Stmt::Return(Some(marker("r")))), vec!["r"]);
    assert_eq!(of_stmt(&Stmt::Return(None)), Vec::<String>::new());
    assert_eq!(of_stmt(&Stmt::Labeled(body())), vec!["body"]);
    assert_eq!(of_stmt(&Stmt::Throw(marker("t"))), vec!["t"]);
    assert_eq!(of_stmt(&Stmt::While { test: marker("test"), body: body() }), vec!["test", "body"]);
    assert_eq!(of_stmt(&Stmt::DoWhile { body: body(), test: marker("test") }), vec!["body", "test"]);
    assert_eq!(
        of_stmt(&Stmt::For {
            init: Some(VarDeclOrExpr::VarDecl(declared())),
            test: Some(marker("test")),
            update: Some(marker("update")),
            body: body(),
        }),
        vec!["init", "test", "update", "body"]
    );
    assert_eq!(
        of_stmt(&Stmt::For {
            init: Some(VarDeclOrExpr::Expr(marker("first"))),
            test: None,
            update: None,
            body: body(),
        }),
        vec!["first", "body"]
    );
    assert_eq!(
        of_stmt(&Stmt::ForIn { left: ForHead::VarDecl(declared()), right: marker("right"), body: body() }),
        vec!["init", "right", "body"]
    );
    assert_eq!(
        of_stmt(&Stmt::ForOf {
            left: ForHead::Pat(Pat::Expr(Box::new(marker("pat")))),
            right: marker("right"),
            body: body(),
        }),
        vec!["pat", "right", "body"]
    );
    assert_eq!(
        of_stmt(&Stmt::Switch {
            discriminant: marker("on"),
            cases: vec![
                SwitchCase { test: Some(marker("case")), cons: vec![Stmt::Expr(marker("then"))] },
                SwitchCase { test: None, cons: vec![Stmt::Expr(marker("default"))] },
            ],
        }),
        vec!["on", "case", "then", "default"]
    );
    for empty in [Stmt::Empty, Stmt::Debugger, Stmt::Break, Stmt::Continue] {
        assert_eq!(of_stmt(&empty), Vec::<String>::new());
    }
}

#[test]
fn every_declaration_form_is_searched() {
    let alias = "sqlx".to_string();
    let of_decl = |decl: &Decl| {
        let mut sqls = vec!["kept".to_string()];
        process_decl(&mut sqls, decl, &alias);
        sqls
    };
    let declared = vec![
        VarDeclarator { name: Pat::Ident("a".to_string()), init: Some(marker("plain")) },
        VarDeclarator {
            name: Pat::Object(vec![ObjectPatProp::Assign { value: Some(marker("default")) }]),
            init: Some(marker("destructured")),
        },
        VarDeclarator { name: Pat::Ident("b".to_string()), init: None },
    ];
    assert_eq!(of_decl(&Decl::Var(declared)), vec!["kept", "plain", "default", "destructured"]);
    assert_eq!(
        of_decl(&Decl::Using(vec![VarDeclarator {
            name: Pat::Ident("u".to_string()),
            init: Some(marker("using")),
        }])),
        vec!["kept", "using"]
    );
    assert_eq!(of_decl(&Decl::Fn(function(vec![Stmt::Expr(marker("fn"))]))), vec!["kept", "fn"]);
    assert_eq!(of_decl(&Decl::TsEnum(vec![None, Some(marker("member"))])), vec!["kept", "member"]);
    assert_eq!(
        of_decl(&Decl::TsModule(vec![
            ModuleItem::Stmt(Stmt::Expr(marker("in namespace"))),
            ModuleItem::ModuleDecl(ModuleDecl::ExportDecl(Decl::Fn(function(vec![Stmt::Expr(
                marker("exported")
            )])))),
        ])),
        vec!["kept", "in namespace", "exported"]
    );
    assert_eq!(of_decl(&Decl::TsInterface), vec!["kept"]);
    assert_eq!(of_decl(&Decl::TsTypeAlias), vec!["kept"]);
}

#[test]
fn every_class_member_form_is_searched() {
    let class = Class {
        decorators: vec![marker("class decorator")],
        super_class: Some(Box::new(marker("super"))),
        body: vec![
            ClassMember::Constructor {
                params: vec![Param {
                    decorators: vec![marker("param decorator")],
                    pat: Pat::Assign {
                        left: Box::new(Pat::Ident("p".to_string())),
                        right: Box::new(marker("param default")),
                    },
                }],
                body: Some(vec![Stmt::Expr(marker("constructor"))]),
            },
            ClassMember::Method {
                key: Some(marker("method key")),
                function: Function {
                    decorators: vec![marker("method decorator")],
                    params: vec![],
                    body: Some(vec![Stmt::Expr(marker("method"))]),
                },
            },
            ClassMember::PrivateMethod { function: function(vec![Stmt::Expr(marker("private method"))]) },
            ClassMember::ClassProp {
                decorators: vec![marker("prop decorator")],
                key: None,
                value: Some(marker("prop")),
            },
            ClassMember::PrivateProp { decorators: vec![], value: Some(marker("private prop")) },
            ClassMember::TsIndexSignature,
            ClassMember::Empty,
            ClassMember::StaticBlock(vec![Stmt::Expr(marker("static"))]),
            ClassMember::AutoAccessor { decorators: vec![], key: None, value: Some(marker("accessor")) },
        ],
    };
    let expected = vec![
        "class decorator",
        "super",
        "param decorator",
        "param default",
        "constructor",
        "method decorator",
        "method key",
        "method",
        "private method",
        "prop decorator",
        "prop",
        "private prop",
        "static",
        "accessor",
    ];
    let alias = "sqlx".to_string();
    let mut sqls = Vec::new();
    process_class_decl(&mut sqls, &ClassDecl { class: class }, &alias);
    assert_eq!(sqls, expected);
}

#[test]
fn exports_are_searched_and_imports_are_not() {
    let m = Module {
        body: vec![
            ModuleItem::ModuleDecl(ModuleDecl::Import(ImportDecl {
                src: "other".to_string(),
                specifiers: vec![],
            })),
            ModuleItem::ModuleDecl(ModuleDecl::ExportDecl(Decl::Var(vec![VarDeclarator {
                name: Pat::Ident("q".to_string()),
                init: Some(marker("export decl")),
            }]))),
            ModuleItem::ModuleDecl(ModuleDecl::ExportNamed),
            ModuleItem::ModuleDecl(ModuleDecl::ExportDefaultDecl(DefaultDecl::Fn(function(vec![
                Stmt::Expr(marker("default fn")),
            ])))),
            ModuleItem::ModuleDecl(ModuleDecl::ExportDefaultExpr(marker("default expr"))),
            ModuleItem::ModuleDecl(ModuleDecl::ExportAll),
            ModuleItem::ModuleDecl(ModuleDecl::TsImportEquals),
            ModuleItem::ModuleDecl(ModuleDecl::TsExportAssignment(marker("export assignment"))),
            ModuleItem::ModuleDecl(ModuleDecl::TsNamespaceExport),
        ],
    };
    assert_eq!(
        queries(&m),
        vec!["export decl", "default fn", "default expr", "export assignment"]
    );
}

#[test]
fn default_declarations_are_searched() {
    let alias = "sqlx".to_string();
    let mut sqls = Vec::new();
    let class = Class {
        decorators: vec![],
        super_class: None,
        body: vec![ClassMember::StaticBlock(vec![Stmt::Expr(marker("in class"))])],
    };
    process_default_decl(&mut sqls, &DefaultDecl::Class(class), &alias);
    process_default_decl(&mut sqls, &DefaultDecl::TsInterfaceDecl, &alias);
    assert_eq!(sqls, vec!["in class"]);
}

#[test]
fn an_import_under_another_name_changes_the_marker() {
    let import = ImportDecl {
        src: "ts-sqlx".to_string(),
        specifiers: vec![ImportSpecifier::Named {
            local: "q".to_string(),
            imported: Some(ModuleExportName::Ident("sqlx".to_string())),
        }],
    };
    assert_eq!(find_sqlx_import_alias(&import, "ts-sqlx", "sqlx"), Some("q".to_string()));
    let m = Module {
        body: vec![
            ModuleItem::ModuleDecl(ModuleDecl::Import(import)),
            ModuleItem::Stmt(Stmt::Expr(call("q", vec![text("through alias")]))),
            ModuleItem::Stmt(Stmt::Expr(marker("through old name"))),
        ],
    };
    assert_eq!(queries(&m), vec!["through alias"]);
}

#[test]
fn the_alias_comes_from_the_first_matching_import() {
    let named = |local: &str, imported: Option<ModuleExportName>| ImportSpecifier::Named {
        local: local.to_string(),
        imported,
    };
    let plain = ImportDecl { src: "ts-sqlx".to_string(), specifiers: vec![named("sqlx", None)] };
    assert_eq!(find_sqlx_import_alias(&plain, "ts-sqlx", "sqlx"), Some("sqlx".to_string()));
    let other_package = ImportDecl { src: "elsewhere".to_string(), specifiers: vec![named("sqlx", None)] };
    assert_eq!(find_sqlx_import_alias(&other_package, "ts-sqlx", "sqlx"), None);
    let unrelated = ImportDecl {
        src: "ts-sqlx".to_string(),
        specifiers: vec![
            ImportSpecifier::Default { local: "sqlx".to_string() },
            ImportSpecifier::Namespace { local: "sqlx".to_string() },
            named("other", None),
            named("x", Some(ModuleExportName::Str("sqlx".to_string()))),
            named("y", Some(ModuleExportName::Ident("other".to_string()))),
        ],
    };
    assert_eq!(find_sqlx_import_alias(&unrelated, "ts-sqlx", "sqlx"), None);
    let two = ImportDecl {
        src: "ts-sqlx".to_string(),
        specifiers: vec![
            named("first", Some(ModuleExportName::Ident("sqlx".to_string()))),
            named("second", Some(ModuleExportName::Ident("sqlx".to_string()))),
        ],
    };
    assert_eq!(find_sqlx_import_alias(&two, "ts-sqlx", "sqlx"), Some("first".to_string()));
}

#[test]
fn an_import_nested_in_a_namespace_does_not_change_the_marker() {
    let import = ImportDecl {
        src: "ts-sqlx".to_string(),
        specifiers: vec![ImportSpecifier::Named {
            local: "q".to_string(),
            imported: Some(ModuleExportName::Ident("sqlx".to_string())),
        }],
    };
    let m = Module {
        body: vec![ModuleItem::Stmt(Stmt::Decl(Decl::TsModule(vec![
            ModuleItem::ModuleDecl(ModuleDecl::Import(import)),
            ModuleItem::Stmt(Stmt::Expr(marker("default name"))),
            ModuleItem::Stmt(Stmt::Expr(call("q", vec![text("nested alias")]))),
        ])))],
    };
    assert_eq!(queries(&m), vec!["default name"]);
}

#[test]
fn declarator_helpers_read_the_plain_identifier() {
    let alias = "sqlx".to_string();
    let plain = VarDeclarator { name: Pat::Ident("rows".to_string()), init: Some(marker("SELECT 1")) };
    assert_eq!(get_var_decl_name(&plain), Some("rows".to_string()));
    assert_eq!(get_sql_from_var_decl(&plain, &alias), vec!["SELECT 1"]);
    let destructured = VarDeclarator { name: Pat::Array(vec![]), init: Some(marker("SELECT 1")) };
    assert_eq!(get_var_decl_name(&destructured), None);
    assert_eq!(get_sql_from_var_decl(&destructured, &alias), Vec::<String>::new());
    for pat in [
        Pat::Rest(Box::new(Pat::Invalid)),
        Pat::Object(vec![]),
        Pat::Invalid,
        Pat::Expr(Box::new(ident("x"))),
    ] {
        assert_eq!(get_var_decl_name(&VarDeclarator { name: pat, init: None }), None);
    }
}

#[test]
fn a_missing_body_gives_nothing_and_what_was_found_before_stays() {
    let alias = "sqlx".to_string();
    let mut sqls = vec!["before".to_string()];
    process_block_stmt_as_expr(&None, &mut sqls, &alias);
    assert_eq!(sqls, vec!["before"]);
    process_block_stmt_as_expr(&Some(vec![Stmt::Expr(marker("after"))]), &mut sqls, &alias);
    assert_eq!(sqls, vec!["before", "after"]);
}

#[test]
fn a_template_with_uneven_parts_is_searched_to_its_end() {
    let more_exprs = Expr::Tpl(template(&["a"], vec![marker("first"), marker("second")]));
    assert_eq!(of_expr(&call("sqlx", vec![more_exprs])), vec!["a", "first", "second"]);
    let more_chunks = Expr::Tpl(template(&["a", "b", "c"], vec![marker("only")]));
    assert_eq!(of_expr(&call("sqlx", vec![more_chunks])), vec!["a", "only", "b", "c"]);
    let empty = Expr::Tpl(template(&[], vec![]));
    assert_eq!(of_expr(&call("sqlx", vec![empty])), Vec::<String>::new());
    let no_interpolation = Expr::Tpl(template(&["SELECT 1"], vec![]));
    assert_eq!(of_expr(&call("sqlx", vec![no_interpolation])), vec!["SELECT 1"]);
}
