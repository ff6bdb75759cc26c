//! What the SQL texts of a syntax node are.
//!
//! A marker call is a call whose callee is the bare identifier that the
//! module binds to the marker, with exactly one argument. Where that argument
//! is a string literal, its text is an SQL text; where it is a template,
//! plain or tagged, each static chunk is one. Every function here gives the
//! SQL texts below one kind of node, in the order of the source text. No
//! node that can hold an expression is passed over.

use vstd::prelude::*;
use crate::ast::{
    BlockStmtOrExpr, Callee, Class, ClassMember, Decl, DefaultDecl, Expr, ForHead, Function, Lit,
    Module, ModuleDecl, ModuleItem, ObjectPatProp, OptChainBase, Param, Pat, PatOrExpr, Prop,
    PropOrSpread, Stmt, SwitchCase, Tpl, VarDeclOrExpr, VarDeclarator,
};

verus! {

/// Whether a call of `callee` with `args` is a marker call under `alias`.
pub open spec fn is_marker_call(callee: Callee, args: Seq<Expr>, alias: Seq<char>) -> bool {
    &&& callee matches Callee::Expr(target)
    &&& *target matches Expr::Ident(name)
    &&& name@ == alias
    &&& args.len() == 1
}

/// The number of positions of a template: a chunk and the expression after
/// it share one.
pub open spec fn tpl_slots(tpl: Tpl) -> nat {
    if tpl.quasis@.len() >= tpl.exprs@.len() {
        tpl.quasis@.len()
    } else {
        tpl.exprs@.len()
    }
}

/// The SQL texts of the first `n` positions of a template. The chunks count
/// only where `capture` is set; the interpolated expressions always do.
pub open spec fn tpl_sqls(tpl: Tpl, capture: bool, n: nat, alias: Seq<char>) -> Seq<Seq<char>>
    decreases tpl, n,
{
    if n == 0 || n > tpl_slots(tpl) {
        Seq::empty()
    } else {
        let k = n - 1;
        tpl_sqls(tpl, capture, k as nat, alias) + (if capture && k < tpl.quasis@.len() {
            seq![tpl.quasis@[k]@]
        } else {
            Seq::empty()
        }) + (if k < tpl.exprs@.len() {
            expr_sqls(tpl.exprs@[k], alias)
        } else {
            Seq::empty()
        })
    }
}

/// The SQL texts of the single argument of a marker call.
pub open spec fn marker_arg_sqls(arg: Expr, alias: Seq<char>) -> Seq<Seq<char>>
    decreases arg, 1nat,
{
    match arg {
        Expr::Lit(Lit::Str(text)) => seq![text@],
        Expr::Tpl(tpl) => tpl_sqls(tpl, true, tpl_slots(tpl), alias),
        Expr::TaggedTpl { tag, tpl } => expr_sqls(*tag, alias) + tpl_sqls(
            tpl,
            true,
            tpl_slots(tpl),
            alias,
        ),
        _ => expr_sqls(arg, alias),
    }
}

/// The SQL texts of the first `n` expressions of `exprs`.
pub open spec fn exprs_sqls(exprs: Seq<Expr>, n: nat, alias: Seq<char>) -> Seq<Seq<char>>
    decreases exprs, n,
{
    if n == 0 || n > exprs.len() {
        Seq::empty()
    } else {
        exprs_sqls(exprs, (n - 1) as nat, alias) + expr_sqls(exprs[n - 1], alias)
    }
}

/// The SQL texts of an expression that may be absent.
pub open spec fn opt_expr_sqls(expr: Option<Expr>, alias: Seq<char>) -> Seq<Seq<char>>
    decreases expr,
{
    match expr {
        Some(e) => expr_sqls(e, alias),
        None => Seq::empty(),
    }
}

/// The SQL texts of a boxed expression that may be absent.
pub open spec fn boxed_expr_sqls(expr: Option<Box<Expr>>, alias: Seq<char>) -> Seq<Seq<char>>
    decreases expr,
{
    match expr {
        Some(e) => expr_sqls(*e, alias),
        None => Seq::empty(),
    }
}

/// The SQL texts of the first `n` entries of `exprs`; a hole has none.
pub open spec fn opt_exprs_sqls(exprs: Seq<Option<Expr>>, n: nat, alias: Seq<char>) -> Seq<
    Seq<char>,
>
    decreases exprs, n,
{
    if n == 0 || n > exprs.len() {
        Seq::empty()
    } else {
        opt_exprs_sqls(exprs, (n - 1) as nat, alias) + opt_expr_sqls(exprs[n - 1], alias)
    }
}

/// The SQL texts of what a call expression calls.
pub open spec fn callee_sqls(callee: Callee, alias: Seq<char>) -> Seq<Seq<char>>
    decreases callee,
{
    match callee {
        Callee::Expr(target) => expr_sqls(*target, alias),
        Callee::Super => Seq::empty(),
        Callee::Import => Seq::empty(),
    }
}

/// The SQL texts of the base of an optional chain.
pub open spec fn opt_chain_sqls(base: OptChainBase, alias: Seq<char>) -> Seq<Seq<char>>
    decreases base,
{
    match base {
        OptChainBase::Member { obj, computed } => expr_sqls(*obj, alias) + boxed_expr_sqls(
            computed,
            alias,
        ),
        OptChainBase::Call { callee, args } => expr_sqls(*callee, alias) + exprs_sqls(
            args@,
            args@.len(),
            alias,
        ),
    }
}

/// The SQL texts of an expression.
pub open spec fn expr_sqls(expr: Expr, alias: Seq<char>) -> Seq<Seq<char>>
    decreases expr, 0nat,
{
    match expr {
        Expr::This => Seq::empty(),
        Expr::Array(elems) => opt_exprs_sqls(elems@, elems@.len(), alias),
        Expr::Object(props) => props_sqls(props@, props@.len(), alias),
        Expr::Fn(function) => function_sqls(*function, alias),
        Expr::Unary(arg) => expr_sqls(*arg, alias),
        Expr::Update(arg) => expr_sqls(*arg, alias),
        Expr::Bin { left, right } => expr_sqls(*left, alias) + expr_sqls(*right, alias),
        Expr::Assign { left, right } => (match left {
            PatOrExpr::Expr(target) => expr_sqls(*target, alias),
            PatOrExpr::Pat(target) => pat_sqls(*target, alias),
        }) + expr_sqls(*right, alias),
        Expr::Member { obj, computed } => expr_sqls(*obj, alias) + boxed_expr_sqls(
            computed,
            alias,
        ),
        Expr::SuperProp { computed } => boxed_expr_sqls(computed, alias),
        Expr::Cond { test, cons, alt } => expr_sqls(*test, alias) + expr_sqls(*cons, alias)
            + expr_sqls(*alt, alias),
        Expr::Call { callee, args } => callee_sqls(callee, alias) + (if is_marker_call(
            callee,
            args@,
            alias,
        ) {
            marker_arg_sqls(args@[0], alias)
        } else {
            exprs_sqls(args@, args@.len(), alias)
        }),
        Expr::New { callee, args } => expr_sqls(*callee, alias) + (match args {
            Some(list) => exprs_sqls(list@, list@.len(), alias),
            None => Seq::empty(),
        }),
        Expr::Sequence(exprs) => exprs_sqls(exprs@, exprs@.len(), alias),
        Expr::Ident(_) => Seq::empty(),
        Expr::Lit(_) => Seq::empty(),
        Expr::Tpl(tpl) => tpl_sqls(tpl, false, tpl_slots(tpl), alias),
        Expr::TaggedTpl { tag, tpl } => expr_sqls(*tag, alias) + tpl_sqls(
            tpl,
            false,
            tpl_slots(tpl),
            alias,
        ),
        Expr::Arrow { params, body } => pats_sqls(params@, params@.len(), alias) + (match body {
            BlockStmtOrExpr::BlockStmt(stmts) => stmts_sqls(stmts@, stmts@.len(), alias),
            BlockStmtOrExpr::Expr(value) => expr_sqls(*value, alias),
        }),
        Expr::Class(class) => class_sqls(*class, alias),
        Expr::Yield(arg) => boxed_expr_sqls(arg, alias),
        Expr::MetaProp => Seq::empty(),
        Expr::Await(arg) => expr_sqls(*arg, alias),
        Expr::Paren(inner) => expr_sqls(*inner, alias),
        Expr::JSXMember => Seq::empty(),
        Expr::JSXNamespacedName => Seq::empty(),
        Expr::JSXEmpty => Seq::empty(),
        Expr::JSXElement => Seq::empty(),
        Expr::JSXFragment => Seq::empty(),
        Expr::TsTypeAssertion(inner) => expr_sqls(*inner, alias),
        Expr::TsConstAssertion(inner) => expr_sqls(*inner, alias),
        Expr::TsNonNull(inner) => expr_sqls(*inner, alias),
        Expr::TsAs(inner) => expr_sqls(*inner, alias),
        Expr::TsInstantiation(inner) => expr_sqls(*inner, alias),
        Expr::TsSatisfies(inner) => expr_sqls(*inner, alias),
        Expr::PrivateName => Seq::empty(),
        Expr::OptChain(base) => opt_chain_sqls(base, alias),
        Expr::Invalid => Seq::empty(),
    }
}

/// The SQL texts of one entry of an object literal. A method gives those of
/// its decorators, its key, its parameters and its body, in this order.
pub open spec fn prop_sqls(prop: PropOrSpread, alias: Seq<char>) -> Seq<Seq<char>>
    decreases prop,
{
    match prop {
        PropOrSpread::Spread(value) => expr_sqls(value, alias),
        PropOrSpread::Prop(Prop::Shorthand) => Seq::empty(),
        PropOrSpread::Prop(Prop::KeyValue { key, value }) => opt_expr_sqls(key, alias)
            + expr_sqls(value, alias),
        PropOrSpread::Prop(Prop::Assign { value }) => expr_sqls(value, alias),
        PropOrSpread::Prop(Prop::Getter { key, body }) => opt_expr_sqls(key, alias)
            + opt_block_sqls(body, alias),
        PropOrSpread::Prop(Prop::Setter { key, param, body }) => opt_expr_sqls(key, alias)
            + pat_sqls(param, alias) + opt_block_sqls(body, alias),
        PropOrSpread::Prop(Prop::Method { key, function }) => exprs_sqls(
            function.decorators@,
            function.decorators@.len(),
            alias,
        ) + opt_expr_sqls(key, alias) + params_sqls(
            function.params@,
            function.params@.len(),
            alias,
        ) + opt_block_sqls(function.body, alias),
    }
}

/// The SQL texts of the first `n` entries of an object literal.
pub open spec fn props_sqls(props: Seq<PropOrSpread>, n: nat, alias: Seq<char>) -> Seq<
    Seq<char>,
>
    decreases props, n,
{
    if n == 0 || n > props.len() {
        Seq::empty()
    } else {
        props_sqls(props, (n - 1) as nat, alias) + prop_sqls(props[n - 1], alias)
    }
}

/// The SQL texts of a binding pattern.
pub open spec fn pat_sqls(pat: Pat, alias: Seq<char>) -> Seq<Seq<char>>
    decreases pat,
{
    match pat {
        Pat::Ident(_) => Seq::empty(),
        Pat::Array(elems) => opt_pats_sqls(elems@, elems@.len(), alias),
        Pat::Rest(arg) => pat_sqls(*arg, alias),
        Pat::Object(props) => object_pat_props_sqls(props@, props@.len(), alias),
        Pat::Assign { left, right } => pat_sqls(*left, alias) + expr_sqls(*right, alias),
        Pat::Invalid => Seq::empty(),
        Pat::Expr(target) => expr_sqls(*target, alias),
    }
}

/// The SQL texts of the first `n` patterns of `pats`.
pub open spec fn pats_sqls(pats: Seq<Pat>, n: nat, alias: Seq<char>) -> Seq<Seq<char>>
    decreases pats, n,
{
    if n == 0 || n > pats.len() {
        Seq::empty()
    } else {
        pats_sqls(pats, (n - 1) as nat, alias) + pat_sqls(pats[n - 1], alias)
    }
}

/// The SQL texts of the first `n` entries of an array pattern; a hole has
/// none.
pub open spec fn opt_pats_sqls(pats: Seq<Option<Pat>>, n: nat, alias: Seq<char>) -> Seq<
    Seq<char>,
>
    decreases pats, n,
{
    if n == 0 || n > pats.len() {
        Seq::empty()
    } else {
        opt_pats_sqls(pats, (n - 1) as nat, alias) + (match pats[n - 1] {
            Some(pat) => pat_sqls(pat, alias),
            None => Seq::empty(),
        })
    }
}

/// The SQL texts of one property of an object pattern.
pub open spec fn object_pat_prop_sqls(prop: ObjectPatProp, alias: Seq<char>) -> Seq<Seq<char>>
    decreases prop,
{
    match prop {
        ObjectPatProp::KeyValue { key, value } => opt_expr_sqls(key, alias) + pat_sqls(
            value,
            alias,
        ),
        ObjectPatProp::Assign { value } => opt_expr_sqls(value, alias),
        ObjectPatProp::Rest(arg) => pat_sqls(arg, alias),
    }
}

/// The SQL texts of the first `n` properties of an object pattern.
pub open spec fn object_pat_props_sqls(props: Seq<ObjectPatProp>, n: nat, alias: Seq<char>) -> Seq<
    Seq<char>,
>
    decreases props, n,
{
    if n == 0 || n > props.len() {
        Seq::empty()
    } else {
        object_pat_props_sqls(props, (n - 1) as nat, alias) + object_pat_prop_sqls(
            props[n - 1],
            alias,
        )
    }
}

/// The SQL texts of one parameter: its decorators, then its pattern.
pub open spec fn param_sqls(param: Param, alias: Seq<char>) -> Seq<Seq<char>>
    decreases param,
{
    exprs_sqls(param.decorators@, param.decorators@.len(), alias) + pat_sqls(param.pat, alias)
}

/// The SQL texts of the first `n` parameters of `params`.
pub open spec fn params_sqls(params: Seq<Param>, n: nat, alias: Seq<char>) -> Seq<Seq<char>>
    decreases params, n,
{
    if n == 0 || n > params.len() {
        Seq::empty()
    } else {
        params_sqls(params, (n - 1) as nat, alias) + param_sqls(params[n - 1], alias)
    }
}

/// The SQL texts of a function: its decorators, parameters and body.
pub open spec fn function_sqls(function: Function, alias: Seq<char>) -> Seq<Seq<char>>
    decreases function,
{
    exprs_sqls(function.decorators@, function.decorators@.len(), alias) + params_sqls(
        function.params@,
        function.params@.len(),
        alias,
    ) + opt_block_sqls(function.body, alias)
}

/// The SQL texts of a class: its decorators, its superclass, its members.
pub open spec fn class_sqls(class: Class, alias: Seq<char>) -> Seq<Seq<char>>
    decreases class,
{
    exprs_sqls(class.decorators@, class.decorators@.len(), alias) + boxed_expr_sqls(
        class.super_class,
        alias,
    ) + members_sqls(class.body@, class.body@.len(), alias)
}

/// The SQL texts of one member of a class body. A method gives those of its
/// decorators, its key, its parameters and its body, in this order.
pub open spec fn member_sqls(member: ClassMember, alias: Seq<char>) -> Seq<Seq<char>>
    decreases member,
{
    match member {
        ClassMember::Constructor { params, body } => params_sqls(params@, params@.len(), alias)
            + opt_block_sqls(body, alias),
        ClassMember::Method { key, function } => exprs_sqls(
            function.decorators@,
            function.decorators@.len(),
            alias,
        ) + opt_expr_sqls(key, alias) + params_sqls(
            function.params@,
            function.params@.len(),
            alias,
        ) + opt_block_sqls(function.body, alias),
        ClassMember::PrivateMethod { function } => function_sqls(function, alias),
        ClassMember::ClassProp { decorators, key, value } => exprs_sqls(
            decorators@,
            decorators@.len(),
            alias,
        ) + opt_expr_sqls(key, alias) + opt_expr_sqls(value, alias),
        ClassMember::PrivateProp { decorators, value } => exprs_sqls(
            decorators@,
            decorators@.len(),
            alias,
        ) + opt_expr_sqls(value, alias),
        ClassMember::TsIndexSignature => Seq::empty(),
        ClassMember::Empty => Seq::empty(),
        ClassMember::StaticBlock(stmts) => stmts_sqls(stmts@, stmts@.len(), alias),
        ClassMember::AutoAccessor { decorators, key, value } => exprs_sqls(
            decorators@,
            decorators@.len(),
            alias,
        ) + opt_expr_sqls(key, alias) + opt_expr_sqls(value, alias),
    }
}

/// The SQL texts of the first `n` members of a class body.
pub open spec fn members_sqls(members: Seq<ClassMember>, n: nat, alias: Seq<char>) -> Seq<
    Seq<char>,
>
    decreases members, n,
{
    if n == 0 || n > members.len() {
        Seq::empty()
    } else {
        members_sqls(members, (n - 1) as nat, alias) + member_sqls(members[n - 1], alias)
    }
}

/// The SQL texts of one declarator: its pattern, then its initialiser.
pub open spec fn declarator_sqls(declarator: VarDeclarator, alias: Seq<char>) -> Seq<Seq<char>>
    decreases declarator,
{
    pat_sqls(declarator.name, alias) + opt_expr_sqls(declarator.init, alias)
}

/// The SQL texts of the first `n` declarators of `declarators`.
pub open spec fn declarators_sqls(
    declarators: Seq<VarDeclarator>,
    n: nat,
    alias: Seq<char>,
) -> Seq<Seq<char>>
    decreases declarators, n,
{
    if n == 0 || n > declarators.len() {
        Seq::empty()
    } else {
        declarators_sqls(declarators, (n - 1) as nat, alias) + declarator_sqls(
            declarators[n - 1],
            alias,
        )
    }
}

/// The SQL texts of a declaration.
pub open spec fn decl_sqls(decl: Decl, alias: Seq<char>) -> Seq<Seq<char>>
    decreases decl,
{
    match decl {
        Decl::Class(class_decl) => class_sqls(class_decl.class, alias),
        Decl::Fn(function) => function_sqls(function, alias),
        Decl::Var(declarators) => declarators_sqls(declarators@, declarators@.len(), alias),
        Decl::Using(declarators) => declarators_sqls(declarators@, declarators@.len(), alias),
        Decl::TsInterface => Seq::empty(),
        Decl::TsTypeAlias => Seq::empty(),
        Decl::TsEnum(inits) => opt_exprs_sqls(inits@, inits@.len(), alias),
        Decl::TsModule(items) => items_sqls(items@, items@.len(), alias),
    }
}

/// The SQL texts of a block that may be absent.
pub open spec fn opt_block_sqls(block: Option<Vec<Stmt>>, alias: Seq<char>) -> Seq<Seq<char>>
    decreases block,
{
    match block {
        Some(stmts) => stmts_sqls(stmts@, stmts@.len(), alias),
        None => Seq::empty(),
    }
}

/// The SQL texts of the first `n` statements of `stmts`.
pub open spec fn stmts_sqls(stmts: Seq<Stmt>, n: nat, alias: Seq<char>) -> Seq<Seq<char>>
    decreases stmts, n,
{
    if n == 0 || n > stmts.len() {
        Seq::empty()
    } else {
        stmts_sqls(stmts, (n - 1) as nat, alias) + stmt_sqls(stmts[n - 1], alias)
    }
}

/// The SQL texts of one arm of a `switch`: its test, then its statements.
pub open spec fn case_sqls(case: SwitchCase, alias: Seq<char>) -> Seq<Seq<char>>
    decreases case,
{
    opt_expr_sqls(case.test, alias) + stmts_sqls(case.cons@, case.cons@.len(), alias)
}

/// The SQL texts of the first `n` arms of a `switch`.
pub open spec fn cases_sqls(cases: Seq<SwitchCase>, n: nat, alias: Seq<char>) -> Seq<Seq<char>>
    decreases cases, n,
{
    if n == 0 || n > cases.len() {
        Seq::empty()
    } else {
        cases_sqls(cases, (n - 1) as nat, alias) + case_sqls(cases[n - 1], alias)
    }
}

/// The SQL texts of the head of a `for .. in` or `for .. of` loop.
pub open spec fn for_head_sqls(head: ForHead, alias: Seq<char>) -> Seq<Seq<char>>
    decreases head,
{
    match head {
        ForHead::VarDecl(declarators) => declarators_sqls(declarators@, declarators@.len(), alias),
        ForHead::UsingDecl(declarators) => declarators_sqls(
            declarators@,
            declarators@.len(),
            alias,
        ),
        ForHead::Pat(pat) => pat_sqls(pat, alias),
    }
}

/// The SQL texts of a statement.
pub open spec fn stmt_sqls(stmt: Stmt, alias: Seq<char>) -> Seq<Seq<char>>
    decreases stmt,
{
    match stmt {
        Stmt::Block(stmts) => stmts_sqls(stmts@, stmts@.len(), alias),
        Stmt::Empty => Seq::empty(),
        Stmt::Debugger => Seq::empty(),
        Stmt::With { obj, body } => expr_sqls(obj, alias) + stmt_sqls(*body, alias),
        Stmt::Return(arg) => opt_expr_sqls(arg, alias),
        Stmt::Labeled(body) => stmt_sqls(*body, alias),
        Stmt::Break => Seq::empty(),
        Stmt::Continue => Seq::empty(),
        Stmt::If { test, cons, alt } => expr_sqls(test, alias) + stmt_sqls(*cons, alias)
            + (match alt {
            Some(other) => stmt_sqls(*other, alias),
            None => Seq::empty(),
        }),
        Stmt::Switch { discriminant, cases } => expr_sqls(discriminant, alias) + cases_sqls(
            cases@,
            cases@.len(),
            alias,
        ),
        Stmt::Throw(arg) => expr_sqls(arg, alias),
        Stmt::Try { block, handler, finalizer } => stmts_sqls(block@, block@.len(), alias)
            + (match handler {
            Some(clause) => (match clause.param {
                Some(pat) => pat_sqls(pat, alias),
                None => Seq::empty(),
            }) + stmts_sqls(clause.body@, clause.body@.len(), alias),
            None => Seq::empty(),
        }) + opt_block_sqls(finalizer, alias),
        Stmt::While { test, body } => expr_sqls(test, alias) + stmt_sqls(*body, alias),
        Stmt::DoWhile { body, test } => stmt_sqls(*body, alias) + expr_sqls(test, alias),
        Stmt::For { init, test, update, body } => (match init {
            Some(VarDeclOrExpr::VarDecl(declarators)) => declarators_sqls(
                declarators@,
                declarators@.len(),
                alias,
            ),
            Some(VarDeclOrExpr::Expr(first)) => expr_sqls(first, alias),
            None => Seq::empty(),
        }) + opt_expr_sqls(test, alias) + opt_expr_sqls(update, alias) + stmt_sqls(*body, alias),
        Stmt::ForIn { left, right, body } => for_head_sqls(left, alias) + expr_sqls(right, alias)
            + stmt_sqls(*body, alias),
        Stmt::ForOf { left, right, body } => for_head_sqls(left, alias) + expr_sqls(right, alias)
            + stmt_sqls(*body, alias),
        Stmt::Decl(decl) => decl_sqls(decl, alias),
        Stmt::Expr(expr) => expr_sqls(expr, alias),
    }
}

/// The SQL texts of what `export default` declares.
pub open spec fn default_decl_sqls(decl: DefaultDecl, alias: Seq<char>) -> Seq<Seq<char>>
    decreases decl,
{
    match decl {
        DefaultDecl::Class(class) => class_sqls(class, alias),
        DefaultDecl::Fn(function) => function_sqls(function, alias),
        DefaultDecl::TsInterfaceDecl => Seq::empty(),
    }
}

/// The SQL texts of one item of a module or a namespace block.
pub open spec fn item_sqls(item: ModuleItem, alias: Seq<char>) -> Seq<Seq<char>>
    decreases item,
{
    match item {
        ModuleItem::Stmt(stmt) => stmt_sqls(stmt, alias),
        ModuleItem::ModuleDecl(ModuleDecl::Import(_)) => Seq::empty(),
        ModuleItem::ModuleDecl(ModuleDecl::ExportDecl(decl)) => decl_sqls(decl, alias),
        ModuleItem::ModuleDecl(ModuleDecl::ExportNamed) => Seq::empty(),
        ModuleItem::ModuleDecl(ModuleDecl::ExportDefaultDecl(decl)) => default_decl_sqls(
            decl,
            alias,
        ),
        ModuleItem::ModuleDecl(ModuleDecl::ExportDefaultExpr(expr)) => expr_sqls(expr, alias),
        ModuleItem::ModuleDecl(ModuleDecl::ExportAll) => Seq::empty(),
        ModuleItem::ModuleDecl(ModuleDecl::TsImportEquals) => Seq::empty(),
        ModuleItem::ModuleDecl(ModuleDecl::TsExportAssignment(expr)) => expr_sqls(expr, alias),
        ModuleItem::ModuleDecl(ModuleDecl::TsNamespaceExport) => Seq::empty(),
    }
}

/// The SQL texts of the first `n` items of `items`.
pub open spec fn items_sqls(items: Seq<ModuleItem>, n: nat, alias: Seq<char>) -> Seq<Seq<char>>
    decreases items, n,
{
    if n == 0 || n > items.len() {
        Seq::empty()
    } else {
        items_sqls(items, (n - 1) as nat, alias) + item_sqls(items[n - 1], alias)
    }
}

/// The SQL texts of a module, in the order of the source text.
pub open spec fn module_sqls(module: Module, alias: Seq<char>) -> Seq<Seq<char>> {
    items_sqls(module.body@, module.body@.len(), alias)
}

} // verus!
