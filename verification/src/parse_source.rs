//! The search of a parsed module for SQL texts.
//!
//! Each function appends to `sqls` the SQL texts that stand below one node,
//! in the order of the source text, and leaves what `sqls` held before in
//! place. None of them fails.

use vstd::prelude::*;
use crate::ast::{
    BlockStmtOrExpr, Callee, Class, ClassDecl, ClassMember, Decl, DefaultDecl, Expr, ForHead,
    Function, ImportDecl, ImportSpecifier, Lit, Module, ModuleDecl, ModuleExportName,
    ModuleItem, ObjectPatProp, OptChainBase, Param, Pat, PatOrExpr, Prop, PropOrSpread, Stmt,
    SwitchCase, Tpl, VarDeclarator, VarDeclOrExpr,
};
use crate::text::{lemma_texts_add, lemma_texts_push, texts};
use crate::sql_texts::{
    boxed_expr_sqls, callee_sqls, case_sqls, cases_sqls, class_sqls, decl_sqls,
    declarator_sqls, declarators_sqls, default_decl_sqls, expr_sqls, exprs_sqls, for_head_sqls,
    function_sqls, is_marker_call, item_sqls, items_sqls, marker_arg_sqls, member_sqls,
    members_sqls, module_sqls, object_pat_prop_sqls, object_pat_props_sqls, opt_block_sqls,
    opt_chain_sqls, opt_expr_sqls, opt_exprs_sqls, opt_pats_sqls, param_sqls, params_sqls,
    pat_sqls, pats_sqls, prop_sqls, props_sqls, stmt_sqls, stmts_sqls, tpl_slots, tpl_sqls,
};

verus! {

/// The name that a declarator binds, where its pattern is a plain
/// identifier.
pub open spec fn var_decl_name(declarator: VarDeclarator) -> Option<Seq<char>> {
    match declarator.name {
        Pat::Ident(name) => Some(name@),
        _ => None,
    }
}

/// The name that a declarator binds, where its pattern is a plain
/// identifier.
pub fn get_var_decl_name(var_declarator: &VarDeclarator) -> (name: Option<String>)
    ensures
        match name {
            Some(n) => var_decl_name(*var_declarator) == Some(n@),
            None => var_decl_name(*var_declarator) is None,
        },
{
    match &var_declarator.name {
        Pat::Ident(name) => Some(name.clone()),
        Pat::Array(_) => None,
        Pat::Rest(_) => None,
        Pat::Object(_) => None,
        Pat::Assign { .. } => None,
        Pat::Invalid => None,
        Pat::Expr(_) => None,
    }
}

fn marker_call(callee: &Callee, args: &Vec<Expr>, import_alias: &String) -> (found: bool)
    ensures
        found == is_marker_call(*callee, args@, import_alias@),
{
    match callee {
        Callee::Expr(target) => match &**target {
            Expr::Ident(name) => *name == *import_alias && args.len() == 1,
            _ => false,
        },
        Callee::Super => false,
        Callee::Import => false,
    }
}

fn walk_exprs(sqls: &mut Vec<String>, exprs: &Vec<Expr>, import_alias: &String)
    ensures
        texts(final(sqls)@) == texts(old(sqls)@) + exprs_sqls(
            exprs@,
            exprs@.len(),
            import_alias@,
        ),
    decreases exprs,
{
    let mut i: usize = 0;
    while i < exprs.len()
        invariant
            i <= exprs.len(),
            texts(sqls@) == texts(old(sqls)@) + exprs_sqls(exprs@, i as nat, import_alias@),
        decreases exprs.len() - i,
    {
        get_sql_from_expr(sqls, &exprs[i], import_alias);
        i += 1;
    }
}

fn walk_opt_expr(sqls: &mut Vec<String>, expr: &Option<Expr>, import_alias: &String)
    ensures
        texts(final(sqls)@) == texts(old(sqls)@) + opt_expr_sqls(*expr, import_alias@),
    decreases expr,
{
    match expr {
        Some(e) => get_sql_from_expr(sqls, e, import_alias),
        None => {},
    }
}

fn walk_boxed_expr(sqls: &mut Vec<String>, expr: &Option<Box<Expr>>, import_alias: &String)
    ensures
        texts(final(sqls)@) == texts(old(sqls)@) + boxed_expr_sqls(*expr, import_alias@),
    decreases expr,
{
    match expr {
        Some(e) => get_sql_from_expr(sqls, e, import_alias),
        None => {},
    }
}

fn walk_opt_exprs(sqls: &mut Vec<String>, exprs: &Vec<Option<Expr>>, import_alias: &String)
    ensures
        texts(final(sqls)@) == texts(old(sqls)@) + opt_exprs_sqls(
            exprs@,
            exprs@.len(),
            import_alias@,
        ),
    decreases exprs,
{
    let mut i: usize = 0;
    while i < exprs.len()
        invariant
            i <= exprs.len(),
            texts(sqls@) == texts(old(sqls)@) + opt_exprs_sqls(exprs@, i as nat, import_alias@),
        decreases exprs.len() - i,
    {
        walk_opt_expr(sqls, &exprs[i], import_alias);
        i += 1;
    }
}

fn walk_tpl(sqls: &mut Vec<String>, tpl: &Tpl, capture: bool, import_alias: &String)
    ensures
        texts(final(sqls)@) == texts(old(sqls)@) + tpl_sqls(
            *tpl,
            capture,
            tpl_slots(*tpl),
            import_alias@,
        ),
    decreases tpl,
{
    let slots = if tpl.quasis.len() >= tpl.exprs.len() {
        tpl.quasis.len()
    } else {
        tpl.exprs.len()
    };
    let mut k: usize = 0;
    while k < slots
        invariant
            k <= slots,
            slots == tpl_slots(*tpl),
            texts(sqls@) == texts(old(sqls)@) + tpl_sqls(*tpl, capture, k as nat, import_alias@),
        decreases slots - k,
    {
        if capture && k < tpl.quasis.len() {
            proof {
                lemma_texts_push(sqls@, tpl.quasis@[k as int]);
            }
            sqls.push(tpl.quasis[k].clone());
        }
        if k < tpl.exprs.len() {
            get_sql_from_expr(sqls, &tpl.exprs[k], import_alias);
        }
        k += 1;
    }
}

fn walk_marker_arg(sqls: &mut Vec<String>, arg: &Expr, import_alias: &String)
    ensures
        texts(final(sqls)@) == texts(old(sqls)@) + marker_arg_sqls(*arg, import_alias@),
    decreases arg, 1nat,
{
    match arg {
        Expr::Lit(Lit::Str(text)) => {
            proof {
                lemma_texts_push(sqls@, *text);
            }
            sqls.push(text.clone());
        },
        Expr::Tpl(tpl) => walk_tpl(sqls, tpl, true, import_alias),
        Expr::TaggedTpl { tag, tpl } => {
            get_sql_from_expr(sqls, tag, import_alias);
            walk_tpl(sqls, tpl, true, import_alias);
        },
        _ => get_sql_from_expr(sqls, arg, import_alias),
    }
}

fn walk_callee(sqls: &mut Vec<String>, callee: &Callee, import_alias: &String)
    ensures
        texts(final(sqls)@) == texts(old(sqls)@) + callee_sqls(*callee, import_alias@),
    decreases callee,
{
    match callee {
        Callee::Expr(target) => get_sql_from_expr(sqls, target, import_alias),
        Callee::Super => {},
        Callee::Import => {},
    }
}

fn walk_opt_chain(sqls: &mut Vec<String>, base: &OptChainBase, import_alias: &String)
    ensures
        texts(final(sqls)@) == texts(old(sqls)@) + opt_chain_sqls(*base, import_alias@),
    decreases base,
{
    match base {
        OptChainBase::Member { obj, computed } => {
            get_sql_from_expr(sqls, obj, import_alias);
            walk_boxed_expr(sqls, computed, import_alias);
        },
        OptChainBase::Call { callee, args } => {
            get_sql_from_expr(sqls, callee, import_alias);
            walk_exprs(sqls, args, import_alias);
        },
    }
}

/// Appends the SQL texts of an expression: for each marker call below it
/// the text or the chunks of its argument, found in every place where an
/// expression can stand.
pub fn get_sql_from_expr(sqls: &mut Vec<String>, expr: &Expr, import_alias: &String)
    ensures
        texts(final(sqls)@) == texts(old(sqls)@) + expr_sqls(*expr, import_alias@),
    decreases expr, 0nat,
{
    match expr {
        Expr::This => {},
        Expr::Array(elems) => walk_opt_exprs(sqls, elems, import_alias),
        Expr::Object(props) => walk_props(sqls, props, import_alias),
        Expr::Fn(function) => walk_function(sqls, function, import_alias),
        Expr::Unary(arg) => get_sql_from_expr(sqls, arg, import_alias),
        Expr::Update(arg) => get_sql_from_expr(sqls, arg, import_alias),
        Expr::Bin { left, right } => {
            get_sql_from_expr(sqls, left, import_alias);
            get_sql_from_expr(sqls, right, import_alias);
        },
        Expr::Assign { left, right } => {
            match left {
                PatOrExpr::Expr(target) => get_sql_from_expr(sqls, target, import_alias),
                PatOrExpr::Pat(target) => walk_pat(sqls, target, import_alias),
            }
            get_sql_from_expr(sqls, right, import_alias);
        },
        Expr::Member { obj, computed } => {
            get_sql_from_expr(sqls, obj, import_alias);
            walk_boxed_expr(sqls, computed, import_alias);
        },
        Expr::SuperProp { computed } => walk_boxed_expr(sqls, computed, import_alias),
        Expr::Cond { test, cons, alt } => {
            get_sql_from_expr(sqls, test, import_alias);
            get_sql_from_expr(sqls, cons, import_alias);
            get_sql_from_expr(sqls, alt, import_alias);
        },
        Expr::Call { callee, args } => {
            walk_callee(sqls, callee, import_alias);
            if marker_call(callee, args, import_alias) {
                walk_marker_arg(sqls, &args[0], import_alias);
            } else {
                walk_exprs(sqls, args, import_alias);
            }
        },
        Expr::New { callee, args } => {
            get_sql_from_expr(sqls, callee, import_alias);
            match args {
                Some(list) => walk_exprs(sqls, list, import_alias),
                None => {},
            }
        },
        Expr::Sequence(exprs) => walk_exprs(sqls, exprs, import_alias),
        Expr::Ident(_) => {},
        Expr::Lit(_) => {},
        Expr::Tpl(tpl) => walk_tpl(sqls, tpl, false, import_alias),
        Expr::TaggedTpl { tag, tpl } => {
            get_sql_from_expr(sqls, tag, import_alias);
            walk_tpl(sqls, tpl, false, import_alias);
        },
        Expr::Arrow { params, body } => {
            walk_pats(sqls, params, import_alias);
            match body {
                BlockStmtOrExpr::BlockStmt(stmts) => walk_stmts(sqls, stmts, import_alias),
                BlockStmtOrExpr::Expr(value) => get_sql_from_expr(sqls, value, import_alias),
            }
        },
        Expr::Class(class) => walk_class(sqls, class, import_alias),
        Expr::Yield(arg) => walk_boxed_expr(sqls, arg, import_alias),
        Expr::MetaProp => {},
        Expr::Await(arg) => get_sql_from_expr(sqls, arg, import_alias),
        Expr::Paren(inner) => get_sql_from_expr(sqls, inner, import_alias),
        Expr::JSXMember => {},
        Expr::JSXNamespacedName => {},
        Expr::JSXEmpty => {},
        Expr::JSXElement => {},
        Expr::JSXFragment => {},
        Expr::TsTypeAssertion(inner) => get_sql_from_expr(sqls, inner, import_alias),
        Expr::TsConstAssertion(inner) => get_sql_from_expr(sqls, inner, import_alias),
        Expr::TsNonNull(inner) => get_sql_from_expr(sqls, inner, import_alias),
        Expr::TsAs(inner) => get_sql_from_expr(sqls, inner, import_alias),
        Expr::TsInstantiation(inner) => get_sql_from_expr(sqls, inner, import_alias),
        Expr::TsSatisfies(inner) => get_sql_from_expr(sqls, inner, import_alias),
        Expr::PrivateName => {},
        Expr::OptChain(base) => walk_opt_chain(sqls, base, import_alias),
        Expr::Invalid => {},
    }
}

fn walk_prop(sqls: &mut Vec<String>, prop: &PropOrSpread, import_alias: &String)
    ensures
        texts(final(sqls)@) == texts(old(sqls)@) + prop_sqls(*prop, import_alias@),
    decreases prop,
{
    match prop {
        PropOrSpread::Spread(value) => get_sql_from_expr(sqls, value, import_alias),
        PropOrSpread::Prop(Prop::Shorthand) => {},
        PropOrSpread::Prop(Prop::KeyValue { key, value }) => {
            walk_opt_expr(sqls, key, import_alias);
            get_sql_from_expr(sqls, value, import_alias);
        },
        PropOrSpread::Prop(Prop::Assign { value }) => get_sql_from_expr(
            sqls,
            value,
            import_alias,
        ),
        PropOrSpread::Prop(Prop::Getter { key, body }) => {
            walk_opt_expr(sqls, key, import_alias);
            process_block_stmt_as_expr(body, sqls, import_alias);
        },
        PropOrSpread::Prop(Prop::Setter { key, param, body }) => {
            walk_opt_expr(sqls, key, import_alias);
            walk_pat(sqls, param, import_alias);
            process_block_stmt_as_expr(body, sqls, import_alias);
        },
        PropOrSpread::Prop(Prop::Method { key, function }) => {
            walk_exprs(sqls, &function.decorators, import_alias);
            walk_opt_expr(sqls, key, import_alias);
            walk_params(sqls, &function.params, import_alias);
            process_block_stmt_as_expr(&function.body, sqls, import_alias);
        },
    }
}

fn walk_props(sqls: &mut Vec<String>, props: &Vec<PropOrSpread>, import_alias: &String)
    ensures
        texts(final(sqls)@) == texts(old(sqls)@) + props_sqls(
            props@,
            props@.len(),
            import_alias@,
        ),
    decreases props,
{
    let mut i: usize = 0;
    while i < props.len()
        invariant
            i <= props.len(),
            texts(sqls@) == texts(old(sqls)@) + props_sqls(props@, i as nat, import_alias@),
        decreases props.len() - i,
    {
        walk_prop(sqls, &props[i], import_alias);
        i += 1;
    }
}

fn walk_pat(sqls: &mut Vec<String>, pat: &Pat, import_alias: &String)
    ensures
        texts(final(sqls)@) == texts(old(sqls)@) + pat_sqls(*pat, import_alias@),
    decreases pat,
{
    match pat {
        Pat::Ident(_) => {},
        Pat::Array(elems) => walk_opt_pats(sqls, elems, import_alias),
        Pat::Rest(arg) => walk_pat(sqls, arg, import_alias),
        Pat::Object(props) => walk_object_pat_props(sqls, props, import_alias),
        Pat::Assign { left, right } => {
            walk_pat(sqls, left, import_alias);
            get_sql_from_expr(sqls, right, import_alias);
        },
        Pat::Invalid => {},
        Pat::Expr(target) => get_sql_from_expr(sqls, target, import_alias),
    }
}

fn walk_pats(sqls: &mut Vec<String>, pats: &Vec<Pat>, import_alias: &String)
    ensures
        texts(final(sqls)@) == texts(old(sqls)@) + pats_sqls(pats@, pats@.len(), import_alias@),
    decreases pats,
{
    let mut i: usize = 0;
    while i < pats.len()
        invariant
            i <= pats.len(),
            texts(sqls@) == texts(old(sqls)@) + pats_sqls(pats@, i as nat, import_alias@),
        decreases pats.len() - i,
    {
        walk_pat(sqls, &pats[i], import_alias);
        i += 1;
    }
}

fn walk_opt_pats(sqls: &mut Vec<String>, pats: &Vec<Option<Pat>>, import_alias: &String)
    ensures
        texts(final(sqls)@) == texts(old(sqls)@) + opt_pats_sqls(
            pats@,
            pats@.len(),
            import_alias@,
        ),
    decreases pats,
{
    let mut i: usize = 0;
    while i < pats.len()
        invariant
            i <= pats.len(),
            texts(sqls@) == texts(old(sqls)@) + opt_pats_sqls(pats@, i as nat, import_alias@),
        decreases pats.len() - i,
    {
        match &pats[i] {
            Some(pat) => walk_pat(sqls, pat, import_alias),
            None => {},
        }
        i += 1;
    }
}

fn walk_object_pat_props(
    sqls: &mut Vec<String>,
    props: &Vec<ObjectPatProp>,
    import_alias: &String,
)
    ensures
        texts(final(sqls)@) == texts(old(sqls)@) + object_pat_props_sqls(
            props@,
            props@.len(),
            import_alias@,
        ),
    decreases props,
{
    let mut i: usize = 0;
    while i < props.len()
        invariant
            i <= props.len(),
            texts(sqls@) == texts(old(sqls)@) + object_pat_props_sqls(
                props@,
                i as nat,
                import_alias@,
            ),
        decreases props.len() - i,
    {
        match &props[i] {
            ObjectPatProp::KeyValue { key, value } => {
                walk_opt_expr(sqls, key, import_alias);
                walk_pat(sqls, value, import_alias);
            },
            ObjectPatProp::Assign { value } => walk_opt_expr(sqls, value, import_alias),
            ObjectPatProp::Rest(arg) => walk_pat(sqls, arg, import_alias),
        }
        assert(object_pat_props_sqls(props@, (i + 1) as nat, import_alias@)
            == object_pat_props_sqls(props@, i as nat, import_alias@) + object_pat_prop_sqls(
            props@[i as int],
            import_alias@,
        ));
        i += 1;
    }
}

fn walk_params(sqls: &mut Vec<String>, params: &Vec<Param>, import_alias: &String)
    ensures
        texts(final(sqls)@) == texts(old(sqls)@) + params_sqls(
            params@,
            params@.len(),
            import_alias@,
        ),
    decreases params,
{
    let mut i: usize = 0;
    while i < params.len()
        invariant
            i <= params.len(),
            texts(sqls@) == texts(old(sqls)@) + params_sqls(params@, i as nat, import_alias@),
        decreases params.len() - i,
    {
        walk_exprs(sqls, &params[i].decorators, import_alias);
        walk_pat(sqls, &params[i].pat, import_alias);
        assert(params_sqls(params@, (i + 1) as nat, import_alias@) == params_sqls(
            params@,
            i as nat,
            import_alias@,
        ) + param_sqls(params@[i as int], import_alias@));
        i += 1;
    }
}

fn walk_function(sqls: &mut Vec<String>, function: &Function, import_alias: &String)
    ensures
        texts(final(sqls)@) == texts(old(sqls)@) + function_sqls(*function, import_alias@),
    decreases function,
{
    walk_exprs(sqls, &function.decorators, import_alias);
    walk_params(sqls, &function.params, import_alias);
    process_block_stmt_as_expr(&function.body, sqls, import_alias);
}

fn walk_class(sqls: &mut Vec<String>, class: &Class, import_alias: &String)
    ensures
        texts(final(sqls)@) == texts(old(sqls)@) + class_sqls(*class, import_alias@),
    decreases class,
{
    walk_exprs(sqls, &class.decorators, import_alias);
    walk_boxed_expr(sqls, &class.super_class, import_alias);
    let mut i: usize = 0;
    while i < class.body.len()
        invariant
            i <= class.body.len(),
            texts(sqls@) == texts(old(sqls)@) + (exprs_sqls(
                class.decorators@,
                class.decorators@.len(),
                import_alias@,
            ) + boxed_expr_sqls(class.super_class, import_alias@) + members_sqls(
                class.body@,
                i as nat,
                import_alias@,
            )),
        decreases class.body.len() - i,
    {
        process_class_member(sqls, &class.body[i], import_alias);
        i += 1;
    }
}

fn process_class_member(sqls: &mut Vec<String>, body_stmt: &ClassMember, import_alias: &String)
    ensures
        texts(final(sqls)@) == texts(old(sqls)@) + member_sqls(*body_stmt, import_alias@),
    decreases body_stmt,
{
    match body_stmt {
        ClassMember::Constructor { params, body } => {
            walk_params(sqls, params, import_alias);
            process_block_stmt_as_expr(body, sqls, import_alias);
        },
        ClassMember::Method { key, function } => {
            walk_exprs(sqls, &function.decorators, import_alias);
            walk_opt_expr(sqls, key, import_alias);
            walk_params(sqls, &function.params, import_alias);
            process_block_stmt_as_expr(&function.body, sqls, import_alias);
        },
        ClassMember::PrivateMethod { function } => walk_function(sqls, function, import_alias),
        ClassMember::ClassProp { decorators, key, value } => {
            walk_exprs(sqls, decorators, import_alias);
            walk_opt_expr(sqls, key, import_alias);
            walk_opt_expr(sqls, value, import_alias);
        },
        ClassMember::PrivateProp { decorators, value } => {
            walk_exprs(sqls, decorators, import_alias);
            walk_opt_expr(sqls, value, import_alias);
        },
        ClassMember::TsIndexSignature => {},
        ClassMember::Empty => {},
        ClassMember::StaticBlock(stmts) => walk_stmts(sqls, stmts, import_alias),
        ClassMember::AutoAccessor { decorators, key, value } => {
            walk_exprs(sqls, decorators, import_alias);
            walk_opt_expr(sqls, key, import_alias);
            walk_opt_expr(sqls, value, import_alias);
        },
    }
}

/// Appends the SQL texts of a class declaration: those of its decorators,
/// of its superclass and of every member.
pub fn process_class_decl(sqls: &mut Vec<String>, class: &ClassDecl, import_alias: &String)
    ensures
        texts(final(sqls)@) == texts(old(sqls)@) + class_sqls(class.class, import_alias@),
    decreases class,
{
    walk_class(sqls, &class.class, import_alias);
}

/// The SQL texts of the initialiser of a declarator that binds a plain
/// identifier; none for a declarator that destructures.
pub fn get_sql_from_var_decl(var_declarator: &VarDeclarator, import_alias: &String) -> (bag:
    Vec<String>)
    ensures
        texts(bag@) == if var_decl_name(*var_declarator) is Some {
            opt_expr_sqls(var_declarator.init, import_alias@)
        } else {
            Seq::empty()
        },
    decreases var_declarator,
{
    let mut bag_of_sqls: Vec<String> = Vec::new();
    let var_decl_name = get_var_decl_name(var_declarator);
    if var_decl_name.is_none() {
        return bag_of_sqls;
    }
    walk_opt_expr(&mut bag_of_sqls, &var_declarator.init, import_alias);
    bag_of_sqls
}

fn walk_declarators(
    sqls: &mut Vec<String>,
    declarators: &Vec<VarDeclarator>,
    import_alias: &String,
)
    ensures
        texts(final(sqls)@) == texts(old(sqls)@) + declarators_sqls(
            declarators@,
            declarators@.len(),
            import_alias@,
        ),
    decreases declarators,
{
    let mut i: usize = 0;
    while i < declarators.len()
        invariant
            i <= declarators.len(),
            texts(sqls@) == texts(old(sqls)@) + declarators_sqls(
                declarators@,
                i as nat,
                import_alias@,
            ),
        decreases declarators.len() - i,
    {
        let var_decl = &declarators[i];
        walk_pat(sqls, &var_decl.name, import_alias);
        let mut new_sqls = get_sql_from_var_decl(var_decl, import_alias);
        let num_new_sqls = new_sqls.len();
        proof {
            lemma_texts_add(sqls@, new_sqls@);
        }
        sqls.append(&mut new_sqls);
        if num_new_sqls == 0 {
            walk_opt_expr(sqls, &var_decl.init, import_alias);
        }
        assert(declarators_sqls(declarators@, (i + 1) as nat, import_alias@) == declarators_sqls(
            declarators@,
            i as nat,
            import_alias@,
        ) + declarator_sqls(declarators@[i as int], import_alias@));
        i += 1;
    }
}

/// Appends the SQL texts of a declaration.
pub fn process_decl(sqls: &mut Vec<String>, decl: &Decl, import_alias: &String)
    ensures
        texts(final(sqls)@) == texts(old(sqls)@) + decl_sqls(*decl, import_alias@),
    decreases decl,
{
    match decl {
        Decl::Class(class) => process_class_decl(sqls, class, import_alias),
        Decl::Fn(function) => walk_function(sqls, function, import_alias),
        Decl::Var(declarators) => walk_declarators(sqls, declarators, import_alias),
        Decl::Using(declarators) => walk_declarators(sqls, declarators, import_alias),
        Decl::TsInterface => {},
        Decl::TsTypeAlias => {},
        Decl::TsEnum(inits) => walk_opt_exprs(sqls, inits, import_alias),
        Decl::TsModule(items) => walk_items(sqls, items, import_alias),
    }
}

/// Appends the SQL texts of what `export default` declares.
pub fn process_default_decl(
    sqls: &mut Vec<String>,
    default_decl: &DefaultDecl,
    import_alias: &String,
)
    ensures
        texts(final(sqls)@) == texts(old(sqls)@) + default_decl_sqls(
            *default_decl,
            import_alias@,
        ),
    decreases default_decl,
{
    match default_decl {
        DefaultDecl::Class(class) => walk_class(sqls, class, import_alias),
        DefaultDecl::Fn(function) => walk_function(sqls, function, import_alias),
        DefaultDecl::TsInterfaceDecl => {},
    }
}

/// Appends the SQL texts of the statements of a body, where there is one.
pub fn process_block_stmt_as_expr(
    block_stmt: &Option<Vec<Stmt>>,
    sqls: &mut Vec<String>,
    import_alias: &String,
)
    ensures
        texts(final(sqls)@) == texts(old(sqls)@) + opt_block_sqls(*block_stmt, import_alias@),
    decreases block_stmt,
{
    match block_stmt {
        Some(body) => walk_stmts(sqls, body, import_alias),
        None => {},
    }
}

fn walk_stmts(sqls: &mut Vec<String>, stmts: &Vec<Stmt>, import_alias: &String)
    ensures
        texts(final(sqls)@) == texts(old(sqls)@) + stmts_sqls(
            stmts@,
            stmts@.len(),
            import_alias@,
        ),
    decreases stmts,
{
    let mut i: usize = 0;
    while i < stmts.len()
        invariant
            i <= stmts.len(),
            texts(sqls@) == texts(old(sqls)@) + stmts_sqls(stmts@, i as nat, import_alias@),
        decreases stmts.len() - i,
    {
        recurse_and_find_sql(sqls, &stmts[i], import_alias);
        i += 1;
    }
}

fn walk_cases(sqls: &mut Vec<String>, cases: &Vec<SwitchCase>, import_alias: &String)
    ensures
        texts(final(sqls)@) == texts(old(sqls)@) + cases_sqls(
            cases@,
            cases@.len(),
            import_alias@,
        ),
    decreases cases,
{
    let mut i: usize = 0;
    while i < cases.len()
        invariant
            i <= cases.len(),
            texts(sqls@) == texts(old(sqls)@) + cases_sqls(cases@, i as nat, import_alias@),
        decreases cases.len() - i,
    {
        walk_opt_expr(sqls, &cases[i].test, import_alias);
        walk_stmts(sqls, &cases[i].cons, import_alias);
        assert(cases_sqls(cases@, (i + 1) as nat, import_alias@) == cases_sqls(
            cases@,
            i as nat,
            import_alias@,
        ) + case_sqls(cases@[i as int], import_alias@));
        i += 1;
    }
}

fn walk_for_head(sqls: &mut Vec<String>, head: &ForHead, import_alias: &String)
    ensures
        texts(final(sqls)@) == texts(old(sqls)@) + for_head_sqls(*head, import_alias@),
    decreases head,
{
    match head {
        ForHead::VarDecl(declarators) => walk_declarators(sqls, declarators, import_alias),
        ForHead::UsingDecl(declarators) => walk_declarators(sqls, declarators, import_alias),
        ForHead::Pat(pat) => walk_pat(sqls, pat, import_alias),
    }
}

/// Appends the SQL texts of a statement: those of every expression,
/// declaration and statement nested in it.
pub fn recurse_and_find_sql(sqls: &mut Vec<String>, stmt: &Stmt, import_alias: &String)
    ensures
        texts(final(sqls)@) == texts(old(sqls)@) + stmt_sqls(*stmt, import_alias@),
    decreases stmt,
{
    match stmt {
        Stmt::Block(stmts) => walk_stmts(sqls, stmts, import_alias),
        Stmt::Empty => {},
        Stmt::Debugger => {},
        Stmt::With { obj, body } => {
            get_sql_from_expr(sqls, obj, import_alias);
            recurse_and_find_sql(sqls, body, import_alias);
        },
        Stmt::Return(arg) => walk_opt_expr(sqls, arg, import_alias),
        Stmt::Labeled(body) => recurse_and_find_sql(sqls, body, import_alias),
        Stmt::Break => {},
        Stmt::Continue => {},
        Stmt::If { test, cons, alt } => {
            get_sql_from_expr(sqls, test, import_alias);
            recurse_and_find_sql(sqls, cons, import_alias);
            match alt {
                Some(other) => recurse_and_find_sql(sqls, other, import_alias),
                None => {},
            }
        },
        Stmt::Switch { discriminant, cases } => {
            get_sql_from_expr(sqls, discriminant, import_alias);
            walk_cases(sqls, cases, import_alias);
        },
        Stmt::Throw(arg) => get_sql_from_expr(sqls, arg, import_alias),
        Stmt::Try { block, handler, finalizer } => {
            walk_stmts(sqls, block, import_alias);
            match handler {
                Some(clause) => {
                    match &clause.param {
                        Some(pat) => walk_pat(sqls, pat, import_alias),
                        None => {},
                    }
                    walk_stmts(sqls, &clause.body, import_alias);
                },
                None => {},
            }
            process_block_stmt_as_expr(finalizer, sqls, import_alias);
        },
        Stmt::While { test, body } => {
            get_sql_from_expr(sqls, test, import_alias);
            recurse_and_find_sql(sqls, body, import_alias);
        },
        Stmt::DoWhile { body, test } => {
            recurse_and_find_sql(sqls, body, import_alias);
            get_sql_from_expr(sqls, test, import_alias);
        },
        Stmt::For { init, test, update, body } => {
            match init {
                Some(VarDeclOrExpr::VarDecl(declarators)) => walk_declarators(
                    sqls,
                    declarators,
                    import_alias,
                ),
                Some(VarDeclOrExpr::Expr(first)) => get_sql_from_expr(sqls, first, import_alias),
                None => {},
            }
            walk_opt_expr(sqls, test, import_alias);
            walk_opt_expr(sqls, update, import_alias);
            recurse_and_find_sql(sqls, body, import_alias);
        },
        Stmt::ForIn { left, right, body } => {
            walk_for_head(sqls, left, import_alias);
            get_sql_from_expr(sqls, right, import_alias);
            recurse_and_find_sql(sqls, body, import_alias);
        },
        Stmt::ForOf { left, right, body } => {
            walk_for_head(sqls, left, import_alias);
            get_sql_from_expr(sqls, right, import_alias);
            recurse_and_find_sql(sqls, body, import_alias);
        },
        Stmt::Decl(decl) => process_decl(sqls, decl, import_alias),
        Stmt::Expr(expr) => get_sql_from_expr(sqls, expr, import_alias),
    }
}

fn walk_item(sqls: &mut Vec<String>, item: &ModuleItem, import_alias: &String)
    ensures
        texts(final(sqls)@) == texts(old(sqls)@) + item_sqls(*item, import_alias@),
    decreases item,
{
    match item {
        ModuleItem::Stmt(stmt) => recurse_and_find_sql(sqls, stmt, import_alias),
        ModuleItem::ModuleDecl(decl) => match decl {
            ModuleDecl::Import(_) => {},
            ModuleDecl::ExportDecl(export_decl) => process_decl(sqls, export_decl, import_alias),
            ModuleDecl::ExportNamed => {},
            ModuleDecl::ExportDefaultDecl(export_default_decl) => process_default_decl(
                sqls,
                export_default_decl,
                import_alias,
            ),
            ModuleDecl::ExportDefaultExpr(export_default_expr) => get_sql_from_expr(
                sqls,
                export_default_expr,
                import_alias,
            ),
            ModuleDecl::ExportAll => {},
            ModuleDecl::TsImportEquals => {},
            ModuleDecl::TsExportAssignment(expr) => get_sql_from_expr(sqls, expr, import_alias),
            ModuleDecl::TsNamespaceExport => {},
        },
    }
}

pub(crate) fn walk_items(sqls: &mut Vec<String>, items: &Vec<ModuleItem>, import_alias: &String)
    ensures
        texts(final(sqls)@) == texts(old(sqls)@) + items_sqls(
            items@,
            items@.len(),
            import_alias@,
        ),
    decreases items,
{
    let mut i: usize = 0;
    while i < items.len()
        invariant
            i <= items.len(),
            texts(sqls@) == texts(old(sqls)@) + items_sqls(items@, i as nat, import_alias@),
        decreases items.len() - i,
    {
        walk_item(sqls, &items[i], import_alias);
        i += 1;
    }
}

/// One SQL text found in a module.
#[derive(Debug, Clone, PartialEq, Eq)]
pub struct SqlOccurrence {
    /// The SQL text.
    pub query: String,
    /// The database named for this text; `None` means the default one.
    pub database: Option<String>,
    /// The position among the occurrences of the module, from 0.
    pub index: usize,
}

/// What an occurrence holds, as plain values.
pub struct SqlOccurrenceView {
    pub query: Seq<char>,
    pub database: Option<Seq<char>>,
    pub index: nat,
}

impl View for SqlOccurrence {
    type V = SqlOccurrenceView;

    open spec fn view(&self) -> SqlOccurrenceView {
        SqlOccurrenceView {
            query: self.query@,
            database: match self.database {
                Some(name) => Some(name@),
                None => None,
            },
            index: self.index as nat,
        }
    }
}

/// The views of a list of occurrences.
pub open spec fn occurrence_views(occurrences: Seq<SqlOccurrence>) -> Seq<SqlOccurrenceView> {
    occurrences.map_values(|o: SqlOccurrence| o@)
}

/// The alias that one import specifier gives to the export `default_import`.
pub open spec fn specifier_alias(specifier: ImportSpecifier, default_import: Seq<char>) -> Option<
    Seq<char>,
> {
    match specifier {
        ImportSpecifier::Named { local, imported: Some(ModuleExportName::Ident(name)) } => {
            if name@ == default_import {
                Some(local@)
            } else {
                None
            }
        },
        ImportSpecifier::Named { local, imported: None } => {
            if local@ == default_import {
                Some(default_import)
            } else {
                None
            }
        },
        _ => None,
    }
}

/// The alias given by the first specifier at or after `from` that gives one.
pub open spec fn first_specifier_alias(
    specifiers: Seq<ImportSpecifier>,
    from: nat,
    default_import: Seq<char>,
) -> Option<Seq<char>>
    decreases specifiers.len() - from,
{
    if from >= specifiers.len() {
        None
    } else {
        match specifier_alias(specifiers[from as int], default_import) {
            Some(alias) => Some(alias),
            None => first_specifier_alias(specifiers, from + 1, default_import),
        }
    }
}

/// The local name under which an import declaration brings in the export
/// `default_import` of `package`, if it does.
pub open spec fn import_alias_of(
    import_decl: ImportDecl,
    package: Seq<char>,
    default_import: Seq<char>,
) -> Option<Seq<char>> {
    if import_decl.src@ == package {
        first_specifier_alias(import_decl.specifiers@, 0, default_import)
    } else {
        None
    }
}

/// The alias given by the first top-level import at or after `from` that
/// brings in the marker.
pub open spec fn first_import_alias(items: Seq<ModuleItem>, from: nat) -> Option<Seq<char>>
    decreases items.len() - from,
{
    if from >= items.len() {
        None
    } else {
        let here = match items[from as int] {
            ModuleItem::ModuleDecl(ModuleDecl::Import(import_decl)) => import_alias_of(
                import_decl,
                "ts-sqlx"@,
                "sqlx"@,
            ),
            _ => None,
        };
        match here {
            Some(alias) => Some(alias),
            None => first_import_alias(items, from + 1),
        }
    }
}

/// The identifier that stands for the marker in a module: the name under
/// which its first matching top-level import brings in `sqlx` from
/// `ts-sqlx`, or `sqlx` where no import does.
pub open spec fn active_alias(module: Module) -> Seq<char> {
    match first_import_alias(module.body@, 0) {
        Some(alias) => alias,
        None => "sqlx"@,
    }
}

/// The occurrences of a module: its SQL texts in the order of the source
/// text, each with its position and with no database named.
pub open spec fn module_occurrences(module: Module) -> Seq<SqlOccurrenceView> {
    let sqls = module_sqls(module, active_alias(module));
    Seq::new(
        sqls.len(),
        |i: int| SqlOccurrenceView { query: sqls[i], database: None, index: i as nat },
    )
}

/// The local name under which `import_decl` brings in the export
/// `default_import` of `package`: the name after `as` where there is one,
/// else `default_import` itself. `None` where the declaration imports from
/// another package or does not name that export.
pub fn find_sqlx_import_alias(
    import_decl: &ImportDecl,
    package: &str,
    default_import: &str,
) -> (alias: Option<String>)
    ensures
        match alias {
            Some(a) => import_alias_of(*import_decl, package@, default_import@) == Some(a@),
            None => import_alias_of(*import_decl, package@, default_import@) is None,
        },
{
    let package = package.to_owned();
    let default_import = default_import.to_owned();
    if import_decl.src != package {
        return None;
    }
    let mut i: usize = import_decl.specifiers.len();
    let mut found: Option<String> = None;
    while i > 0
        invariant
            i <= import_decl.specifiers.len(),
            match found {
                Some(a) => first_specifier_alias(
                    import_decl.specifiers@,
                    i as nat,
                    default_import@,
                ) == Some(a@),
                None => first_specifier_alias(
                    import_decl.specifiers@,
                    i as nat,
                    default_import@,
                ) is None,
            },
        decreases i,
    {
        i -= 1;
        match &import_decl.specifiers[i] {
            ImportSpecifier::Named { local, imported: Some(ModuleExportName::Ident(name)) } => {
                if *name == default_import {
                    found = Some(local.clone());
                }
            },
            ImportSpecifier::Named { local, imported: None } => {
                if *local == default_import {
                    found = Some(default_import.clone());
                }
            },
            _ => {},
        }
    }
    found
}

fn find_active_alias(module: &Module) -> (alias: String)
    ensures
        alias@ == active_alias(*module),
{
    let mut i: usize = module.body.len();
    let mut found: Option<String> = None;
    while i > 0
        invariant
            i <= module.body.len(),
            match found {
                Some(a) => first_import_alias(module.body@, i as nat) == Some(a@),
                None => first_import_alias(module.body@, i as nat) is None,
            },
        decreases i,
    {
        i -= 1;
        match &module.body[i] {
            ModuleItem::ModuleDecl(ModuleDecl::Import(import_decl)) => {
                match find_sqlx_import_alias(import_decl, "ts-sqlx", "sqlx") {
                    Some(alias) => {
                        found = Some(alias);
                    },
                    None => {},
                }
            },
            _ => {},
        }
    }
    match found {
        Some(alias) => alias,
        None => "sqlx".to_owned(),
    }
}

/// Finds the SQL texts of a parsed module.
///
/// The marker is the identifier that the module's first matching import
/// binds to `sqlx` of `ts-sqlx`, or `sqlx` itself. The result holds every
/// SQL text of the module in the order of the source text, each with its
/// position.
pub fn parse_source(module: &Module) -> (occurrences: Vec<SqlOccurrence>)
    ensures
        occurrence_views(occurrences@) == module_occurrences(*module),
{
    let import_alias = find_active_alias(module);
    let mut sqls: Vec<String> = Vec::new();
    walk_items(&mut sqls, &module.body, &import_alias);
    assert(texts(sqls@) =~= module_sqls(*module, active_alias(*module)));
    let mut occurrences: Vec<SqlOccurrence> = Vec::new();
    let mut i: usize = 0;
    while i < sqls.len()
        invariant
            i <= sqls.len(),
            occurrences@.len() == i,
            forall|k: int|
                0 <= k < i ==> (#[trigger] occurrences@[k])@ == (SqlOccurrenceView {
                    query: sqls@[k]@,
                    database: None,
                    index: k as nat,
                }),
        decreases sqls.len() - i,
    {
        occurrences.push(SqlOccurrence { query: sqls[i].clone(), database: None, index: i });
        i += 1;
    }
    assert(occurrence_views(occurrences@) =~= module_occurrences(*module));
    occurrences
}

/// Two searches of one module give the same occurrences in the same order.
pub proof fn lemma_extraction_is_deterministic(
    module: Module,
    first: Seq<SqlOccurrence>,
    second: Seq<SqlOccurrence>,
)
    requires
        occurrence_views(first) == module_occurrences(module),
        occurrence_views(second) == module_occurrences(module),
    ensures
        first.len() == second.len(),
        forall|i: int| 0 <= i < first.len() ==> (#[trigger] first[i])@ == second[i]@,
{
    assert(occurrence_views(first).len() == first.len());
    assert(occurrence_views(second).len() == second.len());
    assert forall|i: int| 0 <= i < first.len() implies (#[trigger] first[i])@ == second[i]@ by {
        assert(occurrence_views(first)[i] == first[i]@);
        assert(occurrence_views(second)[i] == second[i]@);
    }
}

/// A statement that lies three levels deep, in a `try` inside a loop
/// inside a conditional, gives the enclosing statement all its SQL texts,
/// and where the tests of the conditional and of the loop hold none, the
/// enclosing statement gives no others.
pub proof fn lemma_nested_statement_is_searched(
    inner: Stmt,
    attempt: Stmt,
    repeated: Stmt,
    conditional: Stmt,
    alias: Seq<char>,
)
    requires
        attempt matches Stmt::Try { block, handler, finalizer } && block@ == seq![inner]
            && handler is None && finalizer is None,
        repeated matches Stmt::While { test, body } && *body == attempt && expr_sqls(
            test,
            alias,
        ).len() == 0,
        conditional matches Stmt::If { test, cons, alt } && *cons == repeated && alt is None
            && expr_sqls(test, alias).len() == 0,
    ensures
        stmt_sqls(conditional, alias) == stmt_sqls(inner, alias),
{
    match attempt {
        Stmt::Try { block, handler, finalizer } => {
            assert(block@.len() == 1);
            assert(block@[0] == inner);
            assert(stmts_sqls(block@, 0, alias) =~= Seq::empty());
            assert(stmts_sqls(block@, 1, alias) =~= stmt_sqls(inner, alias));
            assert(opt_block_sqls(finalizer, alias) =~= Seq::empty());
            assert(stmt_sqls(attempt, alias) =~= stmt_sqls(inner, alias));
        },
        _ => {},
    }
    assert(stmt_sqls(repeated, alias) =~= stmt_sqls(inner, alias));
    assert(stmt_sqls(conditional, alias) =~= stmt_sqls(inner, alias));
}

} // verus!
