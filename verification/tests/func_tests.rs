use ocaml::derive::DeriveError;
use ocaml::func::{check_func, ocaml_bytecode_func_impl, ocaml_func, ocaml_native_func, FnArg, FnInfo};

fn info(name: &str, args: Vec<FnArg>) -> FnInfo {
    FnInfo { name: name.to_string(), is_async: false, is_variadic: false, is_public: true, n_generics: 0, args, returns: true }
}

fn ids(names: &[&str]) -> Vec<FnArg> {
    names.iter().map(|n| FnArg::Ident(n.to_string())).collect()
}

#[test]
fn refusals_in_order() {
    let mut f = info("f", vec![]);
    assert_eq!(check_func(&f), Ok(()));
    f.n_generics = 1;
    assert_eq!(check_func(&f), Err(DeriveError::Generics));
    f.is_public = false;
    assert_eq!(check_func(&f), Err(DeriveError::NotPublic));
    f.is_variadic = true;
    assert_eq!(check_func(&f), Err(DeriveError::Variadic));
    f.is_async = true;
    assert_eq!(check_func(&f), Err(DeriveError::Async));
    let g = info("g", vec![FnArg::Receiver]);
    assert_eq!(ocaml_func(&g, &None).err(), Some(DeriveError::SelfArgument));
    assert_eq!(ocaml_native_func(&g, &None).err(), Some(DeriveError::SelfArgument));
    assert_eq!(ocaml_bytecode_func_impl(&g, &None, &None).err(), Some(DeriveError::SelfArgument));
}

#[test]
fn func_without_arguments() {
    let p = ocaml_func(&info("enum1_empty", vec![]), &None).ok().unwrap();
    assert_eq!(p.gc_name, "gc");
    assert!(p.use_gc);
    assert_eq!(p.ocaml_args, vec!["_".to_string()]);
    assert!(p.param_names.is_empty());
    assert_eq!(p.bytecode_name, None);
}

#[test]
fn func_with_named_handle_and_patterns() {
    let p = ocaml_func(&info("f", vec![FnArg::Ident("a".to_string()), FnArg::Pattern]), &Some("test".to_string())).ok().unwrap();
    assert_eq!(p.gc_name, "test");
    assert!(!p.use_gc);
    assert_eq!(p.ocaml_args, vec!["a".to_string(), "_".to_string()]);
    assert_eq!(p.param_names, vec!["a".to_string()]);
}

#[test]
fn bytecode_stub_past_five_arguments() {
    let five = ocaml_func(&info("five", ids(&["a", "b", "c", "d", "e"])), &None).ok().unwrap();
    assert_eq!(five.bytecode_name, None);
    let six = ocaml_func(&info("ml_more_than_five_params", ids(&["a", "b", "c", "d", "e", "f"])), &None).ok().unwrap();
    assert_eq!(six.bytecode_name, Some("ml_more_than_five_params_bytecode".to_string()));
    assert!(five.bytecode.is_none());
    // The stub reads its six arguments from the argument vector and calls the
    // exported function.
    let bc = six.bytecode.unwrap();
    assert!(bc.reads_argv);
    assert_eq!(bc.argc_check, Some(6));
    assert_eq!(bc.call, Some("ml_more_than_five_params".to_string()));
    assert_eq!(bc.gc_name, "gc");
    let named = ocaml_func(&info("m", ids(&["a", "b", "c", "d", "e", "f"])), &Some("rt".to_string())).ok().unwrap();
    assert_eq!(named.bytecode.unwrap().gc_name, "rt");
}

#[test]
fn bytecode_plans() {
    let p = ocaml_bytecode_func_impl(&info("unit_fn", vec![]), &None, &None).ok().unwrap();
    assert_eq!(p.ocaml_args, vec!["_unit".to_string()]);
    assert_eq!(p.param_names, vec!["__ocaml_unit".to_string()]);
    assert!(!p.reads_argv);
    assert_eq!(p.argc_check, None);
    assert_eq!(p.call, None);
    assert_eq!(p.gc_name, "gc");
    assert!(p.use_gc);
    let q = ocaml_bytecode_func_impl(&info("avg", ids(&["a", "b"])), &Some("rt".to_string()), &None).ok().unwrap();
    assert_eq!(q.ocaml_args, vec!["a".to_string(), "b".to_string()]);
    assert!(!q.reads_argv);
    assert_eq!(q.gc_name, "rt");
    assert!(!q.use_gc);
    let r = ocaml_bytecode_func_impl(&info("many", ids(&["a", "b", "c", "d", "e", "f", "g"])), &None, &None).ok().unwrap();
    assert!(r.reads_argv);
    assert_eq!(r.argc_check, Some(7));
    assert_eq!(r.param_names.len(), 7);
}

#[test]
fn native_plans() {
    let p = ocaml_native_func(&info("incr", ids(&["value"])), &None).ok().unwrap();
    assert_eq!(p.gc_name, "gc");
    assert!(p.use_gc);
    assert!(p.returns_raw);
    let mut unit = info("side_effect", ids(&["value"]));
    unit.returns = false;
    assert!(!ocaml_native_func(&unit, &None).ok().unwrap().returns_raw);
    let mut f = info("incr", ids(&["value"]));
    f.is_public = false;
    assert_eq!(ocaml_native_func(&f, &None).err(), Some(DeriveError::NotPublic));
}
