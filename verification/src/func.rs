//! The plans of `#[ocaml::func]`, `#[ocaml::native_func]` and
//! `#[ocaml::bytecode_func]`: which functions are accepted, the raw
//! parameters of the exported function, the arguments passed to the Rust
//! body, and when a bytecode stub is needed.
use vstd::prelude::*;
use crate::derive::DeriveError;
use crate::text::to_owned_text;

verus! {

/// An argument of the annotated function.
pub enum FnArg {
    /// `self`, `&self`, ...
    Receiver,
    /// An argument bound to an identifier.
    Ident(String),
    /// An argument bound by another pattern, such as `_` or a tuple.
    Pattern,
}

/// What the function attributes look at in the annotated function.
pub struct FnInfo {
    pub name: String,
    pub is_async: bool,
    pub is_variadic: bool,
    pub is_public: bool,
    pub n_generics: usize,
    pub args: Vec<FnArg>,
    /// Whether the function declares a return type.
    pub returns: bool,
}

/// The exported wrapper of `#[ocaml::func]`.
pub struct FuncPlan {
    /// The name of the runtime handle in the body.
    pub gc_name: String,
    /// Whether the handle is touched once so that it counts as used (when
    /// its name was not given).
    pub use_gc: bool,
    /// The names of the raw parameters of the exported function.
    pub ocaml_args: Vec<String>,
    /// The arguments passed on to the Rust body.
    pub param_names: Vec<String>,
    /// The name of the bytecode stub, for a function with more than five parameters.
    pub bytecode_name: Option<String>,
    /// The plan of that bytecode stub, which calls the exported function.
    pub bytecode: Option<BytecodePlan>,
}

/// The exported wrapper of `#[ocaml::native_func]`.
pub struct NativePlan {
    pub gc_name: String,
    pub use_gc: bool,
    /// Whether the exported function returns `ocaml::Raw` (exactly when the
    /// Rust function returns something).
    pub returns_raw: bool,
}

/// The exported function of `#[ocaml::bytecode_func]`.
pub struct BytecodePlan {
    /// The name of the runtime handle in the body.
    pub gc_name: String,
    /// Whether the handle is touched once so that it counts as used.
    pub use_gc: bool,
    pub ocaml_args: Vec<String>,
    pub param_names: Vec<String>,
    /// Whether the arguments come from an argument vector (more than five of them).
    pub reads_argv: bool,
    /// When the arguments come from an argument vector: how many there must
    /// be at least (the argument count is checked against it).
    pub argc_check: Option<usize>,
    /// What is called with the converted arguments: the annotated
    /// function's own body (`None`), or the named function.
    pub call: Option<String>,
}

/// Two optional names with the same text.
pub open spec fn same_name(a: Option<String>, b: Option<String>) -> bool {
    match (a, b) {
        (Some(x), Some(y)) => x@ == y@,
        (None, None) => true,
        _ => false,
    }
}

/// The checks that every exported function passes, in this order.
pub open spec fn check_func_spec(f: FnInfo) -> Result<(), DeriveError> {
    if f.is_async {
        Err(DeriveError::Async)
    } else if f.is_variadic {
        Err(DeriveError::Variadic)
    } else if !f.is_public {
        Err(DeriveError::NotPublic)
    } else if f.n_generics > 0 {
        Err(DeriveError::Generics)
    } else {
        Ok(())
    }
}

/// Refuses async, variadic, private and generic functions.
pub fn check_func(f: &FnInfo) -> (r: Result<(), DeriveError>)
    ensures
        r == check_func_spec(*f),
{
    if f.is_async {
        return Err(DeriveError::Async);
    }
    if f.is_variadic {
        return Err(DeriveError::Variadic);
    }
    if !f.is_public {
        return Err(DeriveError::NotPublic);
    }
    if f.n_generics > 0 {
        return Err(DeriveError::Generics);
    }
    Ok(())
}

pub open spec fn has_receiver(args: Seq<FnArg>) -> bool {
    exists|i: int| 0 <= i < args.len() && args[i] is Receiver
}

/// The raw parameter name of an argument.
pub open spec fn raw_name(a: FnArg) -> Seq<char> {
    match a {
        FnArg::Ident(s) => s@,
        _ => "_"@,
    }
}

/// The identifiers among the first `k` arguments, in order.
pub open spec fn ident_names(args: Seq<FnArg>, k: int) -> Seq<Seq<char>>
    decreases k,
{
    if k <= 0 {
        Seq::empty()
    } else {
        let pre = ident_names(args, k - 1);
        match args[k - 1] {
            FnArg::Ident(s) => pre.push(s@),
            _ => pre,
        }
    }
}

pub open spec fn texts(v: Seq<String>) -> Seq<Seq<char>> {
    v.map_values(|s: String| s@)
}

/// The raw parameters: one per argument, or a single `_` when there is none.
pub open spec fn raw_params(args: Seq<FnArg>) -> Seq<Seq<char>> {
    if args.len() == 0 {
        seq!["_"@]
    } else {
        Seq::new(args.len(), |i: int| raw_name(args[i]))
    }
}

pub open spec fn gc_name_spec(attr: Option<String>) -> Seq<char> {
    match attr {
        Some(s) => s@,
        None => "gc"@,
    }
}

/// `#[ocaml::func]`: refused as `check_func` refuses, or when a
/// function takes `self`; otherwise raw parameters for all arguments, the
/// identifiers passed on, and a bytecode stub named `<name>_bytecode` when
/// there are more than five raw parameters.
pub open spec fn func_spec(f: FnInfo, attr: Option<String>, r: Result<FuncPlan, DeriveError>) -> bool {
    if check_func_spec(f) is Err {
        r == Err::<FuncPlan, DeriveError>(check_func_spec(f)->Err_0)
    } else if has_receiver(f.args@) {
        r == Err::<FuncPlan, DeriveError>(DeriveError::SelfArgument)
    } else {
        r matches Ok(p) && p.gc_name@ == gc_name_spec(attr) && p.use_gc == attr is None && texts(
            p.ocaml_args@,
        ) == raw_params(f.args@) && texts(p.param_names@) == ident_names(f.args@, f.args@.len() as int)
            && (match p.bytecode_name {
            Some(b) => raw_params(f.args@).len() > 5 && b@ == f.name@ + "_bytecode"@,
            None => raw_params(f.args@).len() <= 5,
        }) && (match p.bytecode {
            Some(bp) => raw_params(f.args@).len() > 5 && bytecode_spec(
                f,
                attr,
                Some(f.name),
                Ok::<BytecodePlan, DeriveError>(bp),
            ),
            None => raw_params(f.args@).len() <= 5,
        })
    }
}

/// Collects the raw parameter names and the identifiers of the arguments;
/// `None` when an argument is a receiver.
fn arg_names(args: &Vec<FnArg>) -> (r: Option<(Vec<String>, Vec<String>)>)
    ensures
        match r {
            None => has_receiver(args@),
            Some((raw, ids)) => !has_receiver(args@) && raw@.len() == args@.len() && (forall|i: int|
                0 <= i < args@.len() ==> (#[trigger] raw@[i])@ == raw_name(args@[i])) && texts(ids@)
                == ident_names(args@, args@.len() as int),
        },
{
    let mut raw: Vec<String> = Vec::new();
    let mut ids: Vec<String> = Vec::new();
    let mut i: usize = 0;
    while i < args.len()
        invariant
            i <= args@.len(),
            raw@.len() == i,
            forall|k: int| 0 <= k < i ==> (#[trigger] raw@[k])@ == raw_name(args@[k]),
            forall|k: int| 0 <= k < i ==> !(args@[k] is Receiver),
            texts(ids@) == ident_names(args@, i as int),
        decreases args@.len() - i,
    {
        match &args[i] {
            FnArg::Receiver => return None,
            FnArg::Ident(s) => {
                raw.push(s.clone());
                ids.push(s.clone());
                proof {
                    assert(texts(ids@) =~= texts(ids@.drop_last()).push(s@));
                }
            },
            FnArg::Pattern => {
                raw.push(to_owned_text("_"));
            },
        }
        i += 1;
    }
    Some((raw, ids))
}

fn gc_name(attr: &Option<String>) -> (r: (String, bool))
    ensures
        r.0@ == gc_name_spec(*attr),
        r.1 == attr is None,
{
    match attr {
        Some(s) => (s.clone(), false),
        None => (to_owned_text("gc"), true),
    }
}

/// Plans the wrapper that `#[ocaml::func]` exports for a function; `attr`
/// is the name given for the runtime handle, if any.
pub fn ocaml_func(f: &FnInfo, attr: &Option<String>) -> (r: Result<FuncPlan, DeriveError>)
    ensures
        func_spec(*f, *attr, r),
{
    match check_func(f) {
        Ok(()) => {},
        Err(e) => return Err(e),
    }
    let (gc_name, use_gc) = gc_name(attr);
    let (mut ocaml_args, param_names) = match arg_names(&f.args) {
        Some(x) => x,
        None => return Err(DeriveError::SelfArgument),
    };
    if ocaml_args.len() == 0 {
        ocaml_args.push(to_owned_text("_"));
        proof {
            assert(texts(ocaml_args@) =~= raw_params(f.args@));
        }
    } else {
        proof {
            assert(texts(ocaml_args@) =~= raw_params(f.args@));
        }
    }
    let (bytecode_name, bytecode) = if ocaml_args.len() > 5 {
        let mut b = f.name.clone();
        b.append("_bytecode");
        let original = Some(f.name.clone());
        let bp = match ocaml_bytecode_func_impl(f, attr, &original) {
            Ok(bp) => bp,
            Err(e) => return Err(e),
        };
        (Some(b), Some(bp))
    } else {
        (None, None)
    };
    Ok(FuncPlan { gc_name, use_gc, ocaml_args, param_names, bytecode_name, bytecode })
}

/// `#[ocaml::native_func]`: the same refusals as `#[ocaml::func]`; the
/// exported function keeps the Rust signature.
pub open spec fn native_spec(f: FnInfo, attr: Option<String>, r: Result<NativePlan, DeriveError>) -> bool {
    if check_func_spec(f) is Err {
        r == Err::<NativePlan, DeriveError>(check_func_spec(f)->Err_0)
    } else if has_receiver(f.args@) {
        r == Err::<NativePlan, DeriveError>(DeriveError::SelfArgument)
    } else {
        r matches Ok(p) && p.gc_name@ == gc_name_spec(attr) && p.use_gc == attr is None
            && p.returns_raw == f.returns
    }
}

/// Plans the wrapper that `#[ocaml::native_func]` exports for a function.
pub fn ocaml_native_func(f: &FnInfo, attr: &Option<String>) -> (r: Result<NativePlan, DeriveError>)
    ensures
        native_spec(*f, *attr, r),
{
    match check_func(f) {
        Ok(()) => {},
        Err(e) => return Err(e),
    }
    let (gc_name, use_gc) = gc_name(attr);
    match arg_names(&f.args) {
        Some(_) => {},
        None => return Err(DeriveError::SelfArgument),
    }
    Ok(NativePlan { gc_name, use_gc, returns_raw: f.returns })
}

/// `#[ocaml::bytecode_func]`: the same refusals; raw parameters for all
/// arguments, or `_unit` passed on as `__ocaml_unit` when there is none;
/// arguments read from an argument vector when there are more than five,
/// whose count is then checked; the handle named as `#[ocaml::func]` names
/// it; the call goes to `original` when it is given, else to the body.
pub open spec fn bytecode_spec(
    f: FnInfo,
    attr: Option<String>,
    original: Option<String>,
    r: Result<BytecodePlan, DeriveError>,
) -> bool {
    if check_func_spec(f) is Err {
        r == Err::<BytecodePlan, DeriveError>(check_func_spec(f)->Err_0)
    } else if has_receiver(f.args@) {
        r == Err::<BytecodePlan, DeriveError>(DeriveError::SelfArgument)
    } else {
        r matches Ok(p) && (if f.args@.len() == 0 {
            texts(p.ocaml_args@) == seq!["_unit"@] && texts(p.param_names@) == ident_names(
                f.args@,
                0,
            ).push("__ocaml_unit"@)
        } else {
            texts(p.ocaml_args@) == raw_params(f.args@) && texts(p.param_names@) == ident_names(
                f.args@,
                f.args@.len() as int,
            )
        }) && p.reads_argv == (p.ocaml_args@.len() > 5) && p.argc_check == (if p.reads_argv {
            Some(p.ocaml_args@.len() as usize)
        } else {
            None::<usize>
        }) && p.gc_name@ == gc_name_spec(attr) && p.use_gc == attr is None && same_name(
            p.call,
            original,
        )
    }
}

/// Plans the function that `#[ocaml::bytecode_func]` exports; `attr` is
/// the name given for the runtime handle, `original` the function called in
/// place of the body.
pub fn ocaml_bytecode_func_impl(f: &FnInfo, attr: &Option<String>, original: &Option<String>) -> (r: Result<BytecodePlan, DeriveError>)
    ensures
        bytecode_spec(*f, *attr, *original, r),
{
    match check_func(f) {
        Ok(()) => {},
        Err(e) => return Err(e),
    }
    let (mut ocaml_args, mut param_names) = match arg_names(&f.args) {
        Some(x) => x,
        None => return Err(DeriveError::SelfArgument),
    };
    if ocaml_args.len() == 0 {
        ocaml_args.push(to_owned_text("_unit"));
        param_names.push(to_owned_text("__ocaml_unit"));
        proof {
            assert(texts(ocaml_args@) =~= seq!["_unit"@]);
            assert(f.args@.len() == 0);
            assert(texts(param_names@) =~= texts(param_names@.drop_last()).push("__ocaml_unit"@));
            assert(texts(param_names@) == ident_names(f.args@, 0).push("__ocaml_unit"@));
        }
    } else {
        proof {
            assert(texts(ocaml_args@) =~= raw_params(f.args@));
        }
    }
    let reads_argv = ocaml_args.len() > 5;
    let argc_check = if reads_argv {
        Some(ocaml_args.len())
    } else {
        None
    };
    let (gc_name, use_gc) = gc_name(attr);
    let call = match original {
        Some(o) => Some(o.clone()),
        None => None,
    };
    Ok(BytecodePlan { gc_name, use_gc, ocaml_args, param_names, reads_argv, argc_check, call })
}


/// What `#[ocaml::func]` exports for a function that it accepts: one raw
/// parameter per argument (one unused `_` for a function without
/// arguments), named like the argument when it is an identifier; the
/// identifiers passed on in order; and a bytecode stub `<name>_bytecode`
/// exactly when there are more than five arguments, which reads them from
/// the argument vector after checking their count and calls the function.
pub proof fn lemma_func_exports(f: FnInfo, attr: Option<String>, p: FuncPlan)
    requires
        func_spec(f, attr, Ok(p)),
    ensures
        f.args@.len() == 0 ==> texts(p.ocaml_args@) == seq!["_"@] && p.param_names@.len() == 0,
        f.args@.len() > 0 ==> p.ocaml_args@.len() == f.args@.len(),
        forall|i: int|
            0 <= i < f.args@.len() ==> (#[trigger] f.args@[i] matches FnArg::Ident(s) ==> p.ocaml_args@[i]@ == s@),
        forall|i: int|
            0 <= i < f.args@.len() ==> (!(#[trigger] f.args@[i] is Ident) ==> p.ocaml_args@[i]@ == "_"@),
        (p.bytecode_name is Some) <==> f.args@.len() > 5,
        p.bytecode_name matches Some(b) ==> b@ == f.name@ + "_bytecode"@,
        (p.bytecode is Some) <==> f.args@.len() > 5,
        p.bytecode matches Some(bp) ==> (bp.reads_argv && bp.argc_check == Some(f.args@.len() as usize)
            && same_name(bp.call, Some(f.name))),
{
    if f.args@.len() > 0 {
        assert forall|i: int| 0 <= i < f.args@.len() implies #[trigger] p.ocaml_args@[i]@ == raw_name(
            f.args@[i],
        ) by {
            assert(texts(p.ocaml_args@)[i] == p.ocaml_args@[i]@);
        }
    }
    if let Some(bp) = p.bytecode {
        assert(f.args@.len() > 0);
        assert(bp.ocaml_args@.len() == texts(bp.ocaml_args@).len());
    }
}

} // verus!
