//! The device class generator.
//!
//! One class declaration — a trait whose operations take a conventional
//! self-receiver — expands into three artifacts: the driver-side contract
//! (the same operations with the receiver replaced by an explicit
//! protected-state handle parameter), a zero-sized class tag named after
//! the class, and a forwarding implementation that hands every class
//! operation on to the driver's contract method, passing the state handle
//! first and the declared arguments after it, unchanged and in declared
//! order. A declaration that breaks a rule of the generator is kept out of
//! the affected artifact and reported as a diagnostic instead.

use vstd::prelude::*;

use crate::codegen::messages_view;

verus! {

/// The errors of the class generator.
#[derive(Debug, Default, Clone, Copy, PartialEq, Eq, Structural)]
#[non_exhaustive]
pub enum Error {
    /// The class trait declares generic parameters.
    InvalidClassGenerics,
    /// The class trait carries a where clause.
    InvalidClassWhereClause,
    /// A class method lacks a self receiver.
    MissingReceiver,
    /// A class method is declared async.
    AsyncNotSupported,
    /// An unspecified failure.
    #[default]
    Undefined,
}

/// The diagnostic text of each error.
pub open spec fn message_spec(e: Error) -> Seq<char> {
    match e {
        Error::InvalidClassGenerics => "class trait must not be generic"@,
        Error::InvalidClassWhereClause => "class trait must not have a where clause"@,
        Error::MissingReceiver => "class method must have a self receiver"@,
        Error::AsyncNotSupported => "class method must not be async"@,
        Error::Undefined => "undefined error"@,
    }
}

impl Error {
    /// The diagnostic text of this error.
    pub fn message(&self) -> (r: &'static str)
        ensures
            r@ == message_spec(*self),
    {
        match self {
            Error::InvalidClassGenerics => "class trait must not be generic",
            Error::InvalidClassWhereClause => "class trait must not have a where clause",
            Error::MissingReceiver => "class method must have a self receiver",
            Error::AsyncNotSupported => "class method must not be async",
            Error::Undefined => "undefined error",
        }
    }
}

/// How a class operation takes its self receiver. The forwarding
/// implementation carries the receiver over verbatim.
#[derive(Debug, Clone, PartialEq, Eq)]
pub enum ReceiverKind {
    /// `&self`: the operation only reads the device state.
    Shared,
    /// `&mut self`: the operation mutates the device state.
    Exclusive,
    /// `self`: the operation consumes its handle.
    Value,
    /// `mut self`: a consumed handle, bound mutably.
    ValueMut,
    /// `self: <type>`, with the text of the receiver's type.
    Typed(String),
}

/// One typed, non-receiver parameter of a class operation: its identifier
/// and the text of its type.
#[derive(Debug)]
pub struct Param {
    /// The parameter's identifier.
    pub name: String,
    /// The text of the parameter's type.
    pub ty: String,
}

/// One operation of a class declaration, as the generator reads it.
#[derive(Debug)]
pub struct MethodDecl {
    /// The operation's identifier.
    pub name: String,
    /// The self receiver, if the declaration has one.
    pub receiver: Option<ReceiverKind>,
    /// Whether the operation is declared async.
    pub is_async: bool,
    /// The operation's own generic parameters, as text, in order.
    pub generics: Vec<String>,
    /// The operation's where clause, as text, if it has one.
    pub where_clause: Option<String>,
    /// The typed parameters after the receiver, in order.
    pub params: Vec<Param>,
    /// The text of the return type, if there is one.
    pub output: Option<String>,
}

/// A class declaration: the annotated trait as the generator reads it.
#[derive(Debug)]
pub struct ClassDecl {
    /// The class's identifier.
    pub name: String,
    /// The trait's generic parameters, as text, in order.
    pub generics: Vec<String>,
    /// Whether the trait carries a where clause.
    pub has_where_clause: bool,
    /// The declared operations, in order.
    pub methods: Vec<MethodDecl>,
}

/// One method of the generated driver-side contract: the declared operation
/// with the self receiver replaced by the protected-state handle parameter.
/// The handle parameter is the same for every method and is left implicit
/// here; everything else is carried over unchanged.
#[derive(Debug)]
pub struct ContractMethod {
    /// The operation's identifier, unchanged.
    pub name: String,
    /// The generic parameters, unchanged.
    pub generics: Vec<String>,
    /// The where clause, unchanged.
    pub where_clause: Option<String>,
    /// The parameters after the state handle: the declared parameters,
    /// unchanged and in declared order.
    pub params: Vec<Param>,
    /// The return type, unchanged.
    pub output: Option<String>,
}

/// The generated driver-side contract of one class.
#[derive(Debug)]
pub struct ContractTrait {
    /// The contract's identifier: the class's own name.
    pub name: String,
    /// The contract methods, one per valid declared operation, in order.
    pub methods: Vec<ContractMethod>,
}

/// One method of the generated forwarding implementation. Its signature is
/// the declared one, unchanged; its body calls the driver's contract method
/// of the same name, passing the state handle first and then the declared
/// arguments, unchanged and in declared order.
#[derive(Debug)]
pub struct ForwardingMethod {
    /// The operation's identifier, unchanged.
    pub name: String,
    /// The self receiver, unchanged.
    pub receiver: Option<ReceiverKind>,
    /// The generic parameters, unchanged.
    pub generics: Vec<String>,
    /// The where clause, unchanged.
    pub where_clause: Option<String>,
    /// The declared parameters, unchanged and in declared order.
    pub params: Vec<Param>,
    /// The return type, unchanged.
    pub output: Option<String>,
    /// The arguments handed to the contract method after the state handle:
    /// the declared parameter identifiers, in declared order.
    pub forwarded_args: Vec<String>,
}

/// Everything one class declaration expands to.
#[derive(Debug)]
pub struct ClassExpansion {
    /// The driver-side contract; absent when the declaration itself is
    /// rejected.
    pub contract: Option<ContractTrait>,
    /// The name of the zero-sized class tag type.
    pub tag: String,
    /// The methods of the forwarding implementation.
    pub forwarding: Vec<ForwardingMethod>,
    /// The diagnostics collected along the way, in order.
    pub errors: Vec<String>,
}

/// Whether a class declaration as a whole is acceptable.
pub open spec fn trait_ok_spec(t: ClassDecl) -> bool {
    t.generics@.len() == 0 && !t.has_where_clause
}

/// The error reported for an unacceptable class declaration.
pub open spec fn trait_err_spec(t: ClassDecl) -> Error {
    if t.generics@.len() != 0 {
        Error::InvalidClassGenerics
    } else {
        Error::InvalidClassWhereClause
    }
}

/// Whether one declared operation is acceptable.
pub open spec fn method_ok_spec(m: MethodDecl) -> bool {
    m.receiver is Some && !m.is_async
}

/// The error reported for an unacceptable operation.
pub open spec fn method_err_spec(m: MethodDecl) -> Error {
    if m.receiver is None {
        Error::MissingReceiver
    } else {
        Error::AsyncNotSupported
    }
}

/// Whether `cm` is the contract method generated from the declared
/// operation `m`: the self receiver replaced by the state handle (which is
/// the same for every method and stays implicit here), everything else
/// carried over unchanged.
pub open spec fn contract_matches(cm: ContractMethod, m: MethodDecl) -> bool {
    &&& cm.name == m.name
    &&& cm.generics@ == m.generics@
    &&& cm.where_clause == m.where_clause
    &&& cm.params@ == m.params@
    &&& cm.output == m.output
}

/// Whether `cms` is the list of contract methods generated from the
/// declared operations `ms`: one per acceptable operation, in order.
pub open spec fn contract_matches_seq(cms: Seq<ContractMethod>, ms: Seq<MethodDecl>) -> bool
    decreases ms.len(),
{
    if ms.len() == 0 {
        cms.len() == 0
    } else {
        if method_ok_spec(ms.last()) {
            &&& cms.len() > 0
            &&& contract_matches(cms.last(), ms.last())
            &&& contract_matches_seq(cms.drop_last(), ms.drop_last())
        } else {
            contract_matches_seq(cms, ms.drop_last())
        }
    }
}

/// The diagnostics generated from a list of declared operations: the error
/// text of each unacceptable operation, in declared order.
pub open spec fn method_errors_spec(ms: Seq<MethodDecl>) -> Seq<Seq<char>>
    decreases ms.len(),
{
    if ms.len() == 0 {
        Seq::empty()
    } else {
        let rest = method_errors_spec(ms.drop_last());
        if method_ok_spec(ms.last()) {
            rest
        } else {
            rest.push(message_spec(method_err_spec(ms.last())))
        }
    }
}

/// Whether `fm` is the forwarding method generated from the declared
/// operation `m`: the signature carried over unchanged, and the forwarded
/// arguments being exactly the declared parameter identifiers, in order.
pub open spec fn forwarding_matches(fm: ForwardingMethod, m: MethodDecl) -> bool {
    &&& fm.name == m.name
    &&& fm.receiver == m.receiver
    &&& fm.generics@ == m.generics@
    &&& fm.where_clause == m.where_clause
    &&& fm.params@ == m.params@
    &&& fm.output == m.output
    &&& fm.forwarded_args@ == m.params@.map_values(|p: Param| p.name)
}

/// Whether `fms` is the list of forwarding methods generated from the
/// declared operations `ms`: one per acceptable operation, in order.
pub open spec fn forwarding_matches_seq(fms: Seq<ForwardingMethod>, ms: Seq<MethodDecl>) -> bool
    decreases ms.len(),
{
    if ms.len() == 0 {
        fms.len() == 0
    } else {
        if method_ok_spec(ms.last()) {
            &&& fms.len() > 0
            &&& forwarding_matches(fms.last(), ms.last())
            &&& forwarding_matches_seq(fms.drop_last(), ms.drop_last())
        } else {
            forwarding_matches_seq(fms, ms.drop_last())
        }
    }
}

/// Check the class declaration as a whole: it must not be generic and must
/// not carry a where clause.
pub fn validate_trait(t: &ClassDecl) -> (r: Result<(), Error>)
    ensures
        r is Ok <==> trait_ok_spec(*t),
        r is Err ==> r == Result::<(), Error>::Err(trait_err_spec(*t)),
{
    if t.generics.len() != 0 {
        Err(Error::InvalidClassGenerics)
    } else if t.has_where_clause {
        Err(Error::InvalidClassWhereClause)
    } else {
        Ok(())
    }
}

/// Check one declared operation: it must have a self receiver and must not
/// be async.
pub fn validate_method(m: &MethodDecl) -> (r: Result<(), Error>)
    ensures
        r is Ok <==> method_ok_spec(*m),
        r is Err ==> r == Result::<(), Error>::Err(method_err_spec(*m)),
{
    if m.receiver.is_none() {
        Err(Error::MissingReceiver)
    } else if m.is_async {
        Err(Error::AsyncNotSupported)
    } else {
        Ok(())
    }
}

/// Duplicate a list of identifiers.
fn clone_strings(v: &Vec<String>) -> (r: Vec<String>)
    ensures
        r@ == v@,
{
    let mut r: Vec<String> = Vec::new();
    let n = v.len();
    let mut i: usize = 0;
    while i < n
        invariant
            n == v@.len(),
            i <= n,
            r@ == v@.take(i as int),
        decreases n - i,
    {
        r.push(v[i].clone());
        proof {
            assert(v@.take(i as int + 1) =~= v@.take(i as int).push(v@[i as int]));
        }
        i = i + 1;
    }
    proof {
        assert(v@.take(n as int) =~= v@);
    }
    r
}

/// Duplicate an optional piece of text.
fn clone_opt_string(o: &Option<String>) -> (r: Option<String>)
    ensures
        r == *o,
{
    match o {
        Some(s) => Some(s.clone()),
        None => None,
    }
}

/// Duplicate a self receiver.
fn clone_receiver(o: &Option<ReceiverKind>) -> (r: Option<ReceiverKind>)
    ensures
        r == *o,
{
    match o {
        None => None,
        Some(ReceiverKind::Shared) => Some(ReceiverKind::Shared),
        Some(ReceiverKind::Exclusive) => Some(ReceiverKind::Exclusive),
        Some(ReceiverKind::Value) => Some(ReceiverKind::Value),
        Some(ReceiverKind::ValueMut) => Some(ReceiverKind::ValueMut),
        Some(ReceiverKind::Typed(t)) => Some(ReceiverKind::Typed(t.clone())),
    }
}

/// Duplicate a list of typed parameters.
fn clone_params(v: &Vec<Param>) -> (r: Vec<Param>)
    ensures
        r@ == v@,
{
    let mut r: Vec<Param> = Vec::new();
    let n = v.len();
    let mut i: usize = 0;
    while i < n
        invariant
            n == v@.len(),
            i <= n,
            r@ == v@.take(i as int),
        decreases n - i,
    {
        let p = Param { name: v[i].name.clone(), ty: v[i].ty.clone() };
        proof {
            assert(p == v@[i as int]);
            assert(v@.take(i as int + 1) =~= v@.take(i as int).push(v@[i as int]));
        }
        r.push(p);
        i = i + 1;
    }
    proof {
        assert(v@.take(n as int) =~= v@);
    }
    r
}

/// Generate the driver-side contract method of one declared operation: the
/// self receiver is replaced by the protected-state handle parameter, and
/// everything else is carried over unchanged.
pub fn class_driver_method(m: &MethodDecl) -> (r: Result<ContractMethod, Error>)
    ensures
        r is Ok <==> method_ok_spec(*m),
        r is Err ==> r == Result::<ContractMethod, Error>::Err(method_err_spec(*m)),
        r matches Ok(cm) ==> contract_matches(cm, *m),
{
    match validate_method(m) {
        Err(e) => Err(e),
        Ok(()) => Ok(
            ContractMethod {
                name: m.name.clone(),
                generics: clone_strings(&m.generics),
                where_clause: clone_opt_string(&m.where_clause),
                params: clone_params(&m.params),
                output: clone_opt_string(&m.output),
            },
        ),
    }
}

/// Generate one forwarding method: the declared signature unchanged, and
/// the forwarded arguments being the declared parameter identifiers, in
/// declared order, after the state handle.
pub fn class_accessor_impl_method(m: &MethodDecl) -> (r: Result<ForwardingMethod, Error>)
    ensures
        r is Ok <==> method_ok_spec(*m),
        r is Err ==> r == Result::<ForwardingMethod, Error>::Err(method_err_spec(*m)),
        r matches Ok(fm) ==> forwarding_matches(fm, *m),
{
    match validate_method(m) {
        Err(e) => Err(e),
        Ok(()) => {
            let mut argv: Vec<String> = Vec::new();
            let n = m.params.len();
            let mut i: usize = 0;
            while i < n
                invariant
                    n == m.params@.len(),
                    i <= n,
                    argv@ == m.params@.take(i as int).map_values(|p: Param| p.name),
                decreases n - i,
            {
                argv.push(m.params[i].name.clone());
                proof {
                    assert(m.params@.take(i as int + 1) =~= m.params@.take(i as int).push(
                        m.params@[i as int],
                    ));
                    assert(m.params@.take(i as int + 1).map_values(|p: Param| p.name)
                        =~= m.params@.take(i as int).map_values(|p: Param| p.name).push(
                        m.params@[i as int].name,
                    ));
                }
                i = i + 1;
            }
            proof {
                assert(m.params@.take(n as int) =~= m.params@);
            }
            Ok(
                ForwardingMethod {
                    name: m.name.clone(),
                    receiver: clone_receiver(&m.receiver),
                    generics: clone_strings(&m.generics),
                    where_clause: clone_opt_string(&m.where_clause),
                    params: clone_params(&m.params),
                    output: clone_opt_string(&m.output),
                    forwarded_args: argv,
                },
            )
        },
    }
}

/// Generate the driver-side contract of a class declaration: one contract
/// method per acceptable declared operation, in order, under the class's
/// own name. A declaration that is itself unacceptable yields no contract
/// at all; an unacceptable operation is kept out of the contract and
/// reported in the returned diagnostics instead.
pub fn class_driver(t: &ClassDecl) -> (r: Result<(ContractTrait, Vec<String>), Error>)
    ensures
        r is Ok <==> trait_ok_spec(*t),
        r is Err ==> r == Result::<(ContractTrait, Vec<String>), Error>::Err(trait_err_spec(*t)),
        r matches Ok((ct, errs)) ==> ct.name == t.name && contract_matches_seq(
            ct.methods@,
            t.methods@,
        ) && messages_view(errs@) == method_errors_spec(t.methods@),
{
    match validate_trait(t) {
        Err(e) => Err(e),
        Ok(()) => {
            let mut methods: Vec<ContractMethod> = Vec::new();
            let mut errors: Vec<String> = Vec::new();
            let n = t.methods.len();
            let mut i: usize = 0;
            while i < n
                invariant
                    n == t.methods@.len(),
                    i <= n,
                    contract_matches_seq(methods@, t.methods@.take(i as int)),
                    messages_view(errors@) == method_errors_spec(t.methods@.take(i as int)),
                decreases n - i,
            {
                proof {
                    assert(t.methods@.take(i as int + 1).drop_last() =~= t.methods@.take(i as int));
                    assert(t.methods@.take(i as int + 1).last() == t.methods@[i as int]);
                }
                let ghost pre_methods = methods@;
                let ghost pre_errors = errors@;
                match class_driver_method(&t.methods[i]) {
                    Ok(cm) => {
                        methods.push(cm);
                        proof {
                            assert(methods@.drop_last() =~= pre_methods);
                        }
                    },
                    Err(e) => {
                        errors.push(String::from_str(e.message()));
                        proof {
                            assert(messages_view(errors@) =~= messages_view(pre_errors).push(
                                message_spec(method_err_spec(t.methods@[i as int])),
                            ));
                        }
                    },
                }
                i = i + 1;
            }
            proof {
                assert(t.methods@.take(n as int) =~= t.methods@);
            }
            Ok((ContractTrait { name: t.name.clone(), methods }, errors))
        },
    }
}

/// Generate the class tag artifact: a zero-sized marker type named after
/// the class itself.
pub fn class_tag(t: &ClassDecl) -> (r: String)
    ensures
        r == t.name,
{
    t.name.clone()
}

/// Generate the forwarding implementation of a class declaration: one
/// forwarding method per acceptable declared operation, in order. An
/// unacceptable operation is kept out and reported in the returned
/// diagnostics instead.
pub fn class_accessor_impl(t: &ClassDecl) -> (r: (Vec<ForwardingMethod>, Vec<String>))
    ensures
        forwarding_matches_seq(r.0@, t.methods@),
        messages_view(r.1@) == method_errors_spec(t.methods@),
{
    let mut methods: Vec<ForwardingMethod> = Vec::new();
    let mut errors: Vec<String> = Vec::new();
    let n = t.methods.len();
    let mut i: usize = 0;
    while i < n
        invariant
            n == t.methods@.len(),
            i <= n,
            forwarding_matches_seq(methods@, t.methods@.take(i as int)),
            messages_view(errors@) == method_errors_spec(t.methods@.take(i as int)),
        decreases n - i,
    {
        proof {
            assert(t.methods@.take(i as int + 1).drop_last() =~= t.methods@.take(i as int));
            assert(t.methods@.take(i as int + 1).last() == t.methods@[i as int]);
        }
        let ghost pre_methods = methods@;
        let ghost pre_errors = errors@;
        match class_accessor_impl_method(&t.methods[i]) {
            Ok(fm) => {
                methods.push(fm);
                proof {
                    assert(methods@.drop_last() =~= pre_methods);
                }
            },
            Err(e) => {
                errors.push(String::from_str(e.message()));
                proof {
                    assert(messages_view(errors@) =~= messages_view(pre_errors).push(
                        message_spec(method_err_spec(t.methods@[i as int])),
                    ));
                }
            },
        }
        i = i + 1;
    }
    proof {
        assert(t.methods@.take(n as int) =~= t.methods@);
    }
    (methods, errors)
}

/// The diagnostics one class expansion collects, in order: a report when
/// the attribute was given options, then — when the declaration itself is
/// unacceptable — its own error, else the per-operation reports of the
/// contract generation, then the per-operation reports of the forwarding
/// generation.
pub open spec fn run_errors_spec(has_args: bool, t: ClassDecl) -> Seq<Seq<char>> {
    let args_errs: Seq<Seq<char>> = if has_args {
        seq!["no attribute options supported"@]
    } else {
        Seq::empty()
    };
    let driver_errs: Seq<Seq<char>> = if trait_ok_spec(t) {
        method_errors_spec(t.methods@)
    } else {
        seq![message_spec(trait_err_spec(t))]
    };
    args_errs + driver_errs + method_errors_spec(t.methods@)
}

/// Expand one class declaration into its three artifacts.
///
/// The original declaration is kept as it stands; `has_args` says whether
/// the expansion attribute itself was (wrongly) given options. The class
/// tag and the forwarding implementation are generated even when the
/// declaration as a whole is rejected; the driver-side contract is not.
pub fn run(has_args: bool, t: &ClassDecl) -> (r: ClassExpansion)
    ensures
        r.tag == t.name,
        trait_ok_spec(*t) ==> (r.contract matches Some(ct) && ct.name == t.name
            && contract_matches_seq(ct.methods@, t.methods@)),
        !trait_ok_spec(*t) ==> r.contract is None,
        forwarding_matches_seq(r.forwarding@, t.methods@),
        messages_view(r.errors@) == run_errors_spec(has_args, *t),
{
    let mut errors: Vec<String> = Vec::new();
    if has_args {
        errors.push(String::from_str("no attribute options supported"));
    }
    let contract = match class_driver(t) {
        Ok((ct, mut errs)) => {
            errors.append(&mut errs);
            Some(ct)
        },
        Err(e) => {
            errors.push(String::from_str(e.message()));
            None
        },
    };
    let tag = class_tag(t);
    let (forwarding, mut impl_errs) = class_accessor_impl(t);
    errors.append(&mut impl_errs);
    proof {
        assert(messages_view(errors@) =~= run_errors_spec(has_args, *t));
    }
    ClassExpansion { contract, tag, forwarding, errors }
}

} // verus!
