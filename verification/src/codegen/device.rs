//! The device instance generator.
//!
//! One managed device declaration — a static device variable annotated
//! with a `path` option — expands into a descriptor registration: a
//! self-contained module named after the variable, holding an init thunk
//! for the variable's concrete device type and a descriptor static placed
//! in a linker section of its own. The section names of all declaration
//! sites share one prefix, so the link step concatenates them into the one
//! contiguous registry. The declaration's variable name must be uppercase,
//! as Rust asks of statics, and the `path` option is required; a
//! declaration that breaks either rule is reported as a diagnostic.

use vstd::prelude::*;

use crate::codegen::messages_view;

verus! {

/// A managed device declaration, as the generator reads it.
#[derive(Debug)]
pub struct DeviceDecl {
    /// The identifier of the declared static device variable.
    pub ident: String,
    /// The text of the declared variable's type.
    pub ty: String,
    /// The `path` option of the declaration, if given.
    pub path: Option<String>,
}

/// Everything one managed device declaration expands to.
#[derive(Debug)]
pub struct DeviceExpansion {
    /// The identifier of the generated descriptor module.
    pub module_ident: String,
    /// The name of the linker section that receives the descriptor.
    pub section: String,
    /// The identifier of the generated descriptor static.
    pub descriptor_ident: String,
    /// The text of the device type the init thunk is specialized to.
    pub device_type: String,
    /// The device path recorded in the descriptor.
    pub path: String,
    /// The diagnostics collected along the way, in order.
    pub errors: Vec<String>,
}

/// What `str::to_lowercase` returns: the Unicode lowercase image of the
/// text. It depends on the characters alone.
pub uninterp spec fn lower_of(s: Seq<char>) -> Seq<char>;

/// What `str::to_uppercase` returns: the Unicode uppercase image of the
/// text. It depends on the characters alone.
pub uninterp spec fn upper_of(s: Seq<char>) -> Seq<char>;

/// Whether an identifier is uppercase: it equals its own uppercase image.
pub open spec fn ident_uppercase_spec(s: Seq<char>) -> bool {
    s == upper_of(s)
}

/// The diagnostics of one device declaration: a report when the variable
/// name is not uppercase, then a report when the `path` option is missing.
pub open spec fn device_errors_spec(d: DeviceDecl) -> Seq<Seq<char>> {
    let name_errs: Seq<Seq<char>> = if ident_uppercase_spec(d.ident@) {
        Seq::empty()
    } else {
        seq!["device variable name must be uppercase"@]
    };
    let path_errs: Seq<Seq<char>> = if d.path is Some {
        Seq::empty()
    } else {
        seq!["missing device path on instance"@]
    };
    name_errs + path_errs
}

/// Relies on `str::to_lowercase` of std: the result is the Unicode
/// lowercase image of the text, a function of the characters alone; an
/// empty string stays empty.
#[verifier::external_body]
fn to_lowercase(s: &str) -> (r: String)
    ensures
        r@ == lower_of(s@),
        s@.len() == 0 ==> r@.len() == 0,
{
    s.to_lowercase()
}

/// Relies on `str::to_uppercase` of std: the result is the Unicode
/// uppercase image of the text, a function of the characters alone; an
/// empty string stays empty.
#[verifier::external_body]
fn to_uppercase(s: &str) -> (r: String)
    ensures
        r@ == upper_of(s@),
        s@.len() == 0 ==> r@.len() == 0,
{
    s.to_uppercase()
}

/// Expand one managed device declaration.
///
/// The descriptor module and the linker section are named after the
/// lowercased variable name, the descriptor static after the variable name
/// itself; the `path` option becomes the descriptor's path, with an empty
/// path standing in when the option is missing. The declared variable
/// itself is left unchanged and stays independently usable.
pub fn run(d: &DeviceDecl) -> (r: DeviceExpansion)
    ensures
        r.module_ident@ == "__dedrv_desc_"@ + lower_of(d.ident@),
        r.section@ == ".dedrv.device."@ + lower_of(d.ident@),
        r.descriptor_ident@ == "__DEDRV_DESC_"@ + d.ident@,
        r.device_type == d.ty,
        d.path matches Some(p) ==> r.path == p,
        d.path is None ==> r.path@ == Seq::<char>::empty(),
        messages_view(r.errors@) == device_errors_spec(*d),
{
    let mut errors: Vec<String> = Vec::new();
    let upper = to_uppercase(d.ident.as_str());
    if !(d.ident == upper) {
        errors.push(String::from_str("device variable name must be uppercase"));
    }
    let path = match &d.path {
        Some(p) => p.clone(),
        None => {
            errors.push(String::from_str("missing device path on instance"));
            String::new()
        },
    };
    let low = to_lowercase(d.ident.as_str());
    let module_ident = String::from_str("__dedrv_desc_").concat(low.as_str());
    let section = String::from_str(".dedrv.device.").concat(low.as_str());
    let descriptor_ident = String::from_str("__DEDRV_DESC_").concat(d.ident.as_str());
    proof {
        assert(messages_view(errors@) =~= device_errors_spec(*d));
    }
    DeviceExpansion {
        module_ident,
        section,
        descriptor_ident,
        device_type: d.ty.clone(),
        path,
        errors,
    }
}

} // verus!
