//! Runtime discrete-GPU hardening for a live system.
//!
//! A narrower sibling of the install-time resolver: it consults its own,
//! smaller switchable-graphics model list and the currently loaded kernel
//! modules, and plans an nvidia/nouveau blacklist write to the live root's
//! power-options path only when both conditions hold. The two lists and the
//! two identity sources (product name here, product version at install time)
//! are independent by design and are not merged.

use vstd::prelude::*;

use crate::artifact::ConfigArtifact;
use crate::strutil::str_eq;

verus! {

/// Absolute live-root path of the kernel-module options file.
pub open spec fn live_power_conf_path() -> Seq<char> {
    "/etc/modprobe.d/system76-power.conf"@
}

/// Full nvidia/nouveau blacklist written by the runtime applier.
pub open spec fn blacklist_nvidia() -> Seq<char> {
    "# Automatically generated by distinst\nblacklist nouveau\nblacklist nvidia\nblacklist nvidia-drm\nblacklist nvidia-modeset\nalias nouveau off\nalias nvidia off\nalias nvidia-drm off\nalias nvidia-modeset off\n"@
}

/// The models the runtime applier treats as supporting switchable graphics.
pub open spec fn runtime_switchable_spec(s: Seq<char>) -> bool {
    s == "oryp4"@ || s == "oryp4-b"@
}

/// Whether one of the discrete-GPU driver modules is among the loaded ones.
pub open spec fn discrete_module_loaded(modules: Seq<String>) -> bool {
    exists|i: int|
        0 <= i < modules.len() && (modules[i]@ == "nvidia"@ || modules[i]@ == "nouveau"@)
}

/// Returns whether the product supports switchable graphics, by the runtime
/// applier's own list.
pub fn has_switchable_graphics(product: &str) -> (r: bool)
    ensures
        r == runtime_switchable_spec(product@),
{
    str_eq(product, "oryp4") || str_eq(product, "oryp4-b")
}

/// Returns whether one of the modules is `nvidia` or `nouveau`.
fn any_discrete_module(modules: &Vec<String>) -> (r: bool)
    ensures
        r == discrete_module_loaded(modules@),
{
    let mut i: usize = 0;
    while i < modules.len()
        invariant
            i <= modules.len(),
            forall|j: int|
                0 <= j < i ==> !(modules@[j]@ == "nvidia"@ || modules@[j]@ == "nouveau"@),
        decreases modules.len() - i,
    {
        if str_eq(modules[i].as_str(), "nvidia") || str_eq(modules[i].as_str(), "nouveau") {
            return true;
        }
        i = i + 1;
    }
    false
}

/// Plans the runtime blacklist write.
///
/// `modules` is the enumeration of currently loaded kernel modules, or `None`
/// if the enumeration failed (module state unknown, skip). The blacklist is
/// written if and only if the module state is known, the product name is in
/// the runtime switchable-graphics list, and at least one of the `nvidia` or
/// `nouveau` modules is loaded; it then overwrites the live root's
/// power-options file.
pub fn disable_external_graphics(product_name: &str, modules: Option<&Vec<String>>) -> (r: Option<
    ConfigArtifact,
>)
    ensures
        r is Some <==> (modules matches Some(m) && runtime_switchable_spec(product_name@)
            && discrete_module_loaded(m@)),
        r matches Some(a) ==> a.path@ == live_power_conf_path() && a.content@
            == blacklist_nvidia(),
{
    match modules {
        None => None,
        Some(m) => {
            if has_switchable_graphics(product_name) && any_discrete_module(m) {
                Some(
                    ConfigArtifact {
                        path: "/etc/modprobe.d/system76-power.conf",
                        content: "# Automatically generated by distinst\nblacklist nouveau\nblacklist nvidia\nblacklist nvidia-drm\nblacklist nvidia-modeset\nalias nouveau off\nalias nvidia off\nalias nvidia-drm off\nalias nvidia-modeset off\n",
                    },
                )
            } else {
                None
            }
        },
    }
}

} // verus!
