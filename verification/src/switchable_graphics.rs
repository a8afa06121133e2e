//! Install-time GPU quirk resolution.
//!
//! A machine model is identified by the firmware product-version string. If
//! the model supports switchable graphics, one of two mutually exclusive
//! configurations is planned under the install root: most models get the
//! hybrid-mode module options plus an `on-demand` power-mode marker, while a
//! few models default to integrated-only mode and get a module blacklist
//! instead (and no marker).

use vstd::prelude::*;

use crate::artifact::ConfigArtifact;
use crate::strutil::str_eq;

verus! {

/// The quirk selected for a machine model.
#[derive(Clone, Copy, PartialEq, Eq, Structural, Debug)]
pub enum QuirkPolicy {
    /// The model does not support switchable graphics; nothing is written.
    NotApplicable,
    /// The model defaults to integrated-only mode: blacklist the discrete GPU
    /// modules.
    PreferIntegrated,
    /// The model runs in hybrid mode: set module options and mark the power
    /// mode `on-demand`.
    Hybrid,
}

/// Path, relative to the install root, of the kernel-module options file.
pub open spec fn power_conf_path() -> Seq<char> {
    "etc/modprobe.d/system76-power.conf"@
}

/// Path, relative to the install root, of the power-mode marker file.
pub open spec fn prime_discrete_path() -> Seq<char> {
    "etc/prime-discrete"@
}

/// Module options written for hybrid graphics mode.
pub open spec fn modprobe_hybrid() -> Seq<char> {
    "# Automatically generated by distinst\noptions nvidia NVreg_DynamicPowerManagement=0x02\nblacklist i2c_nvidia_gpu\nalias i2c_nvidia_gpu off\n"@
}

/// Module blacklist written for integrated-only graphics mode.
pub open spec fn modprobe_integrated() -> Seq<char> {
    "# Automatically generated by distinst\nblacklist i2c_nvidia_gpu\nblacklist nouveau\nblacklist nvidia\nblacklist nvidia-drm\nblacklist nvidia-modeset\nalias i2c_nvidia_gpu off\nalias nouveau off\nalias nvidia off\nalias nvidia-drm off\nalias nvidia-modeset off\n"@
}

/// The models that support switchable graphics.
pub open spec fn switchable_graphics_spec(s: Seq<char>) -> bool {
    ||| s == "addw1"@
    ||| s == "addw2"@
    ||| s == "gaze14"@
    ||| s == "gaze15"@
    ||| s == "oryp4"@
    ||| s == "oryp4-b"@
    ||| s == "oryp5"@
    ||| s == "oryp6"@
}

/// The models that default to integrated mode instead of hybrid mode.
pub open spec fn default_integrated_spec(s: Seq<char>) -> bool {
    s == "oryp4"@ || s == "oryp4-b"@
}

/// The quirk that a product-version string resolves to.
pub open spec fn quirk_policy_spec(s: Seq<char>) -> QuirkPolicy {
    if !switchable_graphics_spec(s) {
        QuirkPolicy::NotApplicable
    } else if default_integrated_spec(s) {
        QuirkPolicy::PreferIntegrated
    } else {
        QuirkPolicy::Hybrid
    }
}

/// Every model that defaults to integrated mode also supports switchable
/// graphics: the integrated-default set is a subset of the switchable set.
pub proof fn lemma_default_integrated_subset(s: Seq<char>)
    ensures
        default_integrated_spec(s) ==> switchable_graphics_spec(s),
{
}

/// Returns whether the product supports switchable graphics.
pub fn has_switchable_graphics(product: &str) -> (r: bool)
    ensures
        r == switchable_graphics_spec(product@),
{
    str_eq(product, "addw1") || str_eq(product, "addw2") || str_eq(product, "gaze14") || str_eq(
        product,
        "gaze15",
    ) || str_eq(product, "oryp4") || str_eq(product, "oryp4-b") || str_eq(product, "oryp5")
        || str_eq(product, "oryp6")
}

/// Returns whether the product defaults to integrated-only mode.
fn defaults_to_integrated(product: &str) -> (r: bool)
    ensures
        r == default_integrated_spec(product@),
{
    str_eq(product, "oryp4") || str_eq(product, "oryp4-b")
}

/// Resolves the quirk policy for a product-version string.
pub fn resolve_quirk(product: &str) -> (p: QuirkPolicy)
    ensures
        p == quirk_policy_spec(product@),
{
    if !has_switchable_graphics(product) {
        QuirkPolicy::NotApplicable
    } else if defaults_to_integrated(product) {
        QuirkPolicy::PreferIntegrated
    } else {
        QuirkPolicy::Hybrid
    }
}

/// Plans the graphics configuration for the given product-version string.
///
/// Returns whether switchable graphics is supported, and the configuration
/// files to write under the install root: nothing for an unsupported model
/// (including the empty identity of an unreadable firmware source), the
/// integrated-only blacklist alone for an integrated-default model, and the
/// hybrid module options followed by the `on-demand` power-mode marker for
/// every other supported model.
pub fn configure_graphics(product_version: &str) -> (r: (bool, Vec<ConfigArtifact>))
    ensures
        r.0 == switchable_graphics_spec(product_version@),
        quirk_policy_spec(product_version@) is NotApplicable ==> r.1@.len() == 0,
        quirk_policy_spec(product_version@) is PreferIntegrated ==> {
            &&& r.1@.len() == 1
            &&& r.1@[0].path@ == power_conf_path()
            &&& r.1@[0].content@ == modprobe_integrated()
        },
        quirk_policy_spec(product_version@) is Hybrid ==> {
            &&& r.1@.len() == 2
            &&& r.1@[0].path@ == power_conf_path()
            &&& r.1@[0].content@ == modprobe_hybrid()
            &&& r.1@[1].path@ == prime_discrete_path()
            &&& r.1@[1].content@ == "on-demand"@
        },
{
    match resolve_quirk(product_version) {
        QuirkPolicy::NotApplicable => (false, Vec::new()),
        QuirkPolicy::PreferIntegrated => {
            let mut artifacts: Vec<ConfigArtifact> = Vec::new();
            artifacts.push(
                ConfigArtifact {
                    path: "etc/modprobe.d/system76-power.conf",
                    content: "# Automatically generated by distinst\nblacklist i2c_nvidia_gpu\nblacklist nouveau\nblacklist nvidia\nblacklist nvidia-drm\nblacklist nvidia-modeset\nalias i2c_nvidia_gpu off\nalias nouveau off\nalias nvidia off\nalias nvidia-drm off\nalias nvidia-modeset off\n",
                },
            );
            (true, artifacts)
        },
        QuirkPolicy::Hybrid => {
            let mut artifacts: Vec<ConfigArtifact> = Vec::new();
            artifacts.push(
                ConfigArtifact {
                    path: "etc/modprobe.d/system76-power.conf",
                    content: "# Automatically generated by distinst\noptions nvidia NVreg_DynamicPowerManagement=0x02\nblacklist i2c_nvidia_gpu\nalias i2c_nvidia_gpu off\n",
                },
            );
            artifacts.push(ConfigArtifact { path: "etc/prime-discrete", content: "on-demand" });
            (true, artifacts)
        },
    }
}

} // verus!
