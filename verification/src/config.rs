//! Format-agnostic plugin metadata.

use vstd::prelude::*;

verus! {

/// Plugin metadata shared by every plugin format.
#[derive(Debug, Clone, Copy)]
pub struct PluginConfig {
    /// Plugin name displayed in the DAW.
    pub name: &'static str,
    /// Vendor/company name.
    pub vendor: &'static str,
    /// Vendor URL.
    pub url: &'static str,
    /// Vendor email.
    pub email: &'static str,
    /// Plugin version string.
    pub version: &'static str,
    /// Plugin category (e.g. "Fx", "Instrument").
    pub category: &'static str,
    /// Pipe-separated sub-categories, e.g. "Fx|Dynamics".
    pub sub_categories: &'static str,
    /// Whether the plugin has an editor.
    pub has_editor: bool,
}

impl PluginConfig {
    /// A configuration with the given name and the defaults: vendor
    /// "Unknown Vendor", no URL or email, version "1.0.0", category "Fx",
    /// no sub-categories, no editor.
    pub fn new(name: &'static str) -> (c: Self)
        ensures
            c.name == name,
            c.vendor@ == "Unknown Vendor"@,
            c.url@ == ""@,
            c.email@ == ""@,
            c.version@ == "1.0.0"@,
            c.category@ == "Fx"@,
            c.sub_categories@ == ""@,
            !c.has_editor,
    {
        PluginConfig {
            name,
            vendor: "Unknown Vendor",
            url: "",
            email: "",
            version: "1.0.0",
            category: "Fx",
            sub_categories: "",
            has_editor: false,
        }
    }

    /// Set the vendor name.
    pub fn with_vendor(self, vendor: &'static str) -> (c: Self)
        ensures
            c == (PluginConfig { vendor, ..self }),
    {
        PluginConfig { vendor, ..self }
    }

    /// Set the vendor URL.
    pub fn with_url(self, url: &'static str) -> (c: Self)
        ensures
            c == (PluginConfig { url, ..self }),
    {
        PluginConfig { url, ..self }
    }

    /// Set the vendor email.
    pub fn with_email(self, email: &'static str) -> (c: Self)
        ensures
            c == (PluginConfig { email, ..self }),
    {
        PluginConfig { email, ..self }
    }

    /// Set the version string.
    pub fn with_version(self, version: &'static str) -> (c: Self)
        ensures
            c == (PluginConfig { version, ..self }),
    {
        PluginConfig { version, ..self }
    }

    /// Set the category.
    pub fn with_category(self, category: &'static str) -> (c: Self)
        ensures
            c == (PluginConfig { category, ..self }),
    {
        PluginConfig { category, ..self }
    }

    /// Set the sub-categories.
    pub fn with_sub_categories(self, sub_categories: &'static str) -> (c: Self)
        ensures
            c == (PluginConfig { sub_categories, ..self }),
    {
        PluginConfig { sub_categories, ..self }
    }

    /// Enable the editor.
    pub fn with_editor(self) -> (c: Self)
        ensures
            c == (PluginConfig { has_editor: true, ..self }),
    {
        PluginConfig { has_editor: true, ..self }
    }
}

} // verus!
