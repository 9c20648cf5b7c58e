//! The product settings that the desktop workspace profile is built from.
use crate::duplicate::Duplicate;
use crate::text;
use vstd::prelude::*;

verus! {

/// The schema version that the settings have to carry.
pub const SCHEMA_VERSION: u32 = 2;

/// The product settings.
#[derive(Debug)]
pub struct ProductConfig {
    /// The version of the settings schema.
    pub schema_version: u32,
    /// The model that workspaces are configured with.
    pub default_model: String,
    /// The name of the model provider that routes requests.
    pub router_provider: String,
    /// The address of that provider.
    pub router_base_url: String,
    /// The protocol that starts the desktop application on Windows.
    pub windows_desktop_protocol: String,
    /// The publishers whose desktop packages are trusted.
    pub windows_desktop_trusted_publishers: Vec<String>,
}

/// The view of `ProductConfig`: the same fields with their texts as characters.
pub struct ProductConfigView {
    pub schema_version: u32,
    pub default_model: Seq<char>,
    pub router_provider: Seq<char>,
    pub router_base_url: Seq<char>,
    pub windows_desktop_protocol: Seq<char>,
    pub windows_desktop_trusted_publishers: Seq<Seq<char>>,
}

impl DeepView for ProductConfig {
    type V = ProductConfigView;

    open spec fn deep_view(&self) -> ProductConfigView {
        ProductConfigView {
            schema_version: self.schema_version,
            default_model: self.default_model@,
            router_provider: self.router_provider@,
            router_base_url: self.router_base_url@,
            windows_desktop_protocol: self.windows_desktop_protocol@,
            windows_desktop_trusted_publishers: self.windows_desktop_trusted_publishers.deep_view(),
        }
    }
}

impl Duplicate for ProductConfig {
    fn duplicate(&self) -> (res: Self) {
        ProductConfig {
            schema_version: self.schema_version,
            default_model: self.default_model.duplicate(),
            router_provider: self.router_provider.duplicate(),
            router_base_url: self.router_base_url.duplicate(),
            windows_desktop_protocol: self.windows_desktop_protocol.duplicate(),
            windows_desktop_trusted_publishers: self.windows_desktop_trusted_publishers.duplicate(),
        }
    }
}

/// What is wrong with product settings.
#[derive(Debug, Clone, Copy, PartialEq, Eq, Structural)]
pub enum ProductConfigError {
    /// The schema version is another one.
    SchemaVersion,
    /// The default model is blank.
    DefaultModel,
    /// The provider name is blank.
    RouterProvider,
    /// The provider address does not begin with `https://`.
    RouterBaseUrl,
    /// The desktop protocol is blank.
    DesktopProtocol,
    /// There is no trusted publisher, or a blank one.
    TrustedPublishers,
}

impl ProductConfigError {
    /// The message of the error.
    pub open spec fn text(self) -> Seq<char> {
        match self {
            ProductConfigError::SchemaVersion => "Codex 桌面工作区配置版本无效"@,
            ProductConfigError::DefaultModel => "默认模型不能为空"@,
            ProductConfigError::RouterProvider => "路由 provider 不能为空"@,
            ProductConfigError::RouterBaseUrl => "路由地址必须使用 HTTPS"@,
            ProductConfigError::DesktopProtocol => "Windows 桌面协议不能为空"@,
            ProductConfigError::TrustedPublishers => "Windows 桌面可信 Publisher 不能为空"@,
        }
    }

    /// The message of the error.
    pub fn message(&self) -> (res: String)
        ensures
            res@ == self.text(),
    {
        match self {
            ProductConfigError::SchemaVersion => "Codex 桌面工作区配置版本无效".to_string(),
            ProductConfigError::DefaultModel => "默认模型不能为空".to_string(),
            ProductConfigError::RouterProvider => "路由 provider 不能为空".to_string(),
            ProductConfigError::RouterBaseUrl => "路由地址必须使用 HTTPS".to_string(),
            ProductConfigError::DesktopProtocol => "Windows 桌面协议不能为空".to_string(),
            ProductConfigError::TrustedPublishers => {
                "Windows 桌面可信 Publisher 不能为空".to_string()
            },
        }
    }
}

/// Whether there is at least one publisher and none is blank.
pub open spec fn publishers_named(publishers: Seq<Seq<char>>) -> bool {
    publishers.len() > 0 && forall|i: int|
        0 <= i < publishers.len() ==> !text::blank(#[trigger] publishers[i])
}

/// Whether there is at least one publisher and none is blank.
fn all_named(publishers: &Vec<String>) -> (res: bool)
    ensures
        res == publishers_named(publishers.deep_view()),
{
    let ghost named = publishers.deep_view();
    let mut i: usize = 0;
    while i < publishers.len()
        invariant
            i <= publishers.len(),
            named == publishers.deep_view(),
            forall|j: int| 0 <= j < i ==> !text::blank(#[trigger] named[j]),
        decreases publishers.len() - i,
    {
        if text::is_blank(publishers[i].as_str()) {
            assert(text::blank(named[i as int]));
            return false;
        }
        i = i + 1;
    }
    publishers.len() > 0
}

/// The first fault of the settings, if there is one.
pub open spec fn fault(config: ProductConfigView) -> Option<ProductConfigError> {
    if config.schema_version != SCHEMA_VERSION {
        Some(ProductConfigError::SchemaVersion)
    } else if text::blank(config.default_model) {
        Some(ProductConfigError::DefaultModel)
    } else if text::blank(config.router_provider) {
        Some(ProductConfigError::RouterProvider)
    } else if !text::has_prefix(config.router_base_url, "https://"@) {
        Some(ProductConfigError::RouterBaseUrl)
    } else if text::blank(config.windows_desktop_protocol) {
        Some(ProductConfigError::DesktopProtocol)
    } else if !publishers_named(config.windows_desktop_trusted_publishers) {
        Some(ProductConfigError::TrustedPublishers)
    } else {
        None
    }
}

impl ProductConfig {
    /// Checks the settings: gives the first fault, or nothing where they are sound.
    pub fn check(&self) -> (res: Option<ProductConfigError>)
        ensures
            res == fault(self.deep_view()),
    {
        if self.schema_version != SCHEMA_VERSION {
            return Some(ProductConfigError::SchemaVersion);
        }
        if text::is_blank(self.default_model.as_str()) {
            return Some(ProductConfigError::DefaultModel);
        }
        if text::is_blank(self.router_provider.as_str()) {
            return Some(ProductConfigError::RouterProvider);
        }
        if !text::starts_with(self.router_base_url.as_str(), "https://") {
            return Some(ProductConfigError::RouterBaseUrl);
        }
        if text::is_blank(self.windows_desktop_protocol.as_str()) {
            return Some(ProductConfigError::DesktopProtocol);
        }
        if !all_named(&self.windows_desktop_trusted_publishers) {
            return Some(ProductConfigError::TrustedPublishers);
        }
        None
    }
}

} // verus!
