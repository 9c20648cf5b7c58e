//! The list of installation packages.
use crate::duplicate::Duplicate;
use crate::system_compatibility as system;
use crate::system_compatibility::CompatibilityError;
use crate::text;
use vstd::prelude::*;

verus! {

/// The version of the list that is understood.
pub const MANIFEST_SCHEMA_VERSION: u32 = 4;

/// What the list says that it is.
pub const MANIFEST_KIND: &'static str = "baijimu.codex.customer-install-artifacts";

/// The component that is the desktop application.
pub const DESKTOP_COMPONENT: &'static str = "codex_desktop_app";

/// The desktop application in the list.
#[derive(Debug)]
pub struct CodexDesktopComponentV4 {
    /// Where it comes from.
    pub source: String,
    /// What its version is known by.
    pub version_identity: String,
}

/// The view of `CodexDesktopComponentV4`: the same fields with their texts as characters.
pub struct CodexDesktopComponentV4View {
    pub source: Seq<char>,
    pub version_identity: Seq<char>,
}

impl DeepView for CodexDesktopComponentV4 {
    type V = CodexDesktopComponentV4View;

    open spec fn deep_view(&self) -> CodexDesktopComponentV4View {
        CodexDesktopComponentV4View {
            source: self.source@,
            version_identity: self.version_identity@,
        }
    }
}

impl Duplicate for CodexDesktopComponentV4 {
    fn duplicate(&self) -> (res: Self) {
        CodexDesktopComponentV4 {
            source: self.source.duplicate(),
            version_identity: self.version_identity.duplicate(),
        }
    }
}

/// The components in the list.
#[derive(Debug)]
pub struct UpstreamComponentsV4 {
    /// The desktop application.
    pub codex_desktop_app: CodexDesktopComponentV4,
}

/// The view of `UpstreamComponentsV4`: the same fields with their texts as characters.
pub struct UpstreamComponentsV4View {
    pub codex_desktop_app: CodexDesktopComponentV4View,
}

impl DeepView for UpstreamComponentsV4 {
    type V = UpstreamComponentsV4View;

    open spec fn deep_view(&self) -> UpstreamComponentsV4View {
        UpstreamComponentsV4View {
            codex_desktop_app: self.codex_desktop_app.deep_view(),
        }
    }
}

impl Duplicate for UpstreamComponentsV4 {
    fn duplicate(&self) -> (res: Self) {
        UpstreamComponentsV4 {
            codex_desktop_app: self.codex_desktop_app.duplicate(),
        }
    }
}

/// The release that the packages belong to.
#[derive(Debug)]
pub struct UpstreamReleaseV4 {
    /// The tag of the release.
    pub tag_name: String,
    /// The name of the release.
    pub name: String,
    /// When it was published.
    pub published_at: String,
    /// Where it is described.
    pub html_url: String,
}

/// The view of `UpstreamReleaseV4`: the same fields with their texts as characters.
pub struct UpstreamReleaseV4View {
    pub tag_name: Seq<char>,
    pub name: Seq<char>,
    pub published_at: Seq<char>,
    pub html_url: Seq<char>,
}

impl DeepView for UpstreamReleaseV4 {
    type V = UpstreamReleaseV4View;

    open spec fn deep_view(&self) -> UpstreamReleaseV4View {
        UpstreamReleaseV4View {
            tag_name: self.tag_name@,
            name: self.name@,
            published_at: self.published_at@,
            html_url: self.html_url@,
        }
    }
}

impl Duplicate for UpstreamReleaseV4 {
    fn duplicate(&self) -> (res: Self) {
        UpstreamReleaseV4 {
            tag_name: self.tag_name.duplicate(),
            name: self.name.duplicate(),
            published_at: self.published_at.duplicate(),
            html_url: self.html_url.duplicate(),
        }
    }
}

/// What a package asks of the machine.
#[derive(Debug)]
pub struct ArtifactHostRequirementsV4 {
    /// The oldest version of the operating system.
    pub minimum_os_version: String,
}

/// The view of `ArtifactHostRequirementsV4`: the same fields with their texts as characters.
pub struct ArtifactHostRequirementsV4View {
    pub minimum_os_version: Seq<char>,
}

impl DeepView for ArtifactHostRequirementsV4 {
    type V = ArtifactHostRequirementsV4View;

    open spec fn deep_view(&self) -> ArtifactHostRequirementsV4View {
        ArtifactHostRequirementsV4View {
            minimum_os_version: self.minimum_os_version@,
        }
    }
}

impl Duplicate for ArtifactHostRequirementsV4 {
    fn duplicate(&self) -> (res: Self) {
        ArtifactHostRequirementsV4 {
            minimum_os_version: self.minimum_os_version.duplicate(),
        }
    }
}

/// A package.
#[derive(Debug)]
pub struct UpstreamAssetV4 {
    /// The name of its file.
    pub name: String,
    /// The component that it holds.
    pub component: String,
    /// The operating system that it is for.
    pub platform: String,
    /// The processor that it is for.
    pub arch: String,
    /// The kind of its source.
    pub source_kind: String,
    /// Where it was published.
    pub upstream_url: String,
    /// Where it was taken from.
    pub effective_upstream_url: String,
    /// The digest that it was published with.
    pub upstream_sha256: String,
    /// How its signature was verified.
    pub signature_verification: Option<String>,
    /// How it is laid out.
    pub install_layout: Option<String>,
    /// What it asks of the machine.
    pub host_requirements: Option<ArtifactHostRequirementsV4>,
    /// Whether it is no longer to be used.
    pub deprecated: bool,
    /// Where it is downloaded from.
    pub mirror_url: String,
    /// What it is stored under.
    pub object_key: String,
    /// Its digest.
    pub sha256: String,
    /// Its size.
    pub size: u64,
    /// Its size in bytes.
    pub size_bytes: u64,
    /// The type of its content.
    pub content_type: String,
}

/// The view of `UpstreamAssetV4`: the same fields with their texts as characters.
pub struct UpstreamAssetV4View {
    pub name: Seq<char>,
    pub component: Seq<char>,
    pub platform: Seq<char>,
    pub arch: Seq<char>,
    pub source_kind: Seq<char>,
    pub upstream_url: Seq<char>,
    pub effective_upstream_url: Seq<char>,
    pub upstream_sha256: Seq<char>,
    pub signature_verification: Option<Seq<char>>,
    pub install_layout: Option<Seq<char>>,
    pub host_requirements: Option<ArtifactHostRequirementsV4View>,
    pub deprecated: bool,
    pub mirror_url: Seq<char>,
    pub object_key: Seq<char>,
    pub sha256: Seq<char>,
    pub size: u64,
    pub size_bytes: u64,
    pub content_type: Seq<char>,
}

impl DeepView for UpstreamAssetV4 {
    type V = UpstreamAssetV4View;

    open spec fn deep_view(&self) -> UpstreamAssetV4View {
        UpstreamAssetV4View {
            name: self.name@,
            component: self.component@,
            platform: self.platform@,
            arch: self.arch@,
            source_kind: self.source_kind@,
            upstream_url: self.upstream_url@,
            effective_upstream_url: self.effective_upstream_url@,
            upstream_sha256: self.upstream_sha256@,
            signature_verification: self.signature_verification.deep_view(),
            install_layout: self.install_layout.deep_view(),
            host_requirements: self.host_requirements.deep_view(),
            deprecated: self.deprecated,
            mirror_url: self.mirror_url@,
            object_key: self.object_key@,
            sha256: self.sha256@,
            size: self.size,
            size_bytes: self.size_bytes,
            content_type: self.content_type@,
        }
    }
}

impl Duplicate for UpstreamAssetV4 {
    fn duplicate(&self) -> (res: Self) {
        UpstreamAssetV4 {
            name: self.name.duplicate(),
            component: self.component.duplicate(),
            platform: self.platform.duplicate(),
            arch: self.arch.duplicate(),
            source_kind: self.source_kind.duplicate(),
            upstream_url: self.upstream_url.duplicate(),
            effective_upstream_url: self.effective_upstream_url.duplicate(),
            upstream_sha256: self.upstream_sha256.duplicate(),
            signature_verification: self.signature_verification.duplicate(),
            install_layout: self.install_layout.duplicate(),
            host_requirements: self.host_requirements.duplicate(),
            deprecated: self.deprecated,
            mirror_url: self.mirror_url.duplicate(),
            object_key: self.object_key.duplicate(),
            sha256: self.sha256.duplicate(),
            size: self.size,
            size_bytes: self.size_bytes,
            content_type: self.content_type.duplicate(),
        }
    }
}

/// The list of packages.
#[derive(Debug)]
pub struct UpstreamManifestV4 {
    /// The version of the list.
    pub schema_version: u32,
    /// What the list says that it is.
    pub manifest_kind: String,
    /// Where the list comes from.
    pub source: String,
    /// What the list is known by.
    pub snapshot_id: String,
    /// When it was put together.
    pub fetched_at: String,
    /// The components.
    pub components: UpstreamComponentsV4,
    /// The release.
    pub upstream_release: UpstreamReleaseV4,
    /// The packages that must be there.
    pub required_assets: Vec<String>,
    /// The packages.
    pub assets: Vec<UpstreamAssetV4>,
}

/// The view of `UpstreamManifestV4`: the same fields with their texts as characters.
pub struct UpstreamManifestV4View {
    pub schema_version: u32,
    pub manifest_kind: Seq<char>,
    pub source: Seq<char>,
    pub snapshot_id: Seq<char>,
    pub fetched_at: Seq<char>,
    pub components: UpstreamComponentsV4View,
    pub upstream_release: UpstreamReleaseV4View,
    pub required_assets: Seq<Seq<char>>,
    pub assets: Seq<UpstreamAssetV4View>,
}

impl DeepView for UpstreamManifestV4 {
    type V = UpstreamManifestV4View;

    open spec fn deep_view(&self) -> UpstreamManifestV4View {
        UpstreamManifestV4View {
            schema_version: self.schema_version,
            manifest_kind: self.manifest_kind@,
            source: self.source@,
            snapshot_id: self.snapshot_id@,
            fetched_at: self.fetched_at@,
            components: self.components.deep_view(),
            upstream_release: self.upstream_release.deep_view(),
            required_assets: self.required_assets.deep_view(),
            assets: self.assets.deep_view(),
        }
    }
}

impl Duplicate for UpstreamManifestV4 {
    fn duplicate(&self) -> (res: Self) {
        UpstreamManifestV4 {
            schema_version: self.schema_version,
            manifest_kind: self.manifest_kind.duplicate(),
            source: self.source.duplicate(),
            snapshot_id: self.snapshot_id.duplicate(),
            fetched_at: self.fetched_at.duplicate(),
            components: self.components.duplicate(),
            upstream_release: self.upstream_release.duplicate(),
            required_assets: self.required_assets.duplicate(),
            assets: self.assets.duplicate(),
        }
    }
}

/// What can be wrong with the list.
#[derive(Debug)]
pub enum ManifestError {
    /// The version is not understood.
    UnsupportedVersion(u32),
    /// The list is another one.
    WrongKind(String),
    /// The list does not say what it is.
    MissingIdentity,
    /// A file name is not the name of a file in one directory.
    InvalidFileName(String),
    /// A package is not described well.
    InvalidAsset(String),
    /// Two packages have the same name.
    DuplicateAsset(String),
    /// A package is not the desktop application.
    ForeignComponent,
    /// A package that must be there is not.
    MissingRequired(String),
    /// The list was not read.
    NotLoaded,
    /// There is no package for the machine; the processor and the component.
    NoAsset(String, String),
    /// There are several packages for the machine; the processor and the component.
    ManyAssets(String, String),
    /// A package does not say what it asks of the machine.
    MissingRequirement,
}

/// The view of `ManifestError`.
pub enum ManifestErrorView {
    UnsupportedVersion(u32),
    WrongKind(Seq<char>),
    MissingIdentity,
    InvalidFileName(Seq<char>),
    InvalidAsset(Seq<char>),
    DuplicateAsset(Seq<char>),
    ForeignComponent,
    MissingRequired(Seq<char>),
    NotLoaded,
    NoAsset(Seq<char>, Seq<char>),
    ManyAssets(Seq<char>, Seq<char>),
    MissingRequirement,
}

impl DeepView for ManifestError {
    type V = ManifestErrorView;

    open spec fn deep_view(&self) -> ManifestErrorView {
        match self {
            ManifestError::UnsupportedVersion(version) => ManifestErrorView::UnsupportedVersion(
                *version,
            ),
            ManifestError::WrongKind(kind) => ManifestErrorView::WrongKind(kind@),
            ManifestError::MissingIdentity => ManifestErrorView::MissingIdentity,
            ManifestError::InvalidFileName(name) => ManifestErrorView::InvalidFileName(name@),
            ManifestError::InvalidAsset(name) => ManifestErrorView::InvalidAsset(name@),
            ManifestError::DuplicateAsset(name) => ManifestErrorView::DuplicateAsset(name@),
            ManifestError::ForeignComponent => ManifestErrorView::ForeignComponent,
            ManifestError::MissingRequired(name) => ManifestErrorView::MissingRequired(name@),
            ManifestError::NotLoaded => ManifestErrorView::NotLoaded,
            ManifestError::NoAsset(arch, component) => ManifestErrorView::NoAsset(
                arch@,
                component@,
            ),
            ManifestError::ManyAssets(arch, component) => ManifestErrorView::ManyAssets(
                arch@,
                component@,
            ),
            ManifestError::MissingRequirement => ManifestErrorView::MissingRequirement,
        }
    }
}

impl ManifestErrorView {
    /// The message of the error.
    pub open spec fn text(self) -> Seq<char> {
        match self {
            ManifestErrorView::UnsupportedVersion(version) => "不支持的百积木安装包清单版本："@
                + text::decimal(version as nat),
            ManifestErrorView::WrongKind(kind) => "百积木安装包清单类型无效："@ + kind,
            ManifestErrorView::MissingIdentity => "百积木安装包清单缺少必需的版本身份信息"@,
            ManifestErrorView::InvalidFileName(name) => "安装包清单包含无效文件名："@ + name,
            ManifestErrorView::InvalidAsset(name) => "百积木安装包清单包含无效制品记录："@ + name,
            ManifestErrorView::DuplicateAsset(name) => "百积木安装包清单包含重复制品："@ + name,
            ManifestErrorView::ForeignComponent => "桌面安装包清单不得包含 Codex CLI 制品"@,
            ManifestErrorView::MissingRequired(name) => "百积木安装包清单缺少必需制品："@ + name,
            ManifestErrorView::NotLoaded => "安装包清单尚未加载"@,
            ManifestErrorView::NoAsset(arch, component) => "百积木缓存不包含 macOS "@ + arch
                + " 的 "@ + component + " 制品"@,
            ManifestErrorView::ManyAssets(arch, component) => "百积木缓存包含多个 macOS "@ + arch
                + " 的 "@ + component + " 活动制品"@,
            ManifestErrorView::MissingRequirement =>
                "ChatGPT/Codex macOS 制品缺少最低系统版本要求"@,
        }
    }
}

/// A text with another in front of it.
fn prefixed(prefix: &str, rest: &str) -> (res: String)
    ensures
        res@ == prefix@ + rest@,
{
    let mut out = prefix.to_string();
    out.append(rest);
    out
}

impl ManifestError {
    /// The message of the error.
    pub fn message(&self) -> (res: String)
        ensures
            res@ == self.deep_view().text(),
    {
        match self {
            ManifestError::UnsupportedVersion(version) => prefixed(
                "不支持的百积木安装包清单版本：",
                text::decimal_text(*version as u64).as_str(),
            ),
            ManifestError::WrongKind(kind) => prefixed("百积木安装包清单类型无效：", kind.as_str()),
            ManifestError::MissingIdentity => "百积木安装包清单缺少必需的版本身份信息".to_string(),
            ManifestError::InvalidFileName(name) => prefixed("安装包清单包含无效文件名：", name.as_str()),
            ManifestError::InvalidAsset(name) => prefixed(
                "百积木安装包清单包含无效制品记录：",
                name.as_str(),
            ),
            ManifestError::DuplicateAsset(name) => prefixed(
                "百积木安装包清单包含重复制品：",
                name.as_str(),
            ),
            ManifestError::ForeignComponent => "桌面安装包清单不得包含 Codex CLI 制品".to_string(),
            ManifestError::MissingRequired(name) => prefixed(
                "百积木安装包清单缺少必需制品：",
                name.as_str(),
            ),
            ManifestError::NotLoaded => "安装包清单尚未加载".to_string(),
            ManifestError::NoAsset(arch, component) => {
                let mut out = prefixed("百积木缓存不包含 macOS ", arch.as_str());
                out.append(" 的 ");
                out.append(component.as_str());
                out.append(" 制品");
                out
            },
            ManifestError::ManyAssets(arch, component) => {
                let mut out = prefixed("百积木缓存包含多个 macOS ", arch.as_str());
                out.append(" 的 ");
                out.append(component.as_str());
                out.append(" 活动制品");
                out
            },
            ManifestError::MissingRequirement => "ChatGPT/Codex macOS 制品缺少最低系统版本要求".to_string(),
        }
    }
}

/// Whether a piece of a path leads anywhere.
pub open spec fn leads(piece: Seq<char>) -> bool {
    piece.len() > 0 && piece != "."@
}

/// The pieces of a path that lead anywhere.
pub open spec fn leading_pieces(name: Seq<char>) -> Seq<Seq<char>> {
    text::split_on(name, '/').filter(|piece: Seq<char>| leads(piece))
}

/// Whether the name is that of one file in one directory: it starts neither at the root nor at the
/// directory itself, and has one piece that leads anywhere, which does not lead up.
pub open spec fn plain_file_name(name: Seq<char>) -> bool {
    &&& leads(text::split_on(name, '/')[0])
    &&& leading_pieces(name).len() == 1
    &&& leading_pieces(name)[0] != ".."@
}

/// The pieces that lead anywhere, with one piece more.
pub proof fn leading_pieces_grow(pieces: Seq<Seq<char>>, i: int)
    requires
        0 <= i < pieces.len(),
    ensures
        ({
            let some = |piece: Seq<char>| leads(piece);
            pieces.take(i + 1).filter(some) == if leads(pieces[i]) {
                pieces.take(i).filter(some).push(pieces[i])
            } else {
                pieces.take(i).filter(some)
            }
        }),
{
    reveal(Seq::filter);
    assert(pieces.take(i + 1).drop_last() =~= pieces.take(i));
}

/// Makes sure that the name is that of one file in one directory.
pub fn validate_asset_file_name(name: &str) -> (res: Result<(), ManifestError>)
    ensures
        match res {
            Ok(()) => plain_file_name(name@),
            Err(error) => !plain_file_name(name@) && error.deep_view()
                == ManifestErrorView::InvalidFileName(name@),
        },
{
    let pieces = text::split(name, '/');
    let ghost views = text::split_on(name@, '/');
    let ghost some = |piece: Seq<char>| leads(piece);
    proof {
        text::split_on_is_nonempty(name@, '/');
        reveal(Seq::filter);
        assert(views.take(0).filter(some) =~= Seq::<Seq<char>>::empty());
    }
    let mut count: u64 = 0;
    let mut up: bool = false;
    let mut first: bool = false;
    let mut i: usize = 0;
    while i < pieces.len()
        invariant
            i <= pieces.len(),
            views == text::split_on(name@, '/'),
            some == (|piece: Seq<char>| leads(piece)),
            text::views(pieces@) == views,
            count <= i,
            views.take(i as int).filter(some).len() == count,
            count >= 1 ==> up == (views.take(i as int).filter(some)[0] == ".."@),
            i >= 1 ==> first == leads(views[0]),
        decreases pieces.len() - i,
    {
        proof {
            leading_pieces_grow(views, i as int);
            assert(views[i as int] == pieces@[i as int]@);
        }
        let piece = pieces[i].as_str();
        let leads_on = !piece.is_empty() && !text::same(piece, ".");
        assert(leads_on == leads(views[i as int]));
        if i == 0 {
            first = leads_on;
        }
        if leads_on {
            if count == 0 {
                up = text::same(piece, "..");
            }
            count = count + 1;
        }
        i = i + 1;
    }
    assert(views.take(i as int) =~= views);
    if first && count == 1 && !up {
        Ok(())
    } else {
        Err(ManifestError::InvalidFileName(name.to_string()))
    }
}

/// Whether a text that may be left out says something where it is there.
pub open spec fn absent_or_filled(value: Option<Seq<char>>) -> bool {
    match value {
        Some(value) => !text::blank(value),
        None => true,
    }
}

/// Whether a text that may be left out says something where it is there.
fn is_absent_or_filled(value: &Option<String>) -> (res: bool)
    ensures
        res == absent_or_filled(text::opt_view(*value)),
{
    match value {
        Some(value) => !text::is_blank(value.as_str()),
        None => true,
    }
}

/// Whether the package says what it asks of the machine: the desktop application names a version.
pub open spec fn host_requirements_valid(asset: UpstreamAssetV4View) -> bool {
    asset.component == DESKTOP_COMPONENT@ && match asset.host_requirements {
        Some(requirements) => system::parsed(requirements.minimum_os_version) is Ok,
        None => false,
    }
}

/// Whether the package is described well.
pub open spec fn asset_complete(asset: UpstreamAssetV4View) -> bool {
    &&& !text::blank(asset.component)
    &&& !text::blank(asset.platform)
    &&& !text::blank(asset.arch)
    &&& !text::blank(asset.source_kind)
    &&& !text::blank(asset.upstream_url)
    &&& !text::blank(asset.effective_upstream_url)
    &&& !text::blank(asset.upstream_sha256)
    &&& !text::blank(asset.mirror_url)
    &&& !text::blank(asset.object_key)
    &&& !text::blank(asset.sha256)
    &&& !text::blank(asset.content_type)
    &&& asset.size != 0
    &&& asset.size == asset.size_bytes
    &&& host_requirements_valid(asset)
    &&& absent_or_filled(asset.signature_verification)
    &&& absent_or_filled(asset.install_layout)
}

/// What is wrong with a package, if anything.
pub open spec fn asset_fault(asset: UpstreamAssetV4View) -> Option<ManifestErrorView> {
    if !plain_file_name(asset.name) {
        Some(ManifestErrorView::InvalidFileName(asset.name))
    } else if !asset_complete(asset) {
        Some(ManifestErrorView::InvalidAsset(asset.name))
    } else {
        None
    }
}

/// What forbids the package on this version of macOS, if anything.
pub enum RequirementFault {
    /// The package does not say what it asks.
    Missing(ManifestError),
    /// The version is not recent enough, or no version.
    Incompatible(CompatibilityError),
}

impl UpstreamAssetV4 {
    /// Makes sure that the package is described well.
    pub fn validate(&self) -> (res: Result<(), ManifestError>)
        ensures
            match res {
                Ok(()) => asset_fault(self.deep_view()) is None,
                Err(error) => asset_fault(self.deep_view()) == Some(error.deep_view()),
            },
    {
        validate_asset_file_name(self.name.as_str())?;
        let requirements = text::same(self.component.as_str(), DESKTOP_COMPONENT)
            && match &self.host_requirements {
            Some(requirements) => system::validate_version(
                requirements.minimum_os_version.as_str(),
            ).is_ok(),
            None => false,
        };
        if text::is_blank(self.component.as_str()) || text::is_blank(self.platform.as_str())
            || text::is_blank(self.arch.as_str()) || text::is_blank(self.source_kind.as_str())
            || text::is_blank(self.upstream_url.as_str()) || text::is_blank(
            self.effective_upstream_url.as_str(),
        ) || text::is_blank(self.upstream_sha256.as_str()) || text::is_blank(
            self.mirror_url.as_str(),
        ) || text::is_blank(self.object_key.as_str()) || text::is_blank(self.sha256.as_str())
            || text::is_blank(self.content_type.as_str()) || self.size == 0 || self.size
            != self.size_bytes || !requirements || !is_absent_or_filled(
            &self.signature_verification,
        ) || !is_absent_or_filled(&self.install_layout) {
            return Err(ManifestError::InvalidAsset(self.name.clone()));
        }
        Ok(())
    }

    /// Makes sure that the version of macOS is recent enough for the package.
    pub fn ensure_current_macos_supported(&self, current: &str) -> (res: Result<
        (),
        RequirementFault,
    >)
        ensures
            match self.deep_view().host_requirements {
                None => res matches Err(RequirementFault::Missing(error)) && error.deep_view()
                    == ManifestErrorView::MissingRequirement,
                Some(requirements) => match system::fault(
                    "macOS"@,
                    current@,
                    requirements.minimum_os_version,
                    "ChatGPT/Codex"@,
                ) {
                    None => res is Ok,
                    Some(found) => res matches Err(RequirementFault::Incompatible(error))
                        && error.deep_view() == found,
                },
            },
    {
        match &self.host_requirements {
            None => Err(RequirementFault::Missing(ManifestError::MissingRequirement)),
            Some(requirements) => match system::ensure_supported(
                "macOS",
                current,
                requirements.minimum_os_version.as_str(),
                "ChatGPT/Codex",
            ) {
                Ok(()) => Ok(()),
                Err(error) => Err(RequirementFault::Incompatible(error)),
            },
        }
    }
}

/// Whether one of the packages has the name.
pub open spec fn named(assets: Seq<UpstreamAssetV4View>, name: Seq<char>) -> bool {
    exists|i: int| 0 <= i < assets.len() && (#[trigger] assets[i]).name == name
}

/// The first thing that is wrong with the packages, if anything: a package that is not described
/// well, or one with the name of an earlier one.
pub open spec fn assets_fault(assets: Seq<UpstreamAssetV4View>) -> Option<ManifestErrorView>
    decreases assets.len(),
{
    if assets.len() == 0 {
        None
    } else {
        match assets_fault(assets.drop_last()) {
            Some(error) => Some(error),
            None => match asset_fault(assets.last()) {
                Some(error) => Some(error),
                None => if named(assets.drop_last(), assets.last().name) {
                    Some(ManifestErrorView::DuplicateAsset(assets.last().name))
                } else {
                    None
                },
            },
        }
    }
}

/// The first package that must be there and is not, if any.
pub open spec fn required_fault(
    required: Seq<Seq<char>>,
    assets: Seq<UpstreamAssetV4View>,
) -> Option<ManifestErrorView>
    decreases required.len(),
{
    if required.len() == 0 {
        None
    } else {
        match required_fault(required.drop_last(), assets) {
            Some(error) => Some(error),
            None => if text::blank(required.last()) || !named(assets, required.last()) {
                Some(ManifestErrorView::MissingRequired(required.last()))
            } else {
                None
            },
        }
    }
}

/// Whether the list says what it is.
pub open spec fn identified(manifest: UpstreamManifestV4View) -> bool {
    &&& !text::blank(manifest.source)
    &&& !text::blank(manifest.snapshot_id)
    &&& !text::blank(manifest.fetched_at)
    &&& !text::blank(manifest.components.codex_desktop_app.source)
    &&& !text::blank(manifest.components.codex_desktop_app.version_identity)
    &&& !text::blank(manifest.upstream_release.tag_name)
    &&& !text::blank(manifest.upstream_release.name)
    &&& !text::blank(manifest.upstream_release.published_at)
    &&& !text::blank(manifest.upstream_release.html_url)
    &&& manifest.required_assets.len() > 0
    &&& manifest.assets.len() > 0
}

/// What is wrong with the list, if anything.
pub open spec fn manifest_fault(manifest: UpstreamManifestV4View) -> Option<ManifestErrorView> {
    if manifest.schema_version != MANIFEST_SCHEMA_VERSION {
        Some(ManifestErrorView::UnsupportedVersion(manifest.schema_version))
    } else if manifest.manifest_kind != MANIFEST_KIND@ {
        Some(ManifestErrorView::WrongKind(manifest.manifest_kind))
    } else if !identified(manifest) {
        Some(ManifestErrorView::MissingIdentity)
    } else {
        match assets_fault(manifest.assets) {
            Some(error) => Some(error),
            None => if exists|i: int|
                0 <= i < manifest.assets.len() && (#[trigger] manifest.assets[i]).component
                    != DESKTOP_COMPONENT@ {
                Some(ManifestErrorView::ForeignComponent)
            } else {
                required_fault(manifest.required_assets, manifest.assets)
            },
        }
    }
}

/// Whether one of the first packages has the name.
fn is_named(assets: &Vec<UpstreamAssetV4>, count: usize, name: &str) -> (res: bool)
    requires
        count <= assets.len(),
    ensures
        res == named(assets.deep_view().take(count as int), name@),
{
    let ghost all = assets.deep_view().take(count as int);
    let mut i: usize = 0;
    while i < count
        invariant
            i <= count <= assets.len(),
            all == assets.deep_view().take(count as int),
            forall|j: int| 0 <= j < i ==> (#[trigger] all[j]).name != name@,
        decreases count - i,
    {
        assert(all[i as int] == assets@[i as int].deep_view());
        if text::same(assets[i].name.as_str(), name) {
            return true;
        }
        i = i + 1;
    }
    false
}

/// A fault of the first packages is the fault of all.
proof fn early_fault_stays(assets: Seq<UpstreamAssetV4View>, count: int)
    requires
        0 <= count <= assets.len(),
        assets_fault(assets.take(count)) is Some,
    ensures
        assets_fault(assets) == assets_fault(assets.take(count)),
    decreases assets.len(),
{
    if count == assets.len() {
        assert(assets.take(count) =~= assets);
    } else {
        assert(assets.drop_last().take(count) =~= assets.take(count));
        early_fault_stays(assets.drop_last(), count);
    }
}

/// A missing package among the first that must be there is what is missing of all.
proof fn early_missing_stays(
    required: Seq<Seq<char>>,
    assets: Seq<UpstreamAssetV4View>,
    count: int,
)
    requires
        0 <= count <= required.len(),
        required_fault(required.take(count), assets) is Some,
    ensures
        required_fault(required, assets) == required_fault(required.take(count), assets),
    decreases required.len(),
{
    if count == required.len() {
        assert(required.take(count) =~= required);
    } else {
        assert(required.drop_last().take(count) =~= required.take(count));
        early_missing_stays(required.drop_last(), assets, count);
    }
}

/// The first thing that is wrong with the packages, if anything.
fn check_assets(assets: &Vec<UpstreamAssetV4>) -> (res: Result<(), ManifestError>)
    ensures
        match res {
            Ok(()) => assets_fault(assets.deep_view()) is None,
            Err(error) => assets_fault(assets.deep_view()) == Some(error.deep_view()),
        },
{
    let ghost all = assets.deep_view();
    let mut i: usize = 0;
    while i < assets.len()
        invariant
            i <= assets.len(),
            all == assets.deep_view(),
            assets_fault(all.take(i as int)) is None,
        decreases assets.len() - i,
    {
        assert(all.take(i + 1).drop_last() =~= all.take(i as int));
        assert(all.take(i + 1).last() == assets@[i as int].deep_view());
        match assets[i].validate() {
            Ok(()) => {},
            Err(error) => {
                proof {
                    early_fault_stays(all, i + 1);
                }
                return Err(error);
            },
        }
        if is_named(assets, i, assets[i].name.as_str()) {
            proof {
                early_fault_stays(all, i + 1);
            }
            return Err(ManifestError::DuplicateAsset(assets[i].name.clone()));
        }
        i = i + 1;
    }
    assert(all.take(i as int) =~= all);
    Ok(())
}

/// Whether a package is not the desktop application.
fn holds_foreign(assets: &Vec<UpstreamAssetV4>) -> (res: bool)
    ensures
        res == exists|i: int|
            0 <= i < assets.deep_view().len() && (#[trigger] assets.deep_view()[i]).component
                != DESKTOP_COMPONENT@,
{
    let ghost all = assets.deep_view();
    let mut i: usize = 0;
    while i < assets.len()
        invariant
            i <= assets.len(),
            all == assets.deep_view(),
            forall|j: int| 0 <= j < i ==> (#[trigger] all[j]).component == DESKTOP_COMPONENT@,
        decreases assets.len() - i,
    {
        if !text::same(assets[i].component.as_str(), DESKTOP_COMPONENT) {
            assert(all[i as int].component != DESKTOP_COMPONENT@);
            return true;
        }
        i = i + 1;
    }
    false
}

/// The first package that must be there and is not, if any.
fn check_required(required: &Vec<String>, assets: &Vec<UpstreamAssetV4>) -> (res: Result<
    (),
    ManifestError,
>)
    ensures
        match res {
            Ok(()) => required_fault(required.deep_view(), assets.deep_view()) is None,
            Err(error) => required_fault(required.deep_view(), assets.deep_view()) == Some(
                error.deep_view(),
            ),
        },
{
    let ghost names = required.deep_view();
    let ghost all = assets.deep_view();
    assert(all.take(all.len() as int) =~= all);
    let mut i: usize = 0;
    while i < required.len()
        invariant
            i <= required.len(),
            names == required.deep_view(),
            all == assets.deep_view(),
            all.take(all.len() as int) == all,
            required_fault(names.take(i as int), all) is None,
        decreases required.len() - i,
    {
        assert(names.take(i + 1).drop_last() =~= names.take(i as int));
        assert(names.take(i + 1).last() == required@[i as int]@);
        let name = required[i].as_str();
        if text::is_blank(name) || !is_named(assets, assets.len(), name) {
            proof {
                early_missing_stays(names, all, i + 1);
            }
            return Err(ManifestError::MissingRequired(required[i].clone()));
        }
        i = i + 1;
    }
    assert(names.take(i as int) =~= names);
    Ok(())
}

/// Whether the package is the one for the machine.
pub open spec fn fits(asset: UpstreamAssetV4View, component: Seq<char>, arch: Seq<char>) -> bool {
    asset.component == component && asset.platform == "macos"@ && asset.arch == arch
        && !asset.deprecated
}

/// The packages for the machine.
pub open spec fn fitting(
    assets: Seq<UpstreamAssetV4View>,
    component: Seq<char>,
    arch: Seq<char>,
) -> Seq<UpstreamAssetV4View> {
    assets.filter(|asset: UpstreamAssetV4View| fits(asset, component, arch))
}

/// The package for the machine, or why there is none.
pub open spec fn selected(
    assets: Seq<UpstreamAssetV4View>,
    component: Seq<char>,
    arch: Seq<char>,
) -> Result<UpstreamAssetV4View, ManifestErrorView> {
    let found = fitting(assets, component, arch);
    if found.len() == 0 {
        Err(ManifestErrorView::NoAsset(arch, component))
    } else if found.len() > 1 {
        Err(ManifestErrorView::ManyAssets(arch, component))
    } else if !plain_file_name(found[0].name) {
        Err(ManifestErrorView::InvalidFileName(found[0].name))
    } else {
        Ok(found[0])
    }
}

/// The packages for the machine, with one package more.
proof fn fitting_grows(
    assets: Seq<UpstreamAssetV4View>,
    component: Seq<char>,
    arch: Seq<char>,
    i: int,
)
    requires
        0 <= i < assets.len(),
    ensures
        fitting(assets.take(i + 1), component, arch) == if fits(assets[i], component, arch) {
            fitting(assets.take(i), component, arch).push(assets[i])
        } else {
            fitting(assets.take(i), component, arch)
        },
{
    reveal(Seq::filter);
    assert(assets.take(i + 1).drop_last() =~= assets.take(i));
}

impl UpstreamManifestV4 {
    /// Makes sure that the list can be relied on.
    pub fn validate(&self) -> (res: Result<(), ManifestError>)
        ensures
            match res {
                Ok(()) => manifest_fault(self.deep_view()) is None,
                Err(error) => manifest_fault(self.deep_view()) == Some(error.deep_view()),
            },
    {
        if self.schema_version != MANIFEST_SCHEMA_VERSION {
            return Err(ManifestError::UnsupportedVersion(self.schema_version));
        }
        if !text::same(self.manifest_kind.as_str(), MANIFEST_KIND) {
            return Err(ManifestError::WrongKind(self.manifest_kind.clone()));
        }
        if text::is_blank(self.source.as_str()) || text::is_blank(self.snapshot_id.as_str())
            || text::is_blank(self.fetched_at.as_str()) || text::is_blank(
            self.components.codex_desktop_app.source.as_str(),
        ) || text::is_blank(self.components.codex_desktop_app.version_identity.as_str())
            || text::is_blank(self.upstream_release.tag_name.as_str()) || text::is_blank(
            self.upstream_release.name.as_str(),
        ) || text::is_blank(self.upstream_release.published_at.as_str()) || text::is_blank(
            self.upstream_release.html_url.as_str(),
        ) || self.required_assets.len() == 0 || self.assets.len() == 0 {
            return Err(ManifestError::MissingIdentity);
        }
        check_assets(&self.assets)?;
        if holds_foreign(&self.assets) {
            return Err(ManifestError::ForeignComponent);
        }
        check_required(&self.required_assets, &self.assets)
    }

    /// The package for the machine.
    pub fn select_asset(&self, component: &str, arch: &str) -> (res: Result<
        &UpstreamAssetV4,
        ManifestError,
    >)
        ensures
            match res {
                Ok(asset) => selected(self.deep_view().assets, component@, arch@) == Ok::<
                    UpstreamAssetV4View,
                    ManifestErrorView,
                >(asset.deep_view()),
                Err(error) => selected(self.deep_view().assets, component@, arch@) == Err::<
                    UpstreamAssetV4View,
                    ManifestErrorView,
                >(error.deep_view()),
            },
    {
        let ghost all = self.assets.deep_view();
        proof {
            reveal(Seq::filter);
            assert(fitting(all.take(0), component@, arch@) =~= Seq::<UpstreamAssetV4View>::empty());
        }
        let mut count: u64 = 0;
        let mut found: usize = 0;
        let mut i: usize = 0;
        while i < self.assets.len()
            invariant
                i <= self.assets.len(),
                all == self.assets.deep_view(),
                count <= i,
                fitting(all.take(i as int), component@, arch@).len() == count,
                count >= 1 ==> found < self.assets.len() && fitting(
                    all.take(i as int),
                    component@,
                    arch@,
                )[0] == all[found as int],
            decreases self.assets.len() - i,
        {
            proof {
                fitting_grows(all, component@, arch@, i as int);
                assert(all[i as int] == self.assets@[i as int].deep_view());
            }
            let asset = &self.assets[i];
            if text::same(asset.component.as_str(), component) && text::same(
                asset.platform.as_str(),
                "macos",
            ) && text::same(asset.arch.as_str(), arch) && !asset.deprecated {
                if count == 0 {
                    found = i;
                }
                count = count + 1;
            }
            i = i + 1;
        }
        assert(all.take(i as int) =~= all);
        if count == 0 {
            return Err(ManifestError::NoAsset(arch.to_string(), component.to_string()));
        }
        if count > 1 {
            return Err(ManifestError::ManyAssets(arch.to_string(), component.to_string()));
        }
        validate_asset_file_name(self.assets[found].name.as_str())?;
        Ok(&self.assets[found])
    }
}

/// Packages without fault are each described well, and no two have the same name.
proof fn faultless_assets(assets: Seq<UpstreamAssetV4View>)
    requires
        assets_fault(assets) is None,
    ensures
        forall|i: int| 0 <= i < assets.len() ==> asset_fault(#[trigger] assets[i]) is None,
        forall|i: int, j: int|
            0 <= i < j < assets.len() ==> (#[trigger] assets[i]).name != (#[trigger] assets[j]).name,
    decreases assets.len(),
{
    if assets.len() > 0 {
        let rest = assets.drop_last();
        faultless_assets(rest);
        assert forall|i: int| 0 <= i < assets.len() implies asset_fault(#[trigger] assets[i]) is None by {
            if i < rest.len() {
                assert(rest[i] == assets[i]);
            }
        }
        assert forall|i: int, j: int| 0 <= i < j < assets.len() implies (#[trigger] assets[i]).name
            != (#[trigger] assets[j]).name by {
            assert(rest[i] == assets[i]);
            if j < rest.len() {
                assert(rest[j] == assets[j]);
            }
        }
    }
}

/// What must be there and is not missing is there.
proof fn nothing_required_is_missing(required: Seq<Seq<char>>, assets: Seq<UpstreamAssetV4View>)
    requires
        required_fault(required, assets) is None,
    ensures
        forall|i: int| 0 <= i < required.len() ==> named(assets, #[trigger] required[i]),
    decreases required.len(),
{
    if required.len() > 0 {
        let rest = required.drop_last();
        nothing_required_is_missing(rest, assets);
        assert forall|i: int| 0 <= i < required.len() implies named(assets, #[trigger] required[i]) by {
            if i < rest.len() {
                assert(rest[i] == required[i]);
            }
        }
    }
}

/// A list that is accepted holds nothing but desktop packages, each with the plain name of a file,
/// with a size and with a version of the operating system that it asks for; no two packages have
/// the same name, and every package that must be there is there.
pub proof fn accepted_manifest_can_be_relied_on(manifest: UpstreamManifestV4View)
    requires
        manifest_fault(manifest) is None,
    ensures
        manifest.assets.len() > 0,
        forall|i: int|
            0 <= i < manifest.assets.len() ==> {
                let asset = #[trigger] manifest.assets[i];
                &&& asset.component == DESKTOP_COMPONENT@
                &&& plain_file_name(asset.name)
                &&& asset.size == asset.size_bytes
                &&& asset.size > 0
                &&& asset.host_requirements is Some
                &&& system::parsed(asset.host_requirements->0.minimum_os_version) is Ok
            },
        forall|i: int, j: int|
            0 <= i < j < manifest.assets.len() ==> (#[trigger] manifest.assets[i]).name != (
            #[trigger] manifest.assets[j]).name,
        forall|i: int|
            0 <= i < manifest.required_assets.len() ==> named(
                manifest.assets,
                #[trigger] manifest.required_assets[i],
            ),
{
    faultless_assets(manifest.assets);
    nothing_required_is_missing(manifest.required_assets, manifest.assets);
    assert forall|i: int| 0 <= i < manifest.assets.len() implies {
        let asset = #[trigger] manifest.assets[i];
        &&& asset.component == DESKTOP_COMPONENT@
        &&& plain_file_name(asset.name)
        &&& asset.size == asset.size_bytes
        &&& asset.size > 0
        &&& asset.host_requirements is Some
        &&& system::parsed(asset.host_requirements->0.minimum_os_version) is Ok
    } by {
        assert(asset_fault(manifest.assets[i]) is None);
    }
}

} // verus!
