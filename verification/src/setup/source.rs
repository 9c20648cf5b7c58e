//! Where the installation packages are listed.
use crate::duplicate::Duplicate;
use crate::text;
use vstd::prelude::*;

verus! {

/// The version of the description that is understood.
pub const SOURCE_SCHEMA_VERSION: u32 = 2;

/// Where the list of packages is kept.
pub const MANIFEST_URL: &'static str =
    "https://download.baijimu.com/codex-artifacts/v4/latest.json";

/// A description of where the packages are listed.
#[derive(Debug)]
pub struct UpstreamArtifactSourceV2 {
    /// The version of the description.
    pub schema_version: u32,
    /// Where the list is kept.
    pub manifest_url: String,
}

/// The view of `UpstreamArtifactSourceV2`: the same fields with their texts as characters.
pub struct UpstreamArtifactSourceV2View {
    pub schema_version: u32,
    pub manifest_url: Seq<char>,
}

impl DeepView for UpstreamArtifactSourceV2 {
    type V = UpstreamArtifactSourceV2View;

    open spec fn deep_view(&self) -> UpstreamArtifactSourceV2View {
        UpstreamArtifactSourceV2View {
            schema_version: self.schema_version,
            manifest_url: self.manifest_url@,
        }
    }
}

impl Duplicate for UpstreamArtifactSourceV2 {
    fn duplicate(&self) -> (res: Self) {
        UpstreamArtifactSourceV2 {
            schema_version: self.schema_version,
            manifest_url: self.manifest_url.duplicate(),
        }
    }
}

/// What can be wrong with the description.
#[derive(Debug)]
pub enum SourceError {
    /// The version is not understood.
    UnsupportedVersion(u32),
    /// The list is not kept as JSON behind HTTPS.
    NotHttpsJson,
}

impl SourceError {
    /// The message of the error.
    pub open spec fn text(self) -> Seq<char> {
        match self {
            SourceError::UnsupportedVersion(version) => "不支持的安装制品源配置版本："@
                + text::decimal(version as nat),
            SourceError::NotHttpsJson => "安装制品清单地址必须是 HTTPS JSON 地址"@,
        }
    }

    /// The message of the error.
    pub fn message(&self) -> (res: String)
        ensures
            res@ == self.text(),
    {
        match self {
            SourceError::UnsupportedVersion(version) => {
                let mut out = "不支持的安装制品源配置版本：".to_string();
                out.append(text::decimal_text(*version as u64).as_str());
                out
            },
            SourceError::NotHttpsJson => "安装制品清单地址必须是 HTTPS JSON 地址".to_string(),
        }
    }
}

/// The description that the library comes with.
pub fn embedded_source() -> (res: UpstreamArtifactSourceV2)
    ensures
        res.schema_version == SOURCE_SCHEMA_VERSION,
        res.manifest_url@ == MANIFEST_URL@,
{
    UpstreamArtifactSourceV2 {
        schema_version: SOURCE_SCHEMA_VERSION,
        manifest_url: MANIFEST_URL.to_string(),
    }
}

/// The address of the list, or what is wrong with the description.
pub open spec fn address(source: UpstreamArtifactSourceV2View) -> Result<Seq<char>, SourceError> {
    let url = text::trimmed(source.manifest_url);
    if source.schema_version != SOURCE_SCHEMA_VERSION {
        Err(SourceError::UnsupportedVersion(source.schema_version))
    } else if !(text::has_prefix(url, "https://"@) && text::has_suffix(url, ".json"@)) {
        Err(SourceError::NotHttpsJson)
    } else {
        Ok(url)
    }
}

/// The address of the list of packages.
pub fn manifest_url(source: &UpstreamArtifactSourceV2) -> (res: Result<String, SourceError>)
    ensures
        match res {
            Ok(url) => address(source.deep_view()) == Ok::<Seq<char>, SourceError>(url@),
            Err(error) => address(source.deep_view()) == Err::<Seq<char>, SourceError>(error),
        },
{
    if source.schema_version != SOURCE_SCHEMA_VERSION {
        return Err(SourceError::UnsupportedVersion(source.schema_version));
    }
    let url = text::trim(source.manifest_url.as_str());
    if !(text::starts_with(url.as_str(), "https://") && text::ends_with(url.as_str(), ".json")) {
        return Err(SourceError::NotHttpsJson);
    }
    Ok(url)
}

} // verus!
