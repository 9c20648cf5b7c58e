//! Which lists of packages are accepted, and which package is chosen from one.
use crate::baijimu_laws;
use crate::setup::manifest;
use crate::setup::manifest::{
    ManifestErrorView, UpstreamAssetV4View, UpstreamManifestV4View, DESKTOP_COMPONENT,
};
use crate::system_compatibility as system;
use crate::text;
use crate::text_laws;
use vstd::prelude::*;

verus! {

/// Whether the package is one for the Mac with this architecture, of this component, and in use.
pub open spec fn is_for(asset: UpstreamAssetV4View, component: Seq<char>, arch: Seq<char>) -> bool {
    asset.platform == "macos"@ && asset.arch == arch && asset.component == component
        && !asset.deprecated
}

/// A package that is the only one for the machine is the one that is chosen, wherever it stands in the
/// list, if its name is a plain one.
pub proof fn only_package_is_chosen(
    assets: Seq<UpstreamAssetV4View>,
    component: Seq<char>,
    arch: Seq<char>,
    at: int,
)
    requires
        0 <= at < assets.len(),
        is_for(assets[at], component, arch),
        forall|i: int|
            0 <= i < assets.len() && i != at ==> !is_for(#[trigger] assets[i], component, arch),
    ensures
        manifest::plain_file_name(assets[at].name) ==> manifest::selected(assets, component, arch)
            == Ok::<UpstreamAssetV4View, ManifestErrorView>(assets[at]),
        !manifest::plain_file_name(assets[at].name) ==> manifest::selected(assets, component, arch)
            == Err::<UpstreamAssetV4View, ManifestErrorView>(
            ManifestErrorView::InvalidFileName(assets[at].name),
        ),
{
    let front = assets.take(at);
    let back = assets.skip(at + 1);
    none_fits(front, component, arch);
    none_fits(back, component, arch);
    let p = |asset: UpstreamAssetV4View| manifest::fits(asset, component, arch);
    assert(assets =~= front + seq![assets[at]] + back);
    Seq::filter_distributes_over_add(front + seq![assets[at]], back, p);
    Seq::filter_distributes_over_add(front, seq![assets[at]], p);
    assert(seq![assets[at]].filter(p) =~= seq![assets[at]]) by {
        reveal(Seq::filter);
        assert(seq![assets[at]].drop_last() =~= Seq::<UpstreamAssetV4View>::empty());
        assert(seq![assets[at]].drop_last().filter(p) =~= Seq::<UpstreamAssetV4View>::empty());
    }
    assert(manifest::fitting(assets, component, arch) =~= seq![assets[at]]);
}

/// Where no package is for the machine, none is found.
proof fn none_fits(assets: Seq<UpstreamAssetV4View>, component: Seq<char>, arch: Seq<char>)
    requires
        forall|i: int| 0 <= i < assets.len() ==> !is_for(#[trigger] assets[i], component, arch),
    ensures
        manifest::fitting(assets, component, arch) == Seq::<UpstreamAssetV4View>::empty(),
    decreases assets.len(),
{
    reveal(Seq::filter);
    if assets.len() > 0 {
        let front = assets.drop_last();
        assert forall|i: int| 0 <= i < front.len() implies !is_for(
            #[trigger] front[i],
            component,
            arch,
        ) by {
            assert(front[i] == assets[i]);
        }
        none_fits(front, component, arch);
        assert(assets[assets.len() - 1] == assets.last());
        assert(!is_for(assets[assets.len() - 1], component, arch));
    }
}

/// Where no package is for the machine, that is the error.
pub proof fn missing_package_is_refused(
    assets: Seq<UpstreamAssetV4View>,
    component: Seq<char>,
    arch: Seq<char>,
)
    requires
        forall|i: int| 0 <= i < assets.len() ==> !is_for(#[trigger] assets[i], component, arch),
    ensures
        manifest::selected(assets, component, arch) == Err::<UpstreamAssetV4View, ManifestErrorView>(
            ManifestErrorView::NoAsset(arch, component),
        ),
{
    none_fits(assets, component, arch);
}

/// As many packages as there are for the machine are found.
proof fn two_fit(
    assets: Seq<UpstreamAssetV4View>,
    component: Seq<char>,
    arch: Seq<char>,
    first: int,
    second: int,
)
    requires
        0 <= first < second < assets.len(),
        is_for(assets[first], component, arch),
        is_for(assets[second], component, arch),
    ensures
        manifest::fitting(assets, component, arch).len() > 1,
{
    let p = |asset: UpstreamAssetV4View| manifest::fits(asset, component, arch);
    let a = assets.take(second);
    let b = assets.skip(second);
    assert(assets =~= a + b);
    Seq::filter_distributes_over_add(a, b, p);
    assert(a.filter(p).contains(assets[first])) by {
        assert(a[first] == assets[first]);
        assert(a.contains(assets[first]));
        a.lemma_filter_contains(p, first);
    }
    assert(b.filter(p).contains(assets[second])) by {
        assert(b[0] == assets[second]);
        b.lemma_filter_contains(p, 0);
    }
}

/// Where two packages are for the machine, neither is chosen.
pub proof fn ambiguous_package_is_refused(
    assets: Seq<UpstreamAssetV4View>,
    component: Seq<char>,
    arch: Seq<char>,
    first: int,
    second: int,
)
    requires
        0 <= first < second < assets.len(),
        is_for(assets[first], component, arch),
        is_for(assets[second], component, arch),
    ensures
        manifest::selected(assets, component, arch) == Err::<UpstreamAssetV4View, ManifestErrorView>(
            ManifestErrorView::ManyAssets(arch, component),
        ),
{
    two_fit(assets, component, arch, first, second);
}

/// A name without a slash is plain unless it is empty or stands for a directory; one that leads through
/// a directory, or from the root, is not plain.
pub proof fn plain_names_have_no_directory(a: Seq<char>, b: Seq<char>)
    requires
        text_laws::lacks(a, '/'),
        text_laws::lacks(b, '/'),
    ensures
        manifest::plain_file_name(a) <==> a.len() > 0 && a != "."@ && a != ".."@,
        a.len() > 0 && a != "."@ && b.len() > 0 && b != "."@ ==> !manifest::plain_file_name(
            a.push('/') + b,
        ),
        !manifest::plain_file_name(seq!['/'] + b),
{
    reveal(Seq::filter);
    let some = |piece: Seq<char>| manifest::leads(piece);
    text_laws::pieces_follow_separators(Seq::empty(), a, '/');
    text_laws::pieces_follow_separators(a, b, '/');
    text_laws::pieces_follow_separators(Seq::empty(), b, '/');
    assert(Seq::<char>::empty().push('/') + b =~= seq!['/'] + b);
    assert(text::split_on(Seq::<char>::empty(), '/') =~= seq![Seq::<char>::empty()]);
    let one = seq![a];
    assert(one.drop_last() =~= Seq::<Seq<char>>::empty());
    assert(one.drop_last().filter(some) =~= Seq::<Seq<char>>::empty());
    assert(one.filter(some) =~= if manifest::leads(a) {
        one
    } else {
        Seq::empty()
    });
    let two = one.push(b);
    assert(two.drop_last() =~= one);
    if manifest::leads(a) && manifest::leads(b) {
        assert(two.filter(some) =~= two);
    }
}

/// Whether a text that may be left out says something where it is there.
pub open spec fn silent_or_says(value: Option<Seq<char>>) -> bool {
    value is Some ==> baijimu_laws::says_something(value->0)
}

/// Whether the package is one for the desktop application that says all that is asked.
pub open spec fn is_described(asset: UpstreamAssetV4View) -> bool {
    &&& manifest::plain_file_name(asset.name)
    &&& asset.component == "codex_desktop_app"@
    &&& baijimu_laws::says_something(asset.platform)
    &&& baijimu_laws::says_something(asset.arch)
    &&& baijimu_laws::says_something(asset.source_kind)
    &&& baijimu_laws::says_something(asset.upstream_url)
    &&& baijimu_laws::says_something(asset.effective_upstream_url)
    &&& baijimu_laws::says_something(asset.upstream_sha256)
    &&& baijimu_laws::says_something(asset.mirror_url)
    &&& baijimu_laws::says_something(asset.object_key)
    &&& baijimu_laws::says_something(asset.sha256)
    &&& baijimu_laws::says_something(asset.content_type)
    &&& asset.size > 0
    &&& asset.size_bytes == asset.size
    &&& asset.host_requirements is Some
    &&& system::parsed(asset.host_requirements->0.minimum_os_version) is Ok
    &&& silent_or_says(asset.signature_verification)
    &&& silent_or_says(asset.install_layout)
}

/// A text that holds more than white space is not blank.
proof fn filled(s: Seq<char>)
    ensures
        baijimu_laws::says_something(s) <==> !text::blank(s),
{
    text::blank_is_white(s);
}

/// Nothing is wrong with a package exactly where it is described well.
pub proof fn described_packages_are_faultless(asset: UpstreamAssetV4View)
    ensures
        manifest::asset_fault(asset) is None <==> is_described(asset),
        manifest::asset_fault(asset) is Some ==> (manifest::asset_fault(asset)->0
            == ManifestErrorView::InvalidFileName(asset.name)
            && !manifest::plain_file_name(asset.name)) || (manifest::asset_fault(asset)->0
            == ManifestErrorView::InvalidAsset(asset.name)
            && manifest::plain_file_name(asset.name)),
{
    reveal_strlit("codex_desktop_app");
    filled(asset.component);
    filled(asset.platform);
    filled(asset.arch);
    filled(asset.source_kind);
    filled(asset.upstream_url);
    filled(asset.effective_upstream_url);
    filled(asset.upstream_sha256);
    filled(asset.mirror_url);
    filled(asset.object_key);
    filled(asset.sha256);
    filled(asset.content_type);
    if asset.signature_verification is Some {
        filled(asset.signature_verification->0);
    }
    if asset.install_layout is Some {
        filled(asset.install_layout->0);
    }
    if asset.component == "codex_desktop_app"@ {
        assert(!text::white_space(asset.component[0]));
    }
}

/// Whether no two packages have the same name.
pub open spec fn names_differ(assets: Seq<UpstreamAssetV4View>) -> bool {
    forall|i: int, j: int|
        0 <= i < j < assets.len() ==> (#[trigger] assets[i]).name != (#[trigger] assets[j]).name
}

/// Whether the required package has a name and is there.
pub open spec fn is_there(assets: Seq<UpstreamAssetV4View>, name: Seq<char>) -> bool {
    baijimu_laws::says_something(name) && exists|i: int|
        0 <= i < assets.len() && (#[trigger] assets[i]).name == name
}

/// Packages that are described well and named differently have no fault.
proof fn described_lists_are_faultless(assets: Seq<UpstreamAssetV4View>)
    ensures
        manifest::assets_fault(assets) is None <==> (forall|i: int|
            0 <= i < assets.len() ==> is_described(#[trigger] assets[i])) && names_differ(assets),
    decreases assets.len(),
{
    if assets.len() > 0 {
        let front = assets.drop_last();
        let n = assets.len() - 1;
        described_lists_are_faultless(front);
        described_packages_are_faultless(assets[n]);
        let sound = (forall|i: int| 0 <= i < assets.len() ==> is_described(#[trigger] assets[i]))
            && names_differ(assets);
        let before = (forall|i: int| 0 <= i < front.len() ==> is_described(#[trigger] front[i]))
            && names_differ(front);
        if sound {
            assert forall|i: int| 0 <= i < front.len() implies is_described(#[trigger] front[i]) by {
                assert(front[i] == assets[i]);
            }
            assert forall|i: int, j: int| 0 <= i < j < front.len() implies (#[trigger] front[i]).name
                != (#[trigger] front[j]).name by {
                assert(assets[i].name != assets[j].name);
            }
            assert(is_described(assets[n]));
            if manifest::named(front, assets[n].name) {
                let i = choose|i: int|
                    0 <= i < front.len() && (#[trigger] front[i]).name == assets[n].name;
                assert(assets[i].name != assets[n].name);
            }
        }
        if before && is_described(assets[n]) && !manifest::named(front, assets[n].name) {
            assert forall|i: int| 0 <= i < assets.len() implies is_described(#[trigger] assets[i]) by {
                if i < n {
                    assert(front[i] == assets[i]);
                }
            }
            assert forall|i: int, j: int| 0 <= i < j < assets.len() implies (#[trigger] assets[i]).name
                != (#[trigger] assets[j]).name by {
                assert(front[i] == assets[i]);
                if j < n {
                    assert(front[j] == assets[j]);
                }
            }
        }
    }
}

/// The required packages are there.
proof fn nothing_is_missing(required: Seq<Seq<char>>, assets: Seq<UpstreamAssetV4View>)
    ensures
        manifest::required_fault(required, assets) is None <==> forall|i: int|
            0 <= i < required.len() ==> is_there(assets, #[trigger] required[i]),
    decreases required.len(),
{
    if required.len() > 0 {
        let front = required.drop_last();
        let n = required.len() - 1;
        nothing_is_missing(front, assets);
        filled(required[n]);
        assert(is_there(assets, required[n]) <==> !text::blank(required[n]) && manifest::named(
            assets,
            required[n],
        ));
        let all = forall|i: int| 0 <= i < required.len() ==> is_there(assets, #[trigger] required[i]);
        let before = forall|i: int| 0 <= i < front.len() ==> is_there(assets, #[trigger] front[i]);
        if all {
            assert forall|i: int| 0 <= i < front.len() implies is_there(assets, #[trigger] front[i]) by {
                assert(front[i] == required[i]);
            }
            assert(is_there(assets, required[n]));
        }
        if before && is_there(assets, required[n]) {
            assert forall|i: int| 0 <= i < required.len() implies is_there(
                assets,
                #[trigger] required[i],
            ) by {
                if i < n {
                    assert(front[i] == required[i]);
                }
            }
        }
    }
}

/// Which lists are accepted: those of the known version and kind that say what they are, whose packages
/// are described well and named differently, and which hold every package that they require. All of
/// them are accepted, and no others.
pub proof fn sound_manifests_are_accepted(m: UpstreamManifestV4View)
    ensures
        manifest::manifest_fault(m) is None <==> {
            &&& m.schema_version == 4
            &&& m.manifest_kind == "baijimu.codex.customer-install-artifacts"@
            &&& baijimu_laws::says_something(m.source)
            &&& baijimu_laws::says_something(m.snapshot_id)
            &&& baijimu_laws::says_something(m.fetched_at)
            &&& baijimu_laws::says_something(m.components.codex_desktop_app.source)
            &&& baijimu_laws::says_something(m.components.codex_desktop_app.version_identity)
            &&& baijimu_laws::says_something(m.upstream_release.tag_name)
            &&& baijimu_laws::says_something(m.upstream_release.name)
            &&& baijimu_laws::says_something(m.upstream_release.published_at)
            &&& baijimu_laws::says_something(m.upstream_release.html_url)
            &&& m.assets.len() > 0
            &&& m.required_assets.len() > 0
            &&& forall|i: int| 0 <= i < m.assets.len() ==> is_described(#[trigger] m.assets[i])
            &&& names_differ(m.assets)
            &&& forall|i: int|
                0 <= i < m.required_assets.len() ==> is_there(m.assets, #[trigger] m.required_assets[i])
        },
{
    filled(m.source);
    filled(m.snapshot_id);
    filled(m.fetched_at);
    filled(m.components.codex_desktop_app.source);
    filled(m.components.codex_desktop_app.version_identity);
    filled(m.upstream_release.tag_name);
    filled(m.upstream_release.name);
    filled(m.upstream_release.published_at);
    filled(m.upstream_release.html_url);
    described_lists_are_faultless(m.assets);
    nothing_is_missing(m.required_assets, m.assets);
    if exists|i: int|
        0 <= i < m.assets.len() && (#[trigger] m.assets[i]).component != DESKTOP_COMPONENT@ {
        let i = choose|i: int|
            0 <= i < m.assets.len() && (#[trigger] m.assets[i]).component != DESKTOP_COMPONENT@;
        assert(!is_described(m.assets[i]));
    }
}

} // verus!
