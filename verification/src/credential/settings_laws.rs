//! Which settings the configuration file gets, and which come back.
use crate::credential::config;
use crate::credential::config::ConfigFault;
use crate::credential::config_laws;
use crate::credential::contract::AuthConfigSnapshotView;
use crate::credential::files::FileReadView;
use crate::credential::shown_laws;
use crate::product_config::ProductConfigView;
use crate::toml_document as toml;
use crate::toml_document::TomlEntry;
use vstd::prelude::*;

verus! {

/// Whether the string stands at the path.
pub open spec fn has_text(
    entries: Map<Seq<Seq<char>>, TomlEntry>,
    path: Seq<Seq<char>>,
    value: Seq<char>,
) -> bool {
    entries.contains_key(path) && entries[path] == TomlEntry::Text(value)
}

/// Whatever the file held, it is the router's once the workspace settings are put in, and the provider
/// bears its name.
pub proof fn workspace_settings_are_the_routers(
    entries: Map<Seq<Seq<char>>, TomlEntry>,
    product: ProductConfigView,
)
    ensures
        shown_laws::is_the_routers(config::workspace_entries(entries, product), product),
        has_text(
            config::workspace_entries(entries, product),
            seq!["model_providers"@, product.router_provider, "name"@],
            product.router_provider,
        ),
{
    config::keys_differ();
    config_laws::workspace_settings_make_ready(entries, product);
    let base = config::with_table(
        config::with_table(
            config::selecting_router(entries, product),
            config::providers_path(),
        ),
        config::provider_path(product),
    );
    let na = config::provider_key(product, "name"@);
    let bu = config::provider_key(product, "base_url"@);
    let wa = config::provider_key(product, "wire_api"@);
    let ra = config::provider_key(product, "requires_openai_auth"@);
    config::grafted_here(base, na, toml::single(TomlEntry::Text(product.router_provider)));
    config::apart(na, bu, 2);
    config::apart(na, wa, 2);
    config::apart(na, ra, 2);
    let after = config::workspace_entries(entries, product);
    assert(after.contains_key(na) && after[na] == TomlEntry::Text(product.router_provider));
    ready_is_the_routers(after, product);
}

/// Entries that are ready are the router's.
proof fn ready_is_the_routers(
    entries: Map<Seq<Seq<char>>, TomlEntry>,
    product: ProductConfigView,
)
    requires
        config::router_ready(entries, product),
    ensures
        shown_laws::is_the_routers(entries, product),
{
    let provider = seq!["model_providers"@, product.router_provider];
    assert(provider.push("base_url"@) =~= config::provider_key(product, "base_url"@));
    assert(provider.push("wire_api"@) =~= config::provider_key(product, "wire_api"@));
    assert(provider.push("requires_openai_auth"@) =~= config::provider_key(
        product,
        "requires_openai_auth"@,
    ));
}

/// When settings can be put back into a file that is a document: where no provider is stored with them,
/// or the stored text is a document that holds the provider.
pub proof fn settings_can_be_put_back(
    file: FileReadView,
    snapshot: AuthConfigSnapshotView,
    product: ProductConfigView,
)
    requires
        config::config_entries(file) is Ok,
    ensures
        ({
            let result = config::restored_config(file, snapshot, product);
            let provider = seq!["model_providers"@, product.router_provider];
            let item = snapshot.router_provider_item;
            &&& result is Ok <==> item is None || (toml::toml_read(item->0) is Some && toml::toml_read(
                item->0,
            )->0.contains_key(provider))
            &&& item is Some && toml::toml_read(item->0) is None ==> result->Err_0
                == ConfigFault::ProviderInvalid
            &&& item is Some && toml::toml_read(item->0) is Some && !toml::toml_read(
                item->0,
            )->0.contains_key(provider) ==> result->Err_0 == ConfigFault::ProviderMissing
        }),
{
}

/// The provider that is put back is the stored one, entry by entry; where none is stored, none is left.
pub proof fn stored_provider_is_put_back(
    entries: Map<Seq<Seq<char>>, TomlEntry>,
    snapshot: AuthConfigSnapshotView,
    product: ProductConfigView,
    rest: Seq<Seq<char>>,
)
    requires
        config::restored_entries(entries, snapshot, product) is Ok,
    ensures
        ({
            let back = config::restored_entries(entries, snapshot, product)->Ok_0;
            let path = seq!["model_providers"@, product.router_provider] + rest;
            &&& snapshot.router_provider_item is None ==> !back.contains_key(path)
            &&& snapshot.router_provider_item matches Some(rendered) ==> {
                let stored = toml::toml_read(rendered)->0;
                &&& back.contains_key(path) <==> stored.contains_key(path)
                &&& stored.contains_key(path) ==> back[path] == stored[path]
            }
        }),
{
    let provider = config::provider_path(product);
    let path = seq!["model_providers"@, product.router_provider] + rest;
    assert(provider + rest == path);
    assert(path.take(2) =~= provider);
    assert(path.skip(2) =~= rest);
    assert(toml::under(path, provider));
}

/// What is taken of a file: each of the four settings under its own name, where it is a string.
pub proof fn taken_settings_are_the_files(
    entries: Map<Seq<Seq<char>>, TomlEntry>,
    item: Option<Seq<char>>,
    value: Seq<char>,
)
    ensures
        ({
            let taken = config::snapshot_with(entries, item);
            &&& taken.model == Some(value) <==> has_text(entries, seq!["model"@], value)
            &&& taken.model_provider == Some(value) <==> has_text(
                entries,
                seq!["model_provider"@],
                value,
            )
            &&& taken.forced_login_method == Some(value) <==> has_text(
                entries,
                seq!["forced_login_method"@],
                value,
            )
            &&& taken.cli_auth_credentials_store == Some(value) <==> has_text(
                entries,
                seq!["cli_auth_credentials_store"@],
                value,
            )
            &&& taken.router_provider_item == item
        }),
{
}

/// The settings of a personal login ask for a ChatGPT login, and put into a file they leave none of the
/// router's: no model, no provider that is chosen, no place for logins and no provider of the router.
pub proof fn personal_settings_leave_the_router(
    entries: Map<Seq<Seq<char>>, TomlEntry>,
    product: ProductConfigView,
)
    ensures
        ({
            let result = config::restored_entries(entries, config::chatgpt_login(), product);
            &&& result is Ok
            &&& has_text(result->Ok_0, seq!["forced_login_method"@], "chatgpt"@)
            &&& forall|value: Seq<char>|
                !#[trigger] has_text(result->Ok_0, seq!["model"@], value) && !has_text(
                    result->Ok_0,
                    seq!["model_provider"@],
                    value,
                ) && !has_text(result->Ok_0, seq!["cli_auth_credentials_store"@], value)
            &&& !result->Ok_0.contains_key(seq!["model_providers"@, product.router_provider])
        }),
{
    let snapshot = config::chatgpt_login();
    config_laws::restoring_brings_the_settings(entries, snapshot, product);
    stored_provider_is_put_back(entries, snapshot, product, seq![]);
    assert(seq!["model_providers"@, product.router_provider] + Seq::<Seq<char>>::empty() =~= seq![
        "model_providers"@,
        product.router_provider,
    ]);
}

/// Which places keep a login outside of the login file: the system's own, chosen or left to it.
pub proof fn only_the_systems_places_are_outside(store: Option<Seq<char>>)
    ensures
        config::external_store(store) <==> store is Some && (store->0 == "keyring"@ || store->0
            == "auto"@),
{
}

/// How a configuration file is read: a missing one holds nothing; the text of one holds what the document
/// says, a leading byte order mark or not; what is no text cannot be read; and what is no document is told
/// apart from that.
pub proof fn configuration_is_read_as_a_document(bytes: Seq<u8>)
    ensures
        ({
            let whole = vstd::utf8::decode_utf8(bytes);
            let plain = if whole.len() > 0 && whole[0] as u32 == 0xfeff {
                whole.skip(1)
            } else {
                whole
            };
            let result = config::config_entries(FileReadView::Content(bytes));
            &&& !vstd::utf8::valid_utf8(bytes) ==> result is Err && result->Err_0
                == ConfigFault::Unreadable
            &&& vstd::utf8::valid_utf8(bytes) && toml::toml_read(plain) is None ==> result is Err
                && result->Err_0 == ConfigFault::Invalid
            &&& vstd::utf8::valid_utf8(bytes) && toml::toml_read(plain) is Some ==> result is Ok
                && result->Ok_0 == toml::toml_read(plain)->0
            &&& config::config_entries(FileReadView::Missing) is Ok
            &&& config::config_entries(FileReadView::Missing)->Ok_0.dom() == Set::<
                Seq<Seq<char>>,
            >::empty()
            &&& config::config_entries(FileReadView::Unreadable) is Err
            &&& config::config_entries(FileReadView::Unreadable)->Err_0 == ConfigFault::Unreadable
        }),
{
}

} // verus!
