//! The configuration file: the settings that an authorization manages in it, and their capture and
//! restoration.
use crate::credential::config_laws;
use crate::credential::contract::{AuthConfigSnapshot, AuthConfigSnapshotView};
use crate::credential::files::{decode, FileRead, FileReadView};
use crate::product_config::{ProductConfig, ProductConfigView};
use crate::text;
use crate::toml_document as toml;
use crate::json_compat;
use crate::json_compat::strip_utf8_bom_str;
use crate::toml_document::{TomlEntry, TomlPlace};
use vstd::prelude::*;

verus! {

/// Why a configuration file gives no settings.
#[derive(Debug, Clone, Copy, PartialEq, Eq, Structural)]
pub enum ConfigFault {
    /// The file cannot be read as text.
    Unreadable,
    /// The text is no TOML document.
    Invalid,
    /// The stored provider entry is no TOML document.
    ProviderInvalid,
    /// The stored provider entry holds no provider.
    ProviderMissing,
}

/// The entries of a document.
pub type Entries = Map<Seq<Seq<char>>, TomlEntry>;

/// The entries that the configuration file holds. A missing file holds none.
pub open spec fn config_entries(file: FileReadView) -> Result<Entries, ConfigFault> {
    match file {
        FileReadView::Missing => Ok(toml::no_entries()),
        FileReadView::Unreadable => Err(ConfigFault::Unreadable),
        FileReadView::Content(bytes) => if !vstd::utf8::valid_utf8(bytes) {
            Err(ConfigFault::Unreadable)
        } else {
            match toml::toml_read(json_compat::without_bom_char(vstd::utf8::decode_utf8(bytes))) {
                Some(entries) => Ok(entries),
                None => Err(ConfigFault::Invalid),
            }
        },
    }
}

/// How the configuration file is laid out, where there is one.
pub open spec fn config_layout(file: FileReadView) -> Option<Seq<TomlPlace>> {
    match file {
        FileReadView::Content(bytes) => match toml::toml_parsed(
            json_compat::without_bom_char(vstd::utf8::decode_utf8(bytes)),
        ) {
            Some(reading) => Some(reading.layout),
            None => None,
        },
        _ => None,
    }
}

/// The path of a setting at the top of the file.
pub open spec fn top(key: Seq<char>) -> Seq<Seq<char>> {
    seq![key]
}

/// The path of the table of model providers.
pub open spec fn providers_path() -> Seq<Seq<char>> {
    seq!["model_providers"@]
}

/// The path of the routing provider.
pub open spec fn provider_path(product: ProductConfigView) -> Seq<Seq<char>> {
    seq!["model_providers"@, product.router_provider]
}

/// The path of a setting of the routing provider.
pub open spec fn provider_key(product: ProductConfigView, key: Seq<char>) -> Seq<Seq<char>> {
    seq!["model_providers"@, product.router_provider, key]
}

/// The entries with a string at the path.
pub open spec fn with_text(entries: Entries, path: Seq<Seq<char>>, value: Seq<char>) -> Entries {
    toml::grafted(entries, path, toml::single(TomlEntry::Text(value)))
}

/// The entries with a table at the path: the one that is there, with everything in it where it is an
/// inline one, or an empty one in place of anything else.
pub open spec fn with_table(entries: Entries, path: Seq<Seq<char>>) -> Entries {
    if toml::is_table(entries, path) {
        entries
    } else if toml::is_inline(entries, path) {
        entries.insert(path, TomlEntry::Table)
    } else {
        toml::grafted(entries, path, toml::single(TomlEntry::Table))
    }
}

/// The entries with the four settings that select the routing provider and its login.
pub open spec fn selecting_router(entries: Entries, product: ProductConfigView) -> Entries {
    with_text(
        with_text(
            with_text(
                with_text(entries, top("model"@), product.default_model),
                top("model_provider"@),
                product.router_provider,
            ),
            top("cli_auth_credentials_store"@),
            "file"@,
        ),
        top("forced_login_method"@),
        "api"@,
    )
}

/// The entries with the settings of the routing provider.
pub open spec fn describing_router(entries: Entries, product: ProductConfigView) -> Entries {
    toml::grafted(
        with_text(
            with_text(
                with_text(
                    entries,
                    provider_key(product, "name"@),
                    product.router_provider,
                ),
                provider_key(product, "base_url"@),
                product.router_base_url,
            ),
            provider_key(product, "wire_api"@),
            "responses"@,
        ),
        provider_key(product, "requires_openai_auth"@),
        toml::single(TomlEntry::Flag(true)),
    )
}

/// The entries with every setting that a workspace authorization manages.
pub open spec fn workspace_entries(entries: Entries, product: ProductConfigView) -> Entries {
    describing_router(
        with_table(
            with_table(selecting_router(entries, product), providers_path()),
            provider_path(product),
        ),
        product,
    )
}

/// Whether the entries hold what a workspace authorization needs.
pub open spec fn router_ready(entries: Entries, product: ProductConfigView) -> bool {
    &&& toml::text_entry(entries, top("model"@)) == Some(product.default_model)
    &&& toml::text_entry(entries, top("model_provider"@)) == Some(product.router_provider)
    &&& toml::text_entry(entries, top("cli_auth_credentials_store"@)) == Some("file"@)
    &&& toml::text_entry(entries, top("forced_login_method"@)) == Some("api"@)
    &&& toml::is_table(entries, providers_path())
    &&& toml::is_table(entries, provider_path(product))
    &&& toml::text_entry(entries, provider_key(product, "base_url"@)) == Some(product.router_base_url)
    &&& toml::text_entry(entries, provider_key(product, "wire_api"@)) == Some("responses"@)
    &&& toml::flag_entry(entries, provider_key(product, "requires_openai_auth"@)) == Some(true)
}

/// Whether the configuration file holds what a workspace authorization needs.
pub open spec fn config_ready(file: FileReadView, product: ProductConfigView) -> bool {
    config_entries(file) matches Ok(entries) && router_ready(entries, product)
}

/// Whether the bytes can be read as a document.
pub open spec fn readable(bytes: Seq<u8>) -> bool {
    config_entries(FileReadView::Content(bytes)) is Ok
}

/// Whether a document is laid out as another was, where there was one, but for what is touched.
pub open spec fn layout_kept(
    before: Option<Seq<TomlPlace>>,
    after: Seq<TomlPlace>,
    touched: spec_fn(Seq<Seq<char>>) -> bool,
) -> bool {
    before matches Some(layout) ==> toml::untouched(after, touched) == toml::untouched(
        layout,
        touched,
    )
}

/// Whether the bytes are what a document is written as that has these entries and is laid out as
/// before but for what is touched. Where they can be read as a document at all, the values among the
/// entries are read back.
///
/// They cannot always. Headers are written in the order of the places noted for them, and a provider
/// that is put back brings the places that it was kept with. In a document with `[first]`, `[second]`
/// and `[model_providers]`, a provider kept as `[model_providers]`, `p.name = "x"`,
/// `[model_providers.p.headers]` gets its `headers` written before `[model_providers]`, and the parser
/// then refuses the dotted key.
pub open spec fn writes(
    bytes: Seq<u8>,
    entries: Entries,
    before: Option<Seq<TomlPlace>>,
    touched: spec_fn(Seq<Seq<char>>) -> bool,
) -> bool {
    &&& exists|document: toml_edit::DocumentMut|
        #[trigger] toml::toml_entries(document) == entries && layout_kept(
            before,
            toml::toml_layout(document),
            touched,
        ) && bytes == vstd::utf8::encode_utf8(toml::toml_text(document))
    &&& reads_back(bytes, entries)
}

/// Whether the values among the entries are read back from the bytes, where these can be read as a
/// document.
pub open spec fn reads_back(bytes: Seq<u8>, entries: Entries) -> bool {
    &&& vstd::utf8::valid_utf8(bytes)
    &&& config_entries(FileReadView::Content(bytes)) matches Ok(back) ==> toml::read_back(
        back,
        entries,
    )
}

/// Being at or under a path where the settings of a workspace authorization are put: those settings,
/// and what is made a table for them.
pub open spec fn workspace_touched(entries: Entries, product: ProductConfigView) -> spec_fn(
    Seq<Seq<char>>,
) -> bool {
    |path: Seq<Seq<char>>|
        {
            ||| toml::under(path, top("model"@))
            ||| toml::under(path, top("model_provider"@))
            ||| toml::under(path, top("cli_auth_credentials_store"@))
            ||| toml::under(path, top("forced_login_method"@))
            ||| toml::under(path, providers_path()) && !toml::is_table(entries, providers_path())
            ||| toml::under(path, provider_path(product)) && !toml::is_table(
                entries,
                provider_path(product),
            )
            ||| toml::under(path, provider_key(product, "name"@))
            ||| toml::under(path, provider_key(product, "base_url"@))
            ||| toml::under(path, provider_key(product, "wire_api"@))
            ||| toml::under(path, provider_key(product, "requires_openai_auth"@))
        }
}

/// Being at or under a path where the settings of a snapshot are put: those settings, the routing
/// provider, and the model providers where they are made a table.
pub open spec fn snapshot_touched(
    entries: Entries,
    snapshot: AuthConfigSnapshotView,
    product: ProductConfigView,
) -> spec_fn(Seq<Seq<char>>) -> bool {
    |path: Seq<Seq<char>>|
        {
            ||| toml::under(path, top("model"@))
            ||| toml::under(path, top("model_provider"@))
            ||| toml::under(path, top("forced_login_method"@))
            ||| toml::under(path, top("cli_auth_credentials_store"@))
            ||| toml::under(path, providers_path()) && !toml::is_table(entries, providers_path())
                && (snapshot.router_provider_item is Some || entries.contains_key(
                provider_path(product),
            ))
            ||| toml::under(path, provider_path(product))
        }
}

/// Whether the bytes are what the configuration file becomes with every setting that a workspace
/// authorization manages.
pub open spec fn workspace_content(
    file: FileReadView,
    product: ProductConfigView,
    bytes: Seq<u8>,
) -> bool {
    config_entries(file) matches Ok(entries) && writes(
        bytes,
        workspace_entries(entries, product),
        config_layout(file),
        workspace_touched(entries, product),
    )
}

/// Whether the bytes are what the configuration file becomes with the snapshot put back.
pub open spec fn restored_content(
    file: FileReadView,
    snapshot: AuthConfigSnapshotView,
    product: ProductConfigView,
    bytes: Seq<u8>,
) -> bool {
    &&& config_entries(file) matches Ok(before)
    &&& restored_config(file, snapshot, product) matches Ok(entries)
    &&& writes(bytes, entries, config_layout(file), snapshot_touched(before, snapshot, product))
}

/// What stands at the path itself after something was put there.
pub proof fn grafted_here(entries: Entries, path: Seq<Seq<char>>, item: Entries)
    ensures
        toml::grafted(entries, path, item).contains_key(path) == item.contains_key(seq![]),
        item.contains_key(seq![]) ==> toml::grafted(entries, path, item)[path] == item[seq![]],
{
    assert(path.take(path.len() as int) =~= path);
    assert(path.skip(path.len() as int) =~= seq![]);
}

/// Paths that differ in a key that both have are not under each other.
pub proof fn apart(path: Seq<Seq<char>>, prefix: Seq<Seq<char>>, at: int)
    requires
        0 <= at < path.len(),
        at < prefix.len(),
        path[at] != prefix[at],
    ensures
        !toml::under(path, prefix),
{
    if toml::under(path, prefix) {
        assert(path.take(prefix.len() as int)[at] == path[at]);
    }
}

/// A path is not under a longer one.
pub proof fn shorter(path: Seq<Seq<char>>, prefix: Seq<Seq<char>>)
    requires
        path.len() < prefix.len(),
    ensures
        !toml::under(path, prefix),
{
}

/// The names of the settings are different from each other.
pub proof fn keys_differ()
    ensures
        "model"@ != "model_provider"@,
        "model"@ != "cli_auth_credentials_store"@,
        "model"@ != "forced_login_method"@,
        "model"@ != "model_providers"@,
        "model_provider"@ != "cli_auth_credentials_store"@,
        "model_provider"@ != "forced_login_method"@,
        "model_provider"@ != "model_providers"@,
        "cli_auth_credentials_store"@ != "forced_login_method"@,
        "cli_auth_credentials_store"@ != "model_providers"@,
        "forced_login_method"@ != "model_providers"@,
        "name"@ != "base_url"@,
        "name"@ != "wire_api"@,
        "name"@ != "requires_openai_auth"@,
        "base_url"@ != "wire_api"@,
        "base_url"@ != "requires_openai_auth"@,
        "wire_api"@ != "requires_openai_auth"@,
{
    reveal_strlit("model");
    reveal_strlit("model_provider");
    reveal_strlit("cli_auth_credentials_store");
    reveal_strlit("forced_login_method");
    reveal_strlit("model_providers");
    reveal_strlit("name");
    reveal_strlit("base_url");
    reveal_strlit("wire_api");
    reveal_strlit("requires_openai_auth");
    assert("model"@.len() == 5);
    assert("model_provider"@.len() == 14);
    assert("cli_auth_credentials_store"@.len() == 26);
    assert("forced_login_method"@.len() == 19);
    assert("model_providers"@.len() == 15);
    assert("name"@.len() == 4);
    assert("base_url"@.len() == 8);
    assert("wire_api"@.len() == 8);
    assert("requires_openai_auth"@.len() == 20);
    assert("base_url"@[0] != "wire_api"@[0]);
}

/// Opens the configuration file as a document. A missing file is an empty document.
fn open_document(file: &FileRead) -> (res: Result<toml_edit::DocumentMut, ConfigFault>)
    ensures
        match res {
            Ok(document) => config_entries(file.deep_view()) == Ok::<Entries, ConfigFault>(
                toml::toml_entries(document),
            ) && toml::plain(toml::toml_entries(document)) && (config_layout(
                file.deep_view(),
            ) matches Some(layout) ==> layout == toml::toml_layout(document)),
            Err(fault) => config_entries(file.deep_view()) == Err::<Entries, ConfigFault>(fault),
        },
{
    proof {
        toml::nothing_is_plain();
    }
    match file {
        FileRead::Missing => Ok(toml::new_document()),
        FileRead::Unreadable => Err(ConfigFault::Unreadable),
        FileRead::Content(bytes) => {
            match decode(bytes) {
                None => Err(ConfigFault::Unreadable),
                Some(content) => {
                    let stripped = strip_utf8_bom_str(content.as_str());
                    match toml::parse(stripped.as_str()) {
                        Ok(document) => Ok(document),
                        Err(_) => Err(ConfigFault::Invalid),
                    }
                },
            }
        },
    }
}

/// The bytes that a document is written as.
fn document_bytes(document: &toml_edit::DocumentMut) -> (res: Vec<u8>)
    requires
        toml::plain(toml::toml_entries(*document)),
    ensures
        res@ == vstd::utf8::encode_utf8(toml::toml_text(*document)),
        reads_back(res@, toml::toml_entries(*document)),
{
    let rendered = toml::render(document);
    let bytes = rendered.as_str().as_bytes_vec();
    proof {
        vstd::utf8::encode_utf8_valid_utf8(rendered@);
        vstd::utf8::encode_utf8_decode_utf8(rendered@);
    }
    bytes
}

/// The string at the top of the document under the key.
fn text_on_top(document: &toml_edit::DocumentMut, key: &str) -> (res: Option<String>)
    ensures
        text::opt_view(res) == toml::text_entry(toml::toml_entries(*document), top(key@)),
{
    let ghost entries = toml::toml_entries(*document);
    match toml::get(toml::root(document), key) {
        Some(item) => {
            assert(top(key@) + Seq::<Seq<char>>::empty() =~= top(key@));
            toml::as_text(item)
        },
        None => {
            assert(toml::under(top(key@), top(key@))) by {
                assert(top(key@).take(1) =~= top(key@));
            }
            assert(!entries.contains_key(top(key@)));
            None
        },
    }
}

/// The table at the top of the document under the key.
fn table_on_top<'a>(document: &'a toml_edit::DocumentMut, key: &str) -> (res: Option<
    &'a toml_edit::Table,
>)
    ensures
        match res {
            Some(table) => toml::is_table(toml::toml_entries(*document), top(key@)) && toml::table_entries(*table)
                == toml::subtree(toml::toml_entries(*document), top(key@)).remove(seq![]),
            None => !toml::is_table(toml::toml_entries(*document), top(key@)),
        },
{
    let ghost entries = toml::toml_entries(*document);
    assert(top(key@) + Seq::<Seq<char>>::empty() =~= top(key@));
    assert(toml::under(top(key@), top(key@))) by {
        assert(top(key@).take(1) =~= top(key@));
    }
    match toml::get(toml::root(document), key) {
        Some(item) => toml::as_table(item),
        None => {
            assert(!entries.contains_key(top(key@)));
            None
        },
    }
}

/// The routing provider of the document, where it has one.
fn provider_item<'a>(document: &'a toml_edit::DocumentMut, provider: &str) -> (res: Option<
    &'a toml_edit::Item,
>)
    ensures
        match res {
            Some(item) => toml::toml_entries(*document).contains_key(seq!["model_providers"@, provider@])
                && toml::item_entries(*item) == toml::subtree(
                toml::toml_entries(*document),
                seq!["model_providers"@, provider@],
            ),
            None => forall|path: Seq<Seq<char>>|
                toml::under(path, seq!["model_providers"@, provider@]) ==> !#[trigger] toml::toml_entries(
                    *document,
                ).contains_key(path),
        },
{
    let ghost entries = toml::toml_entries(*document);
    let ghost whole = seq!["model_providers"@, provider@];
    match toml::get(toml::root(document), "model_providers") {
        None => {
            proof {
                assert forall|path: Seq<Seq<char>>| toml::under(path, whole) implies !#[trigger] entries.contains_key(
                    path,
                ) by {
                    assert(path.take(1) =~= path.take(2).take(1));
                    assert(whole.take(1) =~= top("model_providers"@));
                    assert(toml::under(path, top("model_providers"@)));
                }
            }
            None
        },
        Some(outer) => {
            let ghost inner = toml::item_entries(*outer);
            let found = toml::member(outer, provider);
            proof {
                assert(top("model_providers"@) + top(provider@) =~= whole);
                match found {
                    Some(item) => {
                        subtree_of_subtree(entries, top("model_providers"@), top(provider@));
                    },
                    None => {
                        assert forall|path: Seq<Seq<char>>|
                            toml::under(path, whole) implies !#[trigger] entries.contains_key(path) by {
                            let rest = path.skip(1);
                            assert(path =~= top("model_providers"@) + rest) by {
                                assert(path[0] == path.take(2)[0]);
                            }
                            assert(rest.take(1) =~= top(provider@)) by {
                                assert(path[1] == path.take(2)[1]);
                            }
                            assert(toml::under(rest, top(provider@)));
                            assert(!inner.contains_key(rest));
                        }
                    },
                }
            }
            found
        },
    }
}

/// What is below a path that is below another is below the two of them.
proof fn subtree_of_subtree(entries: Entries, outer: Seq<Seq<char>>, inner: Seq<Seq<char>>)
    ensures
        toml::subtree(toml::subtree(entries, outer), inner) == toml::subtree(entries, outer + inner),
{
    let a = toml::subtree(toml::subtree(entries, outer), inner);
    let b = toml::subtree(entries, outer + inner);
    assert forall|path: Seq<Seq<char>>| #[trigger] a.contains_key(path) == b.contains_key(path) && (
    b.contains_key(path) ==> a[path] == b[path]) by {
        assert(outer + (inner + path) =~= (outer + inner) + path);
    }
    assert(a =~= b);
}

/// The routing provider of the document, where it and the model providers are tables.
fn provider_table<'a>(document: &'a toml_edit::DocumentMut, provider: &str) -> (res: Option<
    &'a toml_edit::Table,
>)
    ensures
        match res {
            Some(table) => {
                &&& toml::is_table(toml::toml_entries(*document), providers_path())
                &&& toml::is_table(toml::toml_entries(*document), seq!["model_providers"@, provider@])
                &&& toml::table_entries(*table) == toml::subtree(
                    toml::toml_entries(*document),
                    seq!["model_providers"@, provider@],
                ).remove(seq![])
            },
            None => !(toml::is_table(toml::toml_entries(*document), providers_path())
                && toml::is_table(
                toml::toml_entries(*document),
                seq!["model_providers"@, provider@],
            )),
        },
{
    let ghost entries = toml::toml_entries(*document);
    let ghost whole = seq!["model_providers"@, provider@];
    match table_on_top(document, "model_providers") {
        None => None,
        Some(_) => {
            proof {
                assert(whole + Seq::<Seq<char>>::empty() =~= whole);
                assert(whole.take(2) =~= whole);
                assert(toml::under(whole, whole));
            }
            match provider_item(document, provider) {
                Some(item) => toml::as_table(item),
                None => {
                    assert(!entries.contains_key(whole));
                    None
                },
            }
        },
    }
}

/// Makes sure that the document has a table of model providers.
fn open_providers(document: &mut toml_edit::DocumentMut)
    requires
        toml::plain(toml::toml_entries(*old(document))),
    ensures
        toml::toml_entries(*final(document)) == with_table(toml::toml_entries(*old(document)), providers_path()),
        toml::is_table(toml::toml_entries(*final(document)), providers_path()),
        toml::plain(toml::toml_entries(*final(document))),
        toml::alike_outside(
            toml::toml_layout(*final(document)),
            toml::toml_layout(*old(document)),
            providers_path(),
        ),
        toml::is_table(toml::toml_entries(*old(document)), providers_path()) ==> *final(document)
            == *old(document),
{
    let ghost entries = toml::toml_entries(*document);
    let ghost path = providers_path();
    proof {
        assert(path + Seq::<Seq<char>>::empty() =~= path);
        assert(path.take(1) =~= path);
        assert(toml::under(path, path));
        toml::subtree_stands_free(entries, path);
        toml::opened_stands_free(toml::subtree(entries, path));
    }
    let opened = match toml::get(toml::root(document), "model_providers") {
        None => {
            assert(!entries.contains_key(path));
            toml::table_item()
        },
        Some(item) => {
            if toml::as_table(item).is_some() {
                return;
            }
            match toml::to_table(item) {
                Some(table) => {
                    proof {
                        toml::opening_in_place(entries, path);
                    }
                    table
                },
                None => toml::table_item(),
            }
        },
    };
    proof {
        let item = toml::item_entries(opened);
        toml::pruning_first_changes_nothing(entries, path, item);
        grafted_here(entries, path, item);
        plain_on_top(entries, "model_providers"@, item);
        plain_without(entries, path);
    }
    toml::remove(document, "model_providers");
    toml::set(document, "model_providers", opened);
}

/// Makes sure that the routing provider of the document is a table.
fn open_provider(document: &mut toml_edit::DocumentMut, product: &ProductConfig)
    requires
        toml::plain(toml::toml_entries(*old(document))),
        toml::is_table(toml::toml_entries(*old(document)), providers_path()),
    ensures
        toml::toml_entries(*final(document)) == with_table(
            toml::toml_entries(*old(document)),
            provider_path(product.deep_view()),
        ),
        toml::is_table(toml::toml_entries(*final(document)), providers_path()),
        toml::is_table(toml::toml_entries(*final(document)), provider_path(product.deep_view())),
        toml::plain(toml::toml_entries(*final(document))),
        toml::alike_outside(
            toml::toml_layout(*final(document)),
            toml::toml_layout(*old(document)),
            provider_path(product.deep_view()),
        ),
        toml::is_table(toml::toml_entries(*old(document)), provider_path(product.deep_view()))
            ==> *final(document) == *old(document),
{
    let ghost entries = toml::toml_entries(*document);
    let ghost path = provider_path(product.deep_view());
    proof {
        assert(path + Seq::<Seq<char>>::empty() =~= path);
        assert(path.take(2) =~= path);
        assert(toml::under(path, path));
        shorter(providers_path(), path);
        toml::subtree_stands_free(entries, path);
        toml::opened_stands_free(toml::subtree(entries, path));
    }
    let provider = product.router_provider.as_str();
    let opened = match provider_item(document, provider) {
        None => {
            assert(!entries.contains_key(path));
            toml::table_item()
        },
        Some(item) => {
            if toml::as_table(item).is_some() {
                return;
            }
            match toml::to_table(item) {
                Some(table) => {
                    proof {
                        toml::opening_in_place(entries, path);
                    }
                    table
                },
                None => toml::table_item(),
            }
        },
    };
    proof {
        let item = toml::item_entries(opened);
        toml::pruning_first_changes_nothing(entries, path, item);
        grafted_here(entries, path, item);
        plain_in_providers(entries, product.deep_view(), item);
    }
    toml::remove_in(document, "model_providers", provider);
    toml::set_in(document, "model_providers", provider, opened);
}

/// What is put at the top of entries that a text can be read as leaves them such.
pub proof fn plain_on_top(entries: Entries, key: Seq<char>, item: Entries)
    requires
        toml::plain(entries),
        toml::tables_stand_free(item),
    ensures
        toml::plain(toml::grafted(entries, top(key), item)),
{
    assert(top(key).take(0) =~= seq![]);
    assert forall|n: int| 0 <= n < top(key).len() implies !#[trigger] toml::is_inline(
        entries,
        top(key).take(n),
    ) by {
        assert(n == 0);
    }
    toml::grafted_stand_free(entries, top(key), item);
    shorter(seq![], top(key));
}

/// What is put in place of the routing provider, in a table of model providers, leaves the entries
/// such that a text can be read as them.
pub proof fn plain_in_providers(entries: Entries, product: ProductConfigView, item: Entries)
    requires
        toml::plain(entries),
        toml::tables_stand_free(item),
        toml::is_table(entries, providers_path()),
    ensures
        toml::plain(toml::grafted(entries, provider_path(product), item)),
{
    let path = provider_path(product);
    assert(path.take(0) =~= seq![]);
    assert(path.take(1) =~= providers_path());
    assert forall|n: int| 0 <= n < path.len() implies !#[trigger] toml::is_inline(
        entries,
        path.take(n),
    ) by {
        assert(n == 0 || n == 1);
    }
    toml::grafted_stand_free(entries, path, item);
    shorter(seq![], path);
}

/// What is put under a key of the routing provider, in its table, leaves the entries such that a text
/// can be read as them.
proof fn plain_in_provider(
    entries: Entries,
    product: ProductConfigView,
    key: Seq<char>,
    entry: TomlEntry,
)
    requires
        toml::plain(entries),
        toml::is_table(entries, providers_path()),
        toml::is_table(entries, provider_path(product)),
    ensures
        toml::plain(toml::grafted(entries, provider_key(product, key), toml::single(entry))),
{
    let path = provider_key(product, key);
    assert(path.take(0) =~= seq![]);
    assert(path.take(1) =~= providers_path());
    assert(path.take(2) =~= provider_path(product));
    assert forall|n: int| 0 <= n < path.len() implies !#[trigger] toml::is_inline(
        entries,
        path.take(n),
    ) by {
        assert(n == 0 || n == 1 || n == 2);
    }
    toml::grafted_stand_free(entries, path, toml::single(entry));
    shorter(seq![], path);
}

/// Entries that a text can be read as are such without some of them.
pub proof fn plain_without(entries: Entries, path: Seq<Seq<char>>)
    requires
        toml::plain(entries),
    ensures
        toml::plain(toml::pruned(entries, path)),
{
    toml::pruned_stand_free(entries, path);
}

/// Puts a string under a key of the routing provider.
fn put_provider_text(
    document: &mut toml_edit::DocumentMut,
    product: &ProductConfig,
    key: &str,
    value: &str,
)
    requires
        toml::is_table(toml::toml_entries(*old(document)), providers_path()),
        toml::is_table(toml::toml_entries(*old(document)), provider_path(product.deep_view())),
        toml::plain(toml::toml_entries(*old(document))),
    ensures
        toml::plain(toml::toml_entries(*final(document))),
        toml::toml_entries(*final(document)) == with_text(
            toml::toml_entries(*old(document)),
            provider_key(product.deep_view(), key@),
            value@,
        ),
        toml::is_table(toml::toml_entries(*final(document)), providers_path()),
        toml::is_table(toml::toml_entries(*final(document)), provider_path(product.deep_view())),
        toml::alike_outside(
            toml::toml_layout(*final(document)),
            toml::toml_layout(*old(document)),
            provider_key(product.deep_view(), key@),
        ),
{
    proof {
        shorter(providers_path(), provider_key(product.deep_view(), key@));
        shorter(provider_path(product.deep_view()), provider_key(product.deep_view(), key@));
        plain_in_provider(
            toml::toml_entries(*document),
            product.deep_view(),
            key@,
            TomlEntry::Text(value@),
        );
    }
    toml::set_below(
        document,
        "model_providers",
        product.router_provider.as_str(),
        key,
        toml::text_item(value),
    );
}

/// Whether the configuration file holds what a workspace authorization needs.
pub fn managed_config_ready(file: &FileRead, product: &ProductConfig) -> (res: bool)
    ensures
        res == config_ready(file.deep_view(), product.deep_view()),
{
    match open_document(file) {
        Ok(document) => document_ready(&document, product),
        Err(_) => false,
    }
}

/// Whether the document holds what a workspace authorization needs.
fn document_ready(document: &toml_edit::DocumentMut, product: &ProductConfig) -> (res: bool)
    ensures
        res == router_ready(toml::toml_entries(*document), product.deep_view()),
{
    let provider = product.router_provider.as_str();
    let table = match provider_table(document, provider) {
        Some(table) => table,
        None => {
            return false;
        },
    };
    proof {
        provider_settings(toml::toml_entries(*document), product.deep_view());
    }
    text_is(&text_on_top(document, "model"), product.default_model.as_str()) && text_is(
        &text_on_top(document, "model_provider"),
        provider,
    ) && text_is(&text_on_top(document, "cli_auth_credentials_store"), "file") && text_is(
        &text_on_top(document, "forced_login_method"),
        "api",
    ) && text_is(&table_text(table, "base_url"), product.router_base_url.as_str()) && text_is(
        &table_text(table, "wire_api"),
        "responses",
    ) && table_flag(table, "requires_openai_auth") == Some(true)
}

/// The settings of the routing provider, seen from its table.
proof fn provider_settings(entries: Entries, product: ProductConfigView)
    ensures
        forall|key: Seq<char>| #[trigger]
            toml::text_entry(
                toml::subtree(entries, provider_path(product)).remove(seq![]),
                top(key),
            ) == toml::text_entry(entries, provider_key(product, key)),
        forall|key: Seq<char>| #[trigger]
            toml::flag_entry(
                toml::subtree(entries, provider_path(product)).remove(seq![]),
                top(key),
            ) == toml::flag_entry(entries, provider_key(product, key)),
{
    assert forall|key: Seq<char>| #[trigger] top(key) != Seq::<Seq<char>>::empty() && provider_path(
        product,
    ) + top(key) == provider_key(product, key) by {
        assert(provider_path(product) + top(key) =~= provider_key(product, key));
        assert(top(key).len() == 1);
    }
    assert forall|key: Seq<char>| #[trigger]
        toml::text_entry(
            toml::subtree(entries, provider_path(product)).remove(seq![]),
            top(key),
        ) == toml::text_entry(entries, provider_key(product, key)) by {
        assert(provider_path(product) + top(key) == provider_key(product, key));
    }
    assert forall|key: Seq<char>| #[trigger]
        toml::flag_entry(
            toml::subtree(entries, provider_path(product)).remove(seq![]),
            top(key),
        ) == toml::flag_entry(entries, provider_key(product, key)) by {
        assert(provider_path(product) + top(key) == provider_key(product, key));
    }
}

/// Whether there is a text and it is the given one.
fn text_is(found: &Option<String>, wanted: &str) -> (res: bool)
    ensures
        res == (text::opt_view(*found) == Some(wanted@)),
{
    match found {
        Some(value) => text::same(value.as_str(), wanted),
        None => false,
    }
}

/// The string under a key of a table.
fn table_text(table: &toml_edit::Table, key: &str) -> (res: Option<String>)
    ensures
        text::opt_view(res) == toml::text_entry(toml::table_entries(*table), top(key@)),
{
    assert(top(key@) + Seq::<Seq<char>>::empty() =~= top(key@));
    match toml::get(table, key) {
        Some(item) => toml::as_text(item),
        None => {
            assert(toml::under(top(key@), top(key@))) by {
                assert(top(key@).take(1) =~= top(key@));
            }
            assert(!toml::table_entries(*table).contains_key(top(key@)));
            None
        },
    }
}

/// The boolean under a key of a table.
fn table_flag(table: &toml_edit::Table, key: &str) -> (res: Option<bool>)
    ensures
        res == toml::flag_entry(toml::table_entries(*table), top(key@)),
{
    assert(top(key@) + Seq::<Seq<char>>::empty() =~= top(key@));
    match toml::get(table, key) {
        Some(item) => toml::as_flag(item),
        None => {
            assert(toml::under(top(key@), top(key@))) by {
                assert(top(key@).take(1) =~= top(key@));
            }
            assert(!toml::table_entries(*table).contains_key(top(key@)));
            None
        },
    }
}

/// Puts a string under a key at the top of the document.
fn put_text(document: &mut toml_edit::DocumentMut, key: &str, value: &str)
    requires
        toml::plain(toml::toml_entries(*old(document))),
    ensures
        toml::plain(toml::toml_entries(*final(document))),
        toml::toml_entries(*final(document)) == with_text(
            toml::toml_entries(*old(document)),
            top(key@),
            value@,
        ),
        toml::alike_outside(
            toml::toml_layout(*final(document)),
            toml::toml_layout(*old(document)),
            top(key@),
        ),
{
    proof {
        plain_on_top(
            toml::toml_entries(*document),
            key@,
            toml::single(TomlEntry::Text(value@)),
        );
    }
    toml::set(document, key, toml::text_item(value));
}

/// The four settings at the top leave what is a table in the model providers.
proof fn tops_leave_tables(entries: Entries, product: ProductConfigView)
    ensures
        toml::is_table(selecting_router(entries, product), providers_path()) == toml::is_table(
            entries,
            providers_path(),
        ),
        toml::is_table(selecting_router(entries, product), provider_path(product))
            == toml::is_table(entries, provider_path(product)),
{
    keys_differ();
    apart(providers_path(), top("model"@), 0);
    apart(providers_path(), top("model_provider"@), 0);
    apart(providers_path(), top("cli_auth_credentials_store"@), 0);
    apart(providers_path(), top("forced_login_method"@), 0);
    apart(provider_path(product), top("model"@), 0);
    apart(provider_path(product), top("model_provider"@), 0);
    apart(provider_path(product), top("cli_auth_credentials_store"@), 0);
    apart(provider_path(product), top("forced_login_method"@), 0);
}

/// Puts the four settings that select the routing provider and its login.
fn select_router(document: &mut toml_edit::DocumentMut, product: &ProductConfig)
    requires
        toml::plain(toml::toml_entries(*old(document))),
    ensures
        toml::plain(toml::toml_entries(*final(document))),
        toml::toml_entries(*final(document)) == selecting_router(
            toml::toml_entries(*old(document)),
            product.deep_view(),
        ),
        forall|entries: Entries| #[trigger]
            toml::untouched(
                toml::toml_layout(*final(document)),
                workspace_touched(entries, product.deep_view()),
            ) == toml::untouched(
                toml::toml_layout(*old(document)),
                workspace_touched(entries, product.deep_view()),
            ),
{
    let ghost p = product.deep_view();
    let ghost l0 = toml::toml_layout(*document);
    put_text(document, "model", product.default_model.as_str());
    let ghost l1 = toml::toml_layout(*document);
    put_text(document, "model_provider", product.router_provider.as_str());
    let ghost l2 = toml::toml_layout(*document);
    put_text(document, "cli_auth_credentials_store", "file");
    let ghost l3 = toml::toml_layout(*document);
    put_text(document, "forced_login_method", "api");
    let ghost l4 = toml::toml_layout(*document);
    proof {
        assert forall|entries: Entries| #[trigger]
            toml::untouched(l4, workspace_touched(entries, p)) == toml::untouched(
                l0,
                workspace_touched(entries, p),
            ) by {
            let touched = workspace_touched(entries, p);
            toml::still_untouched(l0, l0, l1, touched, top("model"@));
            toml::still_untouched(l0, l1, l2, touched, top("model_provider"@));
            toml::still_untouched(l0, l2, l3, touched, top("cli_auth_credentials_store"@));
            toml::still_untouched(l0, l3, l4, touched, top("forced_login_method"@));
        }
    }
}

/// Puts the settings of the routing provider.
fn describe_router(document: &mut toml_edit::DocumentMut, product: &ProductConfig)
    requires
        toml::is_table(toml::toml_entries(*old(document)), providers_path()),
        toml::is_table(toml::toml_entries(*old(document)), provider_path(product.deep_view())),
        toml::plain(toml::toml_entries(*old(document))),
    ensures
        toml::plain(toml::toml_entries(*final(document))),
        toml::toml_entries(*final(document)) == describing_router(
            toml::toml_entries(*old(document)),
            product.deep_view(),
        ),
        forall|entries: Entries| #[trigger]
            toml::untouched(
                toml::toml_layout(*final(document)),
                workspace_touched(entries, product.deep_view()),
            ) == toml::untouched(
                toml::toml_layout(*old(document)),
                workspace_touched(entries, product.deep_view()),
            ),
{
    let ghost p = product.deep_view();
    let provider = product.router_provider.as_str();
    let ghost l0 = toml::toml_layout(*document);
    put_provider_text(document, product, "name", provider);
    let ghost l1 = toml::toml_layout(*document);
    put_provider_text(document, product, "base_url", product.router_base_url.as_str());
    let ghost l2 = toml::toml_layout(*document);
    put_provider_text(document, product, "wire_api", "responses");
    let ghost l3 = toml::toml_layout(*document);
    proof {
        plain_in_provider(
            toml::toml_entries(*document),
            p,
            "requires_openai_auth"@,
            TomlEntry::Flag(true),
        );
    }
    toml::set_below(
        document,
        "model_providers",
        provider,
        "requires_openai_auth",
        toml::flag_item(true),
    );
    let ghost l4 = toml::toml_layout(*document);
    proof {
        assert forall|entries: Entries| #[trigger]
            toml::untouched(l4, workspace_touched(entries, p)) == toml::untouched(
                l0,
                workspace_touched(entries, p),
            ) by {
            let touched = workspace_touched(entries, p);
            toml::still_untouched(l0, l0, l1, touched, provider_key(p, "name"@));
            toml::still_untouched(l0, l1, l2, touched, provider_key(p, "base_url"@));
            toml::still_untouched(l0, l2, l3, touched, provider_key(p, "wire_api"@));
            toml::still_untouched(l0, l3, l4, touched, provider_key(p, "requires_openai_auth"@));
        }
    }
}

/// Puts every setting that a workspace authorization manages into the configuration file and gives
/// the new content. Everything else in the file keeps its value and its layout. A file that cannot be
/// read as a document is an error.
pub fn ensure_workspace_config(file: &FileRead, product: &ProductConfig) -> (res: Result<
    Vec<u8>,
    ConfigFault,
>)
    ensures
        match res {
            Ok(bytes) => {
                &&& workspace_content(file.deep_view(), product.deep_view(), bytes@)
                &&& readable(bytes@) ==> config_ready(
                    FileReadView::Content(bytes@),
                    product.deep_view(),
                )
            },
            Err(fault) => config_entries(file.deep_view()) == Err::<Entries, ConfigFault>(fault),
        },
{
    let mut document = match open_document(file) {
        Ok(document) => document,
        Err(fault) => {
            return Err(fault);
        },
    };
    let ghost p = product.deep_view();
    let ghost entries = toml::toml_entries(document);
    let ghost touched = workspace_touched(entries, p);
    let ghost l0 = toml::toml_layout(document);
    select_router(&mut document, product);
    let ghost l1 = toml::toml_layout(document);
    proof {
        tops_leave_tables(entries, p);
    }
    open_providers(&mut document);
    let ghost l2 = toml::toml_layout(document);
    proof {
        if !toml::is_table(entries, providers_path()) {
            toml::still_untouched(l0, l1, l2, touched, providers_path());
        }
    }
    open_provider(&mut document, product);
    let ghost l3 = toml::toml_layout(document);
    proof {
        if !toml::is_table(entries, providers_path()) {
            assert forall|path: Seq<Seq<char>>| #[trigger]
                toml::under(path, provider_path(p)) implies touched(path) by {
                assert(path.take(1) =~= path.take(2).take(1));
                assert(provider_path(p).take(1) =~= providers_path());
            }
            toml::still_untouched(l0, l2, l3, touched, provider_path(p));
        } else if !toml::is_table(entries, provider_path(p)) {
            toml::still_untouched(l0, l2, l3, touched, provider_path(p));
        }
    }
    describe_router(&mut document, product);
    assert(toml::toml_entries(document) == workspace_entries(entries, p));
    let bytes = document_bytes(&document);
    proof {
        assert(layout_kept(config_layout(file.deep_view()), toml::toml_layout(document), touched));
        assert(writes(
            bytes@,
            workspace_entries(entries, p),
            config_layout(file.deep_view()),
            touched,
        ));
        if readable(bytes@) {
            config_laws::written_workspace_settings_are_ready(entries, p, bytes@);
        }
    }
    Ok(bytes)
}

/// The routing provider among the entries, as the entries of a document of its own.
pub open spec fn provider_document(entries: Entries, product: ProductConfigView) -> Entries {
    toml::grafted(
        toml::grafted(toml::no_entries(), providers_path(), toml::single(TomlEntry::Table)),
        provider_path(product),
        toml::subtree(entries, provider_path(product)),
    )
}

/// Whether the text is what a document with these entries is written as. Where it can be read as a
/// document at all, the values among the entries are read back.
pub open spec fn renders(rendered: Seq<char>, entries: Entries) -> bool {
    &&& exists|document: toml_edit::DocumentMut|
        #[trigger] toml::toml_entries(document) == entries && rendered == toml::toml_text(document)
    &&& toml::toml_read(rendered) matches Some(back) ==> toml::read_back(back, entries)
}

/// The settings among the entries that belong to the authorization, with the given text for the
/// routing provider.
pub open spec fn snapshot_with(entries: Entries, item: Option<Seq<char>>) -> AuthConfigSnapshotView {
    AuthConfigSnapshotView {
        model: toml::text_entry(entries, top("model"@)),
        model_provider: toml::text_entry(entries, top("model_provider"@)),
        forced_login_method: toml::text_entry(entries, top("forced_login_method"@)),
        cli_auth_credentials_store: toml::text_entry(entries, top("cli_auth_credentials_store"@)),
        router_provider_item: item,
    }
}

/// Whether the text is one of the routing provider among the entries, or is missing like it.
pub open spec fn item_fits(
    item: Option<Seq<char>>,
    entries: Entries,
    product: ProductConfigView,
) -> bool {
    match item {
        Some(rendered) => entries.contains_key(provider_path(product)) && renders(
            rendered,
            provider_document(entries, product),
        ),
        None => forall|path: Seq<Seq<char>>|
            toml::under(path, provider_path(product)) ==> !#[trigger] entries.contains_key(path),
    }
}

/// Whether the snapshot holds the settings among the entries that belong to the authorization.
pub open spec fn captures(
    snapshot: AuthConfigSnapshotView,
    entries: Entries,
    product: ProductConfigView,
) -> bool {
    &&& snapshot == snapshot_with(entries, snapshot.router_provider_item)
    &&& item_fits(snapshot.router_provider_item, entries, product)
}

/// The settings of the configuration file that belong to its authorization.
pub fn capture_auth_config(file: &FileRead, product: &ProductConfig) -> (res: Result<
    AuthConfigSnapshot,
    ConfigFault,
>)
    ensures
        match res {
            Ok(snapshot) => config_entries(file.deep_view()) matches Ok(entries) && captures(
                snapshot.deep_view(),
                entries,
                product.deep_view(),
            ),
            Err(fault) => config_entries(file.deep_view()) == Err::<Entries, ConfigFault>(fault),
        },
{
    let document = match open_document(file) {
        Ok(document) => document,
        Err(fault) => {
            return Err(fault);
        },
    };
    let provider = product.router_provider.as_str();
    let router_provider_item = match provider_item(&document, provider) {
        Some(item) => {
            let mut own = toml::new_document();
            proof {
                let e = toml::toml_entries(document);
                let alone = toml::grafted(
                    toml::no_entries(),
                    providers_path(),
                    toml::single(TomlEntry::Table),
                );
                grafted_here(toml::no_entries(), providers_path(), toml::single(TomlEntry::Table));
                toml::nothing_is_plain();
                plain_on_top(
                    toml::no_entries(),
                    "model_providers"@,
                    toml::single(TomlEntry::Table),
                );
                toml::subtree_stands_free(e, provider_path(product.deep_view()));
                plain_in_providers(
                    alone,
                    product.deep_view(),
                    toml::subtree(e, provider_path(product.deep_view())),
                );
            }
            toml::set(&mut own, "model_providers", toml::table_item());
            toml::set_in(&mut own, "model_providers", provider, toml::copy_item(item));
            let rendered = toml::render(&own);
            assert(renders(
                rendered@,
                provider_document(toml::toml_entries(document), product.deep_view()),
            ));
            Some(rendered)
        },
        None => None,
    };
    Ok(
        AuthConfigSnapshot {
            model: text_on_top(&document, "model"),
            model_provider: text_on_top(&document, "model_provider"),
            forced_login_method: text_on_top(&document, "forced_login_method"),
            cli_auth_credentials_store: text_on_top(&document, "cli_auth_credentials_store"),
            router_provider_item,
        },
    )
}

/// The entries with the string at the path, or with nothing there where there is no string.
pub open spec fn with_option(
    entries: Entries,
    path: Seq<Seq<char>>,
    value: Option<Seq<char>>,
) -> Entries {
    match value {
        Some(found) => with_text(entries, path, found),
        None => toml::pruned(entries, path),
    }
}

/// The entries with the settings of the snapshot at the top.
pub open spec fn with_top_settings(entries: Entries, snapshot: AuthConfigSnapshotView) -> Entries {
    with_option(
        with_option(
            with_option(
                with_option(entries, top("model"@), snapshot.model),
                top("model_provider"@),
                snapshot.model_provider,
            ),
            top("forced_login_method"@),
            snapshot.forced_login_method,
        ),
        top("cli_auth_credentials_store"@),
        snapshot.cli_auth_credentials_store,
    )
}

/// The entries with the settings of the snapshot in place of those that belong to the
/// authorization.
pub open spec fn restored_entries(
    entries: Entries,
    snapshot: AuthConfigSnapshotView,
    product: ProductConfigView,
) -> Result<Entries, ConfigFault> {
    let settled = with_top_settings(entries, snapshot);
    match snapshot.router_provider_item {
        Some(rendered) => match toml::toml_read(rendered) {
            None => Err(ConfigFault::ProviderInvalid),
            Some(stored) => if stored.contains_key(provider_path(product)) {
                Ok(
                    toml::grafted(
                        with_table(settled, providers_path()),
                        provider_path(product),
                        toml::subtree(stored, provider_path(product)),
                    ),
                )
            } else {
                Err(ConfigFault::ProviderMissing)
            },
        },
        None => Ok(
            toml::pruned(
                if settled.contains_key(provider_path(product)) {
                    with_table(settled, providers_path())
                } else {
                    settled
                },
                provider_path(product),
            ),
        ),
    }
}

/// The entries that the configuration file is to hold once the snapshot has been put back.
pub open spec fn restored_config(
    file: FileReadView,
    snapshot: AuthConfigSnapshotView,
    product: ProductConfigView,
) -> Result<Entries, ConfigFault> {
    match config_entries(file) {
        Ok(entries) => restored_entries(entries, snapshot, product),
        Err(fault) => Err(fault),
    }
}

/// Puts a string under a key at the top of the document, or removes what is there.
fn set_optional_string(
    document: &mut toml_edit::DocumentMut,
    key: &str,
    current: &Option<String>,
)
    requires
        toml::plain(toml::toml_entries(*old(document))),
    ensures
        toml::plain(toml::toml_entries(*final(document))),
        toml::toml_entries(*final(document)) == with_option(
            toml::toml_entries(*old(document)),
            top(key@),
            text::opt_view(*current),
        ),
        toml::alike_outside(
            toml::toml_layout(*final(document)),
            toml::toml_layout(*old(document)),
            top(key@),
        ),
{
    match current {
        Some(value) => put_text(document, key, value.as_str()),
        None => {
            proof {
                plain_without(toml::toml_entries(*document), top(key@));
            }
            toml::remove(document, key)
        },
    }
}

/// Puts the four settings of a snapshot at the top of the document.
fn restore_top_settings(
    document: &mut toml_edit::DocumentMut,
    snapshot: &AuthConfigSnapshot,
    product: &ProductConfig,
)
    requires
        toml::plain(toml::toml_entries(*old(document))),
    ensures
        toml::plain(toml::toml_entries(*final(document))),
        toml::toml_entries(*final(document)) == with_top_settings(
            toml::toml_entries(*old(document)),
            snapshot.deep_view(),
        ),
        forall|entries: Entries| #[trigger]
            toml::untouched(
                toml::toml_layout(*final(document)),
                snapshot_touched(entries, snapshot.deep_view(), product.deep_view()),
            ) == toml::untouched(
                toml::toml_layout(*old(document)),
                snapshot_touched(entries, snapshot.deep_view(), product.deep_view()),
            ),
{
    let ghost p = product.deep_view();
    let ghost kept = snapshot.deep_view();
    let ghost l0 = toml::toml_layout(*document);
    set_optional_string(document, "model", &snapshot.model);
    let ghost l1 = toml::toml_layout(*document);
    set_optional_string(document, "model_provider", &snapshot.model_provider);
    let ghost l2 = toml::toml_layout(*document);
    set_optional_string(document, "forced_login_method", &snapshot.forced_login_method);
    let ghost l3 = toml::toml_layout(*document);
    set_optional_string(
        document,
        "cli_auth_credentials_store",
        &snapshot.cli_auth_credentials_store,
    );
    let ghost l4 = toml::toml_layout(*document);
    proof {
        assert forall|entries: Entries| #[trigger]
            toml::untouched(l4, snapshot_touched(entries, kept, p)) == toml::untouched(
                l0,
                snapshot_touched(entries, kept, p),
            ) by {
            let touched = snapshot_touched(entries, kept, p);
            toml::still_untouched(l0, l0, l1, touched, top("model"@));
            toml::still_untouched(l0, l1, l2, touched, top("model_provider"@));
            toml::still_untouched(l0, l2, l3, touched, top("forced_login_method"@));
            toml::still_untouched(l0, l3, l4, touched, top("cli_auth_credentials_store"@));
        }
    }
}

/// The four settings at the top leave what is a table among the model providers, and whether there is
/// a routing provider.
proof fn top_settings_leave_providers(
    entries: Entries,
    snapshot: AuthConfigSnapshotView,
    product: ProductConfigView,
)
    ensures
        toml::is_table(with_top_settings(entries, snapshot), providers_path()) == toml::is_table(
            entries,
            providers_path(),
        ),
        with_top_settings(entries, snapshot).contains_key(provider_path(product))
            == entries.contains_key(provider_path(product)),
{
    keys_differ();
    apart(providers_path(), top("model"@), 0);
    apart(providers_path(), top("model_provider"@), 0);
    apart(providers_path(), top("cli_auth_credentials_store"@), 0);
    apart(providers_path(), top("forced_login_method"@), 0);
    apart(provider_path(product), top("model"@), 0);
    apart(provider_path(product), top("model_provider"@), 0);
    apart(provider_path(product), top("cli_auth_credentials_store"@), 0);
    apart(provider_path(product), top("forced_login_method"@), 0);
}

/// Puts the settings of the snapshot into the configuration file, in place of those that belong to
/// its authorization, and gives the new content. Everything else in the file keeps its value and its
/// layout.
pub fn apply_auth_config(
    file: &FileRead,
    snapshot: &AuthConfigSnapshot,
    product: &ProductConfig,
) -> (res: Result<Vec<u8>, ConfigFault>)
    ensures
        match res {
            Ok(bytes) => restored_content(
                file.deep_view(),
                snapshot.deep_view(),
                product.deep_view(),
                bytes@,
            ),
            Err(fault) => restored_config(
                file.deep_view(),
                snapshot.deep_view(),
                product.deep_view(),
            ) == Err::<Entries, ConfigFault>(fault),
        },
{
    let mut document = match open_document(file) {
        Ok(document) => document,
        Err(fault) => {
            return Err(fault);
        },
    };
    let ghost p = product.deep_view();
    let ghost entries = toml::toml_entries(document);
    let ghost touched = snapshot_touched(entries, snapshot.deep_view(), p);
    let ghost l0 = toml::toml_layout(document);
    restore_top_settings(&mut document, snapshot, product);
    let ghost settled = toml::toml_entries(document);
    let ghost l1 = toml::toml_layout(document);
    let ghost path = provider_path(p);
    proof {
        top_settings_leave_providers(entries, snapshot.deep_view(), p);
        assert(path.take(2) =~= path);
        assert(toml::under(path, path));
    }
    let provider = product.router_provider.as_str();
    match &snapshot.router_provider_item {
        Some(serialized) => {
            let stored = match toml::parse(serialized.as_str()) {
                Ok(stored) => stored,
                Err(_) => {
                    return Err(ConfigFault::ProviderInvalid);
                },
            };
            match provider_item(&stored, provider) {
                None => {
                    return Err(ConfigFault::ProviderMissing);
                },
                Some(item) => {
                    open_providers(&mut document);
                    let ghost l2 = toml::toml_layout(document);
                    let copied = toml::copy_item(item);
                    proof {
                        let opened = toml::toml_entries(document);
                        toml::subtree_stands_free(toml::toml_entries(stored), path);
                        plain_in_providers(opened, p, toml::item_entries(copied));
                        toml::pruning_first_changes_nothing(
                            opened,
                            path,
                            toml::item_entries(copied),
                        );
                        shorter(providers_path(), path);
                        if !toml::is_table(entries, providers_path()) {
                            toml::still_untouched(l0, l1, l2, touched, providers_path());
                        }
                    }
                    toml::remove_in(&mut document, "model_providers", provider);
                    let ghost l3 = toml::toml_layout(document);
                    toml::set_in(&mut document, "model_providers", provider, copied);
                    let ghost l4 = toml::toml_layout(document);
                    proof {
                        toml::still_untouched(l0, l2, l3, touched, path);
                        toml::still_untouched(l0, l3, l4, touched, path);
                    }
                },
            }
        },
        None => {
            if provider_item(&document, provider).is_some() {
                open_providers(&mut document);
                let ghost l2 = toml::toml_layout(document);
                proof {
                    plain_without(toml::toml_entries(document), path);
                    if !toml::is_table(entries, providers_path()) {
                        toml::still_untouched(l0, l1, l2, touched, providers_path());
                    }
                }
                toml::remove_in(&mut document, "model_providers", provider);
                proof {
                    toml::still_untouched(l0, l2, toml::toml_layout(document), touched, path);
                }
            } else {
                assert(toml::pruned(settled, path) =~= settled);
            }
        },
    }
    assert(restored_config(file.deep_view(), snapshot.deep_view(), p) == Ok::<
        Entries,
        ConfigFault,
    >(toml::toml_entries(document)));
    let bytes = document_bytes(&document);
    assert(layout_kept(config_layout(file.deep_view()), toml::toml_layout(document), touched));
    Ok(bytes)
}

/// Whether credentials are kept outside of the login file.
pub open spec fn external_store(store: Option<Seq<char>>) -> bool {
    store == Some("keyring"@) || store == Some("auto"@)
}

/// Whether credentials are kept outside of the login file.
pub fn uses_external_store(store: &Option<String>) -> (res: bool)
    ensures
        res == external_store(text::opt_view(*store)),
{
    text_is(store, "keyring") || text_is(store, "auto")
}

/// The settings that ask for a ChatGPT login.
pub open spec fn chatgpt_login() -> AuthConfigSnapshotView {
    AuthConfigSnapshotView {
        model: None,
        model_provider: None,
        forced_login_method: Some("chatgpt"@),
        cli_auth_credentials_store: None,
        router_provider_item: None,
    }
}

/// The settings that ask for a ChatGPT login.
pub fn chatgpt_login_config() -> (res: AuthConfigSnapshot)
    ensures
        res.deep_view() == chatgpt_login(),
{
    AuthConfigSnapshot {
        model: None,
        model_provider: None,
        forced_login_method: Some("chatgpt".to_string()),
        cli_auth_credentials_store: None,
        router_provider_item: None,
    }
}

} // verus!
